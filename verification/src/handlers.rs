//! The decisions of the request handlers: how form fields are told apart,
//! when an uploaded picture is stored, what a login attempt leads to, and
//! which status a failure is answered with.
//!
//! Nothing here touches the network, the database or the disk. The server
//! performs those steps and passes what it found to these functions.

use crate::auth::{
    generate_token_at, issue_outcome, password_check, unix_now, verify_password, AuthError,
};
use crate::ids::{uuid_text, uuid_to_text};
use crate::models::{NewPreparationForm, NewProductForm};
use crate::steps::{
    ascending, described, illustrated, image_view, NumberedStep, StepImage, StepTable, StepView,
};
use crate::text::{
    opt_str_view, parse_usize, parsed_usize, str_eq, strip_prefix, trim, trimmed, without_prefix,
};
use crate::utils::{is_valid_image_extension, valid_image_name};
use vstd::prelude::*;

verus! {

/// The kinds of failure a request can end in.
#[derive(Clone, Copy, Debug, PartialEq, Eq, Structural)]
pub enum Failure {
    /// No token, or an invalid one, on a protected route.
    Unauthenticated,
    /// Login with an unknown user or a wrong password.
    InvalidCredentials,
    /// Form input that does not pass validation.
    ValidationFailed,
    /// An upload could not be stored.
    StorageFailure,
    /// The database could not be reached or refused a query.
    DatabaseFailure,
    /// The record asked for does not exist.
    NotFound,
}

/// Status code of each kind of failure.
pub open spec fn status_of(failure: Failure) -> u16 {
    match failure {
        Failure::Unauthenticated => 401,
        Failure::InvalidCredentials => 401,
        Failure::ValidationFailed => 400,
        Failure::StorageFailure => 500,
        Failure::DatabaseFailure => 500,
        Failure::NotFound => 404,
    }
}

impl Failure {
    /// The status code the failure is answered with.
    pub fn status(&self) -> (r: u16)
        ensures
            r == status_of(*self),
    {
        match self {
            Failure::Unauthenticated => 401,
            Failure::InvalidCredentials => 401,
            Failure::ValidationFailed => 400,
            Failure::StorageFailure => 500,
            Failure::DatabaseFailure => 500,
            Failure::NotFound => 404,
        }
    }
}

/// Query of the search page.
#[derive(Debug)]
pub struct SearchQuery {
    pub q: String,
}

impl SearchQuery {
    /// The term searched for: the query without surrounding whitespace.
    pub fn term(&self) -> (r: &str)
        ensures
            r@ == trimmed(self.q@),
    {
        trim(self.q.as_str())
    }

    /// The pattern matched against each text column: the term between two
    /// `%` wildcards.
    pub fn pattern(&self) -> (r: String)
        ensures
            r@ == "%"@ + trimmed(self.q@) + "%"@,
    {
        String::from_str("%").concat(self.term()).concat("%")
    }
}

/// What a field of the preparation form is for.
#[derive(Clone, Copy, Debug, PartialEq, Eq, Structural)]
pub enum FieldKind {
    Name,
    PrepType,
    Shift,
    Location,
    Steps,
    /// The main picture of the preparation.
    Picture,
    /// The description of the step with the given number.
    StepDescription(usize),
    /// The image of the step with the given number.
    StepImage(usize),
    /// A field the form does not know; it is skipped.
    Other,
}

/// The kind of a field, by its name. A step field is named by a prefix and
/// the step's number in decimal; with anything else after the prefix the
/// field is skipped.
pub open spec fn field_kind_of(name: Seq<char>) -> FieldKind {
    if name == "name"@ {
        FieldKind::Name
    } else if name == "prep_type"@ {
        FieldKind::PrepType
    } else if name == "shift"@ {
        FieldKind::Shift
    } else if name == "location"@ {
        FieldKind::Location
    } else if name == "steps"@ {
        FieldKind::Steps
    } else if name == "picture"@ {
        FieldKind::Picture
    } else if without_prefix(name, "step_description_"@) is Some {
        match parsed_usize(without_prefix(name, "step_description_"@)->0) {
            Some(n) => FieldKind::StepDescription(n),
            None => FieldKind::Other,
        }
    } else if without_prefix(name, "step_image_"@) is Some {
        match parsed_usize(without_prefix(name, "step_image_"@)->0) {
            Some(n) => FieldKind::StepImage(n),
            None => FieldKind::Other,
        }
    } else {
        FieldKind::Other
    }
}

/// Tells the fields of the preparation form apart.
pub fn classify_field(name: &str) -> (r: FieldKind)
    ensures
        r == field_kind_of(name@),
{
    if str_eq(name, "name") {
        FieldKind::Name
    } else if str_eq(name, "prep_type") {
        FieldKind::PrepType
    } else if str_eq(name, "shift") {
        FieldKind::Shift
    } else if str_eq(name, "location") {
        FieldKind::Location
    } else if str_eq(name, "steps") {
        FieldKind::Steps
    } else if str_eq(name, "picture") {
        FieldKind::Picture
    } else if let Some(rest) = strip_prefix(name, "step_description_") {
        match parse_usize(rest) {
            Some(n) => FieldKind::StepDescription(n),
            None => FieldKind::Other,
        }
    } else if let Some(rest) = strip_prefix(name, "step_image_") {
        match parse_usize(rest) {
            Some(n) => FieldKind::StepImage(n),
            None => FieldKind::Other,
        }
    } else {
        FieldKind::Other
    }
}

/// A file name is usable when it is not empty and carries an accepted image
/// extension.
pub open spec fn usable_image_name(filename: Option<Seq<char>>) -> bool {
    filename matches Some(f) && f.len() > 0 && valid_image_name(f)
}

/// Whether a file part with this name is read at all when it replaces a
/// picture or illustrates a step: it needs a name that is not empty and an
/// accepted image extension.
pub fn accepts_image(filename: Option<&str>) -> (r: bool)
    ensures
        r == usable_image_name(opt_str_view(filename)),
{
    match filename {
        Some(f) => !f.is_empty() && is_valid_image_extension(f),
        None => false,
    }
}

/// Whether the main picture of a new preparation is stored: it needs a file
/// name with an accepted image extension.
pub fn accepts_new_picture(filename: Option<&str>) -> (r: bool)
    ensures
        r == (filename matches Some(f) && valid_image_name(f@)),
{
    match filename {
        Some(f) => is_valid_image_extension(f),
        None => false,
    }
}

/// What is done with one part of the preparation form.
#[derive(Clone, Copy, Debug, PartialEq, Eq, Structural)]
pub enum PartAction {
    /// Read the part as text and take it into the draft as this kind.
    ReadText(FieldKind),
    /// Read the part as a file and store it as the main picture.
    StorePicture,
    /// Read the part as a file and keep it as the image of this step.
    KeepStepImage(usize),
    /// Pass over the part without reading it.
    Skip,
}

/// The action for a part, by its field name and file name. For an update
/// the main picture needs a usable image name; for a new preparation an
/// accepted extension is enough.
pub open spec fn part_action_of(
    name: Seq<char>,
    filename: Option<Seq<char>>,
    updating: bool,
) -> PartAction {
    match field_kind_of(name) {
        FieldKind::Picture => if filename is Some && valid_image_name(filename->0) && (!updating
            || filename->0.len() > 0) {
            PartAction::StorePicture
        } else {
            PartAction::Skip
        },
        FieldKind::StepImage(n) => if usable_image_name(filename) {
            PartAction::KeepStepImage(n)
        } else {
            PartAction::Skip
        },
        FieldKind::Other => PartAction::Skip,
        kind => PartAction::ReadText(kind),
    }
}

/// Decides what is done with one part of the preparation form.
pub fn part_action(name: &str, filename: Option<&str>, updating: bool) -> (r: PartAction)
    ensures
        r == part_action_of(name@, opt_str_view(filename), updating),
{
    match classify_field(name) {
        FieldKind::Picture => {
            let accepted = if updating {
                accepts_image(filename)
            } else {
                accepts_new_picture(filename)
            };
            if accepted {
                PartAction::StorePicture
            } else {
                PartAction::Skip
            }
        },
        FieldKind::StepImage(n) => if accepts_image(filename) {
            PartAction::KeepStepImage(n)
        } else {
            PartAction::Skip
        },
        FieldKind::Other => PartAction::Skip,
        kind => PartAction::ReadText(kind),
    }
}

/// Whether the bytes read for the main picture are stored: always for a new
/// preparation, only when there are any for an update.
pub fn stores_picture(updating: bool, size: usize) -> (r: bool)
    ensures
        r == (!updating || size > 0),
{
    !updating || size > 0
}

/// What is done about the picture part of a product form.
#[derive(Clone, Copy, Debug, PartialEq, Eq, Structural)]
pub enum PictureDecision {
    /// No picture comes with a new product: it is recorded with an empty URL.
    NoPicture,
    /// The picture of an existing product stays as it is.
    KeepExisting,
    /// The file is stored and its URL recorded.
    Store,
    /// The part has no file name: the request is refused.
    MissingFileName,
    /// The file is no accepted image: the form is shown again.
    InvalidFileType,
}

/// Message shown for a file that is no accepted image.
pub open spec fn invalid_file_type_message() -> Seq<char> {
    "Invalid file type. Only JPG, PNG, and WEBP are allowed."@
}

/// Message of the refusal of a picture part without a file name.
pub open spec fn missing_file_name_message() -> Seq<char> {
    "Invalid file uploaded"@
}

impl PictureDecision {
    /// The message that goes with a refusal; `None` for the other decisions.
    pub fn message(&self) -> (r: Option<&'static str>)
        ensures
            opt_str_view(r) == match self {
                PictureDecision::MissingFileName => Some(missing_file_name_message()),
                PictureDecision::InvalidFileType => Some(invalid_file_type_message()),
                _ => None,
            },
    {
        match self {
            PictureDecision::MissingFileName => Some("Invalid file uploaded"),
            PictureDecision::InvalidFileType => Some(
                "Invalid file type. Only JPG, PNG, and WEBP are allowed.",
            ),
            _ => None,
        }
    }
}

/// The decision on the picture of a new product. `picture` is `None` where
/// the form has no picture part, and holds the part's file name otherwise.
pub open spec fn new_product_picture(picture: Option<Option<Seq<char>>>) -> PictureDecision {
    match picture {
        None => PictureDecision::NoPicture,
        Some(None) => PictureDecision::MissingFileName,
        Some(Some(f)) => if valid_image_name(f) {
            PictureDecision::Store
        } else {
            PictureDecision::InvalidFileType
        },
    }
}

/// The decision on the picture of a product that is updated: only a part
/// with a usable image name replaces the existing picture.
pub open spec fn updated_product_picture(picture: Option<Option<Seq<char>>>) -> PictureDecision {
    match picture {
        Some(Some(f)) => if f.len() > 0 && valid_image_name(f) {
            PictureDecision::Store
        } else {
            PictureDecision::KeepExisting
        },
        _ => PictureDecision::KeepExisting,
    }
}

/// What a picture part holds, as plain values.
pub open spec fn picture_view(picture: Option<Option<&str>>) -> Option<Option<Seq<char>>> {
    match picture {
        None => None,
        Some(f) => Some(opt_str_view(f)),
    }
}

/// Decides on the picture part of the form for a new product. A file is
/// rejected here, before anything is stored, unless its extension is an
/// accepted one.
pub fn decide_new_product_picture(picture: Option<Option<&str>>) -> (r: PictureDecision)
    ensures
        r == new_product_picture(picture_view(picture)),
{
    match picture {
        None => PictureDecision::NoPicture,
        Some(None) => PictureDecision::MissingFileName,
        Some(Some(f)) => if is_valid_image_extension(f) {
            PictureDecision::Store
        } else {
            PictureDecision::InvalidFileType
        },
    }
}

/// Decides on the picture part of the form for an existing product.
pub fn decide_updated_product_picture(picture: Option<Option<&str>>) -> (r: PictureDecision)
    ensures
        r == updated_product_picture(picture_view(picture)),
{
    match picture {
        Some(Some(f)) => if !f.is_empty() && is_valid_image_extension(f) {
            PictureDecision::Store
        } else {
            PictureDecision::KeepExisting
        },
        _ => PictureDecision::KeepExisting,
    }
}

/// What a product form leads to.
#[derive(Debug)]
pub enum ProductPlan {
    /// The request is answered with status 400 and this message: as a bare
    /// error where `plain` is set, on the form page otherwise.
    Refuse { message: String, plain: bool },
    /// The product is saved; `picture` says whether a new picture is stored
    /// first.
    Save { picture: PictureDecision },
}

/// The plan for a product form: the first complaint of validation refuses it,
/// then a refusal of the picture; otherwise the product is saved. Only a
/// picture part without a file name is refused with a bare error.
pub open spec fn product_plan_of(
    complaint: Option<Seq<char>>,
    decision: PictureDecision,
) -> Result<PictureDecision, (Seq<char>, bool)> {
    match complaint {
        Some(m) => Err((m, false)),
        None => match decision {
            PictureDecision::MissingFileName => Err((missing_file_name_message(), true)),
            PictureDecision::InvalidFileType => Err((invalid_file_type_message(), false)),
            d => Ok(d),
        },
    }
}

/// Whether an executable plan is the given one.
pub open spec fn is_product_plan(
    plan: ProductPlan,
    expected: Result<PictureDecision, (Seq<char>, bool)>,
) -> bool {
    match plan {
        ProductPlan::Refuse { message, plain } => expected == Err::<
            PictureDecision,
            (Seq<char>, bool),
        >((message@, plain)),
        ProductPlan::Save { picture } => expected == Ok::<PictureDecision, (Seq<char>, bool)>(
            picture,
        ),
    }
}

/// The complaint that a validation result holds, if any.
pub open spec fn complaint_of(checked: Result<(), String>) -> Option<Seq<char>> {
    match checked {
        Ok(_) => None,
        Err(m) => Some(m@),
    }
}

/// Combines the result of validation with the decision on the picture.
fn product_plan(checked: Result<(), String>, decision: PictureDecision) -> (r: ProductPlan)
    ensures
        is_product_plan(r, product_plan_of(complaint_of(checked), decision)),
{
    match checked {
        Err(message) => ProductPlan::Refuse { message, plain: false },
        Ok(_) => match decision.message() {
            Some(m) => ProductPlan::Refuse {
                message: String::from_str(m),
                plain: decision == PictureDecision::MissingFileName,
            },
            None => ProductPlan::Save { picture: decision },
        },
    }
}

/// Plans the creation of a product from its form and picture part.
pub fn plan_new_product(form: &NewProductForm, picture: Option<Option<&str>>) -> (r: ProductPlan)
    ensures
        is_product_plan(
            r,
            product_plan_of(form.complaint(), new_product_picture(picture_view(picture))),
        ),
{
    product_plan(form.validate(), decide_new_product_picture(picture))
}

/// Plans the update of a product from its form and picture part.
pub fn plan_product_update(form: &NewProductForm, picture: Option<Option<&str>>) -> (r:
    ProductPlan)
    ensures
        is_product_plan(
            r,
            product_plan_of(form.complaint(), updated_product_picture(picture_view(picture))),
        ),
{
    product_plan(form.validate(), decide_updated_product_picture(picture))
}

/// A preparation form while its parts arrive.
#[derive(Debug)]
pub struct PreparationDraft {
    pub form: NewPreparationForm,
    /// URL of the main picture: empty for a new preparation without one, the
    /// existing URL for an update until a new picture is stored.
    pub picture_url: String,
    pub steps: StepTable,
}

impl PreparationDraft {
    /// A draft with empty fields, no steps and the given picture URL.
    pub fn new(picture_url: String) -> (r: PreparationDraft)
        ensures
            r.steps@ == Map::<usize, StepView>::empty(),
            r.picture_url@ == picture_url@,
            r.form.name@.len() == 0,
            r.form.prep_type@.len() == 0,
            r.form.shift@.len() == 0,
            r.form.location@.len() == 0,
            r.form.steps@.len() == 0,
    {
        PreparationDraft {
            form: NewPreparationForm {
                name: String::new(),
                prep_type: String::new(),
                shift: String::new(),
                location: String::new(),
                steps: String::new(),
            },
            picture_url,
            steps: StepTable::new(),
        }
    }

    /// Takes the text of a field into the draft. A later part for the same
    /// field replaces an earlier one; a part of a kind that carries no text
    /// leaves the draft as it is.
    pub fn set_text(&mut self, kind: FieldKind, value: String)
        ensures
            final(self).picture_url@ == old(self).picture_url@,
            final(self).form.name@ == if kind == FieldKind::Name {
                value@
            } else {
                old(self).form.name@
            },
            final(self).form.prep_type@ == if kind == FieldKind::PrepType {
                value@
            } else {
                old(self).form.prep_type@
            },
            final(self).form.shift@ == if kind == FieldKind::Shift {
                value@
            } else {
                old(self).form.shift@
            },
            final(self).form.location@ == if kind == FieldKind::Location {
                value@
            } else {
                old(self).form.location@
            },
            final(self).form.steps@ == if kind == FieldKind::Steps {
                value@
            } else {
                old(self).form.steps@
            },
            final(self).steps@ == match kind {
                FieldKind::StepDescription(n) => old(self).steps@.insert(
                    n,
                    described(old(self).steps@, n, value@),
                ),
                _ => old(self).steps@,
            },
    {
        match kind {
            FieldKind::Name => {
                self.form.name = value;
            },
            FieldKind::PrepType => {
                self.form.prep_type = value;
            },
            FieldKind::Shift => {
                self.form.shift = value;
            },
            FieldKind::Location => {
                self.form.location = value;
            },
            FieldKind::Steps => {
                self.form.steps = value;
            },
            FieldKind::StepDescription(n) => {
                self.steps.set_description(n, value);
            },
            _ => {},
        }
    }

    /// Takes the image of step `number` into the draft. An image without
    /// bytes is dropped.
    pub fn set_step_image(&mut self, number: usize, data: Vec<u8>, filename: String)
        ensures
            final(self).picture_url@ == old(self).picture_url@,
            final(self).form == old(self).form,
            final(self).steps@ == if data@.len() > 0 {
                old(self).steps@.insert(
                    number,
                    illustrated(old(self).steps@, number, data@, filename@),
                )
            } else {
                old(self).steps@
            },
    {
        if data.len() > 0 {
            self.steps.set_image(number, StepImage { data, filename });
        }
    }

    /// Records the URL under which the main picture was stored.
    pub fn set_picture_url(&mut self, url: String)
        ensures
            final(self).picture_url@ == url@,
            final(self).form == old(self).form,
            final(self).steps == old(self).steps,
    {
        self.picture_url = url;
    }
}

/// A preparation form that passed validation, ready to be recorded.
#[derive(Debug)]
pub struct PreparationSubmission {
    pub form: NewPreparationForm,
    pub picture_url: String,
    /// The steps in the order of their submitted numbers, renumbered from one.
    pub steps: Vec<NumberedStep>,
}

impl PreparationDraft {
    /// Closes the draft once all parts have arrived: the first complaint of
    /// validation refuses it; otherwise the steps are listed in ascending
    /// order of their submitted numbers and renumbered from one.
    pub fn finish(self) -> (r: Result<PreparationSubmission, String>)
        ensures
            match r {
                Err(m) => self.form.complaint() == Some(m@),
                Ok(s) => {
                    &&& self.form.complaint() is None
                    &&& s.form == self.form
                    &&& s.picture_url@ == self.picture_url@
                    &&& ascending(self.steps.listing())
                    &&& s.steps@.len() == self.steps.listing().len()
                    &&& forall|i: int|
                        0 <= i < s.steps@.len() ==> {
                            &&& (#[trigger] s.steps@[i]).step_number == i + 1
                            &&& s.steps@[i].description@ == self.steps.listing()[i].description@
                            &&& image_view(s.steps@[i].image) == image_view(
                                self.steps.listing()[i].image,
                            )
                        }
                },
            },
    {
        match self.form.validate() {
            Err(message) => Err(message),
            Ok(_) => Ok(
                PreparationSubmission {
                    form: self.form,
                    picture_url: self.picture_url,
                    steps: self.steps.into_numbered(),
                },
            ),
        }
    }
}

/// A user record as the login needs it.
#[derive(Debug)]
pub struct UserRecord {
    pub id: u128,
    pub username: String,
    pub password_hash: String,
}

/// What a login attempt leads to.
#[derive(Debug)]
pub enum LoginOutcome {
    /// The password matches: the token goes into the session cookie.
    LoggedIn { token: String },
    /// Unknown user or wrong password; the answer does not say which.
    InvalidCredentials,
    /// The stored hash could not be checked.
    VerificationFailed,
    /// No token could be issued.
    TokenFailed,
}

/// Message shown for a login that is refused.
pub open spec fn invalid_credentials_message() -> Seq<char> {
    "Invalid username or password"@
}

impl LoginOutcome {
    /// The status code the outcome is answered with: a redirect after a
    /// login, 401 for refused credentials, 500 for a failure.
    pub fn status(&self) -> (r: u16)
        ensures
            r == match self {
                LoginOutcome::LoggedIn { .. } => 303u16,
                LoginOutcome::InvalidCredentials => status_of(Failure::InvalidCredentials),
                LoginOutcome::VerificationFailed => 500u16,
                LoginOutcome::TokenFailed => 500u16,
            },
    {
        match self {
            LoginOutcome::LoggedIn { .. } => 303,
            LoginOutcome::InvalidCredentials => Failure::InvalidCredentials.status(),
            LoginOutcome::VerificationFailed => 500,
            LoginOutcome::TokenFailed => 500,
        }
    }
}

impl LoginOutcome {
    /// The message the outcome is answered with; `None` after a login.
    pub fn message(&self) -> (r: Option<&'static str>)
        ensures
            opt_str_view(r) == match self {
                LoginOutcome::LoggedIn { .. } => None,
                LoginOutcome::InvalidCredentials => Some(invalid_credentials_message()),
                LoginOutcome::VerificationFailed => Some("Authentication error"@),
                LoginOutcome::TokenFailed => Some("Failed to generate token"@),
            },
    {
        match self {
            LoginOutcome::LoggedIn { .. } => None,
            LoginOutcome::InvalidCredentials => Some("Invalid username or password"),
            LoginOutcome::VerificationFailed => Some("Authentication error"),
            LoginOutcome::TokenFailed => Some("Failed to generate token"),
        }
    }
}

/// The outcome of a login attempt at time `now`: the token where the user is
/// known, the password matches and a token can be issued.
pub open spec fn login_outcome(
    user: Option<UserRecord>,
    password: Seq<char>,
    secret: Seq<char>,
    hours: int,
    now: int,
) -> Result<Seq<char>, Option<AuthError>> {
    match user {
        None => Err(None),
        Some(u) => match password_check(password, u.password_hash@) {
            Ok(true) => match issue_outcome(u.id, u.username@, secret, hours, now) {
                Ok(t) => Ok(t),
                Err(e) => Err(Some(e)),
            },
            Ok(false) => Err(None),
            Err(e) => Err(Some(e)),
        },
    }
}

/// Whether an executable outcome is the given one. A refusal stands for
/// `Err(None)`, a failed check for the codec's error, a failed issue for the
/// error of issuing.
pub open spec fn is_login_outcome(
    r: LoginOutcome,
    expected: Result<Seq<char>, Option<AuthError>>,
) -> bool {
    match r {
        LoginOutcome::LoggedIn { token } => expected == Ok::<Seq<char>, Option<AuthError>>(token@),
        LoginOutcome::InvalidCredentials => expected == Err::<Seq<char>, Option<AuthError>>(None),
        LoginOutcome::VerificationFailed => expected == Err::<Seq<char>, Option<AuthError>>(
            Some(AuthError::CodecError),
        ),
        LoginOutcome::TokenFailed => expected is Err && expected->Err_0 is Some
            && expected->Err_0->0 != AuthError::CodecError,
    }
}

/// The record behind an optional reference.
pub open spec fn record_of(user: Option<&UserRecord>) -> Option<UserRecord> {
    match user {
        Some(u) => Some(*u),
        None => None,
    }
}

/// Handles a login attempt at time `now`, given the active user found under
/// the submitted name, if any.
pub fn login_at(
    user: Option<&UserRecord>,
    password: &str,
    secret: &str,
    hours: i64,
    now: i64,
) -> (r: LoginOutcome)
    ensures
        is_login_outcome(
            r,
            login_outcome(
                record_of(user),
                password@,
                secret@,
                hours as int,
                now as int,
            ),
        ),
        user is None ==> r is InvalidCredentials,
{
    match user {
        None => LoginOutcome::InvalidCredentials,
        Some(u) => match verify_password(password, u.password_hash.as_str()) {
            Ok(true) => match generate_token_at(u.id, u.username.as_str(), secret, hours, now) {
                Ok(token) => LoginOutcome::LoggedIn { token },
                Err(_) => LoginOutcome::TokenFailed,
            },
            Ok(false) => LoginOutcome::InvalidCredentials,
            Err(_) => LoginOutcome::VerificationFailed,
        },
    }
}

/// Handles a login attempt at the current time.
pub fn login(user: Option<&UserRecord>, password: &str, secret: &str, hours: i64) -> (r:
    LoginOutcome)
    ensures
        exists|now: i64|
            is_login_outcome(
                r,
                #[trigger] login_outcome(
                    record_of(user),
                    password@,
                    secret@,
                    hours as int,
                    now as int,
                ),
            ),
        user is None ==> r is InvalidCredentials,
{
    let now = unix_now();
    login_at(user, password, secret, hours, now)
}

/// The session cookie as it is sent to the browser.
#[derive(Debug)]
pub struct SessionCookie {
    pub name: String,
    pub value: String,
    pub path: String,
    pub http_only: bool,
    /// Lifetime in seconds; `None` leaves the cookie to the browser session.
    pub max_age: Option<i64>,
}

/// The cookie set after a login: `auth_token` with the token, for the whole
/// site, hidden from scripts, without a lifetime of its own.
pub fn login_cookie(token: String) -> (r: SessionCookie)
    ensures
        r.name@ == "auth_token"@,
        r.value@ == token@,
        r.path@ == "/"@,
        r.http_only,
        r.max_age is None,
{
    SessionCookie {
        name: String::from_str("auth_token"),
        value: token,
        path: String::from_str("/"),
        http_only: true,
        max_age: None,
    }
}

/// The cookie set at logout: `auth_token` emptied, with a lifetime of zero
/// seconds, so that the browser discards it.
pub fn logout() -> (r: SessionCookie)
    ensures
        r.name@ == "auth_token"@,
        r.value@.len() == 0,
        r.path@ == "/"@,
        r.http_only,
        r.max_age == Some(0i64),
{
    SessionCookie {
        name: String::from_str("auth_token"),
        value: String::new(),
        path: String::from_str("/"),
        http_only: true,
        max_age: Some(0),
    }
}

/// Where the browser is sent after a product was saved.
pub fn product_location(id: u128) -> (r: String)
    ensures
        r@ == "/product/"@ + uuid_text(id),
{
    String::from_str("/product/").concat(uuid_to_text(id).as_str())
}

/// Where the browser is sent after a preparation was saved.
pub fn preparation_location(id: u128) -> (r: String)
    ensures
        r@ == "/preparation/"@ + uuid_text(id),
{
    String::from_str("/preparation/").concat(uuid_to_text(id).as_str())
}

} // verus!
