//! The access-control guard: where a request's token is taken from, when a
//! protected route lets a request through, and how handlers obtain the
//! caller's identity.
//!
//! The guard works on plain values. The server hands it the `Authorization`
//! header and the `auth_token` cookie as it found them, keeps the claims of
//! an admitted request in request-scoped storage, and hands them back when a
//! handler asks for the caller's identity.

use crate::auth::{
    token_outcome, unix_now, validate_token_at, AuthError, Claims, ClaimsView,
};
use crate::ids::{uuid_from_text, uuid_parsed};
use crate::text::{opt_str_view, strip_prefix, without_prefix};
use vstd::prelude::*;

verus! {

/// Status code of every refusal by the guard.
pub const UNAUTHORIZED: u16 = 401;

/// The token that an `Authorization` header carries: what follows the
/// literal prefix `Bearer `.
pub open spec fn bearer_of(header: Seq<char>) -> Option<Seq<char>> {
    without_prefix(header, "Bearer "@)
}

/// The token of a request: the bearer token of the header where it has one,
/// else the cookie.
pub open spec fn selected_token(
    authorization: Option<Seq<char>>,
    cookie: Option<Seq<char>>,
) -> Option<Seq<char>> {
    match authorization {
        Some(h) => match bearer_of(h) {
            Some(t) => Some(t),
            None => cookie,
        },
        None => cookie,
    }
}

/// Takes the bearer token out of an `Authorization` header. The prefix is
/// case-sensitive and ends with a single space.
pub fn bearer_token<'a>(header: &'a str) -> (r: Option<&'a str>)
    ensures
        opt_str_view(r) == bearer_of(header@),
{
    strip_prefix(header, "Bearer ")
}

/// Picks the token of a request from its `Authorization` header and its
/// `auth_token` cookie: the header wins where it carries a bearer token.
pub fn select_token<'a>(authorization: Option<&'a str>, cookie: Option<&'a str>) -> (r: Option<
    &'a str,
>)
    ensures
        opt_str_view(r) == selected_token(opt_str_view(authorization), opt_str_view(cookie)),
        authorization is None && cookie is None ==> r is None,
{
    match authorization {
        Some(header) => match bearer_token(header) {
            Some(token) => Some(token),
            None => cookie,
        },
        None => cookie,
    }
}

/// What the guard does with a request to a protected route.
#[derive(Debug)]
pub enum AccessDecision {
    /// Attach the claims to the request and run the handler.
    Proceed(Claims),
    /// Answer 401 without running the handler.
    Deny,
}

/// The decision for a request, given the outcome of validating its token;
/// `None` stands for a request without a token.
pub open spec fn decision_for(outcome: Option<Result<ClaimsView, AuthError>>) -> Option<ClaimsView> {
    match outcome {
        Some(Ok(c)) => Some(c),
        _ => None,
    }
}

impl AccessDecision {
    /// The claims of an admitted request; `None` for a refused one.
    pub open spec fn admitted(&self) -> Option<ClaimsView> {
        match self {
            AccessDecision::Proceed(c) => Some(c@),
            AccessDecision::Deny => None,
        }
    }
}

/// What an optional validation result holds, as plain values.
pub open spec fn outcome_view(o: Option<Result<Claims, AuthError>>) -> Option<
    Result<ClaimsView, AuthError>,
> {
    match o {
        Some(Ok(c)) => Some(Ok(c@)),
        Some(Err(e)) => Some(Err(e)),
        None => None,
    }
}

/// Decides on a request from the outcome of validating its token: only a
/// valid token lets it through.
pub fn decide(outcome: Option<Result<Claims, AuthError>>) -> (r: AccessDecision)
    ensures
        r.admitted() == decision_for(outcome_view(outcome)),
{
    match outcome {
        Some(Ok(claims)) => AccessDecision::Proceed(claims),
        Some(Err(_)) => AccessDecision::Deny,
        None => AccessDecision::Deny,
    }
}

/// The outcome of validating the token of a request at time `now`.
pub open spec fn request_outcome(
    authorization: Option<Seq<char>>,
    cookie: Option<Seq<char>>,
    secret: Seq<char>,
    now: int,
) -> Option<Result<ClaimsView, AuthError>> {
    match selected_token(authorization, cookie) {
        Some(t) => Some(token_outcome(t, secret, now)),
        None => None,
    }
}

/// Factory of the guard, holding the signing secret.
#[derive(Debug)]
pub struct Authentication {
    pub secret: String,
}

/// The guard in front of a protected route.
#[derive(Debug)]
pub struct AuthenticationMiddleware {
    pub secret: String,
}

impl Authentication {
    /// A factory for guards that validate under `secret`.
    pub fn new(secret: String) -> (r: Authentication)
        ensures
            r.secret@ == secret@,
    {
        Authentication { secret }
    }

    /// Makes the guard for one route.
    pub fn new_transform(&self) -> (r: AuthenticationMiddleware)
        ensures
            r.secret@ == self.secret@,
    {
        AuthenticationMiddleware { secret: self.secret.clone() }
    }
}

impl AuthenticationMiddleware {
    /// Decides on a request at time `now`.
    ///
    /// A request without a token is refused, and so is one whose token does
    /// not validate. An admitted request carries the claims of its token.
    pub fn call_at(&self, authorization: Option<&str>, cookie: Option<&str>, now: i64) -> (r:
        AccessDecision)
        ensures
            r.admitted() == decision_for(
                request_outcome(
                    opt_str_view(authorization),
                    opt_str_view(cookie),
                    self.secret@,
                    now as int,
                ),
            ),
            authorization is None && cookie is None ==> r is Deny,
    {
        match select_token(authorization, cookie) {
            Some(token) => decide(Some(validate_token_at(token, self.secret.as_str(), now))),
            None => decide(None),
        }
    }

    /// Decides on a request at the current time.
    pub fn call(&self, authorization: Option<&str>, cookie: Option<&str>) -> (r: AccessDecision)
        ensures
            exists|now: i64|
                r.admitted() == decision_for(
                    #[trigger] request_outcome(
                        opt_str_view(authorization),
                        opt_str_view(cookie),
                        self.secret@,
                        now as int,
                    ),
                ),
            authorization is None && cookie is None ==> r is Deny,
    {
        let now = unix_now();
        self.call_at(authorization, cookie, now)
    }
}

/// Why a handler could not obtain the caller's identity.
#[derive(Clone, Copy, Debug, PartialEq, Eq, Structural)]
pub enum AccessError {
    /// No identity is attached to the request.
    Unauthenticated,
    /// The attached claims name a subject that is no identifier.
    InvalidSubject,
}

impl AccessError {
    /// Status code the failure is answered with.
    pub fn status(&self) -> (r: u16)
        ensures
            r == UNAUTHORIZED,
    {
        UNAUTHORIZED
    }

    /// Text the failure is answered with.
    pub fn message(&self) -> (r: &'static str)
        ensures
            r@ == match self {
                AccessError::Unauthenticated => "Authentication required"@,
                AccessError::InvalidSubject => "Invalid user ID in token"@,
            },
    {
        match self {
            AccessError::Unauthenticated => "Authentication required",
            AccessError::InvalidSubject => "Invalid user ID in token",
        }
    }
}

/// The identity of an authenticated caller.
#[derive(Debug, Clone)]
pub struct AuthenticatedUser {
    pub user_id: u128,
    pub username: String,
}

/// The identity that claims stand for, if their subject is an identifier.
pub open spec fn identity_of(claims: ClaimsView) -> Option<(u128, Seq<char>)> {
    match uuid_parsed(claims.sub) {
        Some(id) => Some((id, claims.username)),
        None => None,
    }
}

/// Identifier and name of an optional user.
pub open spec fn user_view(user: Option<AuthenticatedUser>) -> Option<(u128, Seq<char>)> {
    match user {
        Some(u) => Some((u.user_id, u.username@)),
        None => None,
    }
}

/// What optional claims hold, as plain values.
pub open spec fn claims_view(claims: Option<&Claims>) -> Option<ClaimsView> {
    match claims {
        Some(c) => Some(c@),
        None => None,
    }
}

/// Reads an identity from claims.
pub fn identity_from_claims(claims: &Claims) -> (r: Option<AuthenticatedUser>)
    ensures
        user_view(r) == identity_of(claims@),
{
    match uuid_from_text(claims.sub.as_str()) {
        Some(user_id) => Some(AuthenticatedUser { user_id, username: claims.username.clone() }),
        None => None,
    }
}

/// The identity a handler must have, given the claims attached to the request.
pub open spec fn required_identity(attached: Option<ClaimsView>) -> Result<
    (u128, Seq<char>),
    AccessError,
> {
    match attached {
        None => Err(AccessError::Unauthenticated),
        Some(c) => match identity_of(c) {
            Some(identity) => Ok(identity),
            None => Err(AccessError::InvalidSubject),
        },
    }
}

impl AuthenticatedUser {
    /// Required-identity extraction: yields the identity of the claims that
    /// the guard attached, and fails where none are attached.
    pub fn from_request(attached: Option<&Claims>) -> (r: Result<AuthenticatedUser, AccessError>)
        ensures
            match r {
                Ok(u) => required_identity(claims_view(attached)) == Ok::<
                    (u128, Seq<char>),
                    AccessError,
                >((u.user_id, u.username@)),
                Err(e) => required_identity(claims_view(attached)) == Err::<
                    (u128, Seq<char>),
                    AccessError,
                >(e),
            },
    {
        match attached {
            Some(claims) => match identity_from_claims(claims) {
                Some(user) => Ok(user),
                None => Err(AccessError::InvalidSubject),
            },
            None => Err(AccessError::Unauthenticated),
        }
    }
}

/// The identity of a caller who may or may not be authenticated.
#[derive(Debug, Clone)]
pub struct OptionalAuth {
    pub user: Option<AuthenticatedUser>,
}

/// The identity found for a request, given the claims attached to it and the
/// outcome of validating its cookie (`None` where it has no cookie): the
/// attached claims come first, and every failure counts as no identity.
pub open spec fn optional_identity(
    attached: Option<ClaimsView>,
    cookie_outcome: Option<Result<ClaimsView, AuthError>>,
) -> Option<(u128, Seq<char>)> {
    let first = match attached {
        Some(c) => identity_of(c),
        None => None,
    };
    if first is Some {
        first
    } else {
        match cookie_outcome {
            Some(Ok(c)) => identity_of(c),
            _ => None,
        }
    }
}

/// The outcome of validating the cookie of a request at time `now`.
pub open spec fn cookie_outcome(cookie: Option<Seq<char>>, secret: Seq<char>, now: int) -> Option<
    Result<ClaimsView, AuthError>,
> {
    match cookie {
        Some(t) => Some(token_outcome(t, secret, now)),
        None => None,
    }
}

impl OptionalAuth {
    /// Resolves the optional identity from the attached claims and the
    /// outcome of validating the cookie.
    pub fn resolve(attached: Option<&Claims>, cookie: Option<Result<Claims, AuthError>>) -> (r:
        OptionalAuth)
        ensures
            user_view(r.user) == optional_identity(claims_view(attached), outcome_view(cookie)),
            attached is None && cookie is None ==> r.user is None,
    {
        let first = match attached {
            Some(claims) => identity_from_claims(claims),
            None => None,
        };
        if first.is_some() {
            return OptionalAuth { user: first };
        }
        match cookie {
            Some(Ok(claims)) => OptionalAuth { user: identity_from_claims(&claims) },
            _ => OptionalAuth { user: None },
        }
    }

    /// Optional-identity extraction at time `now`. It never fails: a request
    /// without attached claims and without a valid cookie has no identity.
    pub fn from_request_at(
        attached: Option<&Claims>,
        cookie: Option<&str>,
        secret: &str,
        now: i64,
    ) -> (r: OptionalAuth)
        ensures
            user_view(r.user) == optional_identity(
                claims_view(attached),
                cookie_outcome(opt_str_view(cookie), secret@, now as int),
            ),
            attached is None && cookie is None ==> r.user is None,
    {
        let validated = match cookie {
            Some(token) => Some(validate_token_at(token, secret, now)),
            None => None,
        };
        OptionalAuth::resolve(attached, validated)
    }

    /// Optional-identity extraction at the current time.
    pub fn from_request(attached: Option<&Claims>, cookie: Option<&str>, secret: &str) -> (r:
        OptionalAuth)
        ensures
            exists|now: i64|
                user_view(r.user) == optional_identity(
                    claims_view(attached),
                    #[trigger] cookie_outcome(opt_str_view(cookie), secret@, now as int),
                ),
            attached is None && cookie is None ==> r.user is None,
    {
        let now = unix_now();
        OptionalAuth::from_request_at(attached, cookie, secret, now)
    }
}

/// The answer to a refused request.
#[derive(Debug)]
pub struct UnauthorizedResponse {
    pub status: u16,
    /// Whether the body is an HTML page; plain text otherwise.
    pub html: bool,
    pub body: String,
}

/// Builds the answer to a refused request from the rendered "unauthorized"
/// page, or, where rendering failed, as the plain text
/// `Authentication required`.
pub fn render_401_error(page: Option<String>) -> (r: UnauthorizedResponse)
    ensures
        r.status == UNAUTHORIZED,
        match page {
            Some(html) => r.html && r.body@ == html@,
            None => !r.html && r.body@ == "Authentication required"@,
        },
{
    match page {
        Some(html) => UnauthorizedResponse { status: UNAUTHORIZED, html: true, body: html },
        None => UnauthorizedResponse {
            status: UNAUTHORIZED,
            html: false,
            body: String::from_str("Authentication required"),
        },
    }
}

/// A request that the guard admits carries claims whose identity is the one
/// a handler then extracts: the required identity and, whatever the cookie
/// holds, the optional identity are both that of the admitted claims.
pub proof fn admitted_identity_is_that_of_the_token(
    outcome: Result<ClaimsView, AuthError>,
    cookie: Option<Result<ClaimsView, AuthError>>,
)
    requires
        outcome matches Ok(c) && identity_of(c) is Some,
    ensures
        decision_for(Some(outcome)) matches Some(c) && outcome == Ok::<ClaimsView, AuthError>(c)
            && required_identity(Some(c)) == Ok::<(u128, Seq<char>), AccessError>(
            identity_of(c)->0,
        ) && optional_identity(Some(c), cookie) == identity_of(c),
{
}

/// A request whose token is missing or does not validate is never admitted.
pub proof fn invalid_token_is_refused(outcome: Option<Result<ClaimsView, AuthError>>)
    requires
        outcome is None || outcome->0 is Err,
    ensures
        decision_for(outcome) is None,
{
}

/// Optional-identity extraction finds no identity where no claims are
/// attached and the cookie is missing or does not validate.
pub proof fn no_valid_token_no_identity(cookie: Option<Result<ClaimsView, AuthError>>)
    requires
        cookie is None || cookie->0 is Err,
    ensures
        optional_identity(None, cookie) is None,
{
}

} // verus!
