use kitchen_guide::auth::{hash_password, validate_token, validate_token_at};
use kitchen_guide::handlers::{
    accepts_image, accepts_new_picture, classify_field, decide_new_product_picture,
    decide_updated_product_picture, login, login_at, login_cookie, logout, part_action,
    plan_new_product, plan_product_update, preparation_location, product_location,
    stores_picture, Failure, FieldKind, LoginOutcome, PartAction, PictureDecision,
    PreparationDraft, ProductPlan, SearchQuery, UserRecord,
};
use kitchen_guide::models::NewProductForm;
use kitchen_guide::steps::{StepImage, StepTable};

const SECRET: &str = "handler secret";
const KNOWN_HASH: &str = "$2y$05$bvIG6Nmid91Mu9RcmmWZfO5HJIMCT8riNW0hEp8f6/FuA2/mHZFpe";

fn user() -> UserRecord {
    UserRecord { id: 42, username: "cook".to_string(), password_hash: KNOWN_HASH.to_string() }
}

#[test]
fn failures_have_their_status() {
    assert_eq!(Failure::Unauthenticated.status(), 401);
    assert_eq!(Failure::InvalidCredentials.status(), 401);
    assert_eq!(Failure::ValidationFailed.status(), 400);
    assert_eq!(Failure::StorageFailure.status(), 500);
    assert_eq!(Failure::DatabaseFailure.status(), 500);
    assert_eq!(Failure::NotFound.status(), 404);
}

#[test]
fn search_term_is_trimmed() {
    let query = SearchQuery { q: "  flat bread \n".to_string() };
    assert_eq!(query.term(), "flat bread");
    assert_eq!(query.pattern(), "%flat bread%");
    assert_eq!(SearchQuery { q: " ".to_string() }.pattern(), "%%");
}

#[test]
fn fields_are_told_apart_by_name() {
    assert_eq!(classify_field("name"), FieldKind::Name);
    assert_eq!(classify_field("prep_type"), FieldKind::PrepType);
    assert_eq!(classify_field("shift"), FieldKind::Shift);
    assert_eq!(classify_field("location"), FieldKind::Location);
    assert_eq!(classify_field("steps"), FieldKind::Steps);
    assert_eq!(classify_field("picture"), FieldKind::Picture);
    assert_eq!(classify_field("step_description_3"), FieldKind::StepDescription(3));
    assert_eq!(classify_field("step_description_+3"), FieldKind::StepDescription(3));
    assert_eq!(classify_field("step_description_007"), FieldKind::StepDescription(7));
    assert_eq!(classify_field("step_image_12"), FieldKind::StepImage(12));
    assert_eq!(classify_field("step_image_0"), FieldKind::StepImage(0));
}

#[test]
fn unknown_fields_are_skipped() {
    assert_eq!(classify_field(""), FieldKind::Other);
    assert_eq!(classify_field("Name"), FieldKind::Other);
    assert_eq!(classify_field("step_description_"), FieldKind::Other);
    assert_eq!(classify_field("step_description_x"), FieldKind::Other);
    assert_eq!(classify_field("step_description_-1"), FieldKind::Other);
    assert_eq!(classify_field("step_description_1 "), FieldKind::Other);
    assert_eq!(classify_field("step_image_+"), FieldKind::Other);
    assert_eq!(classify_field("step_image_1_2"), FieldKind::Other);
    assert_eq!(classify_field("step_image_99999999999999999999999"), FieldKind::Other);
    assert_eq!(classify_field("step_image"), FieldKind::Other);
}

#[test]
fn images_need_a_name_and_an_accepted_extension() {
    assert!(accepts_image(Some("a.png")));
    assert!(accepts_image(Some("a.JPG")));
    assert!(!accepts_image(Some("")));
    assert!(!accepts_image(Some("a.exe")));
    assert!(!accepts_image(None));
    assert!(accepts_new_picture(Some("photo.PNG")));
    assert!(!accepts_new_picture(Some("payload.exe")));
    assert!(!accepts_new_picture(None));
}

#[test]
fn new_product_picture_is_checked_before_storing() {
    assert_eq!(decide_new_product_picture(None), PictureDecision::NoPicture);
    assert_eq!(decide_new_product_picture(Some(None)), PictureDecision::MissingFileName);
    assert_eq!(decide_new_product_picture(Some(Some("photo.PNG"))), PictureDecision::Store);
    assert_eq!(
        decide_new_product_picture(Some(Some("payload.exe"))),
        PictureDecision::InvalidFileType
    );
    assert_eq!(decide_new_product_picture(Some(Some(""))), PictureDecision::InvalidFileType);
}

#[test]
fn updated_product_keeps_its_picture_unless_replaced() {
    assert_eq!(decide_updated_product_picture(None), PictureDecision::KeepExisting);
    assert_eq!(decide_updated_product_picture(Some(None)), PictureDecision::KeepExisting);
    assert_eq!(decide_updated_product_picture(Some(Some(""))), PictureDecision::KeepExisting);
    assert_eq!(decide_updated_product_picture(Some(Some("a.exe"))), PictureDecision::KeepExisting);
    assert_eq!(decide_updated_product_picture(Some(Some("a.webp"))), PictureDecision::Store);
}

#[test]
fn refusals_carry_their_message() {
    assert_eq!(PictureDecision::MissingFileName.message(), Some("Invalid file uploaded"));
    assert_eq!(
        PictureDecision::InvalidFileType.message(),
        Some("Invalid file type. Only JPG, PNG, and WEBP are allowed.")
    );
    assert_eq!(PictureDecision::Store.message(), None);
    assert_eq!(PictureDecision::NoPicture.message(), None);
    assert_eq!(PictureDecision::KeepExisting.message(), None);
}

#[test]
fn steps_are_listed_by_number_and_renumbered() {
    let mut table = StepTable::new();
    table.set_description(7, "third".to_string());
    table.set_description(2, "first".to_string());
    table.set_image(5, StepImage { data: vec![1, 2], filename: "s.png".to_string() });
    table.set_description(5, "second".to_string());
    table.set_image(9, StepImage { data: vec![3], filename: "t.jpg".to_string() });
    assert_eq!(table.len(), 4);
    table.set_description(2, "first again".to_string());
    assert_eq!(table.len(), 4);
    let steps = table.into_numbered();
    assert_eq!(steps.len(), 4);
    let numbers: Vec<usize> = steps.iter().map(|s| s.step_number).collect();
    assert_eq!(numbers, vec![1, 2, 3, 4]);
    let texts: Vec<&str> = steps.iter().map(|s| s.description.as_str()).collect();
    assert_eq!(texts, vec!["first again", "second", "third", ""]);
    assert!(steps[0].image.is_none());
    assert_eq!(steps[1].image.as_ref().unwrap().data, vec![1, 2]);
    assert_eq!(steps[1].image.as_ref().unwrap().filename, "s.png");
    assert!(steps[2].image.is_none());
    assert_eq!(steps[3].image.as_ref().unwrap().filename, "t.jpg");
}

#[test]
fn later_image_replaces_earlier_one() {
    let mut table = StepTable::new();
    table.set_image(1, StepImage { data: vec![1], filename: "a.png".to_string() });
    table.set_image(1, StepImage { data: vec![2], filename: "b.png".to_string() });
    let steps = table.into_numbered();
    assert_eq!(steps.len(), 1);
    assert_eq!(steps[0].image.as_ref().unwrap().filename, "b.png");
    assert_eq!(steps[0].description, "");
    assert!(StepTable::new().into_numbered().is_empty());
}

#[test]
fn draft_collects_the_parts_of_a_form() {
    let mut draft = PreparationDraft::new(String::new());
    draft.set_text(classify_field("name"), "Salad".to_string());
    draft.set_text(classify_field("prep_type"), "veg".to_string());
    draft.set_text(classify_field("shift"), "lunch".to_string());
    draft.set_text(classify_field("location"), "Bench 2".to_string());
    draft.set_text(classify_field("steps"), "wash, cut".to_string());
    draft.set_text(classify_field("unknown"), "ignored".to_string());
    draft.set_text(classify_field("picture"), "ignored".to_string());
    draft.set_text(classify_field("step_description_2"), "cut".to_string());
    draft.set_text(classify_field("step_description_1"), "wash".to_string());
    draft.set_step_image(2, vec![9, 9], "cut.png".to_string());
    draft.set_step_image(3, vec![], "empty.png".to_string());
    draft.set_picture_url("/static/uploads/x.png".to_string());
    assert_eq!(draft.form.validate(), Ok(()));
    assert_eq!(draft.form.name, "Salad");
    assert_eq!(draft.form.steps, "wash, cut");
    assert_eq!(draft.picture_url, "/static/uploads/x.png");
    let steps = draft.steps.into_numbered();
    assert_eq!(steps.len(), 2);
    assert_eq!((steps[0].step_number, steps[0].description.as_str()), (1, "wash"));
    assert_eq!((steps[1].step_number, steps[1].description.as_str()), (2, "cut"));
    assert_eq!(steps[1].image.as_ref().unwrap().data, vec![9, 9]);
}

#[test]
fn empty_draft_does_not_validate() {
    let draft = PreparationDraft::new("/static/uploads/old.jpg".to_string());
    assert_eq!(draft.form.validate(), Err("Preparation name cannot be empty".to_string()));
    assert_eq!(draft.picture_url, "/static/uploads/old.jpg");
    assert!(draft.steps.into_numbered().is_empty());
}

#[test]
fn login_with_the_right_password_issues_a_token() {
    let record = user();
    match login_at(Some(&record), "password", SECRET, 24, 1000) {
        LoginOutcome::LoggedIn { token } => {
            let claims = validate_token_at(&token, SECRET, 1000).unwrap();
            assert_eq!(claims.sub, "00000000-0000-0000-0000-00000000002a");
            assert_eq!(claims.username, "cook");
            assert_eq!(claims.exp, 1000 + 86400);
        }
        other => panic!("login failed: {:?}", other),
    }
    match login(Some(&record), "password", SECRET, 24) {
        LoginOutcome::LoggedIn { token } => assert!(validate_token(&token, SECRET).is_ok()),
        other => panic!("login failed: {:?}", other),
    }
}

#[test]
fn login_is_refused_without_saying_why() {
    let record = user();
    assert!(matches!(
        login_at(Some(&record), "wrong", SECRET, 24, 1000),
        LoginOutcome::InvalidCredentials
    ));
    assert!(matches!(login_at(None, "password", SECRET, 24, 1000), LoginOutcome::InvalidCredentials));
    assert_eq!(login_at(None, "password", SECRET, 24, 1000).status(), 401);
    assert_eq!(login_at(Some(&record), "wrong", SECRET, 24, 1000).status(), 401);
}

#[test]
fn login_failures_are_internal_errors() {
    let broken = UserRecord { id: 1, username: "x".to_string(), password_hash: "?".to_string() };
    let outcome = login_at(Some(&broken), "password", SECRET, 24, 1000);
    assert!(matches!(outcome, LoginOutcome::VerificationFailed));
    assert_eq!(outcome.status(), 500);
    let record = user();
    let outcome = login_at(Some(&record), "password", SECRET, 24, -1);
    assert!(matches!(outcome, LoginOutcome::TokenFailed));
    assert_eq!(outcome.status(), 500);
    assert_eq!(login_at(Some(&record), "password", SECRET, 24, 1).status(), 303);
}

#[test]
fn login_accepts_a_fresh_hash() {
    let hash = hash_password("hunter22").unwrap();
    let record = UserRecord { id: 3, username: "new".to_string(), password_hash: hash };
    assert!(matches!(
        login_at(Some(&record), "hunter22", SECRET, 1, 10),
        LoginOutcome::LoggedIn { .. }
    ));
}

#[test]
fn session_cookie_is_set_and_cleared() {
    let set = login_cookie("tok".to_string());
    assert_eq!(
        (set.name.as_str(), set.value.as_str(), set.path.as_str(), set.http_only, set.max_age),
        ("auth_token", "tok", "/", true, None)
    );
    let cleared = logout();
    assert_eq!(
        (
            cleared.name.as_str(),
            cleared.value.as_str(),
            cleared.path.as_str(),
            cleared.http_only,
            cleared.max_age
        ),
        ("auth_token", "", "/", true, Some(0))
    );
}

#[test]
fn saved_records_redirect_to_their_page() {
    assert_eq!(product_location(42), "/product/00000000-0000-0000-0000-00000000002a");
    assert_eq!(preparation_location(u128::MAX), "/preparation/ffffffff-ffff-ffff-ffff-ffffffffffff");
}

fn product_form(supplier: &str) -> NewProductForm {
    NewProductForm {
        supplier_name: supplier.to_string(),
        product_name: "Flour".to_string(),
        location: "Shelf 1".to_string(),
        description: "Plain".to_string(),
    }
}

#[test]
fn parts_are_read_stored_or_skipped() {
    assert_eq!(part_action("name", None, false), PartAction::ReadText(FieldKind::Name));
    assert_eq!(part_action("steps", None, true), PartAction::ReadText(FieldKind::Steps));
    assert_eq!(
        part_action("step_description_4", None, false),
        PartAction::ReadText(FieldKind::StepDescription(4))
    );
    assert_eq!(part_action("picture", Some("a.png"), false), PartAction::StorePicture);
    assert_eq!(part_action("picture", Some("a.PNG"), true), PartAction::StorePicture);
    assert_eq!(part_action("picture", Some("a.exe"), false), PartAction::Skip);
    assert_eq!(part_action("picture", Some(""), true), PartAction::Skip);
    assert_eq!(part_action("picture", None, false), PartAction::Skip);
    assert_eq!(part_action("step_image_2", Some("s.webp"), false), PartAction::KeepStepImage(2));
    assert_eq!(part_action("step_image_2", Some("s.txt"), false), PartAction::Skip);
    assert_eq!(part_action("step_image_2", None, true), PartAction::Skip);
    assert_eq!(part_action("step_image_x", Some("s.webp"), true), PartAction::Skip);
    assert_eq!(part_action("csrf", Some("a.png"), false), PartAction::Skip);
}

#[test]
fn empty_picture_is_not_stored_on_update() {
    assert!(stores_picture(false, 0));
    assert!(stores_picture(false, 10));
    assert!(!stores_picture(true, 0));
    assert!(stores_picture(true, 1));
}

#[test]
fn product_with_accepted_picture_is_saved() {
    match plan_new_product(&product_form("Mill"), Some(Some("photo.PNG"))) {
        ProductPlan::Save { picture } => assert_eq!(picture, PictureDecision::Store),
        other => panic!("refused: {:?}", other),
    }
    match plan_new_product(&product_form("Mill"), None) {
        ProductPlan::Save { picture } => assert_eq!(picture, PictureDecision::NoPicture),
        other => panic!("refused: {:?}", other),
    }
    match plan_product_update(&product_form("Mill"), Some(Some("payload.exe"))) {
        ProductPlan::Save { picture } => assert_eq!(picture, PictureDecision::KeepExisting),
        other => panic!("refused: {:?}", other),
    }
    match plan_product_update(&product_form("Mill"), Some(Some("new.jpg"))) {
        ProductPlan::Save { picture } => assert_eq!(picture, PictureDecision::Store),
        other => panic!("refused: {:?}", other),
    }
}

#[test]
fn product_with_other_file_is_refused_before_storing() {
    match plan_new_product(&product_form("Mill"), Some(Some("payload.exe"))) {
        ProductPlan::Refuse { message, plain } => {
            assert_eq!(message, "Invalid file type. Only JPG, PNG, and WEBP are allowed.");
            assert!(!plain);
        }
        other => panic!("accepted: {:?}", other),
    }
    match plan_new_product(&product_form("Mill"), Some(None)) {
        ProductPlan::Refuse { message, plain } => {
            assert_eq!(message, "Invalid file uploaded");
            assert!(plain);
        }
        other => panic!("accepted: {:?}", other),
    }
}

#[test]
fn form_is_validated_before_the_picture() {
    match plan_new_product(&product_form(" "), Some(Some("payload.exe"))) {
        ProductPlan::Refuse { message, plain } => {
            assert_eq!(message, "Supplier name cannot be empty");
            assert!(!plain);
        }
        other => panic!("accepted: {:?}", other),
    }
    match plan_product_update(&product_form(""), None) {
        ProductPlan::Refuse { message, .. } => assert_eq!(message, "Supplier name cannot be empty"),
        other => panic!("accepted: {:?}", other),
    }
}

#[test]
fn finished_draft_lists_renumbered_steps() {
    let mut draft = PreparationDraft::new("old.png".to_string());
    draft.set_text(FieldKind::Name, "Salad".to_string());
    draft.set_text(FieldKind::PrepType, "veg".to_string());
    draft.set_text(FieldKind::Shift, "both".to_string());
    draft.set_text(FieldKind::Location, "Bench".to_string());
    draft.set_text(FieldKind::Steps, "wash".to_string());
    draft.set_text(FieldKind::StepDescription(10), "b".to_string());
    draft.set_text(FieldKind::StepDescription(4), "a".to_string());
    let done = draft.finish().unwrap();
    assert_eq!(done.picture_url, "old.png");
    assert_eq!(done.form.prep_type, "veg");
    let listed: Vec<(usize, &str)> =
        done.steps.iter().map(|s| (s.step_number, s.description.as_str())).collect();
    assert_eq!(listed, vec![(1, "a"), (2, "b")]);
}

#[test]
fn unfinished_draft_is_refused_with_the_first_complaint() {
    let mut draft = PreparationDraft::new(String::new());
    draft.set_text(FieldKind::Name, "Salad".to_string());
    draft.set_text(FieldKind::PrepType, "soup".to_string());
    assert_eq!(draft.finish().unwrap_err(), "Invalid preparation type");
}

#[test]
fn login_outcomes_carry_their_message() {
    assert_eq!(LoginOutcome::InvalidCredentials.message(), Some("Invalid username or password"));
    assert_eq!(LoginOutcome::VerificationFailed.message(), Some("Authentication error"));
    assert_eq!(LoginOutcome::TokenFailed.message(), Some("Failed to generate token"));
    assert_eq!(LoginOutcome::LoggedIn { token: "t".to_string() }.message(), None);
}
