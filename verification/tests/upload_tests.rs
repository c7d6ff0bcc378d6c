use kitchen_guide::utils::{
    blob_file_name, check_file_size, configured_upload_dir, content_type_for, finish_store, get_content_type,
    is_image_extension, is_valid_image_extension, local_url, object_key, object_url,
    plan_local_save, plan_new_local_save, plan_new_store, plan_store, stored_file_name, uses_object_store,
    StorageBackend, StorageError,
    StoreEvent, StorePlan,
};

const ID: u128 = 0x67e55044_10b1_426f_9247_bb680e5fe0c8;
const ID_TEXT: &str = "67e55044-10b1-426f-9247-bb680e5fe0c8";

fn local() -> StorageBackend {
    StorageBackend::Local { upload_dir: "./static/uploads".to_string() }
}

fn bucket() -> StorageBackend {
    StorageBackend::ObjectStore {
        bucket: "kitchen-hand-guide".to_string(),
        region: "ap-southeast-2".to_string(),
    }
}

fn url_of(plan: &StorePlan) -> String {
    match plan {
        StorePlan::Local { url, .. } => url.clone(),
        StorePlan::Object { url, .. } => url.clone(),
    }
}

#[test]
fn image_extensions_are_accepted_without_regard_to_case() {
    assert!(is_valid_image_extension("photo.PNG"));
    assert!(is_valid_image_extension("photo.png"));
    assert!(is_valid_image_extension("a.jpg"));
    assert!(is_valid_image_extension("a.JPEG"));
    assert!(is_valid_image_extension("a.WebP"));
    assert!(is_valid_image_extension("dir/a.b.jpeg"));
}

#[test]
fn other_files_are_rejected() {
    assert!(!is_valid_image_extension("payload.exe"));
    assert!(!is_valid_image_extension("photo"));
    assert!(!is_valid_image_extension(""));
    assert!(!is_valid_image_extension(".png"));
    assert!(!is_valid_image_extension("photo.png.exe"));
    assert!(!is_valid_image_extension("photo.gif"));
    assert!(!is_valid_image_extension("png"));
}

#[test]
fn lower_case_extensions_are_matched_exactly() {
    assert!(is_image_extension("jpg"));
    assert!(is_image_extension("jpeg"));
    assert!(is_image_extension("png"));
    assert!(is_image_extension("webp"));
    assert!(!is_image_extension("PNG"));
    assert!(!is_image_extension(""));
    assert!(!is_image_extension("gif"));
}

#[test]
fn file_size_is_checked_against_the_limit() {
    assert_eq!(check_file_size(0, 0), Ok(()));
    assert_eq!(check_file_size(10, 10), Ok(()));
    assert_eq!(check_file_size(9, 10), Ok(()));
    assert_eq!(
        check_file_size(11, 10),
        Err("File size (11 bytes) exceeds maximum allowed size (10 bytes)".to_string())
    );
    assert_eq!(
        check_file_size(20971521, 20971520),
        Err("File size (20971521 bytes) exceeds maximum allowed size (20971520 bytes)".to_string())
    );
    assert_eq!(
        check_file_size(usize::MAX, 0),
        Err(format!("File size ({} bytes) exceeds maximum allowed size (0 bytes)", usize::MAX))
    );
}

#[test]
fn content_type_follows_the_extension() {
    assert_eq!(get_content_type("a.jpg"), "image/jpeg");
    assert_eq!(get_content_type("a.JPEG"), "image/jpeg");
    assert_eq!(get_content_type("a.png"), "image/png");
    assert_eq!(get_content_type("a.Webp"), "image/webp");
    assert_eq!(get_content_type("a.gif"), "application/octet-stream");
    assert_eq!(get_content_type("a"), "application/octet-stream");
    assert_eq!(get_content_type(""), "application/octet-stream");
    assert_eq!(content_type_for("jpg"), "image/jpeg");
    assert_eq!(content_type_for("JPG"), "application/octet-stream");
}

#[test]
fn blob_is_named_after_identifier_and_extension() {
    assert_eq!(stored_file_name(ID, "photo.PNG"), format!("{}.PNG", ID_TEXT));
    assert_eq!(stored_file_name(ID, "photo"), format!("{}.jpg", ID_TEXT));
    assert_eq!(stored_file_name(ID, "a/b.c.webp"), format!("{}.webp", ID_TEXT));
    assert_eq!(stored_file_name(0, ""), "00000000-0000-0000-0000-000000000000.jpg");
}

#[test]
fn urls_are_built_from_their_parts() {
    assert_eq!(local_url("x.jpg"), "/static/uploads/x.jpg");
    assert_eq!(object_key("x.jpg"), "uploads/x.jpg");
    assert_eq!(
        object_url("kitchen-hand-guide", "ap-southeast-2", "uploads/x.jpg"),
        "https://kitchen-hand-guide.s3.ap-southeast-2.amazonaws.com/uploads/x.jpg"
    );
}

#[test]
fn local_plan_names_directory_file_and_url() {
    match plan_store(&local(), "photo.png", ID) {
        StorePlan::Local { directory, file_name, url } => {
            assert_eq!(directory, "./static/uploads");
            assert_eq!(file_name, format!("{}.png", ID_TEXT));
            assert_eq!(url, format!("/static/uploads/{}.png", ID_TEXT));
        }
        StorePlan::Object { .. } => panic!("a local backend planned an object"),
    }
}

#[test]
fn object_plan_names_bucket_key_type_and_url() {
    match plan_store(&bucket(), "photo.PNG", ID) {
        StorePlan::Object { bucket, key, content_type, url } => {
            assert_eq!(bucket, "kitchen-hand-guide");
            assert_eq!(key, format!("uploads/{}.PNG", ID_TEXT));
            assert_eq!(content_type, "image/png");
            assert_eq!(
                url,
                format!(
                    "https://kitchen-hand-guide.s3.ap-southeast-2.amazonaws.com/uploads/{}.PNG",
                    ID_TEXT
                )
            );
        }
        StorePlan::Local { .. } => panic!("an object backend planned a local file"),
    }
}

#[test]
fn adapter_does_not_check_the_extension() {
    match plan_store(&bucket(), "payload.exe", ID) {
        StorePlan::Object { key, content_type, .. } => {
            assert_eq!(key, format!("uploads/{}.exe", ID_TEXT));
            assert_eq!(content_type, "application/octet-stream");
        }
        StorePlan::Local { .. } => panic!("an object backend planned a local file"),
    }
}

#[test]
fn storing_twice_gives_two_urls() {
    let first = url_of(&plan_new_store(&local(), "photo.png"));
    let second = url_of(&plan_new_store(&local(), "photo.png"));
    assert_ne!(first, second);
    assert!(first.starts_with("/static/uploads/"));
    assert!(first.ends_with(".png"));
    assert_eq!(first.len(), "/static/uploads/".len() + 36 + 4);
    assert_ne!(url_of(&plan_store(&local(), "a.png", 1)), url_of(&plan_store(&local(), "a.png", 2)));
}

#[test]
fn store_ends_in_url_or_failure() {
    let url = url_of(&plan_store(&local(), "a.png", ID));
    assert_eq!(finish_store(plan_store(&local(), "a.png", ID), StoreEvent::Stored), Ok(url));
    assert_eq!(
        finish_store(plan_store(&local(), "a.png", ID), StoreEvent::DirectoryFailed),
        Err(StorageError::StorageUnavailable)
    );
    assert_eq!(
        finish_store(plan_store(&bucket(), "a.png", ID), StoreEvent::UploadFailed),
        Err(StorageError::StorageUnavailable)
    );
    assert_eq!(
        finish_store(plan_store(&local(), "a.png", ID), StoreEvent::WriteFailed),
        Err(StorageError::WriteFailed)
    );
}

#[test]
fn saved_upload_takes_the_extension_of_the_clean_name() {
    match plan_local_save("up", "pho:to.png", ID) {
        StorePlan::Local { directory, file_name, url } => {
            assert_eq!(directory, "up");
            assert_eq!(file_name, format!("{}.png", ID_TEXT));
            assert_eq!(url, format!("/static/uploads/{}.png", ID_TEXT));
        }
        StorePlan::Object { .. } => panic!("a local save planned an object"),
    }
    match plan_local_save("up", "a.p/ng", ID) {
        StorePlan::Local { file_name, .. } => assert_eq!(file_name, format!("{}.png", ID_TEXT)),
        StorePlan::Object { .. } => panic!("a local save planned an object"),
    }
}

#[test]
fn saved_uploads_get_names_of_their_own() {
    let first = url_of(&plan_new_local_save("up", "a.png"));
    let second = url_of(&plan_new_local_save("up", "a.png"));
    assert_ne!(first, second);
    assert!(first.starts_with("/static/uploads/"));
    assert!(first.ends_with(".png"));
}

#[test]
fn object_store_is_switched_on_by_the_word_true() {
    assert!(uses_object_store(Some("true")));
    assert!(!uses_object_store(Some("false")));
    assert!(!uses_object_store(Some("TRUE")));
    assert!(!uses_object_store(Some("1")));
    assert!(!uses_object_store(Some("")));
    assert!(!uses_object_store(None));
}

#[test]
fn backend_takes_defaults_for_absent_settings() {
    match StorageBackend::from_settings(None, None, None, None) {
        StorageBackend::Local { upload_dir } => assert_eq!(upload_dir, "./static/uploads"),
        other => panic!("unexpected backend: {:?}", other),
    }
    match StorageBackend::from_settings(Some("yes"), Some("b"), Some("r"), Some("/data")) {
        StorageBackend::Local { upload_dir } => assert_eq!(upload_dir, "/data"),
        other => panic!("unexpected backend: {:?}", other),
    }
    match StorageBackend::from_settings(Some("true"), None, None, Some("/data")) {
        StorageBackend::ObjectStore { bucket, region } => {
            assert_eq!(bucket, "kitchen-hand-guide");
            assert_eq!(region, "ap-southeast-2");
        }
        other => panic!("unexpected backend: {:?}", other),
    }
    match StorageBackend::from_settings(Some("true"), Some("b"), Some("eu-west-1"), None) {
        StorageBackend::ObjectStore { bucket, region } => {
            assert_eq!(bucket, "b");
            assert_eq!(region, "eu-west-1");
        }
        other => panic!("unexpected backend: {:?}", other),
    }
}

#[test]
fn upload_directory_has_a_default() {
    assert_eq!(configured_upload_dir(None), "./static/uploads");
    assert_eq!(configured_upload_dir(Some("/srv/up")), "/srv/up");
    assert_eq!(configured_upload_dir(Some("")), "");
}

#[test]
fn blob_without_extension_is_a_jpg() {
    assert_eq!(blob_file_name("abc", Some("png")), "abc.png");
    assert_eq!(blob_file_name("abc", Some("")), "abc.");
    assert_eq!(blob_file_name("abc", None), "abc.jpg");
    assert_eq!(blob_file_name("", None), ".jpg");
}
