//! Upload rules: which file names are accepted, how a stored blob is named,
//! and where each storage backend puts it.

use crate::ids::{fresh_uuid, uuid_text, uuid_to_text};
use crate::text::{
    decimal_string, decimal_text, lowercase_of, opt_str_view, str_eq, to_lowercase,
};
use vstd::prelude::*;

verus! {

/// The extension of a file name as `std::path::Path::extension` finds it,
/// with the path syntax of the platform the library is built for: the part of
/// the final path component after its last dot, if that component has a dot
/// that is not its first character.
pub uninterp spec fn extension_of(filename: Seq<char>) -> Option<Seq<char>>;

/// Trusted: `std::path::Path::extension` on a path made from the string. The
/// result is named, not described.
#[verifier::external_body]
fn path_extension(filename: &str) -> (r: Option<String>)
    ensures
        match r {
            Some(e) => extension_of(filename@) == Some(e@),
            None => extension_of(filename@) is None,
        },
{
    match std::path::Path::new(filename).extension() {
        Some(e) => e.to_str().map(String::from),
        None => None,
    }
}

/// A file name as `sanitize_filename::sanitize` cleans it, with the default
/// options of the platform the library is built for.
pub uninterp spec fn sanitized_name(filename: Seq<char>) -> Seq<char>;

/// Trusted: `sanitize_filename::sanitize`. The result is named, not
/// described.
#[verifier::external_body]
fn sanitize(filename: &str) -> (r: String)
    ensures
        r@ == sanitized_name(filename@),
{
    sanitize_filename::sanitize(filename)
}

/// The image extensions that uploads may carry, in lower case.
pub open spec fn is_image_ext(ext: Seq<char>) -> bool {
    ext == "jpg"@ || ext == "jpeg"@ || ext == "png"@ || ext == "webp"@
}

/// Whether a lower-case extension is one of `jpg`, `jpeg`, `png`, `webp`.
pub fn is_image_extension(ext: &str) -> (r: bool)
    ensures
        r == is_image_ext(ext@),
{
    str_eq(ext, "jpg") || str_eq(ext, "jpeg") || str_eq(ext, "png") || str_eq(ext, "webp")
}

/// A file name is accepted when it has an extension that is, without regard
/// to case, an image extension.
pub open spec fn valid_image_name(filename: Seq<char>) -> bool {
    match extension_of(filename) {
        Some(e) => is_image_ext(lowercase_of(e)),
        None => false,
    }
}

/// Whether an uploaded file's name carries an accepted image extension.
pub fn is_valid_image_extension(filename: &str) -> (r: bool)
    ensures
        r == valid_image_name(filename@),
{
    match path_extension(filename) {
        Some(ext) => {
            let lower = to_lowercase(ext.as_str());
            is_image_extension(lower.as_str())
        },
        None => false,
    }
}

/// The message for a file that is larger than allowed.
pub open spec fn size_message(size: nat, max_size: nat) -> Seq<char> {
    "File size ("@ + decimal_text(size) + " bytes) exceeds maximum allowed size ("@ + decimal_text(
        max_size,
    ) + " bytes)"@
}

/// Accepts a file of `size` bytes under a limit of `max_size` bytes.
pub fn check_file_size(size: usize, max_size: usize) -> (r: Result<(), String>)
    ensures
        size <= max_size ==> r is Ok,
        size > max_size ==> r is Err && r->Err_0@ == size_message(size as nat, max_size as nat),
{
    if size > max_size {
        let message = String::from_str("File size (").concat(
            decimal_string(size).as_str(),
        ).concat(" bytes) exceeds maximum allowed size (").concat(
            decimal_string(max_size).as_str(),
        ).concat(" bytes)");
        return Err(message);
    }
    Ok(())
}

/// The content type for a lower-case extension.
pub open spec fn content_type_of(ext: Seq<char>) -> Seq<char> {
    if ext == "jpg"@ || ext == "jpeg"@ {
        "image/jpeg"@
    } else if ext == "png"@ {
        "image/png"@
    } else if ext == "webp"@ {
        "image/webp"@
    } else {
        "application/octet-stream"@
    }
}

/// The content type announced for a lower-case extension.
pub fn content_type_for(ext: &str) -> (r: &'static str)
    ensures
        r@ == content_type_of(ext@),
{
    if str_eq(ext, "jpg") || str_eq(ext, "jpeg") {
        "image/jpeg"
    } else if str_eq(ext, "png") {
        "image/png"
    } else if str_eq(ext, "webp") {
        "image/webp"
    } else {
        "application/octet-stream"
    }
}

/// The content type of a file name: that of its extension in lower case, or
/// of the empty extension where it has none.
pub open spec fn content_type_of_name(filename: Seq<char>) -> Seq<char> {
    match extension_of(filename) {
        Some(e) => content_type_of(lowercase_of(e)),
        None => content_type_of(lowercase_of(Seq::empty())),
    }
}

/// The content type announced for an uploaded file.
pub fn get_content_type(filename: &str) -> (r: &'static str)
    ensures
        r@ == content_type_of_name(filename@),
{
    let lower = match path_extension(filename) {
        Some(ext) => to_lowercase(ext.as_str()),
        None => to_lowercase(""),
    };
    proof {
        reveal_strlit("");
        assert(""@ =~= Seq::<char>::empty());
    }
    content_type_for(lower.as_str())
}

/// The extension a stored blob gets: that of the uploaded file's name, `jpg`
/// where the name has none.
pub open spec fn stored_extension(filename: Seq<char>) -> Seq<char> {
    match extension_of(filename) {
        Some(e) => e,
        None => "jpg"@,
    }
}

/// Name of a stored blob: the identifier's text, a dot, the extension.
pub open spec fn blob_name(id_text: Seq<char>, ext: Seq<char>) -> Seq<char> {
    id_text + "."@ + ext
}

/// URL under which a locally stored blob is served.
pub open spec fn local_url_of(file_name: Seq<char>) -> Seq<char> {
    "/static/uploads/"@ + file_name
}

/// Key of a blob in the object store.
pub open spec fn object_key_of(file_name: Seq<char>) -> Seq<char> {
    "uploads/"@ + file_name
}

/// Public URL of an object.
pub open spec fn object_url_of(bucket: Seq<char>, region: Seq<char>, key: Seq<char>) -> Seq<char> {
    "https://"@ + bucket + ".s3."@ + region + ".amazonaws.com/"@ + key
}

/// Name of a blob from the text of its identifier and the extension found in
/// the uploaded file's name: without an extension the blob is a `jpg`.
pub fn blob_file_name(id_text: &str, extension: Option<&str>) -> (r: String)
    ensures
        r@ == blob_name(
            id_text@,
            match extension {
                Some(e) => e@,
                None => "jpg"@,
            },
        ),
{
    let name = String::from_str(id_text).concat(".");
    match extension {
        Some(e) => name.concat(e),
        None => name.concat("jpg"),
    }
}

/// Names the blob stored for an upload under the identifier `id`.
pub fn stored_file_name(id: u128, filename: &str) -> (r: String)
    ensures
        r@ == blob_name(uuid_text(id), stored_extension(filename@)),
{
    let id_text = uuid_to_text(id);
    match path_extension(filename) {
        Some(ext) => blob_file_name(id_text.as_str(), Some(ext.as_str())),
        None => blob_file_name(id_text.as_str(), None),
    }
}

/// URL under which a locally stored blob is served.
pub fn local_url(file_name: &str) -> (r: String)
    ensures
        r@ == local_url_of(file_name@),
{
    String::from_str("/static/uploads/").concat(file_name)
}

/// Key of a blob in the object store.
pub fn object_key(file_name: &str) -> (r: String)
    ensures
        r@ == object_key_of(file_name@),
{
    String::from_str("uploads/").concat(file_name)
}

/// Public URL of an object in a bucket of a region.
pub fn object_url(bucket: &str, region: &str, key: &str) -> (r: String)
    ensures
        r@ == object_url_of(bucket@, region@, key@),
{
    String::from_str("https://").concat(bucket).concat(".s3.").concat(region).concat(
        ".amazonaws.com/",
    ).concat(key)
}

/// Where uploads are stored.
#[derive(Debug, Clone)]
pub enum StorageBackend {
    /// A directory on the local disk, served under `/static/uploads/`.
    Local { upload_dir: String },
    /// A bucket of the object store in a region.
    ObjectStore { bucket: String, region: String },
}

/// Bucket used where none is configured.
pub open spec fn default_bucket() -> Seq<char> {
    "kitchen-hand-guide"@
}

/// Region used where none is configured.
pub open spec fn default_region() -> Seq<char> {
    "ap-southeast-2"@
}

/// Upload directory used where none is configured.
pub open spec fn default_upload_dir() -> Seq<char> {
    "./static/uploads"@
}

/// A setting, or its default where it is absent.
pub open spec fn or_default(setting: Option<Seq<char>>, default: Seq<char>) -> Seq<char> {
    match setting {
        Some(s) => s,
        None => default,
    }
}

/// The object store is used exactly when the switch is set to the word
/// `true`.
pub open spec fn object_store_enabled(switch: Option<Seq<char>>) -> bool {
    switch == Some("true"@)
}

/// Whether the configuration selects the object store.
pub fn uses_object_store(switch: Option<&str>) -> (r: bool)
    ensures
        r == object_store_enabled(opt_str_view(switch)),
{
    match switch {
        Some(s) => str_eq(s, "true"),
        None => false,
    }
}

/// A setting as an owned string, or its default where it is absent.
fn setting_or(setting: Option<&str>, default: &'static str) -> (r: String)
    ensures
        r@ == or_default(opt_str_view(setting), default@),
{
    match setting {
        Some(s) => String::from_str(s),
        None => String::from_str(default),
    }
}

/// The directory for local uploads: the setting, or `./static/uploads` where
/// it is absent.
pub fn configured_upload_dir(setting: Option<&str>) -> (r: String)
    ensures
        r@ == or_default(opt_str_view(setting), default_upload_dir()),
{
    setting_or(setting, "./static/uploads")
}

/// Whether `backend` is the one that the settings select.
pub open spec fn is_configured_backend(
    backend: StorageBackend,
    switch: Option<Seq<char>>,
    bucket: Option<Seq<char>>,
    region: Option<Seq<char>>,
    upload_dir: Option<Seq<char>>,
) -> bool {
    match backend {
        StorageBackend::ObjectStore { bucket: b, region: g } => {
            &&& object_store_enabled(switch)
            &&& b@ == or_default(bucket, default_bucket())
            &&& g@ == or_default(region, default_region())
        },
        StorageBackend::Local { upload_dir: d } => {
            &&& !object_store_enabled(switch)
            &&& d@ == or_default(upload_dir, default_upload_dir())
        },
    }
}

impl StorageBackend {
    /// Chooses the backend from the configuration, once, at start-up: the
    /// object store where the switch says `true`, the local disk otherwise.
    /// A setting that is absent takes its default.
    pub fn from_settings(
        switch: Option<&str>,
        bucket: Option<&str>,
        region: Option<&str>,
        upload_dir: Option<&str>,
    ) -> (r: StorageBackend)
        ensures
            is_configured_backend(
                r,
                opt_str_view(switch),
                opt_str_view(bucket),
                opt_str_view(region),
                opt_str_view(upload_dir),
            ),
    {
        if uses_object_store(switch) {
            StorageBackend::ObjectStore {
                bucket: setting_or(bucket, "kitchen-hand-guide"),
                region: setting_or(region, "ap-southeast-2"),
            }
        } else {
            StorageBackend::Local { upload_dir: configured_upload_dir(upload_dir) }
        }
    }
}

/// What has to be done to store one upload, and the URL it will have.
#[derive(Debug, Clone)]
pub enum StorePlan {
    /// Make sure `directory` exists and write the bytes to `file_name` in it.
    Local { directory: String, file_name: String, url: String },
    /// Put the bytes under `key` in `bucket` with the given content type.
    Object { bucket: String, key: String, content_type: String, url: String },
}

/// How carrying out a plan ended.
#[derive(Clone, Copy, Debug, PartialEq, Eq, Structural)]
pub enum StoreEvent {
    /// The blob is stored.
    Stored,
    /// The upload directory could not be created.
    DirectoryFailed,
    /// The object store could not be reached or refused the request.
    UploadFailed,
    /// The bytes could not be written in full.
    WriteFailed,
}

/// Failures of the storage adapter.
#[derive(Clone, Copy, Debug, PartialEq, Eq, Structural)]
pub enum StorageError {
    StorageUnavailable,
    WriteFailed,
}

impl StorePlan {
    /// The URL that the blob will have once stored.
    pub open spec fn url_view(&self) -> Seq<char> {
        match self {
            StorePlan::Local { url, .. } => url@,
            StorePlan::Object { url, .. } => url@,
        }
    }
}

/// Whether `plan` is the plan for storing `filename` under `id` on `backend`.
pub open spec fn is_plan_for(
    plan: StorePlan,
    backend: StorageBackend,
    filename: Seq<char>,
    id: u128,
) -> bool {
    let name = blob_name(uuid_text(id), stored_extension(filename));
    match backend {
        StorageBackend::Local { upload_dir } => {
            &&& plan matches StorePlan::Local { directory, file_name, url }
            &&& directory@ == upload_dir@
            &&& file_name@ == name
            &&& url@ == local_url_of(name)
        },
        StorageBackend::ObjectStore { bucket: b, region } => {
            &&& plan matches StorePlan::Object { bucket, key, content_type, url }
            &&& bucket@ == b@
            &&& key@ == object_key_of(name)
            &&& content_type@ == content_type_of_name(filename)
            &&& url@ == object_url_of(b@, region@, object_key_of(name))
        },
    }
}

/// Plans the storing of an upload under a given identifier. The file name is
/// not checked here: it only gives the extension and the content type.
pub fn plan_store(backend: &StorageBackend, filename: &str, id: u128) -> (r: StorePlan)
    ensures
        is_plan_for(r, *backend, filename@, id),
{
    let file_name = stored_file_name(id, filename);
    match backend {
        StorageBackend::Local { upload_dir } => {
            let url = local_url(file_name.as_str());
            StorePlan::Local { directory: upload_dir.clone(), file_name, url }
        },
        StorageBackend::ObjectStore { bucket, region } => {
            let key = object_key(file_name.as_str());
            let url = object_url(bucket.as_str(), region.as_str(), key.as_str());
            StorePlan::Object {
                bucket: bucket.clone(),
                key,
                content_type: String::from_str(get_content_type(filename)),
                url,
            }
        },
    }
}

/// Whether `plan` is the plan for saving `filename` under `id` in a local
/// directory: the extension is taken from the sanitised file name.
pub open spec fn is_local_save(
    plan: StorePlan,
    upload_dir: Seq<char>,
    filename: Seq<char>,
    id: u128,
) -> bool {
    let name = blob_name(uuid_text(id), stored_extension(sanitized_name(filename)));
    &&& plan matches StorePlan::Local { directory, file_name, url }
    &&& directory@ == upload_dir
    &&& file_name@ == name
    &&& url@ == local_url_of(name)
}

/// Plans the saving of an uploaded file in a local directory under a given
/// identifier.
pub fn plan_local_save(upload_dir: &str, filename: &str, id: u128) -> (r: StorePlan)
    ensures
        is_local_save(r, upload_dir@, filename@, id),
{
    let clean = sanitize(filename);
    let file_name = stored_file_name(id, clean.as_str());
    let url = local_url(file_name.as_str());
    StorePlan::Local { directory: String::from_str(upload_dir), file_name, url }
}

/// Plans the saving of an uploaded file in a local directory under a new
/// random identifier.
pub fn plan_new_local_save(upload_dir: &str, filename: &str) -> (r: StorePlan)
    ensures
        exists|id: u128| #[trigger] is_local_save(r, upload_dir@, filename@, id),
{
    let id = fresh_uuid();
    plan_local_save(upload_dir, filename, id)
}

/// Plans the storing of an upload under a new random identifier.
pub fn plan_new_store(backend: &StorageBackend, filename: &str) -> (r: StorePlan)
    ensures
        exists|id: u128| #[trigger] is_plan_for(r, *backend, filename@, id),
{
    let id = fresh_uuid();
    plan_store(backend, filename, id)
}

/// Result of a store once its plan has been carried out.
pub open spec fn store_result(url: Seq<char>, event: StoreEvent) -> Result<Seq<char>, StorageError> {
    match event {
        StoreEvent::Stored => Ok(url),
        StoreEvent::DirectoryFailed => Err(StorageError::StorageUnavailable),
        StoreEvent::UploadFailed => Err(StorageError::StorageUnavailable),
        StoreEvent::WriteFailed => Err(StorageError::WriteFailed),
    }
}

/// Turns the end of a store into its result: the URL where the blob was
/// stored, the failure otherwise.
pub fn finish_store(plan: StorePlan, event: StoreEvent) -> (r: Result<String, StorageError>)
    ensures
        match r {
            Ok(url) => store_result(plan.url_view(), event) == Ok::<Seq<char>, StorageError>(url@),
            Err(e) => store_result(plan.url_view(), event) == Err::<Seq<char>, StorageError>(e),
        },
{
    match event {
        StoreEvent::Stored => match plan {
            StorePlan::Local { url, .. } => Ok(url),
            StorePlan::Object { url, .. } => Ok(url),
        },
        StoreEvent::DirectoryFailed => Err(StorageError::StorageUnavailable),
        StoreEvent::UploadFailed => Err(StorageError::StorageUnavailable),
        StoreEvent::WriteFailed => Err(StorageError::WriteFailed),
    }
}

/// Identifier texts all have one length. Blobs named after two different ones
/// are served under different URLs, whatever their extensions.
pub proof fn distinct_ids_give_distinct_urls(
    id_a: Seq<char>,
    id_b: Seq<char>,
    ext_a: Seq<char>,
    ext_b: Seq<char>,
)
    requires
        id_a != id_b,
        id_a.len() == id_b.len(),
    ensures
        local_url_of(blob_name(id_a, ext_a)) != local_url_of(blob_name(id_b, ext_b)),
{
    let a = local_url_of(blob_name(id_a, ext_a));
    let b = local_url_of(blob_name(id_b, ext_b));
    let p = "/static/uploads/"@;
    if a == b {
        assert forall|i: int| 0 <= i < id_a.len() implies id_a[i] == id_b[i] by {
            assert(a[p.len() + i] == id_a[i]);
            assert(b[p.len() + i] == id_b[i]);
        }
        assert(id_a =~= id_b);
    }
}

} // verus!
