//! Uploads: the name a file is stored under and the checks on its content.
use vstd::prelude::*;
use crate::api::auth::random_uuid_text;
use crate::errors::ApiError;
use crate::util::{file_content_error, validate_file_content};

verus! {

/// What `std::path::Path::file_name` gives for a path under the path rules
/// of the Unix-like systems the server runs on: its final component, or
/// `None` when the path ends in `..` or has no component.
pub uninterp spec fn final_component(path: Seq<char>) -> Option<Seq<char>>;

/// Calls `std::path::Path::file_name` on `name` and reads the component
/// back as text (it came from text, so it is valid UTF-8); the result is
/// the named component.
#[verifier::external_body]
fn path_file_name(name: &str) -> (r: Option<String>)
    ensures
        match r {
            Some(s) => final_component(name@) == Some(s@),
            None => final_component(name@) is None,
        },
{
    match std::path::Path::new(name).file_name() {
        Some(n) => match n.to_str() {
            Some(s) => Some(s.to_string()),
            None => None,
        },
        None => None,
    }
}

/// The name an uploaded file is known by: the final component of the name
/// the client gave, so that no directory can be named. A part without a
/// name, or with a name that has no final component, is refused.
pub fn upload_file_name(provided: Option<&str>) -> (r: Result<String, ApiError>)
    ensures
        match provided {
            None => r matches Err(e) && e.status_code == 500 && e.message@ == "No filename provided"@,
            Some(p) => match final_component(p@) {
                Some(n) => r matches Ok(s) && s@ == n,
                None => r matches Err(e) && e.status_code == 500 && e.message@ == "Invalid filename"@,
            },
        },
{
    match provided {
        None => Err(ApiError::new("No filename provided")),
        Some(p) => match path_file_name(p) {
            Some(n) => Ok(n),
            None => Err(ApiError::new("Invalid filename")),
        },
    }
}

/// A checked upload: the name it is stored under in the media directory,
/// its type, its size as stored and its public address.
pub struct MediaUpload {
    pub stored_name: String,
    pub mime_type: String,
    pub size: i32,
    pub url: String,
}

/// The upload of `content` under the file name `name` with the given type,
/// stored with the unique prefix `id`: the stored name is `{id}_{name}`, the
/// type defaults to `application/octet-stream`, the size is the byte count
/// as a 32-bit number (wrapping as a cast does) and the address is under
/// `/media/`. Content that does not match its type is refused.
pub open spec fn upload_result(id: Seq<char>, name: Seq<char>, mime: Option<Seq<char>>, content: Seq<u8>) -> Result<
    (Seq<char>, Seq<char>, i32, Seq<char>),
    Seq<char>,
> {
    match file_content_error(content, name) {
        Some(e) => Err("Invalid file: "@ + e),
        None => Ok(
            (
                id + "_"@ + name,
                match mime {
                    Some(m) => m,
                    None => "application/octet-stream"@,
                },
                content.len() as i32,
                "/media/"@ + id + "_"@ + name,
            ),
        ),
    }
}

/// The view of an upload.
pub open spec fn upload_view(u: MediaUpload) -> (Seq<char>, Seq<char>, i32, Seq<char>) {
    (u.stored_name@, u.mime_type@, u.size, u.url@)
}

/// Whether `r` answers the upload as [`upload_result`] says.
pub open spec fn answers_upload(
    r: Result<MediaUpload, ApiError>,
    id: Seq<char>,
    name: Seq<char>,
    mime: Option<Seq<char>>,
    content: Seq<u8>,
) -> bool {
    match upload_result(id, name, mime, content) {
        Ok(v) => r matches Ok(u) && upload_view(u) == v,
        Err(m) => r matches Err(e) && e.status_code == 500 && e.message@ == m,
    }
}

/// The view of an optional text slice.
pub open spec fn opt_str_view(o: Option<&str>) -> Option<Seq<char>> {
    match o {
        Some(m) => Some(m@),
        None => None,
    }
}

/// Checks and names an upload with the unique prefix `id`, as
/// [`upload_result`] says.
pub fn prepare_upload_with_id(id: &str, name: &str, mime: Option<&str>, content: &[u8]) -> (r: Result<MediaUpload, ApiError>)
    ensures
        answers_upload(r, id@, name@, opt_str_view(mime), content@),
{
    match validate_file_content(content, name) {
        Err(e) => {
            let mut m = String::new();
            m.append("Invalid file: ");
            m.append(e.as_str());
            Err(ApiError { message: m, status_code: 500 })
        },
        Ok(()) => {
            let mut stored = String::new();
            stored.append(id);
            stored.append("_");
            stored.append(name);
            let mut url = String::new();
            url.append("/media/");
            url.append(stored.as_str());
            let mime_type = match mime {
                Some(m) => String::from_str(m),
                None => String::from_str("application/octet-stream"),
            };
            let n: usize = content.len();
            let size = n as i32;
            assert(size == (n as int) as i32);
            assert(url@ =~= "/media/"@ + id@ + "_"@ + name@);
            assert(size == content@.len() as i32);
            Ok(MediaUpload { stored_name: stored, mime_type, size, url })
        },
    }
}

/// Checks and names an upload under a fresh random prefix (a version-4
/// UUID): the result is that of [`prepare_upload_with_id`] for some prefix
/// of 36 characters.
pub fn prepare_upload(name: &str, mime: Option<&str>, content: &[u8]) -> (r: Result<MediaUpload, ApiError>)
    ensures
        exists|id: Seq<char>| id.len() == 36 && #[trigger] answers_upload(r, id, name@, opt_str_view(mime), content@),
{
    let id = random_uuid_text();
    let r = prepare_upload_with_id(id.as_str(), name, mime, content);
    assert(answers_upload(r, id@, name@, opt_str_view(mime), content@));
    r
}

}
