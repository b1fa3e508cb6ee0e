//! Uploaded pictures: what is accepted and where it is kept.

use vstd::prelude::*;
use vstd::string::*;
use crate::ids::fresh_id;
use crate::text::same_text;

verus! {

/// The bytes of a kilobyte.
pub const KB: usize = 1024;

/// The bytes of a megabyte.
pub const MB: usize = KB * 1024;

/// The largest upload that is accepted, in bytes.
pub const FILE_SIZE_LIMIT: usize = 25 * MB;

/// Why an upload was refused.
#[derive(Debug, Clone, Copy, PartialEq, Eq)]
pub enum UploadError {
    /// The form's first field is missing or is not named `file`.
    NoFileField,
    /// The file is larger than `FILE_SIZE_LIMIT`.
    TooBig,
}

impl UploadError {
    /// The HTTP status that reports the refusal: bad request.
    pub fn status(&self) -> (code: u16)
        ensures
            code == 400,
    {
        400
    }
}

/// The name that the form field with the picture has to carry.
pub open spec fn file_field() -> Seq<char> {
    seq!['f', 'i', 'l', 'e']
}

/// The directory and the file name prefix under which pictures are kept.
pub open spec fn picture_prefix() -> Seq<char> {
    seq!['c', 'o', 'n', 't', 'e', 'n', 't', '/', 'i', 'm', 'g', '-']
}

/// The path, below the server's working directory, of the picture with the
/// given id.
pub open spec fn picture_path_of(file_id: Seq<char>) -> Seq<char> {
    picture_prefix() + file_id
}

/// The address of the picture with the given id on the given server.
pub open spec fn picture_url_of(server: Seq<char>, file_id: Seq<char>) -> Seq<char> {
    server + seq!['/'] + picture_path_of(file_id)
}

/// Judges the first field of an upload form by its name and by whether its
/// bytes could be read within the size limit.
pub fn check_upload(field_name: Option<&String>, within_limit: bool) -> (verdict: Result<
    (),
    UploadError,
>)
    ensures
        verdict == match field_name {
            Some(name) if name@ == file_field() => if within_limit {
                Ok::<(), UploadError>(())
            } else {
                Err::<(), UploadError>(UploadError::TooBig)
            },
            _ => Err::<(), UploadError>(UploadError::NoFileField),
        },
{
    proof {
        reveal_strlit("file");
        assert("file"@ =~= file_field());
    }
    match field_name {
        Some(name) => {
            if !same_text(name, &String::from_str("file")) {
                Err(UploadError::NoFileField)
            } else if within_limit {
                Ok(())
            } else {
                Err(UploadError::TooBig)
            }
        },
        None => Err(UploadError::NoFileField),
    }
}

/// The path at which the picture with the given id is kept.
pub fn picture_path(file_id: &String) -> (path: String)
    ensures
        path@ == picture_path_of(file_id@),
{
    proof {
        reveal_strlit("content/img-");
        assert("content/img-"@ =~= picture_prefix());
    }
    String::from_str("content/img-").concat(file_id.as_str())
}

/// The address at which the server at `server` offers the picture with the
/// given id.
pub fn picture_url(server: &String, file_id: &String) -> (url: String)
    ensures
        url@ == picture_url_of(server@, file_id@),
{
    proof {
        reveal_strlit("/");
        assert("/"@ =~= seq!['/']);
    }
    let path = picture_path(file_id);
    server.clone().concat("/").concat(path.as_str())
}

/// Draws the id for a new picture and names the path to keep it at.
pub fn new_picture() -> (target: (String, String))
    ensures
        target.1@ == picture_path_of(target.0@),
{
    let file_id = fresh_id();
    let path = picture_path(&file_id);
    (file_id, path)
}

} // verus!
