//! The upload endpoint's decisions.
//!
//! Each part of an upload must name a file; the file is stored under the
//! upload folder and the path of the last stored file is returned. The
//! storage call stays with the caller; where a part's file goes, and what
//! each outcome means, is decided here.

use vstd::prelude::*;

verus! {

/// Why an upload request fails.
#[derive(Debug, Clone, Copy, PartialEq, Eq, Structural)]
pub enum UploadError {
    /// A part arrived without a file name.
    MissingFileName,
    /// The request carried no file at all.
    NoFile,
}

/// The storage path for one part: the upload folder and the part's file
/// name; a part without a file name is refused.
pub fn upload_path(file_name: Option<String>) -> (r: Result<String, UploadError>)
    ensures
        file_name matches Some(name) ==> r matches Ok(path) && path@ == "folder/"@ + name@,
        file_name is None ==> r == Err::<String, UploadError>(UploadError::MissingFileName),
{
    match file_name {
        Some(name) => {
            let mut path: String = "folder/".to_owned();
            path.append(name.as_str());
            Ok(path)
        },
        None => Err(UploadError::MissingFileName),
    }
}

/// What the endpoint answers once every part is stored: the path of the
/// last stored file, or a refusal when there was none.
pub fn upload_response(last_stored: Option<String>) -> (r: Result<String, UploadError>)
    ensures
        last_stored matches Some(path) ==> r == Ok::<String, UploadError>(path),
        last_stored is None ==> r == Err::<String, UploadError>(UploadError::NoFile),
{
    match last_stored {
        Some(path) => Ok(path),
        None => Err(UploadError::NoFile),
    }
}

} // verus!
