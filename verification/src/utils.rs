//! Which files the browser opens.

use crate::errors::PeakError;
use std::path::PathBuf;
use vstd::prelude::*;

verus! {

/// `std::path::PathBuf`.
#[verifier::external_type_specification]
#[verifier::external_body]
pub struct ExPathBuf(PathBuf);

/// The extension of a path as `Path::extension` gives it: the part of the
/// file name behind its last dot, without the dot, if the file name has
/// one. Bytes that are no UTF-8 are replaced as `to_string_lossy` does.
pub uninterp spec fn path_extension(path: PathBuf) -> Option<Seq<char>>;

/// Calls `Path::extension`. Trusted: the result is the value that
/// `path_extension` names, so it depends on the path alone; and, being what
/// stands behind the last dot of the file name, it holds no dot.
#[verifier::external_body]
fn extension_of(path: &PathBuf) -> (extension: Option<String>)
    ensures
        match extension {
            Some(text) => path_extension(*path) == Some(text@),
            None => path_extension(*path) is None,
        },
        extension matches Some(text) ==> !text@.contains('.'),
{
    match path.extension() {
        Some(extension) => Some(extension.to_string_lossy().into_owned()),
        None => None,
    }
}

/// Whether `extension` is the one that marks a file of the columnar format:
/// `parquet`, in lower case.
pub open spec fn is_columnar(extension: Seq<char>) -> bool {
    extension == "parquet"@
}

/// Tells whether `extension` is the one that marks a file of the columnar
/// format.
pub fn is_columnar_extension(extension: &String) -> (ok: bool)
    ensures
        ok == is_columnar(extension@),
{
    *extension == String::from_str("parquet")
}

/// Tells whether the file at `path` may be opened: whether its extension is
/// `parquet`.
pub fn validate_extension(path: &PathBuf) -> (valid: bool)
    ensures
        valid == (path_extension(*path) == Some("parquet"@)),
{
    match extension_of(path) {
        Some(extension) => is_columnar_extension(&extension),
        None => false,
    }
}

/// Refuses the file at `path` with `UnsupportedFileType` unless it may be
/// opened.
pub fn check_extension(path: &PathBuf) -> (checked: Result<(), PeakError>)
    ensures
        checked is Ok <==> path_extension(*path) == Some("parquet"@),
        checked is Err ==> checked == Err::<(), PeakError>(PeakError::UnsupportedFileType),
{
    if validate_extension(path) {
        Ok(())
    } else {
        Err(PeakError::UnsupportedFileType)
    }
}

} // verus!
