//! File-system paths as text.
//!
//! Paths are held as strings and taken apart and put together by
//! `std::path`, under the path syntax of the platform that the library is
//! built for. Verus does not read `std::path`: the functions below name what
//! its operations return, and the contracts of the functions that make the
//! calls say only that their results are those.

use crate::text::opt_text;
use vstd::prelude::*;

verus! {

/// The path that `std::path::Path::join` makes of `base` and `part`.
pub uninterp spec fn joined(base: Seq<char>, part: Seq<char>) -> Seq<char>;

/// The path that `std::path::Path::with_extension` makes of `path` and
/// `extension`.
pub uninterp spec fn with_extension(path: Seq<char>, extension: Seq<char>) -> Seq<char>;

/// The stem of the file name of `path`, as `std::path::Path::file_stem`
/// finds it; none where the path has no file name.
pub uninterp spec fn file_stem(path: Seq<char>) -> Option<Seq<char>>;

/// Calls `std::path::Path::join`. Trusted: the result is the path named
/// `joined`.
#[verifier::external_body]
pub(crate) fn path_join(base: &str, part: &str) -> (path: String)
    ensures
        path@ == joined(base@, part@),
{
    std::path::Path::new(base).join(part).to_string_lossy().into_owned()
}

/// An extension that holds no path separator.
pub open spec fn is_plain_extension(extension: Seq<char>) -> bool {
    forall|i: int|
        0 <= i < extension.len() ==> (#[trigger] extension[i]) != '/' && extension[i] != '\\'
}

/// Calls `std::path::Path::with_extension`, which does not accept an
/// extension that holds a path separator. Trusted: the result is the path
/// named `with_extension`.
#[verifier::external_body]
pub(crate) fn path_with_extension(path: &str, extension: &str) -> (changed: String)
    requires
        is_plain_extension(extension@),
    ensures
        changed@ == with_extension(path@, extension@),
{
    std::path::Path::new(path).with_extension(extension).to_string_lossy().into_owned()
}

/// Calls `std::path::Path::file_stem`. Trusted: the result is the stem
/// named `file_stem`.
#[verifier::external_body]
pub(crate) fn path_file_stem(path: &str) -> (stem: Option<String>)
    ensures
        opt_text(stem) == file_stem(path@),
{
    match std::path::Path::new(path).file_stem() {
        Some(stem) => Some(stem.to_string_lossy().into_owned()),
        None => None,
    }
}

/// Calls `dirs::cache_dir`. Nothing is known of the result: it depends on
/// the user and the environment of the process.
#[verifier::external_body]
pub(crate) fn cache_dir() -> (dir: Option<String>) {
    match dirs::cache_dir() {
        Some(dir) => Some(dir.to_string_lossy().into_owned()),
        None => None,
    }
}

} // verus!
