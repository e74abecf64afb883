//! File-system paths as text, with the operations of `std::path` that the
//! derivation of a build configuration depends on. None of them touches the
//! disk; each reads a path by the rules of the platform that the library is
//! built for. Nothing is proved of them here: each contract only gives the
//! result of the standard library's function a name, so that callers can
//! speak of it.

use vstd::prelude::*;

verus! {

/// What `Path::parent` gives for the path written `path`: the path without
/// its last component, if it has one to drop.
pub uninterp spec fn path_parent(path: Seq<char>) -> Option<Seq<char>>;

/// What `Path::has_root` gives for the path written `path`.
pub uninterp spec fn path_has_root(path: Seq<char>) -> bool;

/// What `Path::file_stem` gives for the path written `path`: the last
/// component without its extension, if the path ends in a file name.
pub uninterp spec fn path_file_stem(path: Seq<char>) -> Option<Seq<char>>;

/// What `Path::strip_prefix` gives for the paths written `path` and `base`:
/// `path` relative to `base`, if `base` is a prefix of it.
pub uninterp spec fn path_strip_prefix(path: Seq<char>, base: Seq<char>) -> Option<Seq<char>>;

/// What `Path::starts_with` gives for the paths written `path` and `base`.
pub uninterp spec fn path_starts_with(path: Seq<char>, base: Seq<char>) -> bool;

/// The text of an optional path.
pub open spec fn text_of(path: Option<String>) -> Option<Seq<char>> {
    match path {
        Some(p) => Some(p@),
        None => None,
    }
}

/// Calls `std::path::Path::parent`. The contract names the result; the
/// parent of a path given as text is text again.
#[verifier::external_body]
pub(crate) fn parent(path: &str) -> (res: Option<String>)
    ensures
        text_of(res) == path_parent(path@),
{
    match std::path::Path::new(path).parent() {
        Some(parent) => Some(parent.to_string_lossy().into_owned()),
        None => None,
    }
}

/// Calls `std::path::Path::has_root`. The contract names the result.
#[verifier::external_body]
pub(crate) fn has_root(path: &str) -> (res: bool)
    ensures
        res == path_has_root(path@),
{
    std::path::Path::new(path).has_root()
}

/// Calls `std::path::Path::file_stem`. The contract names the result; the
/// stem of a path given as text is text again.
#[verifier::external_body]
pub(crate) fn file_stem(path: &str) -> (res: Option<String>)
    ensures
        text_of(res) == path_file_stem(path@),
{
    match std::path::Path::new(path).file_stem() {
        Some(stem) => Some(stem.to_string_lossy().into_owned()),
        None => None,
    }
}

/// Calls `std::path::Path::strip_prefix`. The contract names the result,
/// `None` where the call fails because `base` is no prefix of `path`.
#[verifier::external_body]
pub(crate) fn strip_prefix(path: &str, base: &str) -> (res: Option<String>)
    ensures
        text_of(res) == path_strip_prefix(path@, base@),
{
    match std::path::Path::new(path).strip_prefix(base) {
        Ok(rest) => Some(rest.to_string_lossy().into_owned()),
        Err(_) => None,
    }
}

/// Calls `std::path::Path::starts_with`. The contract names the result.
#[verifier::external_body]
pub(crate) fn starts_with(path: &str, base: &str) -> (res: bool)
    ensures
        res == path_starts_with(path@, base@),
{
    std::path::Path::new(path).starts_with(base)
}

} // verus!
