//! What the standard library makes of a path: its parent directory, the stem
//! of its file name, and a directory joined with a file name.
//!
//! How a path splits into components is the platform's business, and the
//! standard library implements it, by the rules of the platform that the
//! library is built for. The library calls it, gives each result a name, and
//! states every rule about output paths over those names.

use std::path::Path;
use vstd::prelude::*;

verus! {

/// The text of `Path::new(path).parent()`: the path without its final
/// component, or `None` where there is none to take off (the path is empty,
/// or ends in a root or a prefix).
pub uninterp spec fn path_parent(path: Seq<char>) -> Option<Seq<char>>;

/// The text of `Path::new(path).file_stem()`: the file name without its
/// extension, or `None` where the path has no file name.
pub uninterp spec fn path_file_stem(path: Seq<char>) -> Option<Seq<char>>;

/// The text of `Path::new(base).join(leaf)`: `leaf` adjoined to `base` by the
/// platform's rules for separators; a `leaf` that is absolute stands alone.
pub uninterp spec fn path_join(base: Seq<char>, leaf: Seq<char>) -> Seq<char>;

/// The characters of an optional string.
pub open spec fn text_of(s: Option<String>) -> Option<Seq<char>> {
    match s {
        Some(t) => Some(t@),
        None => None,
    }
}

/// Calls `std::path::Path::parent` on `path`. Trusted: the result is what
/// the standard library returns, which `path_parent` names, and the empty
/// path has no parent.
#[verifier::external_body]
pub(crate) fn parent_of(path: &str) -> (dir: Option<String>)
    ensures
        text_of(dir) == path_parent(path@),
        path@.len() == 0 ==> dir is None,
{
    Path::new(path).parent().map(|p| p.to_string_lossy().into_owned())
}

/// Calls `std::path::Path::file_stem` on `path`. Trusted: the result is what
/// the standard library returns, which `path_file_stem` names; nothing more
/// is claimed of it.
#[verifier::external_body]
pub(crate) fn file_stem_of(path: &str) -> (stem: Option<String>)
    ensures
        text_of(stem) == path_file_stem(path@),
{
    Path::new(path).file_stem().map(|s| s.to_string_lossy().into_owned())
}

/// Calls `std::path::Path::join` on `base` with `leaf`. Trusted: the result
/// is what the standard library returns, which `path_join` names; nothing
/// more is claimed of it.
#[verifier::external_body]
pub(crate) fn join(base: &str, leaf: &str) -> (joined: String)
    ensures
        joined@ == path_join(base@, leaf@),
{
    Path::new(base).join(leaf).to_string_lossy().into_owned()
}

} // verus!
