//! Paths as text. What the standard library computes on a path, it
//! computes from the path's text alone; nothing on disk is read.

use vstd::prelude::*;

verus! {

/// The parent of a path, as `std::path::Path::parent` gives it: `None` for
/// a root and for the empty path.
pub uninterp spec fn path_parent(path: Seq<char>) -> Option<Seq<char>>;

/// A path with another joined to it, as `std::path::Path::join` gives it:
/// an absolute `tail` takes the place of `base`.
pub uninterp spec fn path_join(base: Seq<char>, tail: Seq<char>) -> Seq<char>;

/// The extension of a path's file name, as `std::path::Path::extension`
/// gives it: what follows the last `.` of the name, where the name has one
/// that is not its first character.
pub uninterp spec fn path_extension(path: Seq<char>) -> Option<Seq<char>>;

/// Calls `Path::extension` on `path`. The extension is a function of the
/// path's text alone.
#[verifier::external_body]
pub(crate) fn extension_of(path: &str) -> (r: Option<String>)
    ensures
        match r {
            Some(e) => path_extension(path@) == Some(e@),
            None => path_extension(path@).is_none(),
        },
{
    match std::path::Path::new(path).extension() {
        Some(e) => Some(e.to_string_lossy().into_owned()),
        None => None,
    }
}

/// Calls `Path::parent` on `path`. The parent is a function of the path's
/// text alone.
#[verifier::external_body]
pub(crate) fn parent_of(path: &str) -> (r: Option<String>)
    ensures
        match r {
            Some(p) => path_parent(path@) == Some(p@),
            None => path_parent(path@).is_none(),
        },
{
    match std::path::Path::new(path).parent() {
        Some(p) => Some(p.to_string_lossy().into_owned()),
        None => None,
    }
}

/// Calls `Path::join` on `base` with `tail`. The joined path is a function
/// of the two texts alone.
#[verifier::external_body]
pub(crate) fn join_path(base: &str, tail: &str) -> (r: String)
    ensures
        r@ == path_join(base@, tail@),
{
    std::path::Path::new(base).join(tail).to_string_lossy().into_owned()
}

} // verus!
