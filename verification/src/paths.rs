//! Paths, held as text. The standard library joins, compares and shortens
//! them; Verus reads none of that, so each contract below is taken on trust.

use vstd::prelude::*;

verus! {

/// What `Path::join` makes of a path and of what is joined to it.
pub uninterp spec fn joined_path(base: Seq<char>, rest: Seq<char>) -> Seq<char>;

/// Whether two texts are equal as paths, as `Path`'s `==` decides it:
/// component by component, so that `a/./b` and `a/b` are one path.
pub uninterp spec fn same_path(left: Seq<char>, right: Seq<char>) -> bool;

/// What `PathBuf::pop` leaves of a path: the path without its last
/// component, or the path itself where it has no parent.
pub uninterp spec fn parent_path(path: Seq<char>) -> Seq<char>;

/// Calls `Path::join`. Both arguments are text, so the joined path is text
/// too and converting it back loses nothing. The result depends on the two
/// arguments alone; the contract gives it its name and claims no more.
#[verifier::external_body]
pub(crate) fn join(base: &str, rest: &str) -> (joined: String)
    ensures
        joined@ == joined_path(base@, rest@),
{
    std::path::Path::new(base).join(rest).to_string_lossy().into_owned()
}

/// Compares two texts with `Path`'s `==`. The result depends on the two
/// arguments alone; the contract gives it its name and claims no more.
#[verifier::external_body]
pub(crate) fn equal(left: &str, right: &str) -> (same: bool)
    ensures
        same == same_path(left@, right@),
{
    std::path::Path::new(left) == std::path::Path::new(right)
}

/// Calls `PathBuf::pop` on a copy of the path and returns what is left.
/// The result depends on the argument alone; the contract gives it its name
/// and claims no more.
#[verifier::external_body]
pub(crate) fn parent(path: &str) -> (shorter: String)
    ensures
        shorter@ == parent_path(path@),
{
    let mut buffer = std::path::PathBuf::from(path);
    buffer.pop();
    buffer.to_string_lossy().into_owned()
}

} // verus!
