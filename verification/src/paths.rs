//! What this library takes from `std::path`: the parent of a path and a
//! folder joined to one. Verus does not read `std::path`, so the two results
//! are named here and the two calls are believed to return what the names
//! say. Everything else in the library is proved from that.

use vstd::prelude::*;
use std::path::Path;

verus! {

/// The parent that `std::path::Path::parent` finds for the path written as
/// `path`, in the path syntax of the platform the library is built for:
/// the path without its final component, or `None` where the path ends in a
/// root or is empty.
pub uninterp spec fn path_parent(path: Seq<char>) -> Option<Seq<char>>;

/// The path that `std::path::Path::join` makes of the path written as `dir`
/// and the path written as `name`, in the path syntax of the platform the
/// library is built for.
pub uninterp spec fn path_join(dir: Seq<char>, name: Seq<char>) -> Seq<char>;

/// Calls `std::path::Path::parent` on `path`. Believed, not proved: the
/// result is [`path_parent`] of the same text. The path comes from a `&str`
/// and the parent is a part of it, so writing it back as a `String` loses
/// nothing.
#[verifier::external_body]
pub(crate) fn parent_of(path: &str) -> (parent: Option<String>)
    ensures
        parent.is_some() == path_parent(path@).is_some(),
        parent matches Some(dir) ==> path_parent(path@) == Some(dir@),
{
    match Path::new(path).parent() {
        Some(dir) => Some(dir.display().to_string()),
        None => None,
    }
}

/// Calls `std::path::Path::join` on `dir` with `name`. Believed, not proved:
/// the result is [`path_join`] of the same two texts. Both come from a
/// `&str`, so writing the joined path back as a `String` loses nothing.
#[verifier::external_body]
pub(crate) fn join_path(dir: &str, name: &str) -> (joined: String)
    ensures
        joined@ == path_join(dir@, name@),
{
    Path::new(dir).join(name).display().to_string()
}

} // verus!
