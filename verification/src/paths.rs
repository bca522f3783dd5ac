//! Path operations of `std::path` that the library calls, on paths held as text.
use vstd::prelude::*;

use std::path::Path;

use crate::text::starts_with;

verus! {

/// What `Path::join` returns for `base` joined with `name`.
pub uninterp spec fn joined_path(base: Seq<char>, name: Seq<char>) -> Seq<char>;

/// What `Path::parent` returns: the path without its final component.
pub uninterp spec fn parent_path(p: Seq<char>) -> Option<Seq<char>>;

/// What `Path::file_name` returns: the final component, if it is a normal one.
pub uninterp spec fn final_component(p: Seq<char>) -> Option<Seq<char>>;

/// Whether a path is absolute: on Unix, whether it starts at the root.
pub open spec fn absolute(p: Seq<char>) -> bool {
    starts_with(p, "/"@)
}

/// Calls `Path::join`. As its documentation says, an absolute `name`
/// replaces `base`, and a relative one extends it, so the result begins
/// with `base`. The rest is named by [`joined_path`].
#[verifier::external_body]
pub(crate) fn join(base: &str, name: &str) -> (r: String)
    ensures
        r@ == joined_path(base@, name@),
        absolute(name@) ==> r@ == name@,
        !absolute(name@) ==> starts_with(r@, base@),
{
    Path::new(base).join(name).to_string_lossy().into_owned()
}

/// Calls `Path::is_absolute`, which on Unix holds when the path starts with
/// the root `/`.
#[verifier::external_body]
pub(crate) fn is_absolute(p: &str) -> (r: bool)
    ensures
        r == absolute(p@),
{
    Path::new(p).is_absolute()
}

/// Calls `Path::parent`; the empty path has none, as its documentation says.
#[verifier::external_body]
pub(crate) fn parent(p: &str) -> (r: Option<String>)
    ensures
        match r {
            Some(q) => parent_path(p@) == Some(q@),
            None => parent_path(p@) is None,
        },
        p@.len() == 0 ==> r is None,
{
    match Path::new(p).parent() {
        Some(q) => Some(q.to_string_lossy().into_owned()),
        None => None,
    }
}

/// Calls `Path::file_name`.
#[verifier::external_body]
pub(crate) fn file_name(p: &str) -> (r: Option<String>)
    ensures
        match r {
            Some(q) => final_component(p@) == Some(q@),
            None => final_component(p@) is None,
        },
{
    match Path::new(p).file_name() {
        Some(n) => Some(n.to_string_lossy().into_owned()),
        None => None,
    }
}

} // verus!
