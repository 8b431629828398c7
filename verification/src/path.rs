//! File-system paths as values of fields.

use std::path::PathBuf;
use vstd::prelude::*;

verus! {

/// `std::path::PathBuf`, carried through as an opaque value: nothing is
/// claimed of what is inside one.
#[verifier::external_type_specification]
#[verifier::external_body]
pub struct ExPathBuf(PathBuf);

/// The path that a text names: the result of `PathBuf::from` on a string
/// with these characters.
pub uninterp spec fn path_of(text: Seq<char>) -> PathBuf;

/// Calls `<PathBuf as From<String>>::from`, which takes the string over as
/// the path's text without changing it. Every text is accepted. The contract
/// claims only that the path depends on the characters of the text alone.
#[verifier::external_body]
pub(crate) fn to_path(text: String) -> (path: PathBuf)
    ensures
        path == path_of(text@),
{
    PathBuf::from(text)
}

/// `<PathBuf as Clone>::clone` returns a duplicate of the path.
pub assume_specification[ <PathBuf as Clone>::clone ](path: &PathBuf) -> (copy: PathBuf)
    ensures
        copy == *path,
;

} // verus!
