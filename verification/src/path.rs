//! Filesystem paths, which the library carries but never looks into.

use std::path::PathBuf;
use vstd::prelude::*;

verus! {

/// `std::path::PathBuf`, known to the verifier as an opaque value: two paths
/// are equal or not, and nothing else is assumed of them.
#[verifier::external_type_specification]
#[verifier::external_body]
pub struct ExPathBuf(PathBuf);

/// `<PathBuf as Clone>::clone`: the copy is assumed to equal the path cloned.
pub assume_specification[ <PathBuf as Clone>::clone ](path: &PathBuf) -> (copy: PathBuf)
    ensures
        copy == *path,
;

/// The text that `Debug` formatting gives for a path: the path between double
/// quotes, with the characters that need it escaped.
pub uninterp spec fn debug_text(path: PathBuf) -> Seq<char>;

/// Formats a path with its `Debug` implementation. The contract is assumed: it
/// only gives the formatted text its name, `debug_text`.
#[verifier::external_body]
pub(crate) fn quoted(path: &PathBuf) -> (text: String)
    ensures
        text@ == debug_text(*path),
{
    format!("{:?}", path)
}

} // verus!
