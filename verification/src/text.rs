//! Operations on text that the decisions of this library rest on.

use vstd::prelude::*;

verus! {

/// Whether `needle` occurs in `hay` as a contiguous run of characters.
pub open spec fn occurs_in(needle: Seq<char>, hay: Seq<char>) -> bool {
    exists|at: int|
        0 <= at && at + needle.len() <= hay.len() && #[trigger] hay.subrange(
            at,
            at + needle.len(),
        ) == needle
}

/// The lowercase form of a text, as `str::to_lowercase` computes it.
pub uninterp spec fn lowercased(text: Seq<char>) -> Seq<char>;

/// `str::contains` with a string pattern: whether the pattern matches a
/// sub-slice of the text.
#[verifier::external_body]
pub(crate) fn contains(hay: &str, needle: &str) -> (found: bool)
    ensures
        found == occurs_in(needle@, hay@),
{
    hay.contains(needle)
}

/// `str::to_lowercase`: the text with each character replaced by its
/// lowercase equivalent.
#[verifier::external_body]
pub(crate) fn to_lowercase(text: &str) -> (lower: String)
    ensures
        lower@ == lowercased(text@),
{
    text.to_lowercase()
}

/// Whether two texts hold the same characters.
pub fn same(a: &str, b: &str) -> (r: bool)
    ensures
        r == (a@ == b@),
{
    a.to_owned() == b.to_owned()
}

/// `left` followed by `right`.
pub fn join(left: &str, right: &str) -> (joined: String)
    ensures
        joined@ == left@ + right@,
{
    left.to_owned().concat(right)
}

/// `left`, `middle` and `right` in a row.
pub fn join3(left: &str, middle: &str, right: &str) -> (joined: String)
    ensures
        joined@ == left@ + middle@ + right@,
{
    left.to_owned().concat(middle).concat(right)
}

} // verus!
