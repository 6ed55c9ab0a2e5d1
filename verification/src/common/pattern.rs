//! Matching a text against a regular expression, which is the `regex`
//! crate's work. The library asks it which characters are decimal digits.

use vstd::prelude::*;

verus! {

/// Whether `regex::Regex::is_match` finds a match of `pattern` in `text`;
/// `None` where `regex::Regex::new` refuses the pattern.
pub uninterp spec fn pattern_match(pattern: Seq<char>, text: Seq<char>) -> Option<bool>;

/// Calls `regex::Regex::new` and, where the pattern compiles,
/// `regex::Regex::is_match`. The contract claims only that the outcome is
/// the one named [`pattern_match`].
#[verifier::external_body]
pub(crate) fn is_match(pattern: &str, text: &str) -> (r: Option<bool>)
    ensures
        r == pattern_match(pattern@, text@),
{
    regex::Regex::new(pattern).ok().map(|compiled| compiled.is_match(text))
}

} // verus!
