//! Matching text against a regular expression, done by the `regex` crate.

use vstd::prelude::*;

verus! {

/// What the `regex` crate makes of `pattern` on `haystack`: `None` where it
/// refuses the pattern, else whether the pattern matches somewhere in the
/// haystack.
pub uninterp spec fn regex_match(pattern: Seq<char>, haystack: Seq<char>) -> Option<bool>;

/// Compiles `pattern` with `regex::Regex::new` and searches `haystack` with
/// `regex::Regex::is_match`.
///
/// Trusted: that the answer depends on the two texts alone, which is all that
/// naming it `regex_match` claims. Nothing is assumed about which texts match.
#[verifier::external_body]
pub(crate) fn is_match(pattern: &str, haystack: &str) -> (verdict: Option<bool>)
    ensures
        verdict == regex_match(pattern@, haystack@),
{
    regex::Regex::new(pattern).ok().map(|re| re.is_match(haystack))
}

} // verus!
