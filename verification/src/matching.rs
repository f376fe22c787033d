//! Regular-expression matching, done by the `regex` crate.
//!
//! What a pattern matches takes the crate's whole engine to say, so the
//! results are named here and the logic around them is stated over those
//! names.

use vstd::prelude::*;
use crate::error::opt_view;

verus! {

/// What `regex::Regex::new(pattern)` and then `is_match(text)` report:
/// `None` where the pattern does not compile, else whether the pattern
/// matches somewhere in the text.
pub uninterp spec fn regex_is_match(pattern: Seq<char>, text: Seq<char>) -> Option<bool>;

/// What `regex::Regex::new(pattern)` and then `captures_iter(text)` yield:
/// `None` where the pattern does not compile, else, for each successive
/// non-overlapping match from the left, the text of its first group where
/// that group took part in the match.
pub uninterp spec fn regex_first_groups(pattern: Seq<char>, text: Seq<char>) -> Option<
    Seq<Option<Seq<char>>>,
>;

/// The texts of a list of optional strings.
pub open spec fn groups_view(v: Seq<Option<String>>) -> Seq<Option<Seq<char>>> {
    v.map_values(|o: Option<String>| opt_view(o))
}

/// Trusted: `regex::Regex::new` followed by `Regex::is_match`. The result is
/// the name `regex_is_match` of the pattern and the text; what the pattern
/// matches is not stated.
#[verifier::external_body]
pub(crate) fn is_match(pattern: &str, text: &str) -> (r: Option<bool>)
    ensures
        r == regex_is_match(pattern@, text@),
{
    match regex::Regex::new(pattern) {
        Ok(re) => Some(re.is_match(text)),
        Err(_) => None,
    }
}

/// Trusted: `regex::Regex::new` followed by `Regex::captures_iter`, keeping
/// the first group of each match. The result is the name
/// `regex_first_groups` of the pattern and the text.
#[verifier::external_body]
pub(crate) fn first_groups(pattern: &str, text: &str) -> (r: Option<Vec<Option<String>>>)
    ensures
        match r {
            Some(v) => regex_first_groups(pattern@, text@) == Some(groups_view(v@)),
            None => regex_first_groups(pattern@, text@) is None,
        },
{
    let re = match regex::Regex::new(pattern) {
        Ok(re) => re,
        Err(_) => return None,
    };
    let mut groups = Vec::new();
    for caps in re.captures_iter(text) {
        groups.push(match caps.get(1) {
            Some(m) => Some(m.as_str().to_string()),
            None => None,
        });
    }
    Some(groups)
}

} // verus!
