//! Matching a line of text against a regular expression.

use vstd::prelude::*;

verus! {

/// What the first parenthesised group of `pattern` holds in the leftmost
/// match that the `regex` crate finds in `haystack`. It is `None` where
/// nothing matches, where the group took no part in the match, and where
/// `pattern` is no regular expression that the crate compiles.
pub uninterp spec fn regex_first_group(pattern: Seq<char>, haystack: Seq<char>) -> Option<
    Seq<char>,
>;

/// Compiles `pattern` with `regex::Regex::new`, searches `haystack` with
/// `Regex::captures` and copies out group 1 (`Captures::get`,
/// `Match::as_str`).
///
/// Trusted, not proved: the search is a function of the two texts alone, so
/// its outcome can go by the name `regex_first_group`. A compile error comes
/// back as `None` too.
#[verifier::external_body]
pub(crate) fn first_group(pattern: &str, haystack: &str) -> (found: Option<String>)
    ensures
        found.deep_view() == regex_first_group(pattern@, haystack@),
{
    match regex::Regex::new(pattern) {
        Ok(compiled) => match compiled.captures(haystack) {
            Some(groups) => match groups.get(1) {
                Some(group) => Some(group.as_str().to_owned()),
                None => None,
            },
            None => None,
        },
        Err(_) => None,
    }
}

} // verus!
