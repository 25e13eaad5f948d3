//! Compiled patterns: the boundary to the `regex` crate.
//!
//! Matching itself is not verified here. What a search finds is given a
//! name, [`regex_groups`], and the scanner's contracts are stated over it.

use regex::Regex;
use vstd::prelude::*;
use crate::text::clone_text;

verus! {

/// A compiled expression of the `regex` crate; opaque to the verifier.
#[verifier::external_type_specification]
#[verifier::external_body]
pub struct ExRegex(Regex);

/// The error with which the `regex` crate refuses a pattern; opaque to the
/// verifier.
#[verifier::external_type_specification]
#[verifier::external_body]
pub struct ExRegexError(regex::Error);

/// The groups of one match, by index: group 0 is the whole match, and a
/// group that took no part in the match is `None`.
pub type Groups = Option<Vec<Option<String>>>;

/// The mathematical content of a [`Groups`]; `None` where nothing matched.
pub type GroupTexts = Option<Seq<Option<Seq<char>>>>;

/// Whether `Regex::new` accepts a pattern: the pattern is a valid
/// expression, and what it compiles to stays within the size limit that the
/// crate sets by default.
pub uninterp spec fn regex_accepts(pattern: Seq<char>) -> bool;

/// The pattern text that a compiled expression was built from: what
/// `Regex::as_str` returns for it.
pub uninterp spec fn regex_source(re: Regex) -> Seq<char>;

/// What `Regex::captures` reports for an expression and a haystack: `None`
/// where the expression matches nowhere, else the text of each group of the
/// leftmost match.
pub uninterp spec fn regex_groups(re: Regex, haystack: Seq<char>) -> GroupTexts;

/// The text of group `index` of a match; `None` where nothing matched, the
/// expression has no such group, or the group took no part in the match.
pub open spec fn capture(groups: GroupTexts, index: int) -> Option<Seq<char>> {
    match groups {
        Some(g) => if 0 <= index < g.len() {
            g[index]
        } else {
            None
        },
        None => None,
    }
}

/// Calls `Regex::new`. Trusted: the call succeeds exactly for the patterns
/// that [`regex_accepts`] names, and an expression that compiles remembers
/// the pattern text it was given. Which patterns those are is not stated.
#[verifier::external_body]
pub(crate) fn compile(pattern: &str) -> (compiled: Result<Regex, regex::Error>)
    ensures
        compiled is Ok <==> regex_accepts(pattern@),
        compiled matches Ok(re) ==> regex_source(re) == pattern@,
{
    Regex::new(pattern)
}

/// Calls `Regex::captures` and copies out the text of every group. Trusted:
/// the result is the one named by [`regex_groups`] for this expression and
/// this haystack.
#[verifier::external_body]
pub(crate) fn captures(re: &Regex, haystack: &str) -> (groups: Groups)
    ensures
        groups.deep_view() == regex_groups(*re, haystack@),
{
    re.captures(haystack).map(
        |found| (0..found.len()).map(|i| found.get(i).map(|m| m.as_str().to_string())).collect(),
    )
}

/// Copies the text of one group out of a match.
pub fn group_text(groups: &Groups, index: usize) -> (text: Option<String>)
    ensures
        text.deep_view() == capture(groups.deep_view(), index as int),
{
    match groups {
        Some(g) => {
            if index < g.len() {
                clone_text(&g[index])
            } else {
                None
            }
        },
        None => None,
    }
}

} // verus!
