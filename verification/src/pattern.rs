//! Regular expressions, matched by the `regex` crate.

use crate::text::text_of;
use vstd::prelude::*;

verus! {

/// The error with which the `regex` crate refuses a pattern.
#[verifier::external_type_specification]
#[verifier::external_body]
pub struct ExRegexError(regex::Error);

/// Whether `regex::Regex::new` accepts this pattern.
pub uninterp spec fn pattern_is_valid(pattern: Seq<char>) -> bool;

/// For a pattern that `regex::Regex::new` accepts: the text that the
/// pattern's first group captured in the leftmost match in `haystack`, or
/// `None` where nothing matches or the group took no part in the match.
pub uninterp spec fn first_group(pattern: Seq<char>, haystack: Seq<char>) -> Option<Seq<char>>;

/// A compiled expression of the `regex` crate.
#[verifier::external_type_specification]
#[verifier::external_body]
pub struct ExRegex(regex::Regex);

/// What `Regex::as_str` returns: the pattern that the expression was
/// compiled from.
pub uninterp spec fn pattern_of(re: regex::Regex) -> Seq<char>;

/// Compiles `pattern` with `regex::Regex::new`. The contract claims that
/// the pattern alone decides whether it is accepted, and that the compiled
/// expression keeps its pattern.
#[verifier::external_body]
pub(crate) fn compile(pattern: &str) -> (r: Result<regex::Regex, regex::Error>)
    ensures
        r is Ok <==> pattern_is_valid(pattern@),
        r matches Ok(re) ==> pattern_of(re) == pattern@,
{
    regex::Regex::new(pattern)
}

/// Searches `haystack` with `Regex::captures` and hands out the text of
/// group 1 (`Captures::get`, `Match::as_str`). The captured text is only
/// given its name here.
#[verifier::external_body]
pub(crate) fn capture_first_group(re: &regex::Regex, haystack: &str) -> (r: Option<String>)
    ensures
        text_of(r) == first_group(pattern_of(*re), haystack@),
{
    re.captures(haystack).and_then(|caps| caps.get(1)).map(|m| m.as_str().to_string())
}

/// The message of a pattern error, as its `Display` impl writes it. Nothing
/// is claimed of the text.
#[verifier::external_body]
pub(crate) fn error_text(e: &regex::Error) -> (r: String) {
    e.to_string()
}

} // verus!
