//! Regular-expression matching, done by the `regex` crate.
//!
//! Nothing here is proved: each function below states what the `regex`
//! crate does, and the rest of the library is proved against that.

use vstd::prelude::*;

verus! {

/// The error that `regex::Regex::new` reports for a pattern it refuses.
#[verifier::external_type_specification]
#[verifier::external_body]
pub struct ExRegexError(regex::Error);

/// Whether `regex::Regex::new` accepts `pattern` (it is valid syntax and
/// the compiled automaton fits the default size limit).
pub uninterp spec fn regex_compiles(pattern: Seq<char>) -> bool;

/// The text that `regex::Regex::replace` returns: `haystack` with the
/// leftmost-first match of `pattern` replaced by the expansion of
/// `replacement` (the haystack itself where there is no match).
pub uninterp spec fn regex_replace_first(
    pattern: Seq<char>,
    haystack: Seq<char>,
    replacement: Seq<char>,
) -> Seq<char>;

/// What `regex::Regex::captures` followed by `Captures::name` give for the
/// leftmost-first match of `pattern` in `haystack`: `None` where there is no
/// match, `Some(None)` where the group `group` did not take part in the
/// match, and `Some(Some(text))` with the text the group matched.
pub uninterp spec fn regex_named_capture(
    pattern: Seq<char>,
    haystack: Seq<char>,
    group: Seq<char>,
) -> Option<Option<Seq<char>>>;

/// The view of a captured group, as `regex_named_capture` speaks of it.
pub open spec fn capture_view(c: Option<Option<String>>) -> Option<Option<Seq<char>>> {
    match c {
        None => None,
        Some(None) => Some(None),
        Some(Some(s)) => Some(Some(s@)),
    }
}

/// Compiles `pattern` with `regex::Regex::new` and replaces its first match
/// in `haystack` with `regex::Regex::replace`.
///
/// Trusted: an error exactly when the `regex` crate refuses the pattern,
/// and otherwise the text `regex_replace_first` names.  What that text is
/// for a given pattern is not stated here.
#[verifier::external_body]
pub(crate) fn regex_replace(pattern: &str, haystack: &str, replacement: &str) -> (res: Result<
    String,
    regex::Error,
>)
    ensures
        res is Ok <==> regex_compiles(pattern@),
        res matches Ok(s) ==> s@ == regex_replace_first(pattern@, haystack@, replacement@),
{
    let re = regex::Regex::new(pattern)?;
    Ok(re.replace(haystack, replacement).into_owned())
}

/// Compiles `pattern` with `regex::Regex::new`, then looks up the group named
/// `group` in the first match of it in `haystack` (`regex::Regex::captures`
/// and `regex::Captures::name`).
///
/// Trusted: an error exactly when the `regex` crate refuses the pattern,
/// and otherwise the capture that `regex_named_capture` names.
#[verifier::external_body]
pub(crate) fn regex_capture_named(pattern: &str, haystack: &str, group: &str) -> (res: Result<
    Option<Option<String>>,
    regex::Error,
>)
    ensures
        res is Ok <==> regex_compiles(pattern@),
        res matches Ok(c) ==> capture_view(c) == regex_named_capture(pattern@, haystack@, group@),
{
    let re = regex::Regex::new(pattern)?;
    let caps = match re.captures(haystack) {
        None => return Ok(None),
        Some(caps) => caps,
    };
    match caps.name(group) {
        None => Ok(Some(None)),
        Some(m) => Ok(Some(Some(m.as_str().to_string()))),
    }
}

} // verus!
