//! Regular expressions, as the `regex` crate compiles and searches them.

use regex::Regex;
use vstd::prelude::*;

verus! {

/// A compiled regular expression of the `regex` crate.
#[verifier::external_type_specification]
#[verifier::external_body]
pub struct ExRegex(regex::Regex);

/// The reason for which the `regex` crate does not compile a pattern.
#[verifier::external_type_specification]
#[verifier::external_body]
pub struct ExRegexError(regex::Error);

/// What `Regex::new` makes of a pattern: the compiled expression, or an error where the pattern
/// is malformed or too large.
pub uninterp spec fn compiled_regex(pattern: Seq<char>) -> Result<Regex, regex::Error>;

/// What the `Display` of `regex::Error` writes.
pub uninterp spec fn regex_error_text(error: regex::Error) -> Seq<char>;

/// What `Regex::is_match` says of a text: whether the expression matches somewhere in it.
pub uninterp spec fn regex_finds(re: Regex, text: Seq<char>) -> bool;

/// `Regex::new` compiles a pattern. What it makes of the pattern, an expression or an error,
/// depends on the pattern alone.
pub assume_specification[ regex::Regex::new ](re: &str) -> (r: Result<
    regex::Regex,
    regex::Error,
>)
    ensures
        r == compiled_regex(re@),
;

/// `regex::Error` is written as a text by its `Display`. The text depends on the error alone.
#[verifier::external_body]
pub(crate) fn error_text(error: &regex::Error) -> (text: String)
    ensures
        text@ == regex_error_text(*error),
{
    error.to_string()
}

/// `Regex::is_match` searches a text. Its answer depends on the expression and the text alone.
pub assume_specification[ regex::Regex::is_match ](re: &regex::Regex, haystack: &str) -> (b: bool)
    ensures
        b == regex_finds(*re, haystack@),
;

/// `Regex::clone` gives an expression that is the same in every respect.
pub assume_specification[ <regex::Regex as Clone>::clone ](re: &regex::Regex) -> (copy:
    regex::Regex)
    ensures
        copy == *re,
;

} // verus!
