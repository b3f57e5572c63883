//! Patterns for file names, compiled and matched by the `regex` crate.
//!
//! What this module states of that crate is taken on trust.

use vstd::prelude::*;

verus! {

/// `regex::Regex`, a compiled pattern. Nothing inside it is visible here.
#[verifier::external_type_specification]
#[verifier::external_body]
pub struct ExRegex(regex::Regex);

/// `regex::Error`, the reason why a pattern did not compile.
#[verifier::external_type_specification]
#[verifier::external_body]
pub struct ExRegexError(regex::Error);

/// The texts in which a compiled pattern finds a match.
pub uninterp spec fn matched_texts(pattern: regex::Regex) -> Set<Seq<char>>;

/// The texts in which the pattern written as `source` finds a match, once
/// it is compiled with the crate's default settings.
pub uninterp spec fn pattern_language(source: Seq<char>) -> Set<Seq<char>>;

/// `regex::Regex::new`: compiles the pattern written as `source`. Whether
/// that succeeds is for the crate to say: it refuses a pattern with a
/// syntax error and one that would compile to more than its size limit. A
/// compiled pattern matches what its source says under the default
/// settings, and nothing else is claimed of it.
#[verifier::external_body]
pub(crate) fn compile(source: &str) -> (compiled: Result<regex::Regex, regex::Error>)
    ensures
        compiled matches Ok(pattern) ==> matched_texts(pattern) == pattern_language(source@),
{
    regex::Regex::new(source)
}

/// `regex::Regex::is_match`: whether the pattern finds a match anywhere in
/// `text`. The answer depends on the pattern and the text alone.
#[verifier::external_body]
pub(crate) fn is_match(pattern: &regex::Regex, text: &str) -> (found: bool)
    ensures
        found == matched_texts(*pattern).contains(text@),
{
    pattern.is_match(text)
}

/// The `Display` text of a `regex::Error`. Nothing is claimed of it.
#[verifier::external_body]
pub(crate) fn error_text(error: &regex::Error) -> (text: String) {
    format!("{}", error)
}

} // verus!
