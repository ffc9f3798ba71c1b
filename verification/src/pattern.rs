//! Regular expressions, as the `regex` crate compiles and matches them.
//!
//! What a pattern matches enters the contracts of this crate under names: nothing more is claimed
//! of the engine than that its answers depend on nothing but the arguments of the calls, on the
//! target that the crate is built for (the engine's size limit counts bytes of that target).
use regex::Regex;
use vstd::prelude::*;

verus! {

/// Declares `regex::Regex`, a compiled regular expression, as an opaque type.
#[verifier::external_type_specification]
#[verifier::external_body]
pub struct ExRegex(regex::Regex);

/// Declares `regex::Error`, why a pattern was refused, as an opaque type.
#[verifier::external_type_specification]
#[verifier::external_body]
pub struct ExRegexError(regex::Error);

/// What compiling a pattern gives.
pub uninterp spec fn regex_new(pattern: Seq<char>) -> Result<Regex, regex::Error>;

/// Whether a regular expression matches anywhere in a text.
pub uninterp spec fn regex_is_match(regex: Regex, text: Seq<char>) -> bool;

/// The message of an error.
pub uninterp spec fn regex_error_text(error: regex::Error) -> Seq<char>;

/// `Regex::new`: the compiled expression, or the error, is determined by the pattern.
#[verifier::external_body]
pub(crate) fn new_regex(pattern: &str) -> (res: Result<Regex, regex::Error>)
    ensures
        res == regex_new(pattern@),
{
    Regex::new(pattern)
}

/// `Regex::is_match`: the answer is determined by the expression and the text.
#[verifier::external_body]
pub(crate) fn is_match(regex: &Regex, text: &str) -> (res: bool)
    ensures
        res == regex_is_match(*regex, text@),
{
    regex.is_match(text)
}

/// `regex::Error` as text, by its `Display`: the message is determined by the error.
#[verifier::external_body]
pub(crate) fn error_text(error: &regex::Error) -> (res: String)
    ensures
        res@ == regex_error_text(*error),
{
    error.to_string()
}

} // verus!
