//! Selecting stored record names with regular expressions, through the
//! regex engine.
//!
//! The engine itself is relied upon, not verified: whether a pattern
//! compiles is a function of the pattern text alone, and whether a text
//! matches a compiled pattern is a function of the pattern and the text.

use regex::Error as PatternError;
use vstd::prelude::*;

verus! {

/// A rejected pattern, as the regex engine reports it.
#[verifier::external_type_specification]
#[verifier::external_body]
pub struct ExRegexError(PatternError);

/// Whether the regex engine accepts `pattern`: what `regex::Regex::new`
/// decides, a function of the pattern text alone.
pub uninterp spec fn pattern_compiles(pattern: Seq<char>) -> bool;

/// Whether `text` matches `pattern`: what `regex::Regex::is_match` decides
/// for a pattern the engine accepts, a function of the two texts alone.
pub uninterp spec fn pattern_matches(pattern: Seq<char>, text: Seq<char>) -> bool;

/// Relies on `regex::Regex::new`: it accepts or rejects a pattern by its
/// text alone, and its error describes the rejected pattern.
#[verifier::external_body]
pub(crate) fn regex_check(pattern: &str) -> (r: Result<(), PatternError>)
    ensures
        r is Ok <==> pattern_compiles(pattern@),
{
    match regex::Regex::new(pattern) {
        Ok(_) => Ok(()),
        Err(e) => Err(e),
    }
}

/// Relies on `regex::Regex::new` and `regex::Regex::is_match`: for a
/// pattern the engine accepts, whether a text matches depends on the
/// pattern and the text alone.
#[verifier::external_body]
pub(crate) fn regex_is_match(pattern: &str, text: &str) -> (r: bool)
    requires
        pattern_compiles(pattern@),
    ensures
        r == pattern_matches(pattern@, text@),
{
    match regex::Regex::new(pattern) {
        Ok(re) => re.is_match(text),
        Err(_) => false,
    }
}

/// Relies on the display form of `regex::Error`: the engine's description
/// of what is wrong with a rejected pattern.
#[verifier::external_body]
pub(crate) fn regex_error_message(e: &PatternError) -> String {
    e.to_string()
}

} // verus!
