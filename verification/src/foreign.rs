//! The engine's two points of trust in outside code: anchored regular
//! expression matching, and Unicode letter classification. Each outside
//! result is given a name, and the claim strategies are specified and
//! verified over those names.

use vstd::prelude::*;

verus! {

/// Whether `pattern`, once anchored as `^pattern$`, is a valid regular
/// expression. Validity is a function of the pattern text alone.
pub uninterp spec fn regex_compiles(pattern: Seq<char>) -> bool;

/// Whether the anchored pattern `^pattern$` matches the whole of `text`.
/// The outcome is a function of the two texts alone.
pub uninterp spec fn regex_accepts(pattern: Seq<char>, text: Seq<char>) -> bool;

/// Whether `c` is alphabetic in the Unicode sense.
pub uninterp spec fn alphabetic(c: char) -> bool;

/// Relies on `regex::Regex::new` and `regex::Regex::is_match`: `new` accepts
/// or rejects a pattern by its text alone, and `is_match` reports whether the
/// compiled pattern matches somewhere in the haystack; anchoring the pattern
/// between `^` and `$` makes that a whole-text match.
#[verifier::external_body]
pub(crate) fn regex_full_match(pattern: &str, text: &str) -> (r: Option<bool>)
    ensures
        r is Some <==> regex_compiles(pattern@),
        r matches Some(b) ==> b == regex_accepts(pattern@, text@),
{
    match regex::Regex::new(&format!("^{}$", pattern)) {
        Ok(re) => Some(re.is_match(text)),
        Err(_) => None,
    }
}

/// Relies on `char::is_alphabetic` of std: the classification depends on the
/// character alone.
#[verifier::external_body]
pub(crate) fn is_alphabetic_char(c: char) -> (r: bool)
    ensures
        r == alphabetic(c),
{
    c.is_alphabetic()
}

} // verus!
