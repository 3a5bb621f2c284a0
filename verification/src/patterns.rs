//! Title patterns, matched through the regex crate behind trusted wrappers.
use vstd::prelude::*;

verus! {

/// Whether the regex crate accepts a pattern: what `Regex::new` returning `Ok`
/// depends on, the pattern text alone.
pub uninterp spec fn valid_pattern(p: Seq<char>) -> bool;

/// What a compiled pattern reports for a text: `Regex::is_match`, a function of
/// the pattern and the text alone.
pub uninterp spec fn pattern_match(p: Seq<char>, t: Seq<char>) -> bool;

/// A pattern matches a text: the pattern compiles and the compiled regex matches.
/// An invalid pattern matches nothing.
pub open spec fn matches_text(p: Seq<char>, t: Seq<char>) -> bool {
    valid_pattern(p) && pattern_match(p, t)
}

/// Relies on regex::Regex::new: whether it accepts a pattern depends on the
/// pattern alone.
#[verifier::external_body]
pub(crate) fn pattern_compiles(p: &str) -> (r: bool)
    ensures
        r == valid_pattern(p@),
{
    regex::Regex::new(p).is_ok()
}

/// Relies on regex::Regex::new and regex::Regex::is_match: compiling the same
/// pattern again yields a regex that matches the same texts, and `is_match`
/// depends on the pattern and the text alone. An uncompilable pattern is
/// reported as matching nothing.
#[verifier::external_body]
pub(crate) fn pattern_matches(p: &str, t: &str) -> (r: bool)
    ensures
        r == (valid_pattern(p@) && pattern_match(p@, t@)),
{
    match regex::Regex::new(p) {
        Ok(re) => re.is_match(t),
        Err(_) => false,
    }
}

} // verus!
