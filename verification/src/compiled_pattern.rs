//! A compiled regular expression kept together with the pattern it came from.
//! This module holds nothing else, so no other code can pair a regex with a
//! pattern it was not compiled from.

use vstd::prelude::*;

verus! {

#[verifier::external_type_specification]
#[verifier::external_body]
pub struct ExRegex(regex::Regex);

#[verifier::external_type_specification]
#[verifier::external_body]
pub struct ExRegexError(regex::Error);

/// Whether `regex::Regex::new` accepts `pattern` (it is valid and not too big).
pub uninterp spec fn regex_compiles(pattern: Seq<char>) -> bool;

/// Whether `regex::Regex::is_match` finds a match of `pattern` anywhere in `haystack`.
pub uninterp spec fn regex_finds_match(pattern: Seq<char>, haystack: Seq<char>) -> bool;

/// A compiled regular expression together with the pattern it was compiled from.
/// The fields are private to this module and only `compile_regex` builds one,
/// so the two always belong together.
pub struct CompiledPattern {
    source: String,
    regex: regex::Regex,
}

impl CompiledPattern {
    /// The pattern this regular expression was compiled from.
    pub closed spec fn pattern(&self) -> Seq<char> {
        self.source@
    }
}

/// Calls `regex::Regex::new(pattern)` and keeps the pattern beside the result.
/// Claims: the call succeeds exactly when the pattern compiles (a property of the
/// pattern alone), and the kept pattern is `pattern`.
#[verifier::external_body]
pub(crate) fn compile_regex(pattern: &str) -> (r: Result<CompiledPattern, regex::Error>)
    ensures
        r is Ok <==> regex_compiles(pattern@),
        r matches Ok(c) ==> c.pattern() == pattern@,
{
    match regex::Regex::new(pattern) {
        Ok(regex) => Ok(CompiledPattern { source: pattern.to_owned(), regex }),
        Err(e) => Err(e),
    }
}

/// Calls `regex::Regex::is_match(haystack)` on the compiled pattern.
/// Claims: the answer is a function of the pattern and the haystack alone.
#[verifier::external_body]
pub(crate) fn pattern_is_match(p: &CompiledPattern, haystack: &str) -> (r: bool)
    ensures
        r == regex_finds_match(p.pattern(), haystack@),
{
    p.regex.is_match(haystack)
}

} // verus!
