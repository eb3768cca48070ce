//! Regular-expression matching through the `regex` crate.
use vstd::prelude::*;

verus! {

#[verifier::external_type_specification]
#[verifier::external_body]
pub struct ExRegex(regex::Regex);

/// Whether `regex::Regex::new` accepts `pattern`.
pub uninterp spec fn regex_compiles(pattern: Seq<char>) -> bool;

/// Whether a regex compiled from `pattern` matches somewhere in `haystack`
/// (`regex::Regex::is_match`).
pub uninterp spec fn regex_matches(pattern: Seq<char>, haystack: Seq<char>) -> bool;

/// The library's own fixed patterns: the rule for NATS namespaces and the rule
/// for UID sets. Both are valid `regex` syntax (character classes, `\d`,
/// `\s`, groups, alternation, repetition and anchors).
pub open spec fn fixed_pattern(pattern: Seq<char>) -> bool {
    ||| pattern == "^[a-zA-Z][a-zA-Z0-9_]*$"@
    ||| pattern == "^(\\d+|\\d+:\\d+)(\\s+\\d+|\\s+\\d+:\\d+)*$"@
}

/// Calls `regex::Regex::new`. Claimed: a regex comes back exactly when the
/// pattern compiles, and the library's fixed patterns compile; nothing is said
/// of the compiled automaton itself.
#[verifier::external_body]
fn regex_new(pattern: &str) -> (r: Option<regex::Regex>)
    ensures
        r is Some <==> regex_compiles(pattern@),
        fixed_pattern(pattern@) ==> r is Some,
{
    regex::Regex::new(pattern).ok()
}

/// A compiled regular expression together with the pattern it was built from.
pub struct CompiledRegex {
    re: regex::Regex,
    source: Ghost<Seq<char>>,
}

impl CompiledRegex {
    pub closed spec fn pattern(&self) -> Seq<char> {
        self.source@
    }

    /// Compiles `pattern`; `None` exactly when the `regex` crate rejects it.
    pub fn new(pattern: &str) -> (r: Option<CompiledRegex>)
        ensures
            r is Some <==> regex_compiles(pattern@),
            fixed_pattern(pattern@) ==> r is Some,
            r matches Some(c) ==> c.pattern() == pattern@,
    {
        match regex_new(pattern) {
            Some(re) => Some(CompiledRegex { re, source: Ghost(pattern@) }),
            None => None,
        }
    }

    /// Calls `regex::Regex::is_match`. Claimed: the answer is a function of the
    /// pattern the regex was compiled from and of the haystack.
    #[verifier::external_body]
    pub fn is_match(&self, haystack: &str) -> (r: bool)
        ensures
            r == regex_matches(self.pattern(), haystack@),
    {
        self.re.is_match(haystack)
    }
}

} // verus!
