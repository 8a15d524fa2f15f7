//! A compiled regular expression paired with the pattern text it was
//! compiled from. Contracts about matching speak of the pattern text, so
//! that the rest of the library can reason about rule application while the
//! regex engine itself stays behind trusted declarations.

use vstd::prelude::*;

verus! {

#[verifier::external_type_specification]
#[verifier::external_body]
pub struct ExRegex(regex::Regex);

/// Whether the regex engine accepts `pattern` as a valid pattern; the
/// outcome of compilation depends on the pattern text alone.
pub uninterp spec fn regex_valid(pattern: Seq<char>) -> bool;

/// Whether the pattern matches anywhere in `text`; the outcome depends on
/// the pattern text and the haystack alone.
pub uninterp spec fn regex_is_match(pattern: Seq<char>, text: Seq<char>) -> bool;

/// The substring of `text` matched by capture group 1 when the pattern is
/// matched against `text`: `None` when there is no match, no group 1, or
/// group 1 did not participate in the match.
pub uninterp spec fn regex_group1(pattern: Seq<char>, text: Seq<char>) -> Option<Seq<char>>;

/// A regex compiled once, at configuration-normalization time, together
/// with its source pattern. The view of a `Pattern` is its pattern text.
pub struct Pattern {
    regex: regex::Regex,
    source: String,
}

impl View for Pattern {
    type V = Seq<char>;

    closed spec fn view(&self) -> Seq<char> {
        self.source@
    }
}

/// Relies on `regex::Regex::new`: compilation succeeds or fails on the
/// pattern text alone, and the returned matcher matches as that pattern.
#[verifier::external_body]
fn regex_new(pattern: &str) -> (r: Option<regex::Regex>)
    ensures
        r is Some <==> regex_valid(pattern@),
{
    regex::Regex::new(pattern).ok()
}

impl Pattern {
    /// Compiles `pattern`, returning `None` exactly when the regex engine
    /// rejects it.
    pub fn compile(pattern: &str) -> (r: Option<Pattern>)
        ensures
            r is Some <==> regex_valid(pattern@),
            r matches Some(p) ==> p@ == pattern@,
    {
        match regex_new(pattern) {
            Option::Some(regex) => Option::Some(Pattern { regex, source: pattern.to_owned() }),
            Option::None => Option::None,
        }
    }

    /// Relies on `regex::Regex::is_match`: true if and only if the pattern
    /// matches anywhere in `text`.
    #[verifier::external_body]
    pub(crate) fn is_match(&self, text: &str) -> (r: bool)
        ensures
            r == regex_is_match(self@, text@),
    {
        self.regex.is_match(text)
    }

    /// Relies on `regex::Regex::captures` and `regex::Captures::get`: the
    /// substring matched by capture group 1, `None` when the pattern does
    /// not match, has no group 1, or group 1 did not participate.
    #[verifier::external_body]
    pub(crate) fn group1(&self, text: &str) -> (r: Option<String>)
        ensures
            r is Some <==> regex_group1(self@, text@) is Some,
            r matches Some(s) ==> regex_group1(self@, text@) == Option::Some(s@),
            !regex_is_match(self@, text@) ==> r is None,
    {
        self.regex.captures(text).and_then(|c| c.get(1)).map(|m| m.as_str().to_owned())
    }
}

} // verus!
