//! Smart-case regular expressions for the account and description filters.

use vstd::prelude::*;

verus! {

#[verifier::external_type_specification]
#[verifier::external_body]
pub struct ExRegex(regex::Regex);

#[verifier::external_type_specification]
#[verifier::external_body]
pub struct ExRegexError(regex::Error);

/// Whether regex's builder accepts a pattern with the given case setting.
pub uninterp spec fn regex_compiles(pattern: Seq<char>, case_insensitive: bool) -> bool;

/// Whether a regex built from a pattern with the given case setting matches
/// somewhere in the haystack.
pub uninterp spec fn regex_finds(pattern: Seq<char>, case_insensitive: bool, haystack: Seq<char>) -> bool;

/// Relies on regex's `RegexBuilder::build`, after `new` and
/// `case_insensitive`: whether it succeeds depends on the pattern and the
/// case setting alone (the size limits stay at their defaults).
#[verifier::external_body]
fn compile_regex(pattern: &str, case_insensitive: bool) -> (r: Result<regex::Regex, regex::Error>)
    ensures
        r is Ok <==> regex_compiles(pattern@, case_insensitive),
{
    regex::RegexBuilder::new(pattern).case_insensitive(case_insensitive).build()
}

/// Relies on `Display` for `regex::Error`, to keep its message.
#[verifier::external_body]
fn regex_error_text(e: &regex::Error) -> String {
    e.to_string()
}

/// Relies on regex's `Regex::is_match`, which tells whether the regex
/// matches anywhere in the haystack. The regex of a `Pattern` is only built
/// by `compile_regex` from the pattern's own text and case setting, which
/// `Pattern` keeps beside it and never changes.
#[verifier::external_body]
fn regex_is_match(p: &Pattern, haystack: &str) -> (r: bool)
    ensures
        r == regex_finds(p.text(), p.ignores_case(), haystack@),
{
    p.regex.is_match(haystack)
}

pub open spec fn is_ascii_uppercase(c: char) -> bool {
    'A' <= c && c <= 'Z'
}

pub open spec fn has_ascii_uppercase(s: Seq<char>) -> bool {
    exists|i: int| 0 <= i < s.len() && #[trigger] is_ascii_uppercase(s[i])
}

/// Whether the text holds an ASCII uppercase letter.
pub fn has_uppercase(s: &str) -> (r: bool)
    ensures
        r == has_ascii_uppercase(s@),
{
    let n = s.unicode_len();
    let mut i: usize = 0;
    while i < n
        invariant
            i <= n == s@.len(),
            forall|j: int| 0 <= j < i ==> !is_ascii_uppercase(#[trigger] s@[j]),
        decreases n - i,
    {
        let c = s.get_char(i);
        if 'A' <= c && c <= 'Z' {
            assert(is_ascii_uppercase(s@[i as int]));
            return true;
        }
        i = i + 1;
    }
    false
}

/// A pattern that the regex of `text` could not be built from.
#[derive(Clone, Debug, PartialEq, Eq)]
pub struct PatternError {
    pub pattern: String,
    pub message: String,
}

/// A compiled regular expression, kept together with its source text and its
/// case setting.
#[derive(Debug)]
pub struct Pattern {
    regex: regex::Regex,
    source: String,
    case_insensitive: bool,
}

impl Pattern {
    /// The text the pattern was built from.
    pub closed spec fn text(&self) -> Seq<char> {
        self.source@
    }

    /// Whether the pattern ignores case.
    pub closed spec fn ignores_case(&self) -> bool {
        self.case_insensitive
    }

    pub fn source(&self) -> (r: &str)
        ensures
            r@ == self.text(),
    {
        self.source.as_str()
    }

    pub fn is_case_insensitive(&self) -> (r: bool)
        ensures
            r == self.ignores_case(),
    {
        self.case_insensitive
    }

    /// Whether the pattern matches somewhere in `haystack`.
    pub fn is_match(&self, haystack: &str) -> (r: bool)
        ensures
            r == regex_finds(self.text(), self.ignores_case(), haystack@),
    {
        regex_is_match(self, haystack)
    }
}

/// Builds a regex with smart case: it ignores case unless the pattern holds
/// an uppercase letter.
pub fn build_regex_smartcase(pattern: &str) -> (r: Result<Pattern, PatternError>)
    ensures
        r is Ok <==> regex_compiles(pattern@, !has_ascii_uppercase(pattern@)),
        r matches Ok(p) ==> p.text() == pattern@ && p.ignores_case() == !has_ascii_uppercase(
            pattern@,
        ),
        r matches Err(e) ==> e.pattern@ == pattern@,
{
    let case_insensitive = !has_uppercase(pattern);
    match compile_regex(pattern, case_insensitive) {
        Ok(regex) => Ok(Pattern { regex, source: pattern.to_owned(), case_insensitive }),
        Err(e) => Err(PatternError { pattern: pattern.to_owned(), message: regex_error_text(&e) }),
    }
}

} // verus!
