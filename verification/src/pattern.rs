//! Pattern compilation and content matching.
//!
//! A query is compiled once, up front, into a [`Matcher`]; compiling is a
//! fallible pure function of the pattern text. Matching a compiled pattern
//! against a file's text reports the first matching line, a pure function of
//! the pattern and the text — both consumed from the regex and searcher
//! machinery of an outside crate through the trusted items below.

use vstd::prelude::*;

verus! {

/// Whether the pattern text compiles as a valid pattern. Compilation is
/// deterministic, so validity is a function of the text alone.
pub uninterp spec fn pattern_ok(pattern: Seq<char>) -> bool;

/// What matching `pattern` against `text` yields: `None` when no line of
/// `text` matches, otherwise the first matching line's 1-based number and its
/// untrimmed text.
pub uninterp spec fn first_hit(pattern: Seq<char>, text: Seq<char>) -> Option<(u64, Seq<char>)>;

/// `s` with leading and trailing whitespace removed.
pub uninterp spec fn trimmed(s: Seq<char>) -> Seq<char>;

/// Relies on `str::trim`: returns the string without leading and trailing
/// whitespace, a function of the characters alone.
#[verifier::external_body]
pub(crate) fn trim_text(s: &str) -> (r: String)
    ensures
        r@ == trimmed(s@),
{
    s.trim().to_string()
}

/// Why a whole run failed: these abort the run and reach the consumer as a
/// failure, never as a result list.
#[derive(Clone, Copy, Debug, PartialEq, Eq, Structural)]
pub enum SearchError {
    /// The query did not compile as a valid pattern.
    InvalidPattern,
}

/// A query compiled for the match phase. The compiled machinery is opaque;
/// everything stated about a `Matcher`'s behaviour is stated against the
/// pattern text it was compiled from, which it carries along.
pub struct Matcher {
    pattern: String,
    inner: grep::regex::RegexMatcher,
}

#[verifier::external_type_specification]
#[verifier::external_body]
pub struct ExRegexMatcher(grep::regex::RegexMatcher);

#[verifier::external_type_specification]
#[verifier::external_body]
pub struct ExRegexError(grep::regex::Error);

impl Matcher {
    /// The pattern text this matcher was compiled from.
    pub closed spec fn pattern(&self) -> Seq<char> {
        self.pattern@
    }

    /// Relies on `grep_regex::RegexMatcher::new`: compiles the pattern with
    /// the default configuration; succeeding or failing depends on the
    /// pattern text alone. The only way a `Matcher` is made, so its compiled
    /// half always belongs to the pattern text it carries.
    #[verifier::external_body]
    fn compile(pattern: &str) -> (r: Result<Matcher, grep::regex::Error>)
        ensures
            r is Ok <==> pattern_ok(pattern@),
            r matches Ok(m) ==> m.pattern() == pattern@,
    {
        grep::regex::RegexMatcher::new(pattern).map(
            |inner| Matcher { pattern: pattern.to_string(), inner },
        )
    }

    /// Compiles a query, mapping a failure to the library's own error: the
    /// query is rejected exactly when it is not a valid pattern.
    pub fn new(pattern: &str) -> (r: Result<Matcher, SearchError>)
        ensures
            r is Ok <==> pattern_ok(pattern@),
            r matches Ok(m) ==> m.pattern() == pattern@,
            r matches Err(e) ==> e == SearchError::InvalidPattern,
    {
        match Self::compile(pattern) {
            Ok(m) => Ok(m),
            Err(_) => Err(SearchError::InvalidPattern),
        }
    }

    /// Relies on `grep_searcher::Searcher::search_slice` over a line-oriented
    /// searcher with 1-based line numbers on and binary detection quitting at
    /// a NUL byte, reporting through the `UTF8` sink and stopping at the
    /// first matching line. The slice search does no I/O, so the outcome is a
    /// function of the pattern and the text alone.
    #[verifier::external_body]
    pub(crate) fn first_match(&self, text: &str) -> (r: Option<(u64, String)>)
        ensures
            r is None <==> first_hit(self.pattern(), text@) is None,
            r matches Some(h) ==> first_hit(self.pattern(), text@) == Some((h.0, h.1@)),
    {
        let mut searcher = grep::searcher::SearcherBuilder::new().binary_detection(
            grep::searcher::BinaryDetection::quit(b'\x00'),
        ).build();
        let mut hit: Option<(u64, String)> = None;
        let _ = searcher.search_slice(
            &self.inner,
            text.as_bytes(),
            grep::searcher::sinks::UTF8(|ln, line| {
                hit = Some((ln, line.to_string()));
                Ok(false)
            }),
        );
        hit
    }
}

} // verus!
