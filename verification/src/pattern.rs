//! Text search with regular expressions, through the `regex` crate.
use vstd::prelude::*;
use regex::Error as RegexError;

verus! {

/// A compiled regular expression.
#[verifier::external_type_specification]
#[verifier::external_body]
pub struct ExRegex(regex::Regex);

/// Whether the `regex` crate, with its default settings, accepts `pattern`.
pub uninterp spec fn regex_accepts(pattern: Seq<char>) -> bool;

/// The text of capture group `group` in the leftmost-first match of
/// `pattern` in `haystack`; `None` where there is no match or the group
/// took no part in it.
pub uninterp spec fn regex_capture(pattern: Seq<char>, haystack: Seq<char>, group: usize) -> Option<
    Seq<char>,
>;

/// A regular expression together with the pattern it was compiled from.
pub struct Pattern {
    source: String,
    compiled: regex::Regex,
}

impl View for Pattern {
    type V = Seq<char>;

    closed spec fn view(&self) -> Seq<char> {
        self.source@
    }
}

impl Pattern {
    /// Compiles `source` (`Regex::new`).
    ///
    /// Trusted: success is the named predicate of the pattern text, which
    /// the regex crate decides from the pattern and its default size limit
    /// alone; the compiled expression is kept beside that text.
    #[verifier::external_body]
    pub(crate) fn compile(source: &str) -> (r: std::result::Result<Pattern, RegexError>)
        ensures
            r is Ok <==> regex_accepts(source@),
            r matches Ok(p) ==> p@ == source@,
    {
        match regex::Regex::new(source) {
            Ok(compiled) => Ok(Pattern { source: source.to_string(), compiled }),
            Err(e) => Err(e),
        }
    }

    /// The text of capture group `group` in the first match in `haystack`
    /// (`Regex::captures`, `Captures::get`, `Match::as_str`).
    ///
    /// Trusted: the result is the named function of the pattern, the
    /// haystack and the group number.
    #[verifier::external_body]
    pub(crate) fn capture(&self, haystack: &str, group: usize) -> (r: Option<String>)
        ensures
            match r {
                Some(s) => regex_capture(self@, haystack@, group) == Some(s@),
                None => regex_capture(self@, haystack@, group) is None,
            },
    {
        let captures = self.compiled.captures(haystack)?;
        let found = captures.get(group)?;
        Some(found.as_str().to_string())
    }
}

/// Compiles `pattern` and returns the text of its capture group `group` in
/// the first match in `haystack`.
pub fn find_group(pattern: &str, haystack: &str, group: usize) -> (r: std::result::Result<Option<String>, RegexError>)
    ensures
        r is Ok <==> regex_accepts(pattern@),
        r matches Ok(found) ==> match found {
            Some(s) => regex_capture(pattern@, haystack@, group) == Some(s@),
            None => regex_capture(pattern@, haystack@, group) is None,
        },
{
    let compiled = Pattern::compile(pattern)?;
    Ok(compiled.capture(haystack, group))
}

} // verus!
