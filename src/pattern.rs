use vstd::prelude::*;

verus! {

/// Whether `regex` accepts this text as a pattern, under its default limits.
pub uninterp spec fn regex_compiles(text: Seq<char>) -> bool;

/// Whether the regex compiled from `pattern` matches somewhere in `haystack`.
pub uninterp spec fn regex_finds(pattern: Seq<char>, haystack: Seq<char>) -> bool;

#[verifier::external_type_specification]
#[verifier::external_body]
pub struct ExRegex(regex::Regex);

/// Why a pattern was refused.
#[derive(Clone, Debug, PartialEq, Eq)]
pub struct PatternError {
    pub reason: String,
}

/// A compiled match pattern, kept together with the text it was compiled from.
///
/// `Pattern::new` is the only way to build one, so the regex always belongs
/// to the text.
#[derive(Debug)]
pub struct Pattern {
    regex: regex::Regex,
    text: String,
}

impl View for Pattern {
    type V = Seq<char>;

    closed spec fn view(&self) -> Seq<char> {
        self.text@
    }
}

/// Relies on `regex::Regex::new`: it compiles the text, or returns the error
/// as a message; whether it succeeds depends on the text alone.
#[verifier::external_body]
fn compile(text: &str) -> (r: Result<regex::Regex, String>)
    ensures
        r.is_ok() == regex_compiles(text@),
{
    match regex::Regex::new(text) {
        Ok(re) => Ok(re),
        Err(e) => Err(e.to_string()),
    }
}

/// Relies on `regex::Regex::is_match`: true if and only if the regex matches
/// anywhere in the haystack. The regex was compiled from `pattern@`.
#[verifier::external_body]
fn find_in(pattern: &Pattern, haystack: &str) -> (r: bool)
    ensures
        r == regex_finds(pattern@, haystack@),
{
    pattern.regex.is_match(haystack)
}

impl Pattern {
    /// Compiles `text`; fails exactly when the regex engine refuses it.
    pub fn new(text: &str) -> (r: Result<Pattern, PatternError>)
        ensures
            r.is_ok() == regex_compiles(text@),
            r matches Ok(p) ==> p@ == text@,
    {
        match compile(text) {
            Ok(regex) => Ok(Pattern { regex, text: text.to_owned() }),
            Err(reason) => Err(PatternError { reason }),
        }
    }

    /// The text the pattern was compiled from.
    pub fn as_str(&self) -> (r: &str)
        ensures
            r@ == self@,
    {
        self.text.as_str()
    }

    /// Whether the pattern matches anywhere in `haystack` (no anchoring is
    /// added: a match of any substring counts).
    pub fn is_match(&self, haystack: &str) -> (r: bool)
        ensures
            r == regex_finds(self@, haystack@),
    {
        find_in(self, haystack)
    }
}

} // verus!
