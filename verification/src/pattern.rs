//! Regular expressions, through the `regex` crate.
use vstd::prelude::*;

verus! {

/// `regex::Regex`, a compiled regular expression, held opaque.
#[verifier::external_type_specification]
#[verifier::external_body]
pub struct ExRegex(regex::Regex);

/// `regex::Error`, why a pattern did not compile, held opaque.
#[verifier::external_type_specification]
#[verifier::external_body]
pub struct ExRegexError(regex::Error);

/// Whether `regex::Regex::new` accepts a pattern.
pub uninterp spec fn regex_compiles(pattern: Seq<char>) -> bool;

/// Whether `regex::Regex::is_match` holds of a text, for the regular
/// expression compiled from a pattern.
pub uninterp spec fn regex_matches(pattern: Seq<char>, text: Seq<char>) -> bool;

/// An ASCII letter.
pub open spec fn ascii_alpha(c: char) -> bool {
    ('a' <= c && c <= 'z') || ('A' <= c && c <= 'Z')
}

/// An identifier: a letter or `_` first, then letters, digits or `_`
/// (ASCII only). This is what `^[_[:alpha:]][_[:alnum:]]*$` matches.
pub open spec fn is_identifier(s: Seq<char>) -> bool {
    &&& s.len() > 0
    &&& (s[0] == '_' || ascii_alpha(s[0]))
    &&& forall|i: int| 1 <= i < s.len() ==> (#[trigger] s[i] == '_' || ascii_alpha(s[i]) || ('0' <= s[i] && s[i] <= '9'))
}

/// A regular expression together with the pattern it was compiled from.
/// The only way to build one is `compile`, so `re` always stands for
/// `pattern`.
pub struct CompiledPattern {
    re: regex::Regex,
    pattern: Ghost<Seq<char>>,
}

impl CompiledPattern {
    /// The pattern the expression was compiled from.
    pub closed spec fn pattern(&self) -> Seq<char> {
        self.pattern@
    }
}

/// `regex::Regex::new`: succeeds exactly on the patterns it accepts; which
/// those are is named, not stated, but for the identifier pattern
/// `^[_[:alpha:]][_[:alnum:]]*$`, which is well formed and compiles.
#[verifier::external_body]
fn regex_new(pattern: &str) -> (r: Result<regex::Regex, regex::Error>)
    ensures
        r is Ok <==> regex_compiles(pattern@),
        pattern@ == "^[_[:alpha:]][_[:alnum:]]*$"@ ==> r is Ok,
{
    regex::Regex::new(pattern)
}

/// `regex::Regex::is_match` on the expression held in a `CompiledPattern`;
/// its result is named, not stated, but for the identifier pattern
/// `^[_[:alpha:]][_[:alnum:]]*$`: per the crate's syntax, `[:alpha:]` and
/// `[:alnum:]` are the ASCII classes `[A-Za-z]` and `[0-9A-Za-z]`, and `^`
/// and `$` (not in multi-line mode) anchor the start and end of the text,
/// so it matches exactly the identifiers.
#[verifier::external_body]
fn regex_is_match(p: &CompiledPattern, text: &str) -> (r: bool)
    ensures
        r == regex_matches(p.pattern(), text@),
        p.pattern() == "^[_[:alpha:]][_[:alnum:]]*$"@ ==> (r <==> is_identifier(text@)),
{
    p.re.is_match(text)
}

/// Compiles a pattern.
pub fn compile(pattern: &str) -> (r: Result<CompiledPattern, crate::error::WizardError>)
    ensures
        match r {
            Ok(p) => regex_compiles(pattern@) && p.pattern() == pattern@,
            Err(e) => !regex_compiles(pattern@) && e == crate::error::WizardError::InvalidPattern,
        },
        pattern@ == "^[_[:alpha:]][_[:alnum:]]*$"@ ==> r is Ok,
{
    match regex_new(pattern) {
        Ok(re) => Ok(CompiledPattern { re, pattern: Ghost(pattern@) }),
        Err(_) => Err(crate::error::WizardError::InvalidPattern),
    }
}

/// Whether the expression matches somewhere in `text` (anchors in the
/// pattern decide whether the whole text must match).
pub fn is_match(p: &CompiledPattern, text: &str) -> (r: bool)
    ensures
        r == regex_matches(p.pattern(), text@),
        p.pattern() == "^[_[:alpha:]][_[:alnum:]]*$"@ ==> (r <==> is_identifier(text@)),
{
    regex_is_match(p, text)
}

} // verus!
