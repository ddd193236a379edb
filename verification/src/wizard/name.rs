//! The name frame: the application name is sanitised as it is typed, then
//! used to create the project.
use vstd::prelude::*;
use crate::common::Platform;
use crate::common::platform_name;
use crate::error::WizardError;
use crate::gameimage::init;
use crate::gameimage::init::project_view;
use crate::gameimage::request::Request;
use crate::text;
use crate::text::alphanumeric;
use crate::text::ascii_alphanumeric;

verus! {

/// `char::is_alphanumeric`: ASCII letters and digits, and beyond ASCII the
/// Unicode alphabetic and numeric characters.
pub open spec fn is_alphanumeric_char(c: char) -> bool {
    if (c as u32) < 128 {
        ascii_alphanumeric(c)
    } else {
        alphanumeric(c)
    }
}

/// What a character of a typed name becomes: alphanumerics, `-` and `_`
/// stay, `:` and space become `-`, anything else is dropped.
pub open spec fn sanitize_char(c: char) -> Option<char> {
    if is_alphanumeric_char(c) {
        Some(c)
    } else if c == '-' {
        Some(c)
    } else if c == '_' {
        Some(c)
    } else if c == ':' {
        Some('-')
    } else if c == ' ' {
        Some('-')
    } else {
        None
    }
}

/// The sanitised name.
pub open spec fn sanitized(s: Seq<char>) -> Seq<char>
    decreases s.len(),
{
    if s.len() == 0 {
        seq![]
    } else {
        match sanitize_char(s.last()) {
            Some(c) => sanitized(s.drop_last()).push(c),
            None => sanitized(s.drop_last()),
        }
    }
}

/// Sanitises a typed application name.
pub fn sanitize(input: &str) -> (r: String)
    ensures
        r@ == sanitized(input@),
{
    let v = text::chars_of(input);
    let n = v.len();
    let mut out: Vec<char> = Vec::new();
    let mut i: usize = 0;
    while i < n
        invariant
            n == v@.len(),
            v@ == input@,
            i <= n,
            out@ == sanitized(v@.take(i as int)),
        decreases n - i,
    {
        proof {
            assert(v@.take(i + 1).drop_last() =~= v@.take(i as int));
        }
        let c = v[i];
        if text::is_alphanumeric(c) || c == '-' || c == '_' {
            out.push(c);
        } else if c == ':' || c == ' ' {
            out.push('-');
        }
        i = i + 1;
    }
    assert(v@.take(n as int) =~= v@);
    text::string_of(out.as_slice())
}

/// Every character of a sanitised name is kept as it is by sanitising.
proof fn lemma_sanitized_chars(s: Seq<char>)
    ensures
        forall|i: int| 0 <= i < sanitized(s).len() ==> sanitize_char(#[trigger] sanitized(s)[i]) == Some(
            sanitized(s)[i],
        ),
    decreases s.len(),
{
    if s.len() > 0 {
        lemma_sanitized_chars(s.drop_last());
    }
}

/// Sanitising a sequence whose characters all stay leaves it unchanged.
proof fn lemma_sanitized_fixed(s: Seq<char>)
    requires
        forall|i: int| 0 <= i < s.len() ==> sanitize_char(#[trigger] s[i]) == Some(s[i]),
    ensures
        sanitized(s) == s,
    decreases s.len(),
{
    if s.len() > 0 {
        lemma_sanitized_fixed(s.drop_last());
        assert(s.drop_last().push(s.last()) =~= s);
    }
}

/// Sanitising a sanitised name changes nothing.
pub proof fn law_sanitize_idempotent(s: Seq<char>)
    ensures
        sanitized(sanitized(s)) == sanitized(s),
{
    lemma_sanitized_chars(s);
    lemma_sanitized_fixed(sanitized(s));
}

/// A sanitised name has no `:`, no space, and no more characters than the
/// typed one.
pub proof fn law_sanitized_chars(s: Seq<char>)
    ensures
        sanitized(s).len() <= s.len(),
        forall|i: int| 0 <= i < sanitized(s).len() ==> #[trigger] sanitized(s)[i] != ':' && sanitized(s)[i] != ' ',
    decreases s.len(),
{
    if s.len() > 0 {
        law_sanitized_chars(s.drop_last());
    }
}

/// A letter, digit or `_`: the characters of a name that stay as they are.
pub open spec fn word_char() -> spec_fn(char) -> bool {
    |c: char| is_alphanumeric_char(c) || c == '_'
}

/// A `-`.
pub open spec fn dash_char() -> spec_fn(char) -> bool {
    |c: char| c == '-'
}

/// A `-`, `:` or space: the characters of a typed name that become `-`.
pub open spec fn dash_like_char() -> spec_fn(char) -> bool {
    |c: char| c == '-' || c == ':' || c == ' '
}

/// What a sanitised name holds: only letters, digits, `-` and `_`; its
/// letters, digits and underscores are exactly those of the typed name, in
/// order; and it has one `-` for each `-`, `:` and space typed. Anything
/// else typed (such as `.`) is dropped.
pub proof fn law_sanitize_keeps_name_chars(s: Seq<char>)
    ensures
        forall|i: int| 0 <= i < sanitized(s).len() ==> is_alphanumeric_char(#[trigger] sanitized(s)[i])
            || sanitized(s)[i] == '-' || sanitized(s)[i] == '_',
        sanitized(s).filter(word_char()) == s.filter(word_char()),
        sanitized(s).filter(dash_char()).len() == s.filter(dash_like_char()).len(),
    decreases s.len(),
{
    broadcast use Seq::lemma_filter_push;
    reveal(Seq::filter);
    if s.len() > 0 {
        let t = s.drop_last();
        let c = s.last();
        law_sanitize_keeps_name_chars(t);
        assert(t.push(c) =~= s);
        let o = sanitized(t);
        match sanitize_char(c) {
            Some(d) => {
                assert(sanitized(s) == o.push(d));
                assert forall|i: int| 0 <= i < sanitized(s).len() implies is_alphanumeric_char(#[trigger] sanitized(s)[i])
                    || sanitized(s)[i] == '-' || sanitized(s)[i] == '_' by {
                    if i < o.len() {
                        assert(sanitized(s)[i] == o[i]);
                    }
                }
            },
            None => {
                assert(sanitized(s) == o);
            },
        }
    }
}

/// What the Next button of the name frame does: with a name and a chosen
/// platform, create the project; otherwise report what is missing.
pub fn name_next(name: Option<String>, platform: Option<Platform>) -> (r: Result<Request, WizardError>)
    ensures
        match (name, platform) {
            (None, _) => r matches Err(WizardError::EmptyName),
            (Some(_), None) => r matches Err(WizardError::NoPlatform),
            (Some(n), Some(p)) => r matches Ok(q) && q@ == project_view(n@, platform_name(p)),
        },
{
    let name = match name {
        Some(n) => n,
        None => return Err(WizardError::EmptyName),
    };
    let platform = match platform {
        Some(p) => p,
        None => return Err(WizardError::NoPlatform),
    };
    Ok(init::project(name.as_str(), platform.as_str()))
}

} // verus!
