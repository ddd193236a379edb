//! The environment variables of a project (`gameimage.env.json` in the
//! project directory): a list of key/value pairs, appended to in order.
use vstd::prelude::*;
use crate::error::WizardError;
use crate::pattern;
use crate::pattern::regex_compiles;
use crate::pattern::regex_matches;
use crate::pattern::is_identifier;
use crate::path;
use crate::path::path_joined;
use crate::text;
use crate::db::global;

verus! {

/// One variable.
pub struct Var {
    pub key: String,
    pub val: String,
}

/// The variables of a project, in the order they were set.
pub struct Vars {
    pub env: Vec<Var>,
}

/// The variables as key/value text pairs.
pub open spec fn vars_view(env: Seq<Var>) -> Seq<(Seq<char>, Seq<char>)> {
    env.map_values(|v: Var| (v.key@, v.val@))
}

/// The pairs whose key is not `key`, in order.
pub open spec fn without_key(w: Seq<(Seq<char>, Seq<char>)>, key: Seq<char>) -> Seq<(Seq<char>, Seq<char>)> {
    w.filter(other_key(key))
}

/// Holds of the pairs whose key is not `key`.
pub open spec fn other_key(key: Seq<char>) -> spec_fn((Seq<char>, Seq<char>)) -> bool {
    |p: (Seq<char>, Seq<char>)| p.0 != key
}

/// The pattern a key must match.
pub open spec fn key_pattern() -> Seq<char> {
    "^[_[:alpha:]][_[:alnum:]]*$"@
}

/// The path of the environment database of the current project:
/// `<build dir>/<project>/gameimage.env.json`.
pub fn from_file(db: &global::Entry) -> (r: String)
    ensures
        r@ == path_joined(path_joined(db.path_dir_build@, db.project@), "gameimage.env.json"@),
{
    let dir = path::join(db.path_dir_build.as_str(), db.project.as_str());
    path::join(dir.as_str(), "gameimage.env.json")
}

/// The variables read from the database: what could be parsed, or none
/// when the file is missing or does not parse.
pub fn get(parsed: Option<Vars>) -> (r: Vars)
    ensures
        match parsed {
            Some(v) => r == v,
            None => r.env@.len() == 0,
        },
{
    match parsed {
        Some(v) => v,
        None => Vars { env: Vec::new() },
    }
}

/// Appends the variable `key=val`. The key must match
/// `^[_[:alpha:]][_[:alnum:]]*$`; otherwise nothing changes and
/// `InvalidKey` is returned.
pub fn set(vars: &mut Vars, key: String, val: String) -> (r: Result<(), WizardError>)
    ensures
        !regex_compiles(key_pattern()) ==> r == Err::<(), WizardError>(WizardError::InvalidPattern) && final(vars).env@ == old(vars).env@,
        regex_compiles(key_pattern()) && !regex_matches(key_pattern(), key@) ==> r == Err::<(), WizardError>(WizardError::InvalidKey)
            && final(vars).env@ == old(vars).env@,
        regex_compiles(key_pattern()) && regex_matches(key_pattern(), key@) ==> r is Ok
            && final(vars).env@ == old(vars).env@.push(Var { key, val }),
        is_identifier(key@) ==> r is Ok && final(vars).env@ == old(vars).env@.push(Var { key, val }),
        !is_identifier(key@) ==> r == Err::<(), WizardError>(WizardError::InvalidKey) && final(vars).env@ == old(vars).env@,
{
    let regex_key = match pattern::compile("^[_[:alpha:]][_[:alnum:]]*$") {
        Ok(p) => p,
        Err(e) => return Err(e),
    };
    let key_ok = pattern::is_match(&regex_key, key.as_str());
    set_checked(vars, key, val, key_ok)
}

/// Appends the variable `key=val` once its key was checked: `key_ok` tells
/// whether the key matches the key pattern. A key that does not match
/// changes nothing and gives `InvalidKey`.
pub fn set_checked(vars: &mut Vars, key: String, val: String, key_ok: bool) -> (r: Result<(), WizardError>)
    ensures
        !key_ok ==> r == Err::<(), WizardError>(WizardError::InvalidKey) && final(vars).env@ == old(vars).env@,
        key_ok ==> r is Ok && final(vars).env@ == old(vars).env@.push(Var { key, val }),
{
    if !key_ok {
        return Err(WizardError::InvalidKey);
    }
    vars.env.push(Var { key, val });
    Ok(())
}

/// Removes every variable whose key is `key`, keeping the others in order.
pub fn del(vars: &mut Vars, key: &str)
    ensures
        vars_view(final(vars).env@) == without_key(vars_view(old(vars).env@), key@),
{
    let ghost w = vars_view(vars.env@);
    let n = vars.env.len();
    let mut kept: Vec<Var> = Vec::new();
    let mut i: usize = 0;
    while i < n
        invariant
            n == vars.env@.len(),
            w == vars_view(vars.env@),
            i <= n,
            vars_view(kept@) == without_key(w.take(i as int), key@),
        decreases n - i,
    {
        proof {
            reveal(Seq::filter);
            assert(w.take(i + 1).drop_last() =~= w.take(i as int));
            assert(w.take(i + 1).last() == w[i as int]);
        }
        if !text::str_equal(vars.env[i].key.as_str(), key) {
            let v = Var { key: vars.env[i].key.clone(), val: vars.env[i].val.clone() };
            kept.push(v);
            assert(vars_view(kept@) =~= without_key(w.take(i as int), key@).push(w[i as int]));
        }
        i = i + 1;
    }
    assert(w.take(n as int) =~= w);
    vars.env = kept;
}

/// Deleting a key right after setting it leaves what deleting it alone
/// leaves.
pub proof fn law_del_after_set(w: Seq<(Seq<char>, Seq<char>)>, key: Seq<char>, val: Seq<char>)
    ensures
        without_key(w.push((key, val)), key) == without_key(w, key),
{
    reveal(Seq::filter);
    assert(w.push((key, val)).drop_last() =~= w);
}

/// Setting a key keeps what deleting another key keeps, followed by the new
/// variable.
pub proof fn law_set_other_key(w: Seq<(Seq<char>, Seq<char>)>, key: Seq<char>, other: Seq<char>, val: Seq<char>)
    requires
        key != other,
    ensures
        without_key(w.push((key, val)), other) == without_key(w, other).push((key, val)),
{
    reveal(Seq::filter);
    assert(w.push((key, val)).drop_last() =~= w);
}

/// After deleting a key no variable has it, and deleting it again changes
/// nothing.
pub proof fn law_del_removes_key(w: Seq<(Seq<char>, Seq<char>)>, key: Seq<char>)
    ensures
        forall|i: int| 0 <= i < without_key(w, key).len() ==> #[trigger] without_key(w, key)[i].0 != key,
        without_key(without_key(w, key), key) == without_key(w, key),
    decreases w.len(),
{
    let f = other_key(key);
    assert forall|i: int| 0 <= i < without_key(w, key).len() implies #[trigger] without_key(w, key)[i].0 != key by {
        w.lemma_filter_pred(f, i);
    }
    lemma_filter_all_kept(without_key(w, key), key);
}

/// Filtering a sequence none of whose pairs has `key` keeps it whole.
proof fn lemma_filter_all_kept(w: Seq<(Seq<char>, Seq<char>)>, key: Seq<char>)
    requires
        forall|i: int| 0 <= i < w.len() ==> #[trigger] w[i].0 != key,
    ensures
        without_key(w, key) == w,
    decreases w.len(),
{
    reveal(Seq::filter);
    if w.len() > 0 {
        lemma_filter_all_kept(w.drop_last(), key);
        assert(w.drop_last().push(w.last()) =~= w);
    }
}

} // verus!
