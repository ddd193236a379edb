//! The arguments given to wine executables (`gameimage.wine.args.json`
//! in the project directory): a map from executable path to arguments.
use vstd::prelude::*;
use crate::kv::StrMap;
use crate::path;
use crate::path::path_joined;
use crate::db::global;

verus! {

/// Executable path to its arguments.
pub type Args = StrMap;

/// The path of the arguments database of the current project:
/// `<build dir>/<project>/gameimage.wine.args.json`.
pub fn from_file(db: &global::Entry) -> (r: String)
    ensures
        r@ == path_joined(path_joined(db.path_dir_build@, db.project@), "gameimage.wine.args.json"@),
{
    let dir = path::join(db.path_dir_build.as_str(), db.project.as_str());
    path::join(dir.as_str(), "gameimage.wine.args.json")
}

/// The arguments read from the database: what could be parsed, or none
/// when the file is missing or does not parse.
pub fn read(parsed: Option<Args>) -> (r: Args)
    ensures
        match parsed {
            Some(a) => r == a,
            None => r@ == Map::<Seq<char>, Seq<char>>::empty(),
        },
{
    match parsed {
        Some(a) => a,
        None => StrMap::new(),
    }
}

/// Records `val` as the arguments of the executable at `path`.
pub fn write(args: &mut Args, path: &str, val: &str)
    ensures
        final(args)@ == old(args)@.insert(path@, val@),
{
    args.insert(path, val);
}

/// Forgets the arguments of the executable at `path`.
pub fn erase(args: &mut Args, path: &str)
    ensures
        final(args)@ == old(args)@.remove(path@),
{
    args.remove(path);
}

/// What was written for a path is read back, and the other paths keep
/// their arguments.
pub proof fn law_read_after_write(m: Map<Seq<char>, Seq<char>>, path: Seq<char>, val: Seq<char>)
    ensures
        m.insert(path, val).contains_key(path),
        m.insert(path, val)[path] == val,
        forall|q: Seq<char>| q != path ==> (#[trigger] m.insert(path, val).contains_key(q) == m.contains_key(q)),
        forall|q: Seq<char>| q != path && m.contains_key(q) ==> #[trigger] m.insert(path, val)[q] == m[q],
{
}

/// Erasing a path right after writing it leaves what erasing it alone
/// leaves; an erased path is no longer there.
pub proof fn law_erase_after_write(m: Map<Seq<char>, Seq<char>>, path: Seq<char>, val: Seq<char>)
    ensures
        m.insert(path, val).remove(path) == m.remove(path),
        !m.remove(path).contains_key(path),
{
    assert(m.insert(path, val).remove(path) =~= m.remove(path));
}

} // verus!
