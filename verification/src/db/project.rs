//! The database of one project (`gameimage.json` in the project
//! directory).
use vstd::prelude::*;
use crate::error::WizardError;
use crate::path;
use crate::path::path_joined;
use crate::db::global;
use crate::db::global::lookup;

verus! {

/// The files a project records.
pub enum EntryName {
    PathFileIcon,
    PathFileRom,
    PathFileCore,
    PathFileBios,
}

/// A project database: its name, platform and the paths, relative to the
/// project directory, of its selected files.
pub struct Entry {
    project: String,
    platform: String,
    path_file_icon: Option<String>,
    path_file_rom: Option<String>,
    path_file_core: Option<String>,
    path_file_bios: Option<String>,
}

/// The view of an optional path.
pub open spec fn opt_view(p: Option<String>) -> Option<Seq<char>> {
    match p {
        Some(s) => Some(s@),
        None => None,
    }
}

impl Entry {
    /// The project's name.
    pub closed spec fn project_name(&self) -> Seq<char> {
        self.project@
    }

    /// The project's platform.
    pub closed spec fn platform_name(&self) -> Seq<char> {
        self.platform@
    }

    /// The path recorded for a file, relative to the project directory.
    pub closed spec fn relative(&self, entry: EntryName) -> Option<Seq<char>> {
        match entry {
            EntryName::PathFileIcon => opt_view(self.path_file_icon),
            EntryName::PathFileRom => opt_view(self.path_file_rom),
            EntryName::PathFileCore => opt_view(self.path_file_core),
            EntryName::PathFileBios => opt_view(self.path_file_bios),
        }
    }

    /// The project directory, as the global database records it.
    pub open spec fn dir_self(&self, db: &global::Entry) -> Option<Seq<char>> {
        match lookup(db.projects@, self.project_name()) {
            Some(d) => Some(d.path_dir_project@),
            None => None,
        }
    }

    /// The absolute path of a file: the relative path joined to the project
    /// directory.
    pub open spec fn absolute(&self, db: &global::Entry, entry: EntryName) -> Option<Seq<char>> {
        match (self.dir_self(db), self.relative(entry)) {
            (Some(d), Some(r)) => Some(path_joined(d, r)),
            _ => None,
        }
    }

    /// A project database with the given contents.
    pub fn new(
        project: String,
        platform: String,
        path_file_icon: Option<String>,
        path_file_rom: Option<String>,
        path_file_core: Option<String>,
        path_file_bios: Option<String>,
    ) -> (r: Entry)
        ensures
            r.project_name() == project@,
            r.platform_name() == platform@,
            r.relative(EntryName::PathFileIcon) == opt_view(path_file_icon),
            r.relative(EntryName::PathFileRom) == opt_view(path_file_rom),
            r.relative(EntryName::PathFileCore) == opt_view(path_file_core),
            r.relative(EntryName::PathFileBios) == opt_view(path_file_bios),
    {
        Entry { project, platform, path_file_icon, path_file_rom, path_file_core, path_file_bios }
    }

    /// The project's name.
    pub fn get_project(&self) -> (r: String)
        ensures
            r@ == self.project_name(),
    {
        self.project.clone()
    }

    /// The project's platform.
    pub fn get_platform(&self) -> (r: String)
        ensures
            r@ == self.platform_name(),
    {
        self.platform.clone()
    }

    /// The project directory, looked up in the global database.
    pub fn get_dir_self(&self, db: &global::Entry) -> (r: Result<String, WizardError>)
        ensures
            match self.dir_self(db) {
                Some(d) => r matches Ok(p) && p@ == d,
                None => r matches Err(WizardError::ProjectNotFound { name }) && name@ == self.project_name(),
            },
            db.wf() ==> forall|i: int|
                0 <= i < db.projects@.len() && #[trigger] db.projects@[i].0@ == self.project_name() ==> (r matches Ok(
                    p,
                ) && p@ == db.projects@[i].1.path_dir_project@),
    {
        db.get_project_dir(self.project.as_str())
    }

    /// The recorded path of a file, relative to the project directory.
    pub fn get_path_relative(&self, entry: EntryName) -> (r: Result<String, WizardError>)
        ensures
            match self.relative(entry) {
                Some(p) => r matches Ok(s) && s@ == p,
                None => r matches Err(WizardError::MissingPath),
            },
    {
        let some_path = match entry {
            EntryName::PathFileIcon => &self.path_file_icon,
            EntryName::PathFileRom => &self.path_file_rom,
            EntryName::PathFileCore => &self.path_file_core,
            EntryName::PathFileBios => &self.path_file_bios,
        };
        match some_path {
            Some(p) => Ok(p.clone()),
            None => Err(WizardError::MissingPath),
        }
    }

    /// The absolute path of a file: the project directory joined with the
    /// recorded relative path. A project missing from the global database
    /// fails first; a file with no recorded path fails next.
    pub fn get_path_absolute(&self, db: &global::Entry, entry: EntryName) -> (r: Result<String, WizardError>)
        ensures
            match (self.dir_self(db), self.relative(entry)) {
                (None, _) => r matches Err(WizardError::ProjectNotFound { name }) && name@ == self.project_name(),
                (Some(_), None) => r matches Err(WizardError::MissingPath),
                (Some(d), Some(p)) => r matches Ok(s) && s@ == path_joined(d, p),
            },
            db.wf() ==> forall|i: int|
                0 <= i < db.projects@.len() && #[trigger] db.projects@[i].0@ == self.project_name() ==> match self.relative(
                    entry,
                ) {
                    Some(p) => (r matches Ok(s) && s@ == path_joined(db.projects@[i].1.path_dir_project@, p)),
                    None => r matches Err(WizardError::MissingPath),
                },
    {
        proof {
            assert forall|i: int|
                db.wf() && 0 <= i < db.projects@.len() && #[trigger] db.projects@[i].0@ == self.project_name() implies lookup(
                db.projects@,
                self.project_name(),
            ) == Some(db.projects@[i].1) by {
                global::lemma_lookup_unique(db.projects@, self.project_name(), i);
            }
        }
        let project_dir_self = match self.get_dir_self(db) {
            Ok(d) => d,
            Err(e) => return Err(e),
        };
        let some_path = match entry {
            EntryName::PathFileIcon => &self.path_file_icon,
            EntryName::PathFileRom => &self.path_file_rom,
            EntryName::PathFileCore => &self.path_file_core,
            EntryName::PathFileBios => &self.path_file_bios,
        };
        match some_path {
            Some(p) => Ok(path::join(project_dir_self.as_str(), p.as_str())),
            None => Err(WizardError::MissingPath),
        }
    }
}

/// The absolute path of a file is its relative path joined to the project
/// directory, whenever both are known.
pub proof fn law_absolute_is_joined_relative(e: &Entry, db: &global::Entry, entry: EntryName)
    ensures
        e.absolute(db, entry) is Some <==> (e.dir_self(db) is Some && e.relative(entry) is Some),
        e.absolute(db, entry) is Some ==> e.absolute(db, entry)->0 == path_joined(
            e.dir_self(db)->0,
            e.relative(entry)->0,
        ),
{
}


/// The database files of the projects of the global database, in its
/// order: `gameimage.json` in each project directory.
pub fn project_files(db: &global::Entry) -> (r: Vec<String>)
    ensures
        r@.len() == db.projects@.len(),
        forall|i: int| 0 <= i < r@.len() ==> #[trigger] r@[i]@ == path_joined(
            db.projects@[i].1.path_dir_project@,
            "gameimage.json"@,
        ),
{
    let n = db.projects.len();
    let mut r: Vec<String> = Vec::new();
    let mut i: usize = 0;
    while i < n
        invariant
            n == db.projects@.len(),
            i <= n,
            r@.len() == i,
            forall|j: int| 0 <= j < i ==> #[trigger] r@[j]@ == path_joined(
                db.projects@[j].1.path_dir_project@,
                "gameimage.json"@,
            ),
        decreases n - i,
    {
        r.push(path::join(db.projects[i].1.path_dir_project.as_str(), "gameimage.json"));
        i = i + 1;
    }
    r
}

/// The database file of the current project.
pub fn current_file(db: &global::Entry) -> (r: Result<String, WizardError>)
    ensures
        match lookup(db.projects@, db.project@) {
            Some(d) => (r matches Ok(p) && p@ == path_joined(d.path_dir_project@, "gameimage.json"@)),
            None => (r matches Err(WizardError::ProjectNotFound { name }) && name@ == db.project@),
        },
{
    let dir = db.get_project_dir(db.project.as_str())?;
    Ok(path::join(dir.as_str(), "gameimage.json"))
}

/// The projects that could be read, in order; those whose file could not be
/// opened or parsed (`None`) are left out.
pub fn list(parsed: Vec<Option<Entry>>) -> (r: Vec<Entry>)
    ensures
        r@ == parsed@.filter(|e: Option<Entry>| e is Some).map_values(|e: Option<Entry>| e->0),
{
    let ghost keep = |e: Option<Entry>| e is Some;
    let ghost unwrap = |e: Option<Entry>| e->0;
    let ghost orig = parsed@;
    let mut rest = parsed;
    let n = rest.len();
    let mut r: Vec<Entry> = Vec::new();
    let mut i: usize = 0;
    assert(orig.skip(0) =~= orig);
    while i < n
        invariant
            n == orig.len(),
            i <= n,
            keep == (|e: Option<Entry>| e is Some),
            unwrap == (|e: Option<Entry>| e->0),
            rest@ == orig.skip(i as int),
            r@ == orig.take(i as int).filter(keep).map_values(unwrap),
        decreases n - i,
    {
        proof {
            reveal(Seq::filter);
            assert(orig.take(i + 1).drop_last() =~= orig.take(i as int));
        }
        let e = rest.remove(0);
        assert(e == orig[i as int]);
        assert(rest@ =~= orig.skip(i + 1));
        assert(orig.take(i + 1).last() == e);
        let ghost ge = e;
        match e {
            Some(x) => {
                assert(keep(ge));
                r.push(x);
                assert(orig.take(i + 1).filter(keep) =~= orig.take(i as int).filter(keep).push(ge));
                assert(r@ =~= orig.take(i + 1).filter(keep).map_values(unwrap));
            },
            None => {
                assert(!keep(ge));
                assert(orig.take(i + 1).filter(keep) =~= orig.take(i as int).filter(keep));
            },
        }
        i = i + 1;
    }
    assert(orig.take(n as int) =~= orig);
    r
}

} // verus!
