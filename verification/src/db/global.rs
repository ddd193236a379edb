//! The global database (`gameimage.json` in the build directory).
use vstd::prelude::*;
use crate::error::WizardError;
use crate::text;

verus! {

/// What the global database records of one project.
pub struct EntryDetails {
    pub path_dir_project: String,
    pub path_dir_project_root: String,
    pub platform: String,
}

/// The global database.
pub struct Entry {
    /// Name of the current project.
    pub project: String,
    /// Path to the build directory.
    pub path_dir_build: String,
    /// Path to the cache directory.
    pub path_dir_cache: String,
    /// Path to the main image.
    pub path_file_image: String,
    /// Path to the output file.
    pub path_file_output: String,
    /// Current wine distribution.
    pub dist_wine: String,
    /// The projects, by name.
    pub projects: Vec<(String, EntryDetails)>,
}

/// The details recorded under the first project called `name`.
pub open spec fn lookup(projects: Seq<(String, EntryDetails)>, name: Seq<char>) -> Option<EntryDetails>
    decreases projects.len(),
{
    if projects.len() == 0 {
        None
    } else if projects[0].0@ == name {
        Some(projects[0].1)
    } else {
        lookup(projects.drop_first(), name)
    }
}

/// Two project details hold the same text.
pub open spec fn same_details(a: EntryDetails, b: EntryDetails) -> bool {
    &&& a.path_dir_project@ == b.path_dir_project@
    &&& a.path_dir_project_root@ == b.path_dir_project_root@
    &&& a.platform@ == b.platform@
}

/// `lookup` finds the entry at the first index whose name matches.
proof fn lemma_lookup_first(projects: Seq<(String, EntryDetails)>, name: Seq<char>, i: int)
    requires
        0 <= i <= projects.len(),
        forall|j: int| 0 <= j < i ==> #[trigger] projects[j].0@ != name,
    ensures
        lookup(projects, name) == lookup(projects.subrange(i, projects.len() as int), name),
    decreases i,
{
    if i > 0 {
        lemma_lookup_first(projects.drop_first(), name, i - 1);
        assert(projects.drop_first().subrange(i - 1, projects.len() - 1) =~= projects.subrange(
            i,
            projects.len() as int,
        ));
    } else {
        assert(projects.subrange(0, projects.len() as int) =~= projects);
    }
}

/// In a database where no project name occurs twice, the details found for
/// a name are those of the one project with that name.
pub proof fn lemma_lookup_unique(projects: Seq<(String, EntryDetails)>, name: Seq<char>, i: int)
    requires
        0 <= i < projects.len(),
        projects[i].0@ == name,
        forall|a: int, b: int|
            0 <= a < projects.len() && 0 <= b < projects.len() && a != b ==> #[trigger] projects[a].0@
                != #[trigger] projects[b].0@,
    ensures
        lookup(projects, name) == Some(projects[i].1),
{
    assert forall|j: int| 0 <= j < i implies #[trigger] projects[j].0@ != name by {
        assert(projects[j].0@ != projects[i].0@);
    }
    lemma_lookup_first(projects, name, i);
    let rest = projects.subrange(i, projects.len() as int);
    assert(rest[0] == projects[i]);
}

impl EntryDetails {
    /// A copy of the details.
    pub fn copy(&self) -> (r: EntryDetails)
        ensures
            same_details(r, *self),
    {
        EntryDetails {
            path_dir_project: self.path_dir_project.clone(),
            path_dir_project_root: self.path_dir_project_root.clone(),
            platform: self.platform.clone(),
        }
    }
}

impl Entry {
    /// No project name occurs twice (the database keeps projects in a map).
    pub open spec fn wf(&self) -> bool {
        forall|i: int, j: int|
            0 <= i < self.projects@.len() && 0 <= j < self.projects@.len() && i != j
                ==> #[trigger] self.projects@[i].0@ != #[trigger] self.projects@[j].0@
    }

    /// The details of the project called `name`.
    pub fn find_project(&self, name: &str) -> (r: Option<&EntryDetails>)
        ensures
            match r {
                Some(d) => lookup(self.projects@, name@) == Some(*d),
                None => lookup(self.projects@, name@) is None,
            },
    {
        let n = self.projects.len();
        let mut i: usize = 0;
        while i < n
            invariant
                n == self.projects@.len(),
                i <= n,
                forall|j: int| 0 <= j < i ==> #[trigger] self.projects@[j].0@ != name@,
            decreases n - i,
        {
            if text::str_equal(self.projects[i].0.as_str(), name) {
                proof {
                    lemma_lookup_first(self.projects@, name@, i as int);
                }
                return Some(&self.projects[i].1);
            }
            i = i + 1;
        }
        proof {
            lemma_lookup_first(self.projects@, name@, n as int);
        }
        None
    }

    /// The project directory of the project called `name_project`.
    pub fn get_project_dir(&self, name_project: &str) -> (r: Result<String, WizardError>)
        ensures
            match lookup(self.projects@, name_project@) {
                Some(d) => r matches Ok(p) && p@ == d.path_dir_project@,
                None => r matches Err(WizardError::ProjectNotFound { name }) && name@ == name_project@,
            },
            self.wf() ==> forall|i: int|
                0 <= i < self.projects@.len() && #[trigger] self.projects@[i].0@ == name_project@ ==> (r matches Ok(
                    p,
                ) && p@ == self.projects@[i].1.path_dir_project@),
    {
        proof {
            assert forall|i: int|
                self.wf() && 0 <= i < self.projects@.len() && #[trigger] self.projects@[i].0@ == name_project@ implies lookup(
                self.projects@,
                name_project@,
            ) == Some(self.projects@[i].1) by {
                lemma_lookup_unique(self.projects@, name_project@, i);
            }
        }
        match self.find_project(name_project) {
            Some(d) => Ok(d.path_dir_project.clone()),
            None => Err(WizardError::ProjectNotFound { name: String::from_str(name_project) }),
        }
    }
}

/// The details of the current project of the global database.
pub fn get_current_project(db_global: &Entry) -> (r: Result<EntryDetails, WizardError>)
    ensures
        match lookup(db_global.projects@, db_global.project@) {
            Some(d) => r matches Ok(e) && same_details(e, d),
            None => r matches Err(WizardError::CurrentProjectNotFound),
        },
        db_global.wf() ==> forall|i: int|
            0 <= i < db_global.projects@.len() && #[trigger] db_global.projects@[i].0@ == db_global.project@ ==> (r matches Ok(
                e,
            ) && same_details(e, db_global.projects@[i].1)),
{
    proof {
        assert forall|i: int|
            db_global.wf() && 0 <= i < db_global.projects@.len() && #[trigger] db_global.projects@[i].0@
                == db_global.project@ implies lookup(db_global.projects@, db_global.project@) == Some(
            db_global.projects@[i].1,
        ) by {
            lemma_lookup_unique(db_global.projects@, db_global.project@, i);
        }
    }
    match db_global.find_project(db_global.project.as_str()) {
        Some(d) => Ok(d.copy()),
        None => Err(WizardError::CurrentProjectNotFound),
    }
}

/// Applies an update to the global database: what `f` returns is what is
/// written back.
pub fn update<F: FnOnce(Entry) -> Entry>(entry: Entry, f: F) -> (r: Entry)
    requires
        f.requires((entry,)),
    ensures
        f.ensures((entry,), r),
{
    f(entry)
}

/// Two updates compose: where each update function's result is fixed by
/// the database it is given (`f` computes `sf`, `g` computes `sg`), updating
/// with `f` and then with `g` gives the database that one update with a
/// function computing `g` after `f` gives, `sg(sf(entry))`.
pub proof fn law_update_composes<F: FnOnce(Entry) -> Entry, G: FnOnce(Entry) -> Entry, H: FnOnce(Entry) -> Entry>(
    entry: Entry,
    f: F,
    g: G,
    h: H,
    sf: spec_fn(Entry) -> Entry,
    sg: spec_fn(Entry) -> Entry,
    first: Entry,
    second: Entry,
    single: Entry,
)
    requires
        forall|e: Entry, r: Entry| #[trigger] f.ensures((e,), r) ==> r == sf(e),
        forall|e: Entry, r: Entry| #[trigger] g.ensures((e,), r) ==> r == sg(e),
        forall|e: Entry, r: Entry| #[trigger] h.ensures((e,), r) ==> r == sg(sf(e)),
        f.ensures((entry,), first),
        g.ensures((first,), second),
        h.ensures((entry,), single),
    ensures
        second == sg(sf(entry)),
        second == single,
{
}

/// An update whose function gives back the database it is given leaves the
/// database as it was.
pub proof fn law_update_identity<F: FnOnce(Entry) -> Entry>(entry: Entry, f: F, updated: Entry)
    requires
        forall|e: Entry, r: Entry| #[trigger] f.ensures((e,), r) ==> r == e,
        f.ensures((entry,), updated),
    ensures
        updated == entry,
{
}

} // verus!
