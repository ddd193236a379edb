//! The creator frame: the list of projects, which of them to delete and
//! which to include in the image.
use vstd::prelude::*;
use crate::db::project;
use crate::error::WizardError;
use crate::sort::insertion_sorted;
use crate::sort::lemma_insert_at;
use crate::sort::is_sorted_by;
use crate::sort::total_preorder;
use crate::sort::law_insertion_sorted_is_sorted;
use crate::sort::law_insertion_sorted_permutes;
use crate::text;
use crate::text::text_le;
use crate::gameimage::project as project_request;
use crate::gameimage::project::project_view;
use crate::gameimage::request::Request;
use crate::path;
use crate::path::path_joined;
use crate::path::path_parent;

verus! {

/// Orders projects by name.
pub open spec fn by_name() -> spec_fn(project::Entry, project::Entry) -> bool {
    |a: project::Entry, b: project::Entry| text_le(a.project_name(), b.project_name())
}

/// The projects in the order the creator lists them: by name, keeping the
/// order of equally named ones.
pub fn sort_projects(projects: Vec<project::Entry>) -> (r: Vec<project::Entry>)
    ensures
        r@ == insertion_sorted(projects@, by_name()),
{
    let ghost orig = projects@;
    let ghost le = by_name();
    let mut rest = projects;
    let m = rest.len();
    let mut res: Vec<project::Entry> = Vec::new();
    let mut names: Vec<String> = Vec::new();
    let mut k: usize = 0;
    assert(orig.skip(0) =~= orig);
    while k < m
        invariant
            m == orig.len(),
            le == by_name(),
            k <= m,
            rest@ == orig.skip(k as int),
            res@.len() == names@.len(),
            res@ == insertion_sorted(orig.take(k as int), le),
            forall|t: int| 0 <= t < names@.len() ==> #[trigger] names@[t]@ == res@[t].project_name(),
        decreases m - k,
    {
        let ghost rv = res@;
        let x = rest.remove(0);
        assert(x == orig[k as int]);
        assert(rest@ =~= orig.skip(k + 1));
        let name = x.get_project();
        let mut j = res.len();
        while j > 0 && !text::str_le(names[j - 1].as_str(), name.as_str())
            invariant
                j <= res@.len(),
                res@.len() == names@.len(),
                forall|t: int| j <= t < names@.len() ==> !text_le(#[trigger] names@[t]@, name@),
            decreases j,
        {
            j = j - 1;
        }
        proof {
            assert forall|t: int| j <= t < rv.len() implies !le(#[trigger] rv[t], x) by {
                assert(names@[t]@ == res@[t].project_name());
            }
            if j > 0 {
                assert(names@[j - 1]@ == res@[j - 1].project_name());
            }
            lemma_insert_at(rv, x, le, j as int);
            assert(orig.take(k + 1).drop_last() =~= orig.take(k as int));
        }
        let ghost nv = names@;
        res.insert(j, x);
        names.insert(j, name);
        proof {
            assert forall|t: int| 0 <= t < names@.len() implies #[trigger] names@[t]@ == res@[t].project_name() by {
                if t < j {
                    assert(names@[t] == nv[t] && res@[t] == rv[t]);
                } else if t > j {
                    assert(names@[t] == nv[t - 1] && res@[t] == rv[t - 1]);
                }
            }
        }
        k = k + 1;
    }
    assert(orig.take(m as int) =~= orig);
    res
}

/// The listed projects are ordered by name and are the projects given.
pub proof fn law_sorted_projects(projects: Seq<project::Entry>)
    ensures
        is_sorted_by(insertion_sorted(projects, by_name()), by_name()),
        insertion_sorted(projects, by_name()).to_multiset() == projects.to_multiset(),
{
    let le = by_name();
    assert forall|a: project::Entry, b: project::Entry| #[trigger] le(a, b) || le(b, a) by {
        text::lemma_text_le_total(a.project_name(), b.project_name());
    }
    assert forall|a: project::Entry, b: project::Entry, c: project::Entry| #[trigger] le(a, b) && #[trigger] le(b, c) implies le(a, c) by {
        text::lemma_text_le_transitive(a.project_name(), b.project_name(), c.project_name());
    }
    assert(total_preorder(le));
    law_insertion_sorted_is_sorted(projects, le);
    law_insertion_sorted_permutes(projects, le);
}

/// The names of the checked projects, in list order.
pub open spec fn checked_names(checked: Seq<bool>, names: Seq<Seq<char>>) -> Seq<Seq<char>>
    decreases checked.len(),
{
    if checked.len() == 0 || names.len() == 0 {
        seq![]
    } else if checked.last() {
        checked_names(checked.drop_last(), names.drop_last()).push(names.last())
    } else {
        checked_names(checked.drop_last(), names.drop_last())
    }
}

/// The names of the checked projects (those to delete, or to include).
pub fn checked_projects(checked: &Vec<bool>, names: &Vec<String>) -> (r: Vec<String>)
    requires
        checked@.len() == names@.len(),
    ensures
        r@.map_values(|s: String| s@) == checked_names(checked@, names@.map_values(|s: String| s@)),
{
    let ghost w = names@.map_values(|s: String| s@);
    let n = names.len();
    let mut r: Vec<String> = Vec::new();
    let mut i: usize = 0;
    while i < n
        invariant
            n == names@.len(),
            n == checked@.len(),
            w == names@.map_values(|s: String| s@),
            i <= n,
            r@.map_values(|s: String| s@) == checked_names(checked@.take(i as int), w.take(i as int)),
        decreases n - i,
    {
        proof {
            assert(checked@.take(i + 1).drop_last() =~= checked@.take(i as int));
            assert(w.take(i + 1).drop_last() =~= w.take(i as int));
            assert(w.take(i + 1).last() == names@[i as int]@);
        }
        if checked[i] {
            r.push(names[i].clone());
            assert(r@.map_values(|s: String| s@) =~= checked_names(checked@.take(i as int), w.take(i as int)).push(
                names@[i as int]@,
            ));
        }
        i = i + 1;
    }
    assert(checked@.take(n as int) =~= checked@);
    assert(w.take(n as int) =~= w);
    r
}

/// What the Next button of the creator does: with no project listed, or
/// none checked, it reports so; otherwise it keeps the checked projects for
/// the image.
pub fn creator_next(checked: &Vec<bool>, names: &Vec<String>) -> (r: Result<Vec<String>, WizardError>)
    requires
        checked@.len() == names@.len(),
    ensures
        checked@.len() == 0 ==> r == Err::<Vec<String>, WizardError>(WizardError::NoProjects),
        checked@.len() > 0 && (forall|i: int| 0 <= i < checked@.len() ==> !checked@[i]) ==> r == Err::<
            Vec<String>,
            WizardError,
        >(WizardError::NothingSelected),
        (exists|i: int| 0 <= i < checked@.len() && checked@[i]) ==> (r matches Ok(v) && v@.map_values(
            |s: String| s@,
        ) == checked_names(checked@, names@.map_values(|s: String| s@))),
{
    if checked.len() == 0 {
        return Err(WizardError::NoProjects);
    }
    let mut any = false;
    let mut i: usize = 0;
    while i < checked.len()
        invariant
            i <= checked@.len(),
            any <==> exists|j: int| 0 <= j < i && checked@[j],
        decreases checked@.len() - i,
    {
        if checked[i] {
            any = true;
        }
        i = i + 1;
    }
    if !any {
        return Err(WizardError::NothingSelected);
    }
    Ok(checked_projects(checked, names))
}

/// What erasing the checked projects asks of the backend: nothing unless
/// the user confirmed; then one deletion per project, in list order.
pub fn creator_del(names: &Vec<String>, confirmed: bool) -> (r: Vec<Request>)
    ensures
        !confirmed ==> r@.len() == 0,
        confirmed ==> r@.len() == names@.len(),
        confirmed ==> forall|i: int| 0 <= i < r@.len() ==> #[trigger] r@[i]@ == project_view("del"@, names@[i]@),
{
    let mut r: Vec<Request> = Vec::new();
    if !confirmed {
        return r;
    }
    let n = names.len();
    let mut i: usize = 0;
    while i < n
        invariant
            n == names@.len(),
            i <= n,
            r@.len() == i,
            forall|j: int| 0 <= j < i ==> #[trigger] r@[j]@ == project_view("del"@, names@[j]@),
        decreases n - i,
    {
        r.push(project_request::del(names[i].as_str()));
        i = i + 1;
    }
    r
}

/// The resized copy of a project's icon shown in its row:
/// `icon.creator.resized.png` beside the icon; `None` when the icon path
/// has no parent directory.
pub fn creator_icon_path(path_file_icon: &str) -> (r: Option<String>)
    ensures
        match path_parent(path_file_icon@) {
            Some(p) => (r matches Some(s) && s@ == path_joined(p, "icon.creator.resized.png"@)),
            None => r is None,
        },
{
    match path::parent(path_file_icon) {
        Some(p) => Some(path::join(p.as_str(), "icon.creator.resized.png")),
        None => None,
    }
}

} // verus!
