//! Decisions of the linux wizard: searching the installed executables,
//! paging through them and choosing the default one.
use vstd::prelude::*;
use crate::error::WizardError;
use crate::path;
use crate::path::path_component_count;
use crate::sort::insertion_sorted;
use crate::sort::lemma_insert_at;
use crate::sort::is_sorted_by;
use crate::sort::total_preorder;
use crate::sort::law_insertion_sorted_is_sorted;
use crate::sort::law_insertion_sorted_permutes;
use crate::text;
use crate::text::has_infix;
use crate::text::lowercase_of;
use crate::text::trimmed;
use crate::kv::StrMap;
use crate::gameimage::request::Request;
use crate::gameimage::select;
use crate::gameimage::select::select_view;

use crate::gameimage::test::test_view;
use crate::path::path_joined;

verus! {

/// How many executables a page of the default-executable frame lists.
pub const COUNT_ITEM_PER_PAGE: usize = 20;

/// Whether an executable is shown for a search query: its path, lowercased,
/// contains the query, lowercased.
pub open spec fn matches_query(query: Seq<char>) -> spec_fn(Seq<char>) -> bool {
    |item: Seq<char>| has_infix(lowercase_of(item), lowercase_of(query))
}

/// Orders paths by their number of components.
pub open spec fn fewer_components() -> spec_fn(Seq<char>, Seq<char>) -> bool {
    |a: Seq<char>, b: Seq<char>| path_component_count(a) <= path_component_count(b)
}

/// The executables shown for a query: those matching it, shallowest
/// first, in the order they were given among equally deep ones.
pub open spec fn search_results(items: Seq<Seq<char>>, query: Seq<char>) -> Seq<Seq<char>> {
    insertion_sorted(items.filter(matches_query(query)), fewer_components())
}

/// A filter whose test holds of every item keeps them all.
proof fn lemma_filter_keeps_all(s: Seq<Seq<char>>, pred: spec_fn(Seq<char>) -> bool)
    requires
        forall|i: int| 0 <= i < s.len() ==> pred(#[trigger] s[i]),
    ensures
        s.filter(pred) == s,
    decreases s.len(),
{
    reveal(Seq::filter);
    if s.len() > 0 {
        lemma_filter_keeps_all(s.drop_last(), pred);
        assert(pred(s[s.len() - 1]));
        assert(s.drop_last().push(s.last()) =~= s);
    }
}

/// The executables matching `query`, sorted by depth (a stable sort). An
/// empty query keeps every executable.
pub fn default_search(query: &str, items: &Vec<String>) -> (r: Vec<String>)
    ensures
        r@.map_values(|s: String| s@) == search_results(items@.map_values(|s: String| s@), query@),
        query@.len() == 0 ==> r@.map_values(|s: String| s@) == insertion_sorted(
            items@.map_values(|s: String| s@),
            fewer_components(),
        ),
{
    let ghost w = items@.map_values(|s: String| s@);
    let ghost pred = matches_query(query@);
    let query_lower = text::to_lowercase(query);
    proof {
        if query@.len() == 0 {
            assert forall|i: int| 0 <= i < w.len() implies pred(#[trigger] w[i]) by {
                let h = lowercase_of(w[i]);
                assert(h.subrange(0, 0) =~= lowercase_of(query@));
                assert(text::occurs_at(h, lowercase_of(query@), 0));
            }
            lemma_filter_keeps_all(w, pred);
        }
    }
    let q = text::chars_of(query_lower.as_str());
    // Keep the matching executables
    let n = items.len();
    let mut filtered: Vec<String> = Vec::new();
    let mut i: usize = 0;
    while i < n
        invariant
            n == items@.len(),
            w == items@.map_values(|s: String| s@),
            pred == matches_query(query@),
            q@ == lowercase_of(query@),
            i <= n,
            filtered@.map_values(|s: String| s@) == w.take(i as int).filter(pred),
        decreases n - i,
    {
        proof {
            reveal(Seq::filter);
            assert(w.take(i + 1).drop_last() =~= w.take(i as int));
            assert(w.take(i + 1).last() == items@[i as int]@);
        }
        let lower = text::to_lowercase(items[i].as_str());
        let l = text::chars_of(lower.as_str());
        if text::contains_chars(&l, &q) {
            filtered.push(items[i].clone());
            assert(filtered@.map_values(|s: String| s@) =~= w.take(i as int).filter(pred).push(items@[i as int]@));
        }
        i = i + 1;
    }
    assert(w.take(n as int) =~= w);
    // Sort them by depth, keeping the order of equally deep ones
    let ghost f = filtered@.map_values(|s: String| s@);
    let ghost le = fewer_components();
    let m = filtered.len();
    let mut res: Vec<String> = Vec::new();
    let mut keys: Vec<usize> = Vec::new();
    let mut k: usize = 0;
    while k < m
        invariant
            m == filtered@.len(),
            f == filtered@.map_values(|s: String| s@),
            le == fewer_components(),
            k <= m,
            res@.len() == keys@.len(),
            res@.map_values(|s: String| s@) == insertion_sorted(f.take(k as int), le),
            forall|t: int| 0 <= t < keys@.len() ==> #[trigger] keys@[t] == path_component_count(res@[t]@),
        decreases m - k,
    {
        let ghost rv = res@.map_values(|s: String| s@);
        let x = filtered[k].clone();
        let key = path::component_count(x.as_str());
        let mut j = res.len();
        while j > 0 && keys[j - 1] > key
            invariant
                j <= res@.len(),
                res@.len() == keys@.len(),
                forall|t: int| j <= t < keys@.len() ==> keys@[t] > key,
            decreases j,
        {
            j = j - 1;
        }
        proof {
            assert forall|t: int| j <= t < rv.len() implies !le(#[trigger] rv[t], x@) by {
                assert(keys@[t] == path_component_count(res@[t]@));
            }
            if j > 0 {
                assert(keys@[j - 1] == path_component_count(res@[j - 1]@));
            }
            lemma_insert_at(rv, x@, le, j as int);
            assert(f.take(k + 1).drop_last() =~= f.take(k as int));
            assert(f.take(k + 1).last() == x@);
        }
        let ghost kv = keys@;
        let ghost old_res = res@;
        res.insert(j, x);
        keys.insert(j, key);
        proof {
            assert(res@.map_values(|s: String| s@) =~= rv.insert(j as int, x@));
            assert forall|t: int| 0 <= t < keys@.len() implies #[trigger] keys@[t] == path_component_count(res@[t]@) by {
                if t < j {
                    assert(keys@[t] == kv[t] && res@[t] == old_res[t]);
                } else if t > j {
                    assert(keys@[t] == kv[t - 1] && res@[t] == old_res[t - 1]);
                }
            }
        }
        k = k + 1;
    }
    assert(f.take(m as int) =~= f);
    res
}

/// The shown executables are ordered by depth, are exactly the matching
/// ones (as many times as they occur), and each matches the query.
pub proof fn law_search_results(items: Seq<Seq<char>>, query: Seq<char>)
    ensures
        is_sorted_by(search_results(items, query), fewer_components()),
        search_results(items, query).to_multiset() == items.filter(matches_query(query)).to_multiset(),
        forall|i: int| 0 <= i < search_results(items, query).len()
            ==> matches_query(query)(#[trigger] search_results(items, query)[i]),
{
    let le = fewer_components();
    let kept = items.filter(matches_query(query));
    assert(total_preorder(le));
    law_insertion_sorted_is_sorted(kept, le);
    law_insertion_sorted_permutes(kept, le);
    let r = search_results(items, query);
    assert forall|i: int| 0 <= i < r.len() implies matches_query(query)(#[trigger] r[i]) by {
        broadcast use vstd::seq_lib::group_to_multiset_ensures;
        assert(r.contains(r[i]));
        assert(r.to_multiset().count(r[i]) > 0);
        assert(kept.contains(r[i]));
        let j = choose|j: int| 0 <= j < kept.len() && kept[j] == r[i];
        items.lemma_filter_pred(matches_query(query), j);
    }
}

/// The first and last-but-one index of the executables on a page.
pub open spec fn page_bounds(page: int, len: int) -> (int, int) {
    let start = if page * 20 < len { page * 20 } else { len };
    let end = if start + 20 < len { start + 20 } else { len };
    (start, end)
}

/// The executables listed on page `page` of `len`: from index `start` up to,
/// not including, `end`.
pub fn page_range(page: usize, len: usize) -> (r: (usize, usize))
    requires
        page * 20 <= usize::MAX,
    ensures
        r.0 == page_bounds(page as int, len as int).0,
        r.1 == page_bounds(page as int, len as int).1,
{
    let start = if page * COUNT_ITEM_PER_PAGE < len { page * COUNT_ITEM_PER_PAGE } else { len };
    let end = if start < len && len - start > COUNT_ITEM_PER_PAGE { start + COUNT_ITEM_PER_PAGE } else { len };
    (start, end)
}

/// The last page the paginator offers, counting from 0.
pub fn page_count(len: usize) -> (r: usize)
    ensures
        r == len / 20,
{
    len / COUNT_ITEM_PER_PAGE
}

/// Each executable is listed on exactly one page: page `i / 20`.
pub proof fn law_item_on_its_page(i: int, page: int, len: int)
    requires
        0 <= i < len,
        0 <= page,
    ensures
        (page_bounds(page, len).0 <= i < page_bounds(page, len).1) <==> page == i / 20,
{
    assert(page * 20 <= i < page * 20 + 20 <==> page == i / 20) by (nonlinear_arith)
        requires
            0 <= i,
            0 <= page,
    ;
}

/// The first executable marked as selected, if any.
pub fn first_selected(flags: &Vec<bool>) -> (r: Option<usize>)
    ensures
        match r {
            Some(i) => i < flags@.len() && flags@[i as int] && forall|j: int| 0 <= j < i ==> !flags@[j],
            None => forall|j: int| 0 <= j < flags@.len() ==> !flags@[j],
        },
{
    let n = flags.len();
    let mut i: usize = 0;
    while i < n
        invariant
            n == flags@.len(),
            i <= n,
            forall|j: int| 0 <= j < i ==> !flags@[j],
        decreases n - i,
    {
        if flags[i] {
            return Some(i);
        }
        i = i + 1;
    }
    None
}

/// The executable to make the default: the selected one; an error when
/// none is selected.
pub fn default_next(items: &Vec<String>, flags: &Vec<bool>) -> (r: Result<String, WizardError>)
    requires
        items@.len() == flags@.len(),
    ensures
        match r {
            Ok(s) => exists|i: int|
                0 <= i < flags@.len() && flags@[i] && (forall|j: int| 0 <= j < i ==> !flags@[j]) && s@ == items@[i]@,
            Err(e) => e == WizardError::NothingSelected && forall|j: int| 0 <= j < flags@.len() ==> !flags@[j],
        },
{
    match first_selected(flags) {
        Some(i) => Ok(items[i].clone()),
        None => Err(WizardError::NothingSelected),
    }
}

/// The next step of the install-method frame: the default-executable frame
/// once some executable is installed.
pub fn method_next(roms: &Vec<String>) -> (r: Result<(), WizardError>)
    ensures
        roms@.len() > 0 <==> r is Ok,
        r is Err ==> r == Err::<(), WizardError>(WizardError::NoFileFound),
{
    if roms.len() == 0 {
        return Err(WizardError::NoFileFound);
    }
    Ok(())
}

/// What an edit of an executable's arguments or alias field does to its
/// database: blank text (white space only) forgets the executable, other
/// text is recorded as typed.
pub fn default_db(db: &mut StrMap, item: &str, value: &str)
    ensures
        trimmed(value@).len() == 0 ==> final(db)@ == old(db)@.remove(item@),
        trimmed(value@).len() > 0 ==> final(db)@ == old(db)@.insert(item@, value@),
{
    let t = text::trim(value);
    if t.as_str().is_empty() {
        db.remove(item);
    } else {
        db.insert(item, value);
    }
}

/// What toggling "selectable in the launcher" does to the database of
/// selectable executables: checked records the executable with value `1`,
/// unchecked forgets it.
pub fn toggle_selectable(db: &mut StrMap, item: &str, checked: bool)
    ensures
        checked ==> final(db)@ == old(db)@.insert(item@, "1"@),
        !checked ==> final(db)@ == old(db)@.remove(item@),
{
    if checked {
        db.insert(item, "1");
    } else {
        db.remove(item);
    }
}

/// The database of the executables selectable in the launcher, in the
/// project directory.
pub fn path_db_executable(path_dir_project: &str) -> (r: String)
    ensures
        r@ == path_joined(path_dir_project@, "gameimage.executable.json"@),
{
    path::join(path_dir_project, "gameimage.executable.json")
}

/// The database of the executables' arguments, in the project directory.
pub fn path_db_args(path_dir_project: &str) -> (r: String)
    ensures
        r@ == path_joined(path_dir_project@, "gameimage.args.json"@),
{
    path::join(path_dir_project, "gameimage.args.json")
}

/// The database of the executables' aliases, in the project directory.
pub fn path_db_alias(path_dir_project: &str) -> (r: String)
    ensures
        r@ == path_joined(path_dir_project@, "gameimage.alias.json"@),
{
    path::join(path_dir_project, "gameimage.alias.json")
}

/// What the play button of an executable asks of the backend, in order:
/// to make it the default, then to run the project.
pub fn default_play(item: &str) -> (r: (Request, Request))
    ensures
        r.0@ == select_view("rom"@, item@),
        r.1@ == test_view(),
{
    (select::select("rom", item), crate::gameimage::test::test())
}

/// The text an executable's arguments or alias field starts with: its
/// entry in the database, or nothing.
pub fn entry_field(db: &StrMap, item: &str) -> (r: String)
    ensures
        db@.contains_key(item@) ==> r@ == db@[item@],
        !db@.contains_key(item@) ==> r@.len() == 0,
{
    match db.get(item) {
        Some(v) => v,
        None => String::new(),
    }
}

/// Whether an executable's "selectable in the launcher" box starts checked:
/// it is in the database of selectable executables.
pub fn entry_selectable(db: &StrMap, item: &str) -> (r: bool)
    ensures
        r == db@.contains_key(item@),
{
    db.contains_key(item)
}

/// Whether a key press in the search field starts a search: Enter does,
/// and so does clearing the field, unless the query is already empty.
pub fn should_search(is_enter: bool, value_empty: bool, query_empty: bool) -> (r: bool)
    ensures
        r == (is_enter || (value_empty && !query_empty)),
{
    if is_enter || value_empty {
        if !is_enter && query_empty {
            return false;
        }
        return true;
    }
    false
}

/// The check boxes of the listed executables after the `k`-th is clicked:
/// it alone is checked.
pub fn exclusive_toggle(n: usize, k: usize) -> (r: Vec<bool>)
    requires
        k < n,
    ensures
        r@.len() == n,
        forall|i: int| 0 <= i < n ==> r@[i] == (i == k),
{
    let mut r: Vec<bool> = Vec::new();
    let mut i: usize = 0;
    while i < n
        invariant
            i <= n,
            r@.len() == i,
            forall|j: int| 0 <= j < i ==> r@[j] == (j == k),
        decreases n - i,
    {
        r.push(i == k);
        i = i + 1;
    }
    r
}

/// After a click on one executable, going on makes that executable the
/// default: it is the first checked one.
pub proof fn law_clicked_is_selected(flags: Seq<bool>, k: int)
    requires
        0 <= k < flags.len(),
        forall|i: int| 0 <= i < flags.len() ==> flags[i] == (i == k),
    ensures
        flags[k],
        forall|j: int| 0 <= j < k ==> !flags[j],
{
}

/// The directory the explore method opens for copying the application's
/// files: `linux` in the project directory.
pub fn linux_dir(path_dir_project: &str) -> (r: String)
    ensures
        r@ == path_joined(path_dir_project@, "linux"@),
{
    path::join(path_dir_project, "linux")
}

} // verus!
