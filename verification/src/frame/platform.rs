//! Decisions of the platform frame: which platforms are listed and usable,
//! which wine distribution is shown, and what a platform's button does.
use vstd::prelude::*;
use crate::common::Msg;
use crate::common::Platform;
use crate::common::platform_first_step;
use crate::db::global;
use crate::gameimage::fetch;
use crate::gameimage::fetch::fetch_view;
use crate::gameimage::request::Request;
use crate::text;
use crate::text::joined_with;

verus! {

/// A row of the platform list.
pub struct PlatformRow {
    pub platform: Platform,
    /// Its layer is installed.
    pub installed: bool,
    /// The row can be used.
    pub active: bool,
}

/// The platforms of the list, top to bottom.
pub open spec fn row_order() -> Seq<Platform> {
    seq![Platform::Linux, Platform::Rcps3, Platform::Retroarch, Platform::Pcsx2, Platform::Wine]
}

/// Whether `p` is among the installed platforms.
pub fn is_installed(installed: &Vec<Platform>, p: Platform) -> (r: bool)
    ensures
        r == installed@.contains(p),
{
    let n = installed.len();
    let mut i: usize = 0;
    while i < n
        invariant
            n == installed@.len(),
            i <= n,
            forall|j: int| 0 <= j < i ==> installed@[j] != p,
        decreases n - i,
    {
        if installed[i] == p {
            assert(installed@[i as int] == p);
            return true;
        }
        i = i + 1;
    }
    false
}

/// The rows of the platform list: every platform in list order, marked
/// installed when its layer is; the linux row is always usable, the others
/// only once linux is installed.
pub fn platform_rows(installed: &Vec<Platform>) -> (r: Vec<PlatformRow>)
    ensures
        r@.len() == row_order().len(),
        forall|i: int| 0 <= i < r@.len() ==> {
            &&& #[trigger] r@[i].platform == row_order()[i]
            &&& r@[i].installed == installed@.contains(row_order()[i])
            &&& r@[i].active == (row_order()[i] == Platform::Linux || installed@.contains(Platform::Linux))
        },
{
    let linux = is_installed(installed, Platform::Linux);
    let mut r: Vec<PlatformRow> = Vec::new();
    r.push(PlatformRow { platform: Platform::Linux, installed: linux, active: true });
    r.push(PlatformRow { platform: Platform::Rcps3, installed: is_installed(installed, Platform::Rcps3), active: linux });
    r.push(PlatformRow {
        platform: Platform::Retroarch,
        installed: is_installed(installed, Platform::Retroarch),
        active: linux,
    });
    r.push(PlatformRow { platform: Platform::Pcsx2, installed: is_installed(installed, Platform::Pcsx2), active: linux });
    r.push(PlatformRow { platform: Platform::Wine, installed: is_installed(installed, Platform::Wine), active: linux });
    r
}

/// The wine distribution recorded in the global database: `default` when
/// the database cannot be read.
pub fn db_dist_wine(db: Option<&global::Entry>) -> (r: String)
    ensures
        match db {
            Some(e) => r@ == e.dist_wine@,
            None => r@ == "default"@,
        },
{
    match db {
        Some(e) => e.dist_wine.clone(),
        None => String::from_str("default"),
    }
}

/// The distribution shown in the menu: the one chosen before, or the
/// database's when none was chosen yet.
pub fn dist_wine_current(chosen: &str, db_dist: &str) -> (r: String)
    ensures
        chosen@.len() == 0 ==> r@ == db_dist@,
        chosen@.len() > 0 ==> r@ == chosen@,
{
    if chosen.is_empty() {
        String::from_str(db_dist)
    } else {
        String::from_str(chosen)
    }
}

/// Whether the wine row counts as installed: its layer is installed and it
/// is the distribution chosen in the menu.
pub fn wine_ready(installed: bool, chosen: &str, db_dist: &str) -> (r: bool)
    ensures
        r == (installed && chosen@ == db_dist@),
{
    installed && text::str_equal(chosen, db_dist)
}

/// The choices of the distribution menu: the names separated by `|`.
pub fn distribution_menu(names: &Vec<String>) -> (r: String)
    ensures
        r@ == joined_with(names@.map_values(|s: String| s@), "|"@),
{
    text::join_with(names, "|")
}

/// What the button of a platform does.
pub enum PlatformAction {
    /// Start the wizard of the platform with this frame.
    Start(Msg),
    /// Ask the backend to fetch the layer first.
    Fetch(Request),
}

/// The button of an installed platform starts its wizard; that of another
/// platform fetches its layer.
pub fn platform_click(platform: Platform, installed: bool) -> (r: PlatformAction)
    ensures
        installed ==> r == PlatformAction::Start(platform_first_step(platform)),
        !installed ==> (r matches PlatformAction::Fetch(req) && req@ == fetch_view(platform)),
{
    if installed {
        PlatformAction::Start(crate::common::platform_msg(platform))
    } else {
        PlatformAction::Fetch(fetch::fetch(platform))
    }
}

/// Records the chosen wine distribution in the global database before its
/// layer is fetched; nothing else changes.
pub fn set_dist_wine(db: global::Entry, dist: &str) -> (r: global::Entry)
    ensures
        r.dist_wine@ == dist@,
        r.project == db.project,
        r.path_dir_build == db.path_dir_build,
        r.path_dir_cache == db.path_dir_cache,
        r.path_file_image == db.path_file_image,
        r.path_file_output == db.path_file_output,
        r.projects == db.projects,
        r.wf() == db.wf(),
{
    global::Entry { dist_wine: String::from_str(dist), ..db }
}

/// The wine distribution of the fetch frame: the one recorded in the
/// environment, `default` when none is.
pub fn wine_dist_var(var: Option<String>) -> (r: String)
    ensures
        match var {
            Some(v) => r@ == v@,
            None => r@ == "default"@,
        },
{
    match var {
        Some(v) => v,
        None => String::from_str("default"),
    }
}

} // verus!
