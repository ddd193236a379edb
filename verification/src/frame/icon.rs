//! Decisions of the icon frames: where the icon is taken from, when the
//! wizard may go on, where the downloaded images are placed and where the
//! icon files live.
use vstd::prelude::*;
use crate::common::Msg;
use crate::error::WizardError;
use crate::gameimage::install;
use crate::gameimage::install::install_view;
use crate::gameimage::request::Request;
use crate::path;
use crate::path::path_joined;
use crate::text;

verus! {

/// Rows of the grid the downloaded images are shown in.
pub const COUNT_ROW: i32 = 5;

/// Columns of the grid the downloaded images are shown in.
pub const COUNT_COL: i32 = 4;

/// Where the icon is searched for.
#[derive(Debug, Clone, Copy, PartialEq, Eq, Structural)]
pub enum IconFrame {
    Web,
    Local,
}

/// The label of an icon source in the source menu.
pub open spec fn icon_frame_label(f: IconFrame) -> Seq<char> {
    match f {
        IconFrame::Local => "Local File"@,
        IconFrame::Web => "Web Search"@,
    }
}

/// The icon source chosen by a menu label: the local file for its label,
/// the web search for any other text.
pub open spec fn icon_frame_named(s: Seq<char>) -> IconFrame {
    if s == "Local File"@ {
        IconFrame::Local
    } else {
        IconFrame::Web
    }
}

impl IconFrame {
    /// The label of the source in the source menu.
    pub fn as_str(&self) -> (r: &'static str)
        ensures
            r@ == icon_frame_label(*self),
    {
        match self {
            IconFrame::Local => "Local File",
            IconFrame::Web => "Web Search",
        }
    }

    /// The source chosen by a menu label.
    pub fn from_str(&self, src: &str) -> (r: IconFrame)
        ensures
            r == icon_frame_named(src@),
    {
        if text::str_equal(src, "Local File") {
            IconFrame::Local
        } else {
            IconFrame::Web
        }
    }
}

/// Choosing the label of a source in the menu selects that source.
pub proof fn law_icon_frame_round_trip(f: IconFrame)
    ensures
        icon_frame_named(icon_frame_label(f)) == f,
{
    reveal_strlit("Local File");
    reveal_strlit("Web Search");
    assert("Local File"@[0] != "Web Search"@[0]);
}

/// Whether the web icon frame may go on: the icon variable must be set
/// (`icon` is `Some`) and name a regular file (the `bool` it holds).
pub fn icon_check(icon: Option<bool>) -> (r: Result<(), WizardError>)
    ensures
        icon is None ==> r == Err::<(), WizardError>(WizardError::NoIconSelected),
        icon == Some(false) ==> r == Err::<(), WizardError>(WizardError::InvalidIconFile),
        icon == Some(true) ==> r is Ok,
{
    match icon {
        None => Err(WizardError::NoIconSelected),
        Some(false) => Err(WizardError::InvalidIconFile),
        Some(true) => Ok(()),
    }
}

/// Whether a downloaded file is shown as a candidate icon: its name ends
/// in `.jpg` or `.png`.
pub fn is_image_file(path: &str) -> (r: bool)
    ensures
        r == (".jpg"@.is_suffix_of(path@) || ".png"@.is_suffix_of(path@)),
{
    text::ends_with(path, ".jpg") || text::ends_with(path, ".png")
}

/// The cell after `(row, col)` in reading order; `None` after the last.
pub open spec fn grid_step(row: int, col: int) -> Option<(int, int)> {
    if row == 4 && col == 3 {
        None
    } else if col == 3 {
        Some((row + 1, 0))
    } else {
        Some((row, col + 1))
    }
}

/// The cell the next image goes to: the next column, or the first column of
/// the next row after the last one; `None` once the grid is full.
pub fn grid_next(row: i32, col: i32) -> (r: Option<(i32, i32)>)
    requires
        0 <= row < COUNT_ROW,
        0 <= col < COUNT_COL,
    ensures
        r matches Some(p) ==> grid_step(row as int, col as int) == Some((p.0 as int, p.1 as int)),
        r is None ==> grid_step(row as int, col as int) is None,
{
    if row == COUNT_ROW - 1 && col == COUNT_COL - 1 {
        None
    } else if col == COUNT_COL - 1 {
        Some((row + 1, 0))
    } else {
        Some((row, col + 1))
    }
}

/// The cell reached after `k` steps from the top-left cell, if the grid
/// has that many.
pub open spec fn grid_after(k: nat) -> Option<(int, int)>
    decreases k,
{
    if k == 0 {
        Some((0, 0))
    } else {
        match grid_after((k - 1) as nat) {
            Some(p) => grid_step(p.0, p.1),
            None => None,
        }
    }
}

/// The images fill the grid row by row: the `k`-th image goes to row
/// `k / 4`, column `k % 4`, and there is room for 20 images, no more.
pub proof fn law_grid_fill(k: nat)
    ensures
        k < 20 ==> grid_after(k) == Some(((k / 4) as int, (k % 4) as int)),
        k >= 20 ==> grid_after(k) is None,
    decreases k,
{
    if k > 0 {
        law_grid_fill((k - 1) as nat);
    }
}

/// Where the installed icon of a project is: `icon/icon.png` in its
/// directory.
pub fn icon_path(path_dir_project: &str) -> (r: String)
    ensures
        r@ == path_joined(path_dir_project@, "icon/icon.png"@),
{
    path::join(path_dir_project, "icon/icon.png")
}

/// Where the preview of an icon is written: `icon.wizard.resized.png` in
/// the `icon` directory of the project.
pub fn resized_icon_path(path_dir_project: &str) -> (r: String)
    ensures
        r@ == path_joined(path_joined(path_dir_project@, "icon"@), "icon.wizard.resized.png"@),
{
    let dir = path::join(path_dir_project, "icon");
    path::join(dir.as_str(), "icon.wizard.resized.png")
}

/// What the project icon frame asks of the backend when going on: to
/// install the chosen icon; an error when none was chosen.
pub fn project_next(selected: Option<&str>) -> (r: Result<Request, WizardError>)
    ensures
        match selected {
            None => r == Err::<Request, WizardError>(WizardError::NoIconSelected),
            Some(p) => r matches Ok(req) && req@ == install_view("install"@, "icon"@, seq![p@]),
        },
{
    match selected {
        None => Err(WizardError::NoIconSelected),
        Some(p) => Ok(install::icon(p)),
    }
}

/// The frame drawn once the backend has answered a request: the next one
/// when it succeeded, the current one again when it failed.
pub fn after_backend(result: &Result<(), WizardError>, msg_curr: Msg, msg_next: Msg) -> (r: Msg)
    ensures
        result is Ok ==> r == msg_next,
        result is Err ==> r == msg_curr,
{
    match result {
        Ok(()) => msg_next,
        Err(_) => msg_curr,
    }
}

} // verus!
