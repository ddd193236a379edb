//! Decisions of the wine wizard: the configuration actions, the test run of
//! an installed executable and the choice of the default one.
use vstd::prelude::*;
use crate::common::Msg;
use crate::error::WizardError;
use crate::gameimage::request::strings_view;
use crate::path;
use crate::path::path_joined;
use crate::path::path_parent;
use crate::wizard::linux::first_selected;

verus! {

/// A configuration action: its label, and the backend command line its
/// button runs (`None` when the command is asked of the user).
pub type ConfigureEntry = (String, Option<Vec<String>>);

/// The texts of a configuration action.
pub open spec fn entry_view(e: ConfigureEntry) -> (Seq<char>, Option<Seq<Seq<char>>>) {
    (e.0@, match e.1 {
        Some(v) => Some(strings_view(v@)),
        None => None,
    })
}

/// The configuration actions of the wine configure frame, top to bottom.
pub open spec fn configure_entries_view() -> Seq<(Seq<char>, Option<Seq<Seq<char>>>)> {
    seq![
        ("Install DXVK for directx 9/10/11"@, Some(seq!["install"@, "dxvk"@])),
        ("Install VKD3D for directx 12"@, Some(seq!["install"@, "vkd3d"@])),
        ("Run regedit"@, Some(seq!["install"@, "wine"@, "regedit"@])),
        ("Run add/remove programs"@, Some(seq!["install"@, "wine"@, "uninstaller"@])),
        ("Run a custom winetricks command"@, None),
        ("Run a custom wine command"@, None),
    ]
}

/// A configuration action with a fixed command line.
fn fixed_entry(label: &str, args: Vec<String>) -> (r: ConfigureEntry)
    ensures
        entry_view(r) == (label@, Some(strings_view(args@))),
{
    (String::from_str(label), Some(args))
}

/// A configuration action whose command is typed by the user.
fn custom_entry(label: &str) -> (r: ConfigureEntry)
    ensures
        entry_view(r) == (label@, None::<Seq<Seq<char>>>),
{
    (String::from_str(label), None)
}

/// The actions listed in the wine configure frame.
pub fn configure_entries() -> (r: Vec<ConfigureEntry>)
    ensures
        r@.map_values(|e: ConfigureEntry| entry_view(e)) == configure_entries_view(),
{
    let mut r: Vec<ConfigureEntry> = Vec::new();
    let a = vec![String::from_str("install"), String::from_str("dxvk")];
    assert(strings_view(a@) =~= seq!["install"@, "dxvk"@]);
    r.push(fixed_entry("Install DXVK for directx 9/10/11", a));
    let a = vec![String::from_str("install"), String::from_str("vkd3d")];
    assert(strings_view(a@) =~= seq!["install"@, "vkd3d"@]);
    r.push(fixed_entry("Install VKD3D for directx 12", a));
    let a = vec![String::from_str("install"), String::from_str("wine"), String::from_str("regedit")];
    assert(strings_view(a@) =~= seq!["install"@, "wine"@, "regedit"@]);
    r.push(fixed_entry("Run regedit", a));
    let a = vec![String::from_str("install"), String::from_str("wine"), String::from_str("uninstaller")];
    assert(strings_view(a@) =~= seq!["install"@, "wine"@, "uninstaller"@]);
    r.push(fixed_entry("Run add/remove programs", a));
    r.push(custom_entry("Run a custom winetricks command"));
    r.push(custom_entry("Run a custom wine command"));
    assert(r@.map_values(|e: ConfigureEntry| entry_view(e)) =~= configure_entries_view());
    r
}

/// Each configuration button runs what its label says: the button that runs
/// `install wine regedit` is labelled "Run regedit", the one that runs
/// `install wine uninstaller` is "Run add/remove programs", the one that
/// installs DXVK says so and so does the one that installs VKD3D; the two
/// custom buttons ask for their command. Each of these commands has a
/// button.
pub proof fn law_configure_label_matches_command(i: int)
    requires
        0 <= i < configure_entries_view().len(),
    ensures
        configure_entries_view()[i].1 == Some(seq!["install"@, "wine"@, "regedit"@])
            <==> configure_entries_view()[i].0 == "Run regedit"@,
        configure_entries_view()[i].1 == Some(seq!["install"@, "wine"@, "uninstaller"@])
            <==> configure_entries_view()[i].0 == "Run add/remove programs"@,
        configure_entries_view()[i].1 == Some(seq!["install"@, "dxvk"@])
            <==> configure_entries_view()[i].0 == "Install DXVK for directx 9/10/11"@,
        configure_entries_view()[i].1 == Some(seq!["install"@, "vkd3d"@])
            <==> configure_entries_view()[i].0 == "Install VKD3D for directx 12"@,
        configure_entries_view()[i].1 is None <==> (configure_entries_view()[i].0 == "Run a custom winetricks command"@
            || configure_entries_view()[i].0 == "Run a custom wine command"@),
        exists|j: int| 0 <= j < configure_entries_view().len() && configure_entries_view()[j].1 == Some(
            seq!["install"@, "wine"@, "regedit"@],
        ),
        exists|j: int| 0 <= j < configure_entries_view().len() && configure_entries_view()[j].1 == Some(
            seq!["install"@, "wine"@, "uninstaller"@],
        ),
{
    reveal_strlit("Install DXVK for directx 9/10/11");
    reveal_strlit("Install VKD3D for directx 12");
    reveal_strlit("Run regedit");
    reveal_strlit("Run add/remove programs");
    reveal_strlit("Run a custom winetricks command");
    reveal_strlit("Run a custom wine command");
    reveal_strlit("install");
    reveal_strlit("wine");
    reveal_strlit("regedit");
    reveal_strlit("uninstaller");
    reveal_strlit("dxvk");
    reveal_strlit("vkd3d");
    let v = configure_entries_view();
    assert(v[2].1 == Some(seq!["install"@, "wine"@, "regedit"@]));
    assert(v[3].1 == Some(seq!["install"@, "wine"@, "uninstaller"@]));
    let r = seq!["install"@, "wine"@, "regedit"@];
    let u = seq!["install"@, "wine"@, "uninstaller"@];
    let d = seq!["install"@, "dxvk"@];
    let k = seq!["install"@, "vkd3d"@];
    assert(r != u) by { assert(r[2].len() != u[2].len()); }
    assert(d != k) by { assert(d[1][1] != k[1][1]); }
    assert(r != d && r != k && u != d && u != k) by { assert(r.len() != d.len()); }
    // The labels have different lengths, so no two are equal
    assert(v[0].0.len() == 32 && v[1].0.len() == 28 && v[2].0.len() == 11);
    assert(v[3].0.len() == 23 && v[4].0.len() == 31 && v[5].0.len() == 25);
    if i == 0 {
    } else if i == 1 {
    } else if i == 2 {
    } else if i == 3 {
    } else if i == 4 {
    } else {
        assert(i == 5);
    }
}

/// The command line of a typed command run with a tool (`winetricks` or
/// `wine`): `install <tool> <command>`.
pub fn custom_command_args(tool: &str, command: &str) -> (r: Vec<String>)
    ensures
        strings_view(r@) == seq!["install"@, tool@, command@],
{
    let r = vec![String::from_str("install"), String::from_str(tool), String::from_str(command)];
    assert(strings_view(r@) =~= seq!["install"@, tool@, command@]);
    r
}

/// The wine prefix of a project: the `wine` directory in it.
pub fn wine_prefix_path(path_dir_self: &str) -> (r: String)
    ensures
        r@ == path_joined(path_dir_self@, "wine"@),
{
    path::join(path_dir_self, "wine")
}

/// Whether the configure frame may go on to the executables: only once the
/// wine prefix exists.
pub fn configure_next(prefix_exists: bool) -> (r: Result<Msg, WizardError>)
    ensures
        prefix_exists ==> r == Ok::<Msg, WizardError>(Msg::DrawWineRom),
        !prefix_exists ==> r == Err::<Msg, WizardError>(WizardError::WinePrefixMissing),
{
    if prefix_exists {
        Ok(Msg::DrawWineRom)
    } else {
        Err(WizardError::WinePrefixMissing)
    }
}

/// The command line that makes `item` the default executable.
pub fn select_rom_args(item: &str) -> (r: Vec<String>)
    ensures
        strings_view(r@) == seq!["select"@, "rom"@, item@],
{
    let r = vec![String::from_str("select"), String::from_str("rom"), String::from_str(item)];
    assert(strings_view(r@) =~= seq!["select"@, "rom"@, item@]);
    r
}

/// The command lines a test run of `item` goes through, in order: make it
/// the default, then run the project. The run stops at the first that fails.
pub fn test_run_commands(item: &str) -> (r: Vec<Vec<String>>)
    ensures
        r@.len() == 2,
        strings_view(r@[0]@) == seq!["select"@, "rom"@, item@],
        strings_view(r@[1]@) == seq!["test"@],
{
    let t = vec![String::from_str("test")];
    assert(strings_view(t@) =~= seq!["test"@]);
    vec![select_rom_args(item), t]
}

/// The command line that installs a chosen file with wine.
pub fn install_args(choice: &str) -> (r: Vec<String>)
    ensures
        strings_view(r@) == seq!["install"@, "wine"@, choice@],
{
    custom_command_args("wine", choice)
}

/// The directory the folder button opens for an executable: the directory
/// of the executable in the project, or its path when it has no parent.
pub fn executable_dir(path_dir_project: &str, item: &str) -> (r: String)
    ensures
        match path_parent(path_joined(path_dir_project@, item@)) {
            Some(p) => r@ == p,
            None => r@ == path_joined(path_dir_project@, item@),
        },
{
    let joined = path::join(path_dir_project, item);
    match path::parent(joined.as_str()) {
        Some(p) => p,
        None => joined,
    }
}

/// The command line the next button runs: the first checked executable is
/// made the default; an error when none is checked.
pub fn rom_next(items: &Vec<String>, checked: &Vec<bool>) -> (r: Result<Vec<String>, WizardError>)
    requires
        items@.len() == checked@.len(),
    ensures
        match r {
            Ok(args) => exists|i: int|
                0 <= i < checked@.len() && checked@[i] && (forall|j: int| 0 <= j < i ==> !checked@[j])
                    && strings_view(args@) == seq!["select"@, "rom"@, items@[i]@],
            Err(e) => e == WizardError::NothingSelected && forall|j: int| 0 <= j < checked@.len() ==> !checked@[j],
        },
{
    match first_selected(checked) {
        Some(i) => Ok(select_rom_args(items[i].as_str())),
        None => Err(WizardError::NothingSelected),
    }
}

/// The frame after the default executable was set: the compress frame when
/// the backend succeeded; none (the frame stays) when it failed.
pub fn rom_after_select(code: i32) -> (r: Option<Msg>)
    ensures
        code == 0 <==> r == Some(Msg::DrawWineCompress),
        code != 0 <==> r is None,
{
    if code == 0 {
        Some(Msg::DrawWineCompress)
    } else {
        None
    }
}

} // verus!
