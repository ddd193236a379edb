use wizard::common::Msg;
use wizard::common::Platform;
use wizard::error::WizardError;
use wizard::kv::StrMap;
use wizard::wizard::compress;
use wizard::wizard::install;
use wizard::wizard::linux;
use wizard::wizard::name;
use wizard::wizard::wine;

fn strings(v: &[&str]) -> Vec<String> {
    v.iter().map(|s| s.to_string()).collect()
}

#[test]
fn linux_search_filters_case_insensitively_and_sorts_by_depth() {
    let items = strings(&["a/b/Game.sh", "game.sh", "x/other.sh", "c/GAME/run.sh", "d/game2.sh"]);
    let got = linux::default_search("GAME", &items);
    assert_eq!(got, strings(&["game.sh", "d/game2.sh", "a/b/Game.sh", "c/GAME/run.sh"]));
    assert_eq!(linux::default_search("", &items).len(), 5);
    assert_eq!(linux::default_search("zzz", &items), strings(&[]));
}

#[test]
fn linux_pages() {
    assert_eq!(linux::page_range(0, 45), (0, 20));
    assert_eq!(linux::page_range(2, 45), (40, 45));
    assert_eq!(linux::page_range(3, 45), (45, 45));
    assert_eq!(linux::page_range(0, 0), (0, 0));
    assert_eq!(linux::page_count(45), 2);
    assert_eq!(linux::page_count(40), 2);
    assert_eq!(linux::page_count(19), 0);
    // Each item is on page i / 20
    for i in 0..45usize {
        let (s, e) = linux::page_range(i / 20, 45);
        assert!(s <= i && i < e);
    }
}

#[test]
fn linux_default_selection() {
    assert_eq!(linux::first_selected(&vec![false, true, true]), Some(1));
    assert_eq!(linux::first_selected(&vec![false, false]), None);
    let items = strings(&["a", "b", "c"]);
    assert_eq!(linux::default_next(&items, &vec![false, false, true]), Ok("c".to_string()));
    assert_eq!(linux::default_next(&items, &vec![false, false, false]), Err(WizardError::NothingSelected));
    assert_eq!(linux::method_next(&strings(&["a"])), Ok(()));
    assert_eq!(linux::method_next(&strings(&[])), Err(WizardError::NoFileFound));
    let t = linux::exclusive_toggle(4, 2);
    assert_eq!(t, vec![false, false, true, false]);
    assert_eq!(linux::first_selected(&t), Some(2));
}

#[test]
fn linux_databases() {
    let mut db = StrMap::new();
    linux::default_db(&mut db, "bin/a", "--fast");
    assert_eq!(db.get("bin/a"), Some("--fast".to_string()));
    linux::default_db(&mut db, "bin/a", "   ");
    assert_eq!(db.get("bin/a"), None);
    linux::toggle_selectable(&mut db, "bin/b", true);
    assert_eq!(db.get("bin/b"), Some("1".to_string()));
    assert!(linux::entry_selectable(&db, "bin/b"));
    assert_eq!(linux::entry_field(&db, "bin/b"), "1");
    assert_eq!(linux::entry_field(&db, "bin/c"), "");
    linux::toggle_selectable(&mut db, "bin/b", false);
    assert!(!linux::entry_selectable(&db, "bin/b"));
    assert_eq!(linux::path_db_executable("/p"), "/p/gameimage.executable.json");
    assert_eq!(linux::path_db_args("/p"), "/p/gameimage.args.json");
    assert_eq!(linux::path_db_alias("/p"), "/p/gameimage.alias.json");
    assert_eq!(linux::linux_dir("/p"), "/p/linux");
}

#[test]
fn linux_play_and_search_keys() {
    let (sel, test) = linux::default_play("bin/run.sh");
    assert_eq!(sel.encode(), "{\"op\":\"select\",\"select\":{\"op\":\"rom\",\"path_file_target\":\"bin/run.sh\"}}");
    assert_eq!(test.encode(), "{\"op\":\"test\"}");
    assert!(linux::should_search(true, false, true));
    assert!(linux::should_search(false, true, false));
    assert!(!linux::should_search(false, true, true));
    assert!(!linux::should_search(false, false, false));
}

#[test]
fn name_sanitize_and_next() {
    assert_eq!(name::sanitize("My Game: Deluxe!"), "My-Game--Deluxe");
    assert_eq!(name::sanitize("a_b-c"), "a_b-c");
    assert_eq!(name::sanitize(&name::sanitize("x: y?")), name::sanitize("x: y?"));
    assert!(matches!(name::name_next(None, Some(Platform::Wine)), Err(WizardError::EmptyName)));
    assert!(matches!(name::name_next(Some("g".to_string()), None), Err(WizardError::NoPlatform)));
    let r = name::name_next(Some("g".to_string()), Some(Platform::Wine)).unwrap();
    assert_eq!(r.encode(), "{\"init\":{\"name\":\"g\",\"op\":\"project\",\"platform\":\"wine\"},\"op\":\"init\"}");
}

#[test]
fn wine_configure() {
    let entries = wine::configure_entries();
    assert_eq!(entries.len(), 6);
    assert_eq!(entries[0].0, "Install DXVK for directx 9/10/11");
    assert_eq!(entries[0].1, Some(strings(&["install", "dxvk"])));
    assert_eq!(entries[1].1, Some(strings(&["install", "vkd3d"])));
    assert_eq!(entries[2].1, Some(strings(&["install", "wine", "regedit"])));
    assert_eq!(entries[3].1, Some(strings(&["install", "wine", "uninstaller"])));
    assert_eq!(entries[4].1, None);
    assert_eq!(entries[5].0, "Run a custom wine command");
    assert_eq!(wine::custom_command_args("winetricks", "vcrun2019"), strings(&["install", "winetricks", "vcrun2019"]));
    assert_eq!(wine::configure_next(true), Ok(Msg::DrawWineRom));
    assert_eq!(wine::configure_next(false), Err(WizardError::WinePrefixMissing));
    assert_eq!(wine::wine_prefix_path("/p"), "/p/wine");
}

#[test]
fn wine_executables() {
    assert_eq!(wine::select_rom_args("a.exe"), strings(&["select", "rom", "a.exe"]));
    assert_eq!(wine::test_run_commands("a.exe"), vec![strings(&["select", "rom", "a.exe"]), strings(&["test"])]);
    assert_eq!(wine::install_args("setup.exe"), strings(&["install", "wine", "setup.exe"]));
    assert_eq!(wine::executable_dir("/p", "drive_c/game/a.exe"), "/p/drive_c/game");
    let items = strings(&["a.exe", "b.exe"]);
    assert_eq!(wine::rom_next(&items, &vec![false, true]), Ok(strings(&["select", "rom", "b.exe"])));
    assert_eq!(wine::rom_next(&items, &vec![false, false]), Err(WizardError::NothingSelected));
    assert_eq!(wine::rom_after_select(0), Some(Msg::DrawWineCompress));
    assert_eq!(wine::rom_after_select(1), None);
}

#[test]
fn install_frame_buttons() {
    assert_eq!(install::add_next("rom", strings(&[])).err(), Some(WizardError::NothingSelected));
    let a = install::add_next("rom", strings(&["x"])).unwrap();
    assert_eq!(a.encode(), "{\"install\":{\"args\":[\"x\"],\"op\":\"install\",\"sub_op\":\"rom\"},\"op\":\"install\"}");
    assert_eq!(install::remove_next("bios", strings(&[])).err(), Some(WizardError::NothingSelected));
    let r = install::remove_next("bios", strings(&["b"])).unwrap();
    assert_eq!(r.encode(), "{\"install\":{\"args\":[\"b\"],\"op\":\"remove\",\"sub_op\":\"bios\"},\"op\":\"install\"}");
    assert_eq!(install::default_next("core", &strings(&[])).err(), Some(WizardError::NothingSelected));
    assert_eq!(install::default_next("core", &strings(&["a", "b"])).err(), Some(WizardError::MultipleSelected));
    let d = install::default_next("core", &strings(&["a.so"])).unwrap();
    assert_eq!(d.encode(), "{\"op\":\"select\",\"select\":{\"op\":\"core\",\"path_file_target\":\"a.so\"}}");
    let m = install::remote_next("core", strings(&["c"]));
    assert_eq!(m.encode(), "{\"install\":{\"args\":[\"c\"],\"op\":\"remote\",\"sub_op\":\"core\"},\"op\":\"install\"}");
    let s = install::rom_script_next("/x/setup.sh");
    assert_eq!(s.encode(), "{\"install\":{\"args\":[\"/x/setup.sh\"],\"op\":\"install\",\"sub_op\":\"rom\"},\"op\":\"install\"}");
}

#[test]
fn compress_choices() {
    let levels = compress::level_choices();
    assert_eq!(levels.len(), 11);
    assert_eq!(levels[0], "0");
    assert_eq!(levels[10], "10");
    assert_eq!(compress::compression_level(None), "7");
    assert_eq!(compress::compression_level(Some("3".to_string())), "3");
    assert_eq!(compress::compress_args("/bin/gameimage-cli"), strings(&["/bin/gameimage-cli", "{ \"op\": \"compress\" }"]));
    assert_eq!(compress::test_args("/bin/gameimage-cli"), strings(&["/bin/gameimage-cli", "test"]));
}
