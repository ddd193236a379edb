use wizard::db::arg;
use wizard::db::env::Var;
use wizard::db::env::Vars;
use wizard::db::fetch;
use wizard::db::global;
use wizard::db::global::EntryDetails;
use wizard::db::project;
use wizard::db::project::EntryName;
use wizard::db::search;
use wizard::error::WizardError;
use wizard::kv::StrMap;

fn details(dir: &str, platform: &str) -> EntryDetails {
    EntryDetails {
        path_dir_project: dir.to_string(),
        path_dir_project_root: format!("{}/root", dir),
        platform: platform.to_string(),
    }
}

fn global_db() -> global::Entry {
    global::Entry {
        project: "game".to_string(),
        path_dir_build: "/build".to_string(),
        path_dir_cache: "/cache".to_string(),
        path_file_image: "/build/image.flatimage".to_string(),
        path_file_output: "/out/game.flatimage".to_string(),
        dist_wine: "caffe".to_string(),
        projects: vec![("other".to_string(), details("/build/other", "linux")), ("game".to_string(), details("/build/game", "wine"))],
    }
}

fn keys_of(vars: &Vars) -> Vec<(String, String)> {
    vars.env.iter().map(|v| (v.key.clone(), v.val.clone())).collect()
}

#[test]
fn env_set_accepts_valid_keys_only() {
    let mut vars = wizard::db::env::get(None);
    assert!(vars.env.is_empty());
    assert_eq!(wizard::db::env::set(&mut vars, "_A1".to_string(), "x".to_string()), Ok(()));
    assert_eq!(wizard::db::env::set(&mut vars, "1A".to_string(), "y".to_string()), Err(WizardError::InvalidKey));
    assert_eq!(wizard::db::env::set(&mut vars, "A-B".to_string(), "y".to_string()), Err(WizardError::InvalidKey));
    assert_eq!(wizard::db::env::set(&mut vars, "B".to_string(), "z".to_string()), Ok(()));
    assert_eq!(keys_of(&vars), vec![("_A1".to_string(), "x".to_string()), ("B".to_string(), "z".to_string())]);
}

#[test]
fn env_del_removes_every_occurrence() {
    let mut vars = Vars {
        env: vec![
            Var { key: "A".to_string(), val: "1".to_string() },
            Var { key: "B".to_string(), val: "2".to_string() },
            Var { key: "A".to_string(), val: "3".to_string() },
        ],
    };
    wizard::db::env::del(&mut vars, "A");
    assert_eq!(keys_of(&vars), vec![("B".to_string(), "2".to_string())]);
    // A delete right after a set leaves what a delete alone leaves
    let mut vars2 = Vars { env: vec![Var { key: "B".to_string(), val: "2".to_string() }] };
    wizard::db::env::set(&mut vars2, "C".to_string(), "9".to_string()).unwrap();
    wizard::db::env::del(&mut vars2, "C");
    assert_eq!(keys_of(&vars2), vec![("B".to_string(), "2".to_string())]);
    // Setting one key leaves the others
    wizard::db::env::set(&mut vars2, "D".to_string(), "4".to_string()).unwrap();
    assert_eq!(keys_of(&vars2), vec![("B".to_string(), "2".to_string()), ("D".to_string(), "4".to_string())]);
}

#[test]
fn env_and_arg_files() {
    let db = global_db();
    assert_eq!(wizard::db::env::from_file(&db), "/build/game/gameimage.env.json");
    assert_eq!(arg::from_file(&db), "/build/game/gameimage.wine.args.json");
}

#[test]
fn arg_read_write_erase() {
    let mut args = arg::read(None);
    assert_eq!(args.len(), 0);
    arg::write(&mut args, "bin/a.exe", "-fullscreen");
    arg::write(&mut args, "bin/b.exe", "-x");
    assert_eq!(args.get("bin/a.exe"), Some("-fullscreen".to_string()));
    arg::write(&mut args, "bin/a.exe", "-windowed");
    assert_eq!(args.get("bin/a.exe"), Some("-windowed".to_string()));
    assert_eq!(args.len(), 2);
    arg::erase(&mut args, "bin/a.exe");
    assert_eq!(args.get("bin/a.exe"), None);
    assert_eq!(args.get("bin/b.exe"), Some("-x".to_string()));
}

#[test]
fn strmap_operations() {
    let mut m = StrMap::new();
    m.insert("k1", "v1");
    m.insert("k2", "v2");
    assert!(m.contains_key("k1"));
    assert!(!m.contains_key("k3"));
    assert_eq!(m.keys(), vec!["k1".to_string(), "k2".to_string()]);
    m.remove("k1");
    m.remove("absent");
    assert_eq!(m.keys(), vec!["k2".to_string()]);
    assert_eq!(m.len(), 1);
}

#[test]
fn global_lookups() {
    let db = global_db();
    assert_eq!(db.get_project_dir("other"), Ok("/build/other".to_string()));
    assert_eq!(db.get_project_dir("none"), Err(WizardError::ProjectNotFound { name: "none".to_string() }));
    let cur = global::get_current_project(&db).unwrap();
    assert_eq!(cur.path_dir_project, "/build/game");
    assert_eq!(cur.platform, "wine");
    let mut db2 = global_db();
    db2.project = "missing".to_string();
    assert!(matches!(global::get_current_project(&db2), Err(WizardError::CurrentProjectNotFound)));
    let updated = global::update(global_db(), |mut e| {
        e.dist_wine = "soda".to_string();
        e
    });
    assert_eq!(updated.dist_wine, "soda");
}

#[test]
fn project_entry_paths() {
    let db = global_db();
    let e = project::Entry::new("game".to_string(), "wine".to_string(), Some("icon/icon.png".to_string()), None, None, None);
    assert_eq!(e.get_project(), "game");
    assert_eq!(e.get_platform(), "wine");
    assert_eq!(e.get_dir_self(&db), Ok("/build/game".to_string()));
    assert_eq!(e.get_path_relative(EntryName::PathFileIcon), Ok("icon/icon.png".to_string()));
    assert_eq!(e.get_path_relative(EntryName::PathFileRom), Err(WizardError::MissingPath));
    assert_eq!(e.get_path_absolute(&db, EntryName::PathFileIcon), Ok("/build/game/icon/icon.png".to_string()));
    let lost = project::Entry::new("lost".to_string(), "wine".to_string(), None, None, None, None);
    assert!(lost.get_dir_self(&db).is_err());
}

#[test]
fn project_files_and_list() {
    let db = global_db();
    assert_eq!(project::project_files(&db), vec!["/build/other/gameimage.json".to_string(), "/build/game/gameimage.json".to_string()]);
    assert_eq!(project::current_file(&db), Ok("/build/game/gameimage.json".to_string()));
    let a = project::Entry::new("a".to_string(), "linux".to_string(), None, None, None, None);
    let b = project::Entry::new("b".to_string(), "wine".to_string(), None, None, None, None);
    let listed = project::list(vec![Some(a), None, Some(b), None]);
    let names: Vec<String> = listed.iter().map(|e| e.get_project()).collect();
    assert_eq!(names, vec!["a".to_string(), "b".to_string()]);
}

fn fetch_db(version: &str) -> fetch::Entry {
    let mut layer = StrMap::new();
    layer.insert("default", "url1");
    layer.insert("staging", "url2");
    fetch::Entry {
        version: version.to_string(),
        rpcs3: fetch::EntryEmulator { layer: "r".to_string() },
        pcsx2: fetch::EntryEmulator { layer: "p".to_string() },
        retroarch: fetch::EntryEmulator { layer: "a".to_string() },
        wine: fetch::EntryWine { layer },
    }
}

#[test]
fn fetch_version_check() {
    assert_eq!(fetch::check_version(&fetch_db("1.5.3")), Ok(()));
    assert_eq!(fetch::check_version(&fetch_db("1.6.0")), Err(WizardError::VersionMismatch { version: "1.6.0".to_string() }));
    assert_eq!(fetch::wine_distributions(&fetch_db("1.5")), vec!["default".to_string(), "staging".to_string()]);
}

#[test]
fn search_find_roms() {
    let entries = |rom: Option<Vec<String>>| search::Entries { rom, core: None, bios: None, keys: None };
    assert_eq!(search::find_roms(1, entries(Some(vec!["a".to_string()]))), Err(WizardError::NoFileFound));
    assert_eq!(search::find_roms(0, entries(Some(vec!["a".to_string()]))), Ok(vec!["a".to_string()]));
    assert_eq!(search::find_roms(0, entries(None)), Err(WizardError::NoItemsFound));
}

#[test]
fn env_set_checked_takes_the_key_check() {
    let mut vars = Vars { env: vec![] };
    assert_eq!(wizard::db::env::set_checked(&mut vars, "K".to_string(), "v".to_string(), true), Ok(()));
    assert_eq!(wizard::db::env::set_checked(&mut vars, "K".to_string(), "w".to_string(), false), Err(WizardError::InvalidKey));
    assert_eq!(keys_of(&vars), vec![("K".to_string(), "v".to_string())]);
}

#[test]
fn global_updates_compose() {
    let set_wine = |mut e: global::Entry| {
        e.dist_wine = "soda".to_string();
        e
    };
    let set_project = |mut e: global::Entry| {
        e.project = "other".to_string();
        e
    };
    let twice = global::update(global::update(global_db(), set_wine), set_project);
    let once = global::update(global_db(), |e| set_project(set_wine(e)));
    assert_eq!(twice.dist_wine, once.dist_wine);
    assert_eq!(twice.project, once.project);
    assert_eq!(twice.dist_wine, "soda");
    assert_eq!(twice.project, "other");
    assert_eq!(twice.projects.len(), global_db().projects.len());
    let same = global::update(global_db(), |e| e);
    assert_eq!(same.project, global_db().project);
    assert_eq!(same.dist_wine, global_db().dist_wine);
}
