use wizard::common::Msg;
use wizard::common::Platform;
use wizard::db::global;
use wizard::db::project;
use wizard::error::WizardError;
use wizard::frame::creator;
use wizard::frame::desktop;
use wizard::frame::finish;
use wizard::frame::icon;
use wizard::frame::icon::IconFrame;
use wizard::frame::name;
use wizard::frame::platform;
use wizard::frame::platform::PlatformAction;
use wizard::frame::term;
use wizard::frame::term::Tab;
use wizard::frame::welcome;

fn strings(v: &[&str]) -> Vec<String> {
    v.iter().map(|s| s.to_string()).collect()
}

#[test]
fn icon_frame_labels() {
    assert_eq!(IconFrame::Web.as_str(), "Web Search");
    assert_eq!(IconFrame::Local.as_str(), "Local File");
    assert_eq!(IconFrame::Web.from_str("Local File"), IconFrame::Local);
    assert_eq!(IconFrame::Local.from_str("Web Search"), IconFrame::Web);
    assert_eq!(IconFrame::Local.from_str("anything"), IconFrame::Web);
    for f in [IconFrame::Web, IconFrame::Local] {
        assert_eq!(f.from_str(f.as_str()), f);
    }
}

#[test]
fn icon_checks_and_files() {
    assert_eq!(icon::icon_check(None), Err(WizardError::NoIconSelected));
    assert_eq!(icon::icon_check(Some(false)), Err(WizardError::InvalidIconFile));
    assert_eq!(icon::icon_check(Some(true)), Ok(()));
    assert!(icon::is_image_file("/t/cover.jpg"));
    assert!(icon::is_image_file("cover.png"));
    assert!(!icon::is_image_file("cover.gif"));
    assert!(!icon::is_image_file("png"));
    assert_eq!(icon::icon_path("/p"), "/p/icon/icon.png");
    assert_eq!(icon::resized_icon_path("/p"), "/p/icon/icon.wizard.resized.png");
}

#[test]
fn icon_grid_fills_row_by_row() {
    let mut pos = (0, 0);
    let mut count = 1;
    while let Some(next) = icon::grid_next(pos.0, pos.1) {
        assert_eq!(next, (count / 4, count % 4));
        pos = next;
        count += 1;
    }
    assert_eq!(count, 20);
    assert_eq!(pos, (4, 3));
}

#[test]
fn icon_project_next() {
    assert!(matches!(icon::project_next(None), Err(WizardError::NoIconSelected)));
    let r = icon::project_next(Some("/i.png")).unwrap();
    assert_eq!(r.encode(), "{\"install\":{\"args\":[\"/i.png\"],\"op\":\"install\",\"sub_op\":\"icon\"},\"op\":\"install\"}");
    assert_eq!(icon::after_backend(&Ok(()), Msg::DrawWineIcon, Msg::DrawWineConfigure), Msg::DrawWineConfigure);
    assert_eq!(icon::after_backend(&Err(WizardError::BackendFailed { code: 1 }), Msg::DrawWineIcon, Msg::DrawWineConfigure), Msg::DrawWineIcon);
}

#[test]
fn platform_rows_follow_linux() {
    let rows = platform::platform_rows(&vec![Platform::Wine]);
    let order: Vec<Platform> = rows.iter().map(|r| r.platform).collect();
    assert_eq!(order, vec![Platform::Linux, Platform::Rcps3, Platform::Retroarch, Platform::Pcsx2, Platform::Wine]);
    assert!(rows[0].active && !rows[0].installed);
    assert!(rows[1..].iter().all(|r| !r.active));
    assert!(rows[4].installed);
    let rows = platform::platform_rows(&vec![Platform::Linux, Platform::Pcsx2]);
    assert!(rows.iter().all(|r| r.active));
    assert!(rows[3].installed && !rows[1].installed);
    assert!(platform::is_installed(&vec![Platform::Linux], Platform::Linux));
    assert!(!platform::is_installed(&vec![], Platform::Linux));
}

#[test]
fn platform_wine_distribution() {
    assert_eq!(platform::db_dist_wine(None), "default");
    assert_eq!(platform::dist_wine_current("", "caffe"), "caffe");
    assert_eq!(platform::dist_wine_current("soda", "caffe"), "soda");
    assert!(platform::wine_ready(true, "caffe", "caffe"));
    assert!(!platform::wine_ready(true, "soda", "caffe"));
    assert!(!platform::wine_ready(false, "caffe", "caffe"));
    assert_eq!(platform::distribution_menu(&strings(&["a", "b", "c"])), "a|b|c");
    assert_eq!(platform::wine_dist_var(None), "default");
    assert_eq!(platform::wine_dist_var(Some("x".to_string())), "x");
}

#[test]
fn platform_buttons() {
    assert!(matches!(platform::platform_click(Platform::Pcsx2, true), PlatformAction::Start(Msg::DrawPcsx2Name)));
    match platform::platform_click(Platform::Retroarch, false) {
        PlatformAction::Fetch(r) => assert_eq!(r.encode(), "{\"fetch\":{\"op\":\"fetch\",\"platform\":\"retroarch\"},\"op\":\"fetch\"}"),
        PlatformAction::Start(_) => panic!("expected a fetch"),
    }
    let db = global::Entry {
        project: "p".to_string(),
        path_dir_build: "/b".to_string(),
        path_dir_cache: "/c".to_string(),
        path_file_image: "/i".to_string(),
        path_file_output: "/o".to_string(),
        dist_wine: "default".to_string(),
        projects: vec![],
    };
    let db = platform::set_dist_wine(db, "staging");
    assert_eq!(db.dist_wine, "staging");
    assert_eq!(db.project, "p");
    assert_eq!(platform::db_dist_wine(Some(&db)), "staging");
}

#[test]
fn welcome_steps() {
    assert_eq!(welcome::build_dir_of("/home/u/gi"), "/home/u/gi/build");
    assert!(matches!(welcome::welcome_next(None), Err(WizardError::InvalidBuildDir)));
    let (a, b) = welcome::welcome_next(Some("/b")).unwrap();
    assert_eq!(a.encode(), "{\"init\":{\"op\":\"build\",\"path_dir_build\":\"/b\"},\"op\":\"init\"}");
    assert_eq!(b.encode(), "{\"fetch\":{\"op\":\"sources\"},\"op\":\"fetch\"}");
    assert_eq!(welcome::welcome_after_check(&Ok(())), Msg::DrawCreator);
    assert_eq!(welcome::welcome_after_check(&Err(WizardError::VersionMismatch { version: "2".to_string() })), Msg::WindActivate);
}

#[test]
fn finish_location() {
    assert_eq!(finish::finish_file_location("/out/My-Game.flatimage"), Ok(".My-Game.flatimage.config".to_string()));
    assert_eq!(finish::finish_file_location("/"), Err(WizardError::MissingFileName));
}

#[test]
fn package_name_frame() {
    assert_eq!(name::package_name("My Game!"), Some("My-Game".to_string()));
    assert_eq!(name::package_name("!?"), None);
    assert_eq!(name::package_next("!", Some("i"), Some("/d")), Err(WizardError::EmptyName));
    assert_eq!(name::package_next("x", None, Some("/d")), Err(WizardError::MissingImage));
    assert_eq!(
        name::package_next("My Game", Some("image.flatimage"), Some("/home/u/build")),
        Ok(("/home/u/build/image.flatimage".to_string(), "/home/u/My-Game.flatimage".to_string()))
    );
    assert_eq!(name::package_next("x", Some("image"), Some("/")), Err(WizardError::NoDestination));
}

#[test]
fn init_frame() {
    assert_eq!(name::init_next(None, Some("wine"), Some("i")), Err(WizardError::EmptyName));
    assert_eq!(name::init_next(Some("g"), None, Some("i")), Err(WizardError::NoPlatform));
    assert_eq!(name::init_next(Some("g"), Some("wine"), None), Err(WizardError::MissingImage));
    assert_eq!(
        name::init_next(Some("g"), Some("wine"), Some("i.img")),
        Ok(strings(&["init", "--dir", "g", "--platform", "wine", "--image", "i.img"]))
    );
    assert_eq!(name::project_dir_var("/b", "g"), "/b/g");
}

fn entry(n: &str) -> project::Entry {
    project::Entry::new(n.to_string(), "linux".to_string(), None, None, None, None)
}

#[test]
fn creator_projects() {
    let sorted = creator::sort_projects(vec![entry("b"), entry("a"), entry("c"), entry("a")]);
    let names: Vec<String> = sorted.iter().map(|e| e.get_project()).collect();
    assert_eq!(names, strings(&["a", "a", "b", "c"]));
    let names = strings(&["a", "b", "c"]);
    assert_eq!(creator::checked_projects(&vec![true, false, true], &names), strings(&["a", "c"]));
    assert_eq!(creator::creator_next(&vec![], &vec![]), Err(WizardError::NoProjects));
    assert_eq!(creator::creator_next(&vec![false, false, false], &names), Err(WizardError::NothingSelected));
    assert_eq!(creator::creator_next(&vec![false, true, false], &names), Ok(strings(&["b"])));
}

#[test]
fn creator_delete_and_icons() {
    assert!(creator::creator_del(&strings(&["a", "b"]), false).is_empty());
    let dels = creator::creator_del(&strings(&["a", "b"]), true);
    assert_eq!(dels.len(), 2);
    assert_eq!(dels[1].encode(), "{\"op\":\"project\",\"project\":{\"name\":\"b\",\"op\":\"del\"}}");
    assert_eq!(creator::creator_icon_path("/p/icon/icon.png"), Some("/p/icon/icon.creator.resized.png".to_string()));
    assert_eq!(creator::creator_icon_path("/"), None);
}

#[test]
fn desktop_requests() {
    assert_eq!(desktop::integration_items(true, true), "entry,icon,mimetype");
    assert_eq!(desktop::integration_items(false, true), "mimetype");
    assert_eq!(desktop::integration_items(false, false), "");
    assert!(matches!(desktop::desktop_next("", Some("/i".to_string()), vec![], true, true), Err(WizardError::EmptyName)));
    assert!(matches!(desktop::desktop_next("App", None, vec![], true, true), Err(WizardError::NoIconSelected)));
    let only = desktop::desktop_next("App", Some("/i".to_string()), strings(&["p"]), false, false).unwrap();
    assert_eq!(only.len(), 1);
    let all = desktop::desktop_next("App", Some("/i".to_string()), strings(&["p"]), true, false).unwrap();
    assert_eq!(all.len(), 3);
    assert_eq!(all[2].encode(), "{\"desktop\":{\"items\":\"entry,icon\",\"name\":\"App\",\"op\":\"setup\"},\"op\":\"desktop\"}");
}

#[test]
fn terminal_commands() {
    assert_eq!(term::split_command(&strings(&[])), Err(WizardError::NoCommand));
    assert_eq!(term::split_command(&strings(&["prog"])), Ok(("prog".to_string(), strings(&[]))));
    assert_eq!(term::split_command(&strings(&["prog", "a", "b"])), Ok(("prog".to_string(), strings(&["a", "b"]))));
    let (unset, (key, val)) = term::command_env();
    assert_eq!((unset.as_str(), key.as_str(), val.as_str()), ("LD_PRELOAD", "FIM_FIFO", "0"));
    assert_eq!(term::toggle_tab(Tab::Content), Tab::Log);
    assert_eq!(term::toggle_tab(term::toggle_tab(Tab::Log)), Tab::Log);
}
