use serde_json::Value;
use wizard::common::Platform;
use wizard::gameimage::desktop;
use wizard::gameimage::fetch;
use wizard::gameimage::gameimage;
use wizard::gameimage::gameimage::BackendRun;
use wizard::gameimage::init;
use wizard::gameimage::install;
use wizard::gameimage::package;
use wizard::gameimage::project;
use wizard::gameimage::request;
use wizard::gameimage::search;
use wizard::gameimage::select;
use wizard::error::WizardError;

fn obj(pairs: Vec<(&str, Value)>) -> Value {
    let mut m = serde_json::Map::new();
    for (k, v) in pairs {
        m.insert(k.to_string(), v);
    }
    Value::Object(m)
}

fn text(s: &str) -> Value {
    Value::String(s.to_string())
}

fn list(v: &[&str]) -> Value {
    Value::Array(v.iter().map(|s| text(s)).collect())
}

fn strings(v: &[&str]) -> Vec<String> {
    v.iter().map(|s| s.to_string()).collect()
}

#[test]
fn install_request_matches_serde_json() {
    let r = install::install("rom", strings(&["/a/b.sh", "c \"d\""]));
    let expected = obj(vec![
        ("op", text("install")),
        ("install", obj(vec![("op", text("install")), ("sub_op", text("rom")), ("args", list(&["/a/b.sh", "c \"d\""]))])),
    ]);
    assert_eq!(r.encode(), expected.to_string());
}

#[test]
fn install_icon_remote_remove_gui_requests() {
    let e = |op: &str, sub: &str, args: &[&str]| {
        obj(vec![
            ("op", text("install")),
            ("install", obj(vec![("op", text(op)), ("sub_op", text(sub)), ("args", list(args))])),
        ])
        .to_string()
    };
    assert_eq!(install::icon("/x/icon.png").encode(), e("install", "icon", &["/x/icon.png"]));
    assert_eq!(install::remote("core", strings(&["a.so"])).encode(), e("remote", "core", &["a.so"]));
    assert_eq!(install::remove("bios", strings(&["b", "c"])).encode(), e("remove", "bios", &["b", "c"]));
    assert_eq!(install::gui().encode(), e("install", "gui", &[]));
    assert_eq!(install::winetricks(strings(&["vcrun"])).encode(), e("install", "winetricks", &["vcrun"]));
    assert_eq!(install::wine(strings(&["setup.exe"])).encode(), e("install", "wine", &["setup.exe"]));
}

#[test]
fn select_and_test_requests() {
    let expected = obj(vec![
        ("op", text("select")),
        ("select", obj(vec![("op", text("rom")), ("path_file_target", text("game/run.sh"))])),
    ]);
    assert_eq!(select::select("rom", "game/run.sh").encode(), expected.to_string());
    assert_eq!(wizard::gameimage::test::test().encode(), obj(vec![("op", text("test"))]).to_string());
}

#[test]
fn init_requests() {
    let b = obj(vec![("op", text("init")), ("init", obj(vec![("op", text("build")), ("path_dir_build", text("/tmp/build"))]))]);
    assert_eq!(init::build("/tmp/build").encode(), b.to_string());
    let p = obj(vec![
        ("op", text("init")),
        ("init", obj(vec![("op", text("project")), ("name", text("Game")), ("platform", text("wine"))])),
    ]);
    assert_eq!(init::project("Game", "wine").encode(), p.to_string());
}

#[test]
fn project_requests() {
    let e = |op: &str| obj(vec![("op", text("project")), ("project", obj(vec![("op", text(op)), ("name", text("p1"))]))]).to_string();
    assert_eq!(project::set("p1").encode(), e("set"));
    assert_eq!(project::del("p1").encode(), e("del"));
}

#[test]
fn fetch_requests() {
    let f = obj(vec![("op", text("fetch")), ("fetch", obj(vec![("op", text("fetch")), ("platform", text("rpcs3"))]))]);
    assert_eq!(fetch::fetch(Platform::Rcps3).encode(), f.to_string());
    let i = obj(vec![("op", text("fetch")), ("fetch", obj(vec![("op", text("installed"))]))]);
    assert_eq!(fetch::installed().encode(), i.to_string());
    let s = obj(vec![("op", text("fetch")), ("fetch", obj(vec![("op", text("sources"))]))]);
    assert_eq!(fetch::sources().encode(), s.to_string());
}

#[test]
fn desktop_and_package_requests() {
    let d = obj(vec![
        ("op", text("desktop")),
        ("desktop", obj(vec![("op", text("setup")), ("name", text("App")), ("items", text("entry,icon"))])),
    ]);
    assert_eq!(desktop::desktop("App", "entry,icon").encode(), d.to_string());
    let i = obj(vec![("op", text("desktop")), ("desktop", obj(vec![("op", text("icon")), ("path_file_icon", text("/i.png"))]))]);
    assert_eq!(desktop::icon("/i.png").encode(), i.to_string());
    let p = obj(vec![("op", text("package")), ("package", obj(vec![("name", text("App")), ("projects", list(&["a", "b"]))]))]);
    assert_eq!(package::package("App", strings(&["a", "b"])).encode(), p.to_string());
}

#[test]
fn quote_escapes_like_serde_json() {
    let escaped = select::select("a\"b\\c\n", "p");
    let expected = obj(vec![("op", text("select")), ("select", obj(vec![("op", text("a\"b\\c\n")), ("path_file_target", text("p"))]))]);
    assert_eq!(escaped.encode(), expected.to_string());
    let control = select::select("\u{1}\t\u{1f}", "p");
    let expected = obj(vec![("op", text("select")), ("select", obj(vec![("op", text("\u{1}\t\u{1f}")), ("path_file_target", text("p"))]))]);
    assert_eq!(control.encode(), expected.to_string());
    assert!(control.encode().contains("\\u0001\\t\\u001f"));
    assert_eq!(request::join_parts(&strings(&["a", "b", "c"])), "a,b,c");
    assert_eq!(request::join_parts(&strings(&[])), "");
    assert_eq!(request::encode_list(&strings(&["x", "y"])), "[\"x\",\"y\"]");
}

#[test]
fn search_command_lines() {
    assert_eq!(search::search_local("rom"), strings(&["search", "--ipc", "rom"]));
    assert_eq!(search::search_remote("core"), strings(&["search", "--ipc", "--remote", "core"]));
    assert_eq!(search::search_result(strings(&["a"]), Some(3)), Ok(strings(&["a"])));
    assert_eq!(search::search_result(strings(&["a"]), None), Err(WizardError::BackendUnavailable));
}

#[test]
fn backend_exit_codes() {
    assert_eq!(gameimage::exit_code(Some(4)), 4);
    assert_eq!(gameimage::exit_code(None), 1);
    assert_eq!(gameimage::gameimage_sync(BackendRun::NotStarted), 1);
    assert_eq!(gameimage::gameimage_sync(BackendRun::Finished(Some(0))), 0);
    assert_eq!(gameimage::gameimage_sync(BackendRun::Finished(Some(7))), 7);
    assert_eq!(gameimage::gameimage_sync(BackendRun::Finished(None)), 1);
    assert_eq!(gameimage::check(0), Ok(()));
    assert_eq!(gameimage::check(2), Err(WizardError::BackendFailed { code: 2 }));
    let args = gameimage::request_args(&wizard::gameimage::test::test());
    assert_eq!(args, vec!["{\"op\":\"test\"}".to_string()]);
}

#[test]
fn fetch_outcomes_and_installed_platforms() {
    assert_eq!(fetch::fetch_result(0), Ok(0));
    assert_eq!(fetch::fetch_result(5), Err(WizardError::BackendFailed { code: 5 }));
    let got = fetch::installed_platforms(&strings(&["linux", "nope", "wine", "rpcs3"]));
    assert_eq!(got, vec![Platform::Linux, Platform::Wine, Platform::Rcps3]);
}
