use wizard::common;
use wizard::common::Platform;
use wizard::download;
use wizard::error::WizardError;
use wizard::ipc;
use wizard::scaling;
use wizard::text;

fn strings(v: &[&str]) -> Vec<String> {
    v.iter().map(|s| s.to_string()).collect()
}

#[test]
fn platform_names_round_trip() {
    for p in [Platform::Linux, Platform::Wine, Platform::Retroarch, Platform::Pcsx2, Platform::Rcps3] {
        assert_eq!(Platform::from_str(p.as_str()), Some(p));
        assert_eq!(common::platform_of_description(common::platform_description(p)), Some(p));
    }
    assert_eq!(Platform::Rcps3.as_str(), "rpcs3");
    assert_eq!(Platform::from_str("Linux"), None);
    assert_eq!(common::platform_of_description("Wine"), None);
    assert_eq!(common::platform_description(Platform::Wine), " Wine - Play windows games");
}

#[test]
fn log_lines() {
    assert_eq!(common::log_entry("hello"), "hello\n");
    assert_eq!(common::log_entry("hello\n"), "hello\n");
    assert_eq!(common::log_entry(&common::log_entry("x")), common::log_entry("x"));
    assert_eq!(common::log_fd(None), None);
    assert_eq!(common::log_fd(Some(&[])), None);
    assert_eq!(common::log_fd(Some(b"  progress 10\n")), Some("progress 10".to_string()));
    assert_eq!(common::log_fd(Some(&[0x61, 0xff, 0x62])), Some("a\u{fffd}b".to_string()));
}

#[test]
fn text_helpers() {
    assert_eq!(text::trim("  a b \t\n"), "a b");
    assert_eq!(text::trim("   "), "");
    assert!(text::contains("hello world", "o w"));
    assert!(!text::contains("hello", "hello!"));
    assert!(text::starts_with("1.5.2", "1.5"));
    assert!(!text::starts_with("1.4", "1.5"));
    assert!(text::ends_with("a.png", ".png"));
    assert_eq!(text::concat("a", "b"), "ab");
    assert_eq!(text::join_with(&strings(&["x", "y"]), "|"), "x|y");
    assert_eq!(text::join_with(&strings(&[]), "|"), "");
    assert!(text::str_le("abc", "abd"));
    assert!(text::str_le("ab", "abc"));
    assert!(!text::str_le("b", "a"));
}

#[test]
fn path_helpers_through_the_library() {
    // Path::join, also with an absolute second part
    assert_eq!(wizard::frame::icon::icon_path("/a"), "/a/icon/icon.png");
    assert_eq!(wizard::frame::welcome::build_dir_of("/a/"), "/a/build");
    assert_eq!(wizard::frame::welcome::build_dir_of("/a"), "/a/build");
    assert_eq!(wizard::frame::welcome::build_dir_of(""), "build");
    assert_eq!(wizard::frame::name::package_next("n", Some("/abs/img"), Some("/a")), Ok(("/abs/img".to_string(), "/n.flatimage".to_string())));
    // Path::parent
    assert_eq!(download::download_dir("/a/b"), Ok("/a".to_string()));
    assert_eq!(download::download_dir("/"), Err(WizardError::NoParentDir));
    // Path::file_name
    assert_eq!(wizard::frame::finish::finish_file_location("/a/b.txt"), Ok(".b.txt.config".to_string()));
    // Path::extension and PathBuf::set_extension
    assert_eq!(download::sha_path("/a/b.tar.gz"), "/a/b.tar.gz.sha256sum");
    assert_eq!(download::sha_path("/a/b"), "/a/b.sha256sum");
    assert_eq!(download::sha_extension(Some("gz".to_string())), "gz.sha256sum");
    assert_eq!(download::sha_extension(Some(String::new())), "sha256sum");
    assert_eq!(download::sha_extension(None), "sha256sum");
    // Path::components
    let items = strings(&["x/y/z/game", "game"]);
    assert_eq!(wizard::wizard::linux::default_search("GAME", &items), strings(&["game", "x/y/z/game"]));
    // An empty query keeps every executable, shallowest first
    assert_eq!(wizard::wizard::linux::default_search("", &strings(&["a/b/c", "d", "e/f", "g"])), strings(&["d", "g", "e/f", "a/b/c"]));
    // Valid UTF-8 output is decoded as it is, then trimmed
    assert_eq!(common::log_fd(Some("\t été \n".as_bytes())), Some("été".to_string()));
}

#[test]
fn text_wrappers_through_the_library() {
    // str::to_lowercase on both sides of the search
    assert_eq!(wizard::wizard::linux::default_search("ÉTÉ", &strings(&["Été.sh", "b.sh"])), strings(&["Été.sh"]));
    // char::is_alphanumeric beyond ASCII
    assert_eq!(wizard::wizard::name::sanitize("café 1"), "café-1");
    // str::from_utf8
    assert_eq!(ipc::decode_message(2, b"ok"), Ok("ok".to_string()));
    // String::from_utf8_lossy
    assert_eq!(common::log_fd(Some(b"\xffz")), Some("\u{fffd}z".to_string()));
}

#[test]
fn sha_files() {
    assert_eq!(download::sha_extension(None), "sha256sum");
    assert_eq!(download::sha_extension(Some(String::new())), "sha256sum");
    assert_eq!(download::sha_extension(Some("tar".to_string())), "tar.sha256sum");
    assert_eq!(download::sha_path("/d/layer.flatimage"), "/d/layer.flatimage.sha256sum");
    assert_eq!(download::sha_path("/d/layer"), "/d/layer.sha256sum");
    assert_eq!(download::sha_url("https://x/l.img"), "https://x/l.img.sha256sum");
    assert_eq!(download::download_dir("/d/l.img"), Ok("/d".to_string()));
    assert_eq!(download::download_dir("/"), Err(WizardError::NoParentDir));
    assert_eq!(download::sha_file_content("abc123 /tmp/old name", "/d/l.img"), "abc123 /d/l.img");
    assert_eq!(download::sha_file_content("", "/d/l.img"), " /d/l.img");
    // The rewritten file keeps the digest
    let once = download::sha_file_content("abc123 /tmp/old", "/d/l.img");
    assert_eq!(download::sha_file_content(&once, "/e/m.img"), "abc123 /e/m.img");
}

#[test]
fn sha_digests() {
    let hello = "2cf24dba5fb0a30e26e83b2ac5b9e29e1b161e5c1fa7425e73043362938b9824";
    assert_eq!(download::sha_verify(hello.as_bytes(), b"hello"), Ok(()));
    assert_eq!(
        download::sha_verify(hello.as_bytes(), b"other"),
        Err(WizardError::ShaMismatch { expected: hello.to_string(), got: "d9298a10d1b0735837dc4bd85dac641b0f3cef27a47e5d53a54f2f3f5b2fcffa".to_string() })
    );
    assert_eq!(download::sha_verify(&[0xff; 64], b"hello"), Err(WizardError::InvalidUtf8));
}

#[test]
fn transfer_status() {
    let ok = vec![("a".to_string(), 200u16), ("b".to_string(), 200u16)];
    assert_eq!(download::check_status(&ok), Ok(()));
    assert_eq!(download::check_status(&vec![]), Ok(()));
    let bad = vec![("a".to_string(), 200u16), ("b".to_string(), 404u16), ("c".to_string(), 500u16)];
    assert_eq!(download::check_status(&bad), Err(WizardError::ConnectionError { status: 404 }));
}

#[test]
fn ipc_results() {
    let q = ipc::Ipc::new(12);
    assert_eq!(q.get_msgid(), 12);
    assert_eq!(ipc::queue_flags(0), 0o666);
    assert_eq!(ipc::queue_flags(0o1000), 0o1666);
    assert_eq!(ipc::id_result(-1), Err(WizardError::BackendUnavailable));
    assert_eq!(ipc::id_result(7), Ok(7));
    let mut buf = [0u8; 16];
    buf[..5].copy_from_slice(b"50.5x");
    assert_eq!(ipc::decode_message(4, &buf), Ok("50.5".to_string()));
    assert_eq!(ipc::decode_message(-1, &buf), Err(WizardError::ReceiveFailed));
    buf[0] = 0xff;
    assert_eq!(ipc::decode_message(2, &buf), Err(WizardError::InvalidUtf8));
    assert_eq!(ipc::decode_message(0, &buf), Ok(String::new()));
}

#[test]
fn display_scaling() {
    assert_eq!(scaling::compute(&vec![]), None);
    let d = vec![(1920, 1080, 1), (2560, 1440, 1), (1280, 720, 4), (2560, 1440, 1)];
    // 1280*720*4 = 3686400 equals 2560*1440; the last of the largest wins
    assert_eq!(scaling::compute(&d), Some(3));
    assert_eq!(scaling::display_rank((1920, 1080, 2)), 1920 * 1080 * 2 * 2);
    assert_eq!(scaling::oriented(1080, 1920), (1920, 1080));
    assert_eq!(scaling::oriented(1920, 1080), (1920, 1080));
    assert!(scaling::fits_baseline(1080, 1920));
    assert!(scaling::fits_baseline(2560, 1080));
    assert!(!scaling::fits_baseline(2560, 1440));
}

#[test]
fn key_pattern_matching() {
    let p = wizard::pattern::compile("^[_[:alpha:]][_[:alnum:]]*$").unwrap();
    assert!(wizard::pattern::is_match(&p, "ABC_1"));
    assert!(!wizard::pattern::is_match(&p, "9x"));
    assert!(wizard::pattern::compile("(").is_err());
}

#[test]
fn progress_reports() {
    assert!(!download::progress_due(999));
    assert!(download::progress_due(1000));
    assert_eq!(download::progress_total(None), 0);
    assert_eq!(download::progress_total(Some(42)), 42);
}

#[test]
fn verified_download_found_again() {
    let hello = "2cf24dba5fb0a30e26e83b2ac5b9e29e1b161e5c1fa7425e73043362938b9824";
    for fetched in [format!("{}  hello.txt\n", hello), format!("{}\n", hello), hello.to_string()] {
        // The fetched checksum file verifies the fetched bytes
        assert_eq!(download::sha_verify(&fetched.as_bytes()[..64], b"hello"), Ok(()));
        // The checksum file written beside the file verifies them again
        let written = download::sha_file_content(&fetched, "/d/hello.img");
        assert!(written.ends_with(" /d/hello.img"));
        assert_eq!(download::sha_verify(&written.as_bytes()[..64], b"hello"), Ok(()));
        assert!(download::sha_verify(&written.as_bytes()[..64], b"hellO").is_err());
    }
}

#[test]
fn transfer_verification() {
    let hello = "2cf24dba5fb0a30e26e83b2ac5b9e29e1b161e5c1fa7425e73043362938b9824";
    let ok = vec![("a".to_string(), 200u16)];
    let bad = vec![("a".to_string(), 200u16), ("b".to_string(), 503u16)];
    assert_eq!(download::verify_transfer(hello.as_bytes(), b"hello", &ok), Ok(()));
    assert_eq!(download::verify_transfer(hello.as_bytes(), b"hello", &bad), Err(WizardError::ConnectionError { status: 503 }));
    // The checksum is checked before the status
    assert_eq!(download::verify_transfer(&[0xff; 64], b"hello", &bad), Err(WizardError::InvalidUtf8));
    assert!(matches!(download::verify_transfer(hello.as_bytes(), b"other", &bad), Err(WizardError::ShaMismatch { .. })));
}
