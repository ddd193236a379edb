use wizard::common::Msg;
use wizard::common::Platform;
use wizard::flow;
use wizard::flow::LoopAction;

fn steps(p: Platform) -> Vec<Msg> {
    match p {
        Platform::Linux => vec![Msg::DrawLinuxName, Msg::DrawLinuxIcon, Msg::DrawLinuxMethod, Msg::DrawLinuxDefault, Msg::DrawLinuxCompress],
        Platform::Wine => vec![Msg::DrawWineName, Msg::DrawWineIcon, Msg::DrawWineConfigure, Msg::DrawWineRom, Msg::DrawWineCompress],
        Platform::Retroarch => vec![
            Msg::DrawRetroarchName,
            Msg::DrawRetroarchIcon,
            Msg::DrawRetroarchRom,
            Msg::DrawRetroarchCore,
            Msg::DrawRetroarchBios,
            Msg::DrawRetroarchTest,
            Msg::DrawRetroarchCompress,
        ],
        Platform::Pcsx2 => vec![Msg::DrawPcsx2Name, Msg::DrawPcsx2Icon, Msg::DrawPcsx2Rom, Msg::DrawPcsx2Bios, Msg::DrawPcsx2Test, Msg::DrawPcsx2Compress],
        Platform::Rcps3 => vec![Msg::DrawRpcs3Name, Msg::DrawRpcs3Icon, Msg::DrawRpcs3Rom, Msg::DrawRpcs3Bios, Msg::DrawRpcs3Test, Msg::DrawRpcs3Compress],
    }
}

#[test]
fn every_wizard_is_a_chain_back_to_the_creator() {
    for p in [Platform::Linux, Platform::Wine, Platform::Retroarch, Platform::Pcsx2, Platform::Rcps3] {
        let s = steps(p);
        assert_eq!(s[0], wizard::common::platform_msg(p));
        for i in 0..s.len() - 1 {
            assert_eq!(flow::next(s[i]), Some(s[i + 1]));
            assert_eq!(flow::previous(s[i + 1]), Some(s[i]));
        }
        assert_eq!(flow::next(*s.last().unwrap()), Some(Msg::DrawCreator));
    }
}

#[test]
fn common_frames_navigation() {
    assert_eq!(flow::next(Msg::DrawWelcome), Some(Msg::DrawCreator));
    assert_eq!(flow::previous(Msg::DrawWelcome), None);
    assert_eq!(flow::previous(Msg::DrawCreator), Some(Msg::DrawWelcome));
    assert_eq!(flow::next(Msg::DrawCreator), Some(Msg::DrawDesktop));
    assert_eq!(flow::next(Msg::DrawDesktop), Some(Msg::DrawFinish));
    assert_eq!(flow::next(Msg::DrawFinish), Some(Msg::DrawWelcome));
    assert_eq!(flow::previous(Msg::DrawPlatform), Some(Msg::DrawCreator));
    assert_eq!(flow::next(Msg::DrawPlatform), None);
    assert_eq!(flow::previous(Msg::DrawLinuxName), Some(Msg::DrawPlatform));
    assert_eq!(flow::previous(Msg::DrawWineName), Some(Msg::DrawCreator));
    assert_eq!(flow::previous(Msg::DrawLinuxRom), Some(Msg::DrawLinuxMethod));
    assert_eq!(flow::next(Msg::DrawLinuxRom), None);
}

#[test]
fn titles_and_loop_actions() {
    assert_eq!(flow::title(Msg::DrawWelcome), Some("Welcome to GameImage"));
    assert_eq!(flow::title(Msg::DrawRpcs3Rom), Some("Install the Rom Directory(ies)"));
    assert_eq!(flow::title(Msg::DrawLinuxDefault), Some("Select the Main Binary"));
    assert_eq!(flow::title(Msg::WindUpdate), None);
    assert!(matches!(flow::route(Msg::WindUpdate), LoopAction::Flush));
    assert!(matches!(flow::route(Msg::WindActivate), LoopAction::Activate));
    assert!(matches!(flow::route(Msg::WindDeactivate), LoopAction::Deactivate));
    assert!(matches!(flow::route(Msg::Quit), LoopAction::Quit));
    assert!(matches!(flow::route(Msg::DrawFinish), LoopAction::Draw(Msg::DrawFinish)));
}

fn all_msgs() -> Vec<Msg> {
    vec![
        Msg::DrawWelcome,
        Msg::DrawPlatform,
        Msg::DrawCreator,
        Msg::DrawDesktop,
        Msg::DrawLinuxName,
        Msg::DrawLinuxIcon,
        Msg::DrawLinuxMethod,
        Msg::DrawLinuxRom,
        Msg::DrawLinuxDefault,
        Msg::DrawLinuxCompress,
        Msg::DrawWineName,
        Msg::DrawWineIcon,
        Msg::DrawWineConfigure,
        Msg::DrawWineTricks,
        Msg::DrawWineEnvironment,
        Msg::DrawWineRom,
        Msg::DrawWineCompress,
        Msg::DrawRetroarchName,
        Msg::DrawRetroarchIcon,
        Msg::DrawRetroarchRom,
        Msg::DrawRetroarchCore,
        Msg::DrawRetroarchBios,
        Msg::DrawRetroarchTest,
        Msg::DrawRetroarchCompress,
        Msg::DrawPcsx2Name,
        Msg::DrawPcsx2Icon,
        Msg::DrawPcsx2Rom,
        Msg::DrawPcsx2Bios,
        Msg::DrawPcsx2Test,
        Msg::DrawPcsx2Compress,
        Msg::DrawRpcs3Name,
        Msg::DrawRpcs3Icon,
        Msg::DrawRpcs3Rom,
        Msg::DrawRpcs3Bios,
        Msg::DrawRpcs3Test,
        Msg::DrawRpcs3Compress,
        Msg::DrawFinish,
        Msg::WindActivate,
        Msg::WindDeactivate,
        Msg::WindUpdate,
        Msg::Quit,
    ]
}

#[test]
fn back_after_next_returns_inside_a_sequence() {
    for m in all_msgs() {
        if let Some(n) = flow::next(m) {
            if n != Msg::DrawCreator && n != Msg::DrawFinish && n != Msg::DrawWelcome {
                assert_eq!(flow::previous(n), Some(m));
            }
        }
    }
    // Where the next button leaves a sequence, going back does not return
    assert_eq!(flow::previous(flow::next(Msg::DrawDesktop).unwrap()), None);
}

#[test]
fn every_drawn_frame_has_a_title() {
    for m in all_msgs() {
        if let LoopAction::Draw(d) = flow::route(m) {
            assert_eq!(d, m);
            assert!(flow::title(m).is_some());
        } else {
            assert!(flow::title(m).is_none());
        }
    }
}
