//! How the wizard moves between its frames: the frame each previous and
//! next button leads to, the title each frame is drawn with, and what the
//! main loop does with each message.
use vstd::prelude::*;
use crate::common::Msg;
use crate::common::Platform;
use crate::common::platform_first_step;

verus! {

/// The frame the previous button of a frame leads to; `None` where the
/// frame has no previous button.
pub open spec fn prev_step(m: Msg) -> Option<Msg> {
    match m {
        Msg::DrawCreator => Some(Msg::DrawWelcome),
        Msg::DrawPlatform => Some(Msg::DrawCreator),
        Msg::DrawDesktop => Some(Msg::DrawCreator),
        Msg::DrawLinuxName => Some(Msg::DrawPlatform),
        Msg::DrawLinuxIcon => Some(Msg::DrawLinuxName),
        Msg::DrawLinuxMethod => Some(Msg::DrawLinuxIcon),
        Msg::DrawLinuxRom => Some(Msg::DrawLinuxMethod),
        Msg::DrawLinuxDefault => Some(Msg::DrawLinuxMethod),
        Msg::DrawLinuxCompress => Some(Msg::DrawLinuxDefault),
        Msg::DrawWineName => Some(Msg::DrawCreator),
        Msg::DrawWineIcon => Some(Msg::DrawWineName),
        Msg::DrawWineConfigure => Some(Msg::DrawWineIcon),
        Msg::DrawWineRom => Some(Msg::DrawWineConfigure),
        Msg::DrawWineCompress => Some(Msg::DrawWineRom),
        Msg::DrawRetroarchName => Some(Msg::DrawPlatform),
        Msg::DrawRetroarchIcon => Some(Msg::DrawRetroarchName),
        Msg::DrawRetroarchRom => Some(Msg::DrawRetroarchIcon),
        Msg::DrawRetroarchCore => Some(Msg::DrawRetroarchRom),
        Msg::DrawRetroarchBios => Some(Msg::DrawRetroarchCore),
        Msg::DrawRetroarchTest => Some(Msg::DrawRetroarchBios),
        Msg::DrawRetroarchCompress => Some(Msg::DrawRetroarchTest),
        Msg::DrawPcsx2Name => Some(Msg::DrawCreator),
        Msg::DrawPcsx2Icon => Some(Msg::DrawPcsx2Name),
        Msg::DrawPcsx2Rom => Some(Msg::DrawPcsx2Icon),
        Msg::DrawPcsx2Bios => Some(Msg::DrawPcsx2Rom),
        Msg::DrawPcsx2Test => Some(Msg::DrawPcsx2Bios),
        Msg::DrawPcsx2Compress => Some(Msg::DrawPcsx2Test),
        Msg::DrawRpcs3Name => Some(Msg::DrawPlatform),
        Msg::DrawRpcs3Icon => Some(Msg::DrawRpcs3Name),
        Msg::DrawRpcs3Rom => Some(Msg::DrawRpcs3Icon),
        Msg::DrawRpcs3Bios => Some(Msg::DrawRpcs3Rom),
        Msg::DrawRpcs3Test => Some(Msg::DrawRpcs3Bios),
        Msg::DrawRpcs3Compress => Some(Msg::DrawRpcs3Test),
        _ => None,
    }
}

/// The frame the next button of a frame leads to once its checks pass;
/// `None` where the frame has no next button (the platform frame, whose
/// rows start the wizards, and the linux install frame).
pub open spec fn next_step(m: Msg) -> Option<Msg> {
    match m {
        Msg::DrawWelcome => Some(Msg::DrawCreator),
        Msg::DrawCreator => Some(Msg::DrawDesktop),
        Msg::DrawDesktop => Some(Msg::DrawFinish),
        Msg::DrawFinish => Some(Msg::DrawWelcome),
        Msg::DrawLinuxName => Some(Msg::DrawLinuxIcon),
        Msg::DrawLinuxIcon => Some(Msg::DrawLinuxMethod),
        Msg::DrawLinuxMethod => Some(Msg::DrawLinuxDefault),
        Msg::DrawLinuxDefault => Some(Msg::DrawLinuxCompress),
        Msg::DrawLinuxCompress => Some(Msg::DrawCreator),
        Msg::DrawWineName => Some(Msg::DrawWineIcon),
        Msg::DrawWineIcon => Some(Msg::DrawWineConfigure),
        Msg::DrawWineConfigure => Some(Msg::DrawWineRom),
        Msg::DrawWineRom => Some(Msg::DrawWineCompress),
        Msg::DrawWineCompress => Some(Msg::DrawCreator),
        Msg::DrawRetroarchName => Some(Msg::DrawRetroarchIcon),
        Msg::DrawRetroarchIcon => Some(Msg::DrawRetroarchRom),
        Msg::DrawRetroarchRom => Some(Msg::DrawRetroarchCore),
        Msg::DrawRetroarchCore => Some(Msg::DrawRetroarchBios),
        Msg::DrawRetroarchBios => Some(Msg::DrawRetroarchTest),
        Msg::DrawRetroarchTest => Some(Msg::DrawRetroarchCompress),
        Msg::DrawRetroarchCompress => Some(Msg::DrawCreator),
        Msg::DrawPcsx2Name => Some(Msg::DrawPcsx2Icon),
        Msg::DrawPcsx2Icon => Some(Msg::DrawPcsx2Rom),
        Msg::DrawPcsx2Rom => Some(Msg::DrawPcsx2Bios),
        Msg::DrawPcsx2Bios => Some(Msg::DrawPcsx2Test),
        Msg::DrawPcsx2Test => Some(Msg::DrawPcsx2Compress),
        Msg::DrawPcsx2Compress => Some(Msg::DrawCreator),
        Msg::DrawRpcs3Name => Some(Msg::DrawRpcs3Icon),
        Msg::DrawRpcs3Icon => Some(Msg::DrawRpcs3Rom),
        Msg::DrawRpcs3Rom => Some(Msg::DrawRpcs3Bios),
        Msg::DrawRpcs3Bios => Some(Msg::DrawRpcs3Test),
        Msg::DrawRpcs3Test => Some(Msg::DrawRpcs3Compress),
        Msg::DrawRpcs3Compress => Some(Msg::DrawCreator),
        _ => None,
    }
}

/// The frame the previous button of a frame leads to.
pub fn previous(m: Msg) -> (r: Option<Msg>)
    ensures
        r == prev_step(m),
{
    match m {
        Msg::DrawCreator => Some(Msg::DrawWelcome),
        Msg::DrawPlatform => Some(Msg::DrawCreator),
        Msg::DrawDesktop => Some(Msg::DrawCreator),
        Msg::DrawLinuxName => Some(Msg::DrawPlatform),
        Msg::DrawLinuxIcon => Some(Msg::DrawLinuxName),
        Msg::DrawLinuxMethod => Some(Msg::DrawLinuxIcon),
        Msg::DrawLinuxRom => Some(Msg::DrawLinuxMethod),
        Msg::DrawLinuxDefault => Some(Msg::DrawLinuxMethod),
        Msg::DrawLinuxCompress => Some(Msg::DrawLinuxDefault),
        Msg::DrawWineName => Some(Msg::DrawCreator),
        Msg::DrawWineIcon => Some(Msg::DrawWineName),
        Msg::DrawWineConfigure => Some(Msg::DrawWineIcon),
        Msg::DrawWineRom => Some(Msg::DrawWineConfigure),
        Msg::DrawWineCompress => Some(Msg::DrawWineRom),
        Msg::DrawRetroarchName => Some(Msg::DrawPlatform),
        Msg::DrawRetroarchIcon => Some(Msg::DrawRetroarchName),
        Msg::DrawRetroarchRom => Some(Msg::DrawRetroarchIcon),
        Msg::DrawRetroarchCore => Some(Msg::DrawRetroarchRom),
        Msg::DrawRetroarchBios => Some(Msg::DrawRetroarchCore),
        Msg::DrawRetroarchTest => Some(Msg::DrawRetroarchBios),
        Msg::DrawRetroarchCompress => Some(Msg::DrawRetroarchTest),
        Msg::DrawPcsx2Name => Some(Msg::DrawCreator),
        Msg::DrawPcsx2Icon => Some(Msg::DrawPcsx2Name),
        Msg::DrawPcsx2Rom => Some(Msg::DrawPcsx2Icon),
        Msg::DrawPcsx2Bios => Some(Msg::DrawPcsx2Rom),
        Msg::DrawPcsx2Test => Some(Msg::DrawPcsx2Bios),
        Msg::DrawPcsx2Compress => Some(Msg::DrawPcsx2Test),
        Msg::DrawRpcs3Name => Some(Msg::DrawPlatform),
        Msg::DrawRpcs3Icon => Some(Msg::DrawRpcs3Name),
        Msg::DrawRpcs3Rom => Some(Msg::DrawRpcs3Icon),
        Msg::DrawRpcs3Bios => Some(Msg::DrawRpcs3Rom),
        Msg::DrawRpcs3Test => Some(Msg::DrawRpcs3Bios),
        Msg::DrawRpcs3Compress => Some(Msg::DrawRpcs3Test),
        _ => None,
    }
}

/// The frame the next button of a frame leads to.
pub fn next(m: Msg) -> (r: Option<Msg>)
    ensures
        r == next_step(m),
{
    match m {
        Msg::DrawWelcome => Some(Msg::DrawCreator),
        Msg::DrawCreator => Some(Msg::DrawDesktop),
        Msg::DrawDesktop => Some(Msg::DrawFinish),
        Msg::DrawFinish => Some(Msg::DrawWelcome),
        Msg::DrawLinuxName => Some(Msg::DrawLinuxIcon),
        Msg::DrawLinuxIcon => Some(Msg::DrawLinuxMethod),
        Msg::DrawLinuxMethod => Some(Msg::DrawLinuxDefault),
        Msg::DrawLinuxDefault => Some(Msg::DrawLinuxCompress),
        Msg::DrawLinuxCompress => Some(Msg::DrawCreator),
        Msg::DrawWineName => Some(Msg::DrawWineIcon),
        Msg::DrawWineIcon => Some(Msg::DrawWineConfigure),
        Msg::DrawWineConfigure => Some(Msg::DrawWineRom),
        Msg::DrawWineRom => Some(Msg::DrawWineCompress),
        Msg::DrawWineCompress => Some(Msg::DrawCreator),
        Msg::DrawRetroarchName => Some(Msg::DrawRetroarchIcon),
        Msg::DrawRetroarchIcon => Some(Msg::DrawRetroarchRom),
        Msg::DrawRetroarchRom => Some(Msg::DrawRetroarchCore),
        Msg::DrawRetroarchCore => Some(Msg::DrawRetroarchBios),
        Msg::DrawRetroarchBios => Some(Msg::DrawRetroarchTest),
        Msg::DrawRetroarchTest => Some(Msg::DrawRetroarchCompress),
        Msg::DrawRetroarchCompress => Some(Msg::DrawCreator),
        Msg::DrawPcsx2Name => Some(Msg::DrawPcsx2Icon),
        Msg::DrawPcsx2Icon => Some(Msg::DrawPcsx2Rom),
        Msg::DrawPcsx2Rom => Some(Msg::DrawPcsx2Bios),
        Msg::DrawPcsx2Bios => Some(Msg::DrawPcsx2Test),
        Msg::DrawPcsx2Test => Some(Msg::DrawPcsx2Compress),
        Msg::DrawPcsx2Compress => Some(Msg::DrawCreator),
        Msg::DrawRpcs3Name => Some(Msg::DrawRpcs3Icon),
        Msg::DrawRpcs3Icon => Some(Msg::DrawRpcs3Rom),
        Msg::DrawRpcs3Rom => Some(Msg::DrawRpcs3Bios),
        Msg::DrawRpcs3Bios => Some(Msg::DrawRpcs3Test),
        Msg::DrawRpcs3Test => Some(Msg::DrawRpcs3Compress),
        Msg::DrawRpcs3Compress => Some(Msg::DrawCreator),
        _ => None,
    }
}

/// The title a frame is drawn with; `None` for the messages that draw no
/// frame.
pub open spec fn frame_title(m: Msg) -> Option<Seq<char>> {
    match m {
        Msg::DrawFinish => Some("Thank You for Using GameImage!"@),
        Msg::DrawWelcome => Some("Welcome to GameImage"@),
        Msg::DrawPlatform => Some("Select a Platform"@),
        Msg::DrawCreator => Some("Create Packages to Include in the Image"@),
        Msg::DrawDesktop => Some("Select the Desktop Icon"@),
        Msg::DrawLinuxName => Some("Select the Application Name"@),
        Msg::DrawLinuxIcon => Some("Select the Application Icon"@),
        Msg::DrawLinuxMethod => Some("Select How to Install the Application"@),
        Msg::DrawLinuxRom => Some("Install the Application"@),
        Msg::DrawLinuxDefault => Some("Select the Main Binary"@),
        Msg::DrawLinuxCompress => Some("Compress the Created Package"@),
        Msg::DrawWineName => Some("Select the Application Name"@),
        Msg::DrawWineIcon => Some("Select the Application Icon"@),
        Msg::DrawWineConfigure => Some("Configure Wine"@),
        Msg::DrawWineTricks => Some("Install Libraries"@),
        Msg::DrawWineEnvironment => Some("Configure the Environment"@),
        Msg::DrawWineRom => Some("Install/Test the Application(s)"@),
        Msg::DrawWineCompress => Some("Compress the Created Package"@),
        Msg::DrawRetroarchName => Some("Select the Application Name"@),
        Msg::DrawRetroarchIcon => Some("Select the Application Icon"@),
        Msg::DrawRetroarchRom => Some("Install the Rom File(s)"@),
        Msg::DrawRetroarchCore => Some("Install the Core File(s)"@),
        Msg::DrawRetroarchBios => Some("Install the Bios File(s)"@),
        Msg::DrawRetroarchTest => Some("Test the Created Package"@),
        Msg::DrawRetroarchCompress => Some("Compress the Created Package"@),
        Msg::DrawPcsx2Name => Some("Select the Application Name"@),
        Msg::DrawPcsx2Icon => Some("Select the Application Icon"@),
        Msg::DrawPcsx2Rom => Some("Install the Rom File(s)"@),
        Msg::DrawPcsx2Bios => Some("Install the Bios File(s)"@),
        Msg::DrawPcsx2Test => Some("Test the Created Package"@),
        Msg::DrawPcsx2Compress => Some("Compress the Created Package"@),
        Msg::DrawRpcs3Name => Some("Select the Application Name"@),
        Msg::DrawRpcs3Icon => Some("Select the Application Icon"@),
        Msg::DrawRpcs3Rom => Some("Install the Rom Directory(ies)"@),
        Msg::DrawRpcs3Bios => Some("Install the Bios and DLC Files"@),
        Msg::DrawRpcs3Test => Some("Test the Created Package"@),
        Msg::DrawRpcs3Compress => Some("Compress the Created Package"@),
        _ => None,
    }
}

/// The title a frame is drawn with.
pub fn title(m: Msg) -> (r: Option<&'static str>)
    ensures
        match r {
            Some(s) => frame_title(m) == Some(s@),
            None => frame_title(m) is None,
        },
{
    match m {
        Msg::DrawFinish => Some("Thank You for Using GameImage!"),
        Msg::DrawWelcome => Some("Welcome to GameImage"),
        Msg::DrawPlatform => Some("Select a Platform"),
        Msg::DrawCreator => Some("Create Packages to Include in the Image"),
        Msg::DrawDesktop => Some("Select the Desktop Icon"),
        Msg::DrawLinuxName => Some("Select the Application Name"),
        Msg::DrawLinuxIcon => Some("Select the Application Icon"),
        Msg::DrawLinuxMethod => Some("Select How to Install the Application"),
        Msg::DrawLinuxRom => Some("Install the Application"),
        Msg::DrawLinuxDefault => Some("Select the Main Binary"),
        Msg::DrawLinuxCompress => Some("Compress the Created Package"),
        Msg::DrawWineName => Some("Select the Application Name"),
        Msg::DrawWineIcon => Some("Select the Application Icon"),
        Msg::DrawWineConfigure => Some("Configure Wine"),
        Msg::DrawWineTricks => Some("Install Libraries"),
        Msg::DrawWineEnvironment => Some("Configure the Environment"),
        Msg::DrawWineRom => Some("Install/Test the Application(s)"),
        Msg::DrawWineCompress => Some("Compress the Created Package"),
        Msg::DrawRetroarchName => Some("Select the Application Name"),
        Msg::DrawRetroarchIcon => Some("Select the Application Icon"),
        Msg::DrawRetroarchRom => Some("Install the Rom File(s)"),
        Msg::DrawRetroarchCore => Some("Install the Core File(s)"),
        Msg::DrawRetroarchBios => Some("Install the Bios File(s)"),
        Msg::DrawRetroarchTest => Some("Test the Created Package"),
        Msg::DrawRetroarchCompress => Some("Compress the Created Package"),
        Msg::DrawPcsx2Name => Some("Select the Application Name"),
        Msg::DrawPcsx2Icon => Some("Select the Application Icon"),
        Msg::DrawPcsx2Rom => Some("Install the Rom File(s)"),
        Msg::DrawPcsx2Bios => Some("Install the Bios File(s)"),
        Msg::DrawPcsx2Test => Some("Test the Created Package"),
        Msg::DrawPcsx2Compress => Some("Compress the Created Package"),
        Msg::DrawRpcs3Name => Some("Select the Application Name"),
        Msg::DrawRpcs3Icon => Some("Select the Application Icon"),
        Msg::DrawRpcs3Rom => Some("Install the Rom Directory(ies)"),
        Msg::DrawRpcs3Bios => Some("Install the Bios and DLC Files"),
        Msg::DrawRpcs3Test => Some("Test the Created Package"),
        Msg::DrawRpcs3Compress => Some("Compress the Created Package"),
        _ => None,
    }
}

/// What the main loop does with a message.
pub enum LoopAction {
    /// Flush pending drawing.
    Flush,
    /// Make the window usable again.
    Activate,
    /// Make the window unusable while work runs.
    Deactivate,
    /// Draw a frame.
    Draw(Msg),
    /// Quit the application.
    Quit,
}

/// What the main loop does with a message: the window messages act on the
/// window, `Quit` quits, every other message draws its frame.
pub open spec fn loop_action(m: Msg) -> LoopAction {
    match m {
        Msg::WindUpdate => LoopAction::Flush,
        Msg::WindActivate => LoopAction::Activate,
        Msg::WindDeactivate => LoopAction::Deactivate,
        Msg::Quit => LoopAction::Quit,
        _ => LoopAction::Draw(m),
    }
}

/// One turn of the main loop: what to do with the received message.
pub fn route(m: Msg) -> (r: LoopAction)
    ensures
        r == loop_action(m),
{
    match m {
        Msg::WindUpdate => LoopAction::Flush,
        Msg::WindActivate => LoopAction::Activate,
        Msg::WindDeactivate => LoopAction::Deactivate,
        Msg::Quit => LoopAction::Quit,
        _ => LoopAction::Draw(m),
    }
}

/// Every message the main loop draws has a frame with a title.
pub proof fn law_drawn_frames_have_titles(m: Msg)
    ensures
        loop_action(m) is Draw ==> frame_title(m) is Some,
{
}

/// The frames of the wizard of a platform, first to last.
pub open spec fn wizard_steps(p: Platform) -> Seq<Msg> {
    match p {
        Platform::Linux => seq![
            Msg::DrawLinuxName,
            Msg::DrawLinuxIcon,
            Msg::DrawLinuxMethod,
            Msg::DrawLinuxDefault,
            Msg::DrawLinuxCompress,
        ],
        Platform::Wine => seq![
            Msg::DrawWineName,
            Msg::DrawWineIcon,
            Msg::DrawWineConfigure,
            Msg::DrawWineRom,
            Msg::DrawWineCompress,
        ],
        Platform::Retroarch => seq![
            Msg::DrawRetroarchName,
            Msg::DrawRetroarchIcon,
            Msg::DrawRetroarchRom,
            Msg::DrawRetroarchCore,
            Msg::DrawRetroarchBios,
            Msg::DrawRetroarchTest,
            Msg::DrawRetroarchCompress,
        ],
        Platform::Pcsx2 => seq![
            Msg::DrawPcsx2Name,
            Msg::DrawPcsx2Icon,
            Msg::DrawPcsx2Rom,
            Msg::DrawPcsx2Bios,
            Msg::DrawPcsx2Test,
            Msg::DrawPcsx2Compress,
        ],
        Platform::Rcps3 => seq![
            Msg::DrawRpcs3Name,
            Msg::DrawRpcs3Icon,
            Msg::DrawRpcs3Rom,
            Msg::DrawRpcs3Bios,
            Msg::DrawRpcs3Test,
            Msg::DrawRpcs3Compress,
        ],
    }
}

/// The wizard of a platform starts at the frame its platform row opens and
/// its last frame leads back to the creator frame.
pub proof fn law_wizard_bounds(p: Platform)
    ensures
        wizard_steps(p).len() >= 2,
        wizard_steps(p)[0] == platform_first_step(p),
        next_step(wizard_steps(p).last()) == Some(Msg::DrawCreator),
{
}

/// Inside the wizard of a platform, the next button of each frame leads to
/// the following frame, and its previous button leads back.
pub proof fn law_wizard_chain(p: Platform, i: int)
    requires
        0 <= i < wizard_steps(p).len() - 1,
    ensures
        next_step(wizard_steps(p)[i]) == Some(wizard_steps(p)[i + 1]),
        prev_step(wizard_steps(p)[i + 1]) == Some(wizard_steps(p)[i]),
{
    let s = wizard_steps(p);
    assert(0 <= i < 6);
    if i == 0 {
    } else if i == 1 {
    } else if i == 2 {
    } else if i == 3 {
    } else if i == 4 {
    } else {
        assert(i == 5);
    }
}

/// Going on and then back returns to the same frame, except where the
/// next button leaves the current sequence of frames: to the creator
/// frame (the end of a wizard), the finish frame, or the welcome frame.
pub proof fn law_back_after_next(m: Msg, n: Msg)
    requires
        next_step(m) == Some(n),
        n != Msg::DrawCreator,
        n != Msg::DrawFinish,
        n != Msg::DrawWelcome,
    ensures
        prev_step(n) == Some(m),
{
}

/// The previous button of the first frame of a platform's wizard leads
/// back to where the wizard was started: the platform list for the linux,
/// retroarch and rpcs3 wizards, the creator frame for the wine and pcsx2
/// ones.
pub proof fn law_wizard_start_back(p: Platform)
    ensures
        (p == Platform::Linux || p == Platform::Retroarch || p == Platform::Rcps3) ==> prev_step(platform_first_step(p))
            == Some(Msg::DrawPlatform),
        (p == Platform::Wine || p == Platform::Pcsx2) ==> prev_step(platform_first_step(p)) == Some(Msg::DrawCreator),
{
}

} // verus!
