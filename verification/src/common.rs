//! Platforms, the messages that drive the wizard and the processing of
//! the output a backend process writes.
use vstd::prelude::*;
use crate::text;
use crate::text::trimmed;
use crate::text::utf8_lossy;
use vstd::utf8::valid_utf8;
use vstd::utf8::decode_utf8;

verus! {

/// The platforms a project can target.
#[derive(Debug, Clone, Copy, PartialEq, Eq, Structural, Hash)]
pub enum Platform {
    Linux,
    Wine,
    Retroarch,
    Pcsx2,
    Rcps3,
}

/// The name of a platform as the backend knows it.
pub open spec fn platform_name(p: Platform) -> Seq<char> {
    match p {
        Platform::Linux => "linux"@,
        Platform::Wine => "wine"@,
        Platform::Retroarch => "retroarch"@,
        Platform::Pcsx2 => "pcsx2"@,
        Platform::Rcps3 => "rpcs3"@,
    }
}

/// The platform with the given backend name, if any.
pub open spec fn platform_named(s: Seq<char>) -> Option<Platform> {
    if s == "linux"@ {
        Some(Platform::Linux)
    } else if s == "wine"@ {
        Some(Platform::Wine)
    } else if s == "retroarch"@ {
        Some(Platform::Retroarch)
    } else if s == "pcsx2"@ {
        Some(Platform::Pcsx2)
    } else if s == "rpcs3"@ {
        Some(Platform::Rcps3)
    } else {
        None
    }
}

impl Platform {
    /// The backend name of the platform.
    pub fn as_str(&self) -> (r: &'static str)
        ensures
            r@ == platform_name(*self),
    {
        match self {
            Platform::Linux => "linux",
            Platform::Wine => "wine",
            Platform::Retroarch => "retroarch",
            Platform::Pcsx2 => "pcsx2",
            Platform::Rcps3 => "rpcs3",
        }
    }

    /// The platform with the given backend name; `None` for any other text.
    pub fn from_str(src: &str) -> (r: Option<Platform>)
        ensures
            r == platform_named(src@),
    {
        if text::str_equal(src, "linux") {
            Some(Platform::Linux)
        } else if text::str_equal(src, "wine") {
            Some(Platform::Wine)
        } else if text::str_equal(src, "retroarch") {
            Some(Platform::Retroarch)
        } else if text::str_equal(src, "pcsx2") {
            Some(Platform::Pcsx2)
        } else if text::str_equal(src, "rpcs3") {
            Some(Platform::Rcps3)
        } else {
            None
        }
    }
}

/// The names of the platforms are pairwise distinct.
pub proof fn lemma_platform_names_distinct()
    ensures
        "linux"@ != "wine"@,
        "linux"@ != "retroarch"@,
        "linux"@ != "pcsx2"@,
        "linux"@ != "rpcs3"@,
        "wine"@ != "retroarch"@,
        "wine"@ != "pcsx2"@,
        "wine"@ != "rpcs3"@,
        "retroarch"@ != "pcsx2"@,
        "retroarch"@ != "rpcs3"@,
        "pcsx2"@ != "rpcs3"@,
{
    reveal_strlit("linux");
    reveal_strlit("wine");
    reveal_strlit("retroarch");
    reveal_strlit("pcsx2");
    reveal_strlit("rpcs3");
    assert("linux"@[0] != "wine"@[0]);
    assert("linux"@[0] != "retroarch"@[0]);
    assert("linux"@[0] != "pcsx2"@[0]);
    assert("linux"@[0] != "rpcs3"@[0]);
    assert("wine"@[0] != "retroarch"@[0]);
    assert("wine"@[0] != "pcsx2"@[0]);
    assert("wine"@[0] != "rpcs3"@[0]);
    assert("retroarch"@[0] != "pcsx2"@[0]);
    assert("retroarch"@[1] != "rpcs3"@[1]);
    assert("pcsx2"@[1] != "rpcs3"@[1]);
}

/// Reading back the name of a platform gives the platform.
pub proof fn law_platform_name_round_trip(p: Platform)
    ensures
        platform_named(platform_name(p)) == Some(p),
{
    lemma_platform_names_distinct();
}

/// A text that names a platform is that platform's name.
pub proof fn law_platform_named_round_trip(s: Seq<char>)
    requires
        platform_named(s) is Some,
    ensures
        platform_name(platform_named(s)->0) == s,
{
}

/// The messages exchanged between the frames and the main loop.
#[derive(Debug, Clone, Copy, PartialEq, Eq, Structural)]
pub enum Msg {
    DrawWelcome,
    DrawPlatform,
    DrawCreator,
    DrawDesktop,
    DrawLinuxName,
    DrawLinuxIcon,
    DrawLinuxMethod,
    DrawLinuxRom,
    DrawLinuxDefault,
    DrawLinuxCompress,
    DrawWineName,
    DrawWineIcon,
    DrawWineConfigure,
    DrawWineTricks,
    DrawWineEnvironment,
    DrawWineRom,
    DrawWineCompress,
    DrawRetroarchName,
    DrawRetroarchIcon,
    DrawRetroarchRom,
    DrawRetroarchCore,
    DrawRetroarchBios,
    DrawRetroarchTest,
    DrawRetroarchCompress,
    DrawPcsx2Name,
    DrawPcsx2Icon,
    DrawPcsx2Rom,
    DrawPcsx2Bios,
    DrawPcsx2Test,
    DrawPcsx2Compress,
    DrawRpcs3Name,
    DrawRpcs3Icon,
    DrawRpcs3Rom,
    DrawRpcs3Bios,
    DrawRpcs3Test,
    DrawRpcs3Compress,
    DrawFinish,
    WindActivate,
    WindDeactivate,
    WindUpdate,
    Quit,
}

/// The first wizard step of each platform.
pub open spec fn platform_first_step(p: Platform) -> Msg {
    match p {
        Platform::Wine => Msg::DrawWineName,
        Platform::Linux => Msg::DrawLinuxName,
        Platform::Retroarch => Msg::DrawRetroarchName,
        Platform::Pcsx2 => Msg::DrawPcsx2Name,
        Platform::Rcps3 => Msg::DrawRpcs3Name,
    }
}

/// The message that starts the wizard of a platform.
pub fn platform_msg(p: Platform) -> (r: Msg)
    ensures
        r == platform_first_step(p),
{
    match p {
        Platform::Wine => Msg::DrawWineName,
        Platform::Linux => Msg::DrawLinuxName,
        Platform::Retroarch => Msg::DrawRetroarchName,
        Platform::Pcsx2 => Msg::DrawPcsx2Name,
        Platform::Rcps3 => Msg::DrawRpcs3Name,
    }
}

/// The description shown next to a platform in the platform list.
pub open spec fn platform_description_text(p: Platform) -> Seq<char> {
    match p {
        Platform::Linux => " Linux - Play linux native games (required)"@,
        Platform::Wine => " Wine - Play windows games"@,
        Platform::Pcsx2 => " Pcsx2 - Play playstation 2 games"@,
        Platform::Rcps3 => " Rcps3 - Play playstation 3 games"@,
        Platform::Retroarch => " Retroarch - Play games from retro consoles"@,
    }
}

/// The description shown next to a platform in the platform list.
pub fn platform_description(p: Platform) -> (r: &'static str)
    ensures
        r@ == platform_description_text(p),
{
    match p {
        Platform::Linux => " Linux - Play linux native games (required)",
        Platform::Wine => " Wine - Play windows games",
        Platform::Pcsx2 => " Pcsx2 - Play playstation 2 games",
        Platform::Rcps3 => " Rcps3 - Play playstation 3 games",
        Platform::Retroarch => " Retroarch - Play games from retro consoles",
    }
}

/// The line logged for a chunk read from a process: `None` ends the
/// reading (a failed read, or end of stream); otherwise the chunk decoded
/// leniently as UTF-8 and trimmed.
pub open spec fn log_line(chunk: Option<&[u8]>) -> Option<Seq<char>> {
    match chunk {
        None => None,
        Some(bytes) => if bytes@.len() == 0 {
            None
        } else {
            Some(trimmed(utf8_lossy(bytes@)))
        },
    }
}

/// One step of the loop that forwards a process' output: given the outcome
/// of a read (`None` when the read failed, else the bytes read), decides
/// whether reading stops (`None`) or which line is passed on.
pub fn log_fd(chunk: Option<&[u8]>) -> (r: Option<String>)
    ensures
        r matches Some(s) ==> log_line(chunk) == Some(s@),
        r is None ==> log_line(chunk) is None,
        match chunk {
            Some(b) => b@.len() > 0 && valid_utf8(b@) ==> (r matches Some(s) && s@ == trimmed(decode_utf8(b@))),
            None => true,
        },
{
    match chunk {
        None => None,
        Some(bytes) => {
            if bytes.len() == 0 {
                None
            } else {
                let decoded = text::from_utf8_lossy(bytes);
                Some(text::trim(decoded.as_str()))
            }
        },
    }
}

/// The platform a list description belongs to, if any.
pub open spec fn platform_described(d: Seq<char>) -> Option<Platform> {
    if d == platform_description_text(Platform::Linux) {
        Some(Platform::Linux)
    } else if d == platform_description_text(Platform::Wine) {
        Some(Platform::Wine)
    } else if d == platform_description_text(Platform::Pcsx2) {
        Some(Platform::Pcsx2)
    } else if d == platform_description_text(Platform::Rcps3) {
        Some(Platform::Rcps3)
    } else if d == platform_description_text(Platform::Retroarch) {
        Some(Platform::Retroarch)
    } else {
        None
    }
}

/// The platform a list description belongs to.
pub fn platform_of_description(d: &str) -> (r: Option<Platform>)
    ensures
        r == platform_described(d@),
{
    if text::str_equal(d, platform_description(Platform::Linux)) {
        Some(Platform::Linux)
    } else if text::str_equal(d, platform_description(Platform::Wine)) {
        Some(Platform::Wine)
    } else if text::str_equal(d, platform_description(Platform::Pcsx2)) {
        Some(Platform::Pcsx2)
    } else if text::str_equal(d, platform_description(Platform::Rcps3)) {
        Some(Platform::Rcps3)
    } else if text::str_equal(d, platform_description(Platform::Retroarch)) {
        Some(Platform::Retroarch)
    } else {
        None
    }
}

/// Each platform's description leads back to the platform: no two
/// platforms share a description.
pub proof fn law_description_round_trip(p: Platform)
    ensures
        platform_described(platform_description_text(p)) == Some(p),
{
    reveal_strlit(" Linux - Play linux native games (required)");
    reveal_strlit(" Wine - Play windows games");
    reveal_strlit(" Pcsx2 - Play playstation 2 games");
    reveal_strlit(" Rcps3 - Play playstation 3 games");
    reveal_strlit(" Retroarch - Play games from retro consoles");
    let l = platform_description_text(Platform::Linux);
    let w = platform_description_text(Platform::Wine);
    let x = platform_description_text(Platform::Pcsx2);
    let c = platform_description_text(Platform::Rcps3);
    let r = platform_description_text(Platform::Retroarch);
    assert(l[1] != w[1] && l[1] != x[1] && l[1] != c[1] && l[1] != r[1]);
    assert(w[1] != x[1] && w[1] != c[1] && w[1] != r[1]);
    assert(x[1] != c[1] && x[1] != r[1]);
    assert(c[2] != r[2]);
}

/// A line written to the log: the message, ended by a line break when it
/// has none.
pub open spec fn log_entry_text(value: Seq<char>) -> Seq<char> {
    if "\n"@.is_suffix_of(value) {
        value
    } else {
        value + "\n"@
    }
}

/// The line the logger appends to the log window for a message.
pub fn log_entry(value: &str) -> (r: String)
    ensures
        r@ == log_entry_text(value@),
{
    if text::ends_with(value, "\n") {
        String::from_str(value)
    } else {
        text::concat(value, "\n")
    }
}

/// Every logged line ends with a line break, and a line that already ends
/// with one is logged as it is.
pub proof fn law_log_entry_ends_line(value: Seq<char>)
    ensures
        "\n"@.is_suffix_of(log_entry_text(value)),
        log_entry_text(log_entry_text(value)) == log_entry_text(value),
{
    reveal_strlit("\n");
    let t = log_entry_text(value);
    if !"\n"@.is_suffix_of(value) {
        assert(t.skip(t.len() - 1) =~= "\n"@);
    }
}

} // verus!
