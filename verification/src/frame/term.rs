//! Decisions of the terminal widget and of the window layout around it:
//! how a command line is split into the program and its arguments, and
//! which tab the terminal button shows.
use vstd::prelude::*;
use crate::error::WizardError;
use crate::gameimage::request::strings_view;

verus! {

/// The program of a command line and its arguments; an error for an empty
/// command line.
pub fn split_command(args: &Vec<String>) -> (r: Result<(String, Vec<String>), WizardError>)
    ensures
        args@.len() == 0 ==> r == Err::<(String, Vec<String>), WizardError>(WizardError::NoCommand),
        args@.len() > 0 ==> (r matches Ok(p) && p.0@ == args@[0]@ && strings_view(p.1@) == strings_view(args@).drop_first()),
{
    let n = args.len();
    if n == 0 {
        return Err(WizardError::NoCommand);
    }
    let program = args[0].clone();
    let mut rest: Vec<String> = Vec::new();
    let mut i: usize = 1;
    while i < n
        invariant
            n == args@.len(),
            1 <= i <= n,
            strings_view(rest@) == strings_view(args@).subrange(1, i as int),
        decreases n - i,
    {
        let a = args[i].clone();
        assert(a@ == args@[i as int]@);
        let ghost before = rest@;
        rest.push(a);
        assert(rest@ == before.push(a));
        assert(strings_view(rest@) =~= strings_view(before).push(a@));
        assert(strings_view(rest@) =~= strings_view(args@).subrange(1, i + 1));
        i = i + 1;
    }
    assert(strings_view(args@).subrange(1, n as int) =~= strings_view(args@).drop_first());
    Ok((program, rest))
}

/// The environment variables a command is run with: the preload variable
/// is removed and the fifo mode is turned off.
pub fn command_env() -> (r: (String, (String, String)))
    ensures
        r.0@ == "LD_PRELOAD"@,
        r.1.0@ == "FIM_FIFO"@,
        r.1.1@ == "0"@,
{
    (String::from_str("LD_PRELOAD"), (String::from_str("FIM_FIFO"), String::from_str("0")))
}

/// The tabs of the wizard window.
#[derive(Debug, Clone, Copy, PartialEq, Eq, Structural)]
pub enum Tab {
    /// The frame content with its footer.
    Content,
    /// The log terminal.
    Log,
}

/// The tab the terminal button switches to: the log from the content, the
/// content from the log.
pub fn toggle_tab(current: Tab) -> (r: Tab)
    ensures
        r == toggle_tab_spec(current),
{
    match current {
        Tab::Content => Tab::Log,
        Tab::Log => Tab::Content,
    }
}

/// Pressing the terminal button twice shows the tab shown before.
pub proof fn law_toggle_twice(t: Tab)
    ensures
        toggle_tab_spec(toggle_tab_spec(t)) == t,
{
}

/// The tab the terminal button switches to.
pub open spec fn toggle_tab_spec(t: Tab) -> Tab {
    match t {
        Tab::Content => Tab::Log,
        Tab::Log => Tab::Content,
    }
}

} // verus!
