//! Searching the files installed in the project.
use vstd::prelude::*;
use crate::error::WizardError;

verus! {

/// The command line of a search for files of kind `str_type`.
pub open spec fn search_args_view(str_type: Seq<char>, use_remote: bool) -> Seq<Seq<char>> {
    if use_remote {
        seq!["search"@, "--ipc"@, "--remote"@, str_type]
    } else {
        seq!["search"@, "--ipc"@, str_type]
    }
}

/// The command line of a search: `search --ipc [--remote] <kind>`.
pub fn search(str_type: &str, use_remote: bool) -> (r: Vec<String>)
    ensures
        r@.map_values(|s: String| s@) == search_args_view(str_type@, use_remote),
{
    let mut args: Vec<String> = Vec::new();
    args.push(String::from_str("search"));
    args.push(String::from_str("--ipc"));
    if use_remote {
        args.push(String::from_str("--remote"));
    }
    args.push(String::from_str(str_type));
    assert(args@.map_values(|s: String| s@) =~= search_args_view(str_type@, use_remote));
    args
}

/// The command line of a search among the installed files.
pub fn search_local(str_type: &str) -> (r: Vec<String>)
    ensures
        r@.map_values(|s: String| s@) == search_args_view(str_type@, false),
{
    search(str_type, false)
}

/// The command line of a search among the files that can be fetched.
pub fn search_remote(str_type: &str) -> (r: Vec<String>)
    ensures
        r@.map_values(|s: String| s@) == search_args_view(str_type@, true),
{
    search(str_type, true)
}

/// The files found: every message the backend sent, once its exit code was
/// received (whatever it is); an error when it could not be received.
pub fn search_result(msgs: Vec<String>, code: Option<i32>) -> (r: Result<Vec<String>, WizardError>)
    ensures
        code is Some ==> r == Ok::<Vec<String>, WizardError>(msgs),
        code is None ==> r == Err::<Vec<String>, WizardError>(WizardError::BackendUnavailable),
{
    match code {
        Some(_) => Ok(msgs),
        None => Err(WizardError::BackendUnavailable),
    }
}

} // verus!
