//! Running the backend: its command line and what its exit code means.
use vstd::prelude::*;
use crate::error::WizardError;
use crate::gameimage::request::Request;
use crate::gameimage::request::request_text;
use crate::gameimage::request::in_key_order;

verus! {

/// How a backend run ended, as the caller sees it.
pub enum BackendRun {
    /// The backend could not be started.
    NotStarted,
    /// The backend was started; the exit code, if it could be received.
    Finished(Option<i32>),
}

/// The exit code of a finished process: its code, or 1 when it has none
/// (killed by a signal) or could not be waited for.
pub fn exit_code(code: Option<i32>) -> (r: i32)
    ensures
        r == match code {
            Some(c) => c,
            None => 1,
        },
{
    match code {
        Some(c) => c,
        None => 1,
    }
}

/// The exit code a synchronous run reports: the backend's code, or 1 when it
/// could not be started or its code not received.
pub fn gameimage_sync(run: BackendRun) -> (r: i32)
    ensures
        r == match run {
            BackendRun::NotStarted => 1,
            BackendRun::Finished(Some(c)) => c,
            BackendRun::Finished(None) => 1,
        },
{
    match run {
        BackendRun::NotStarted => 1,
        BackendRun::Finished(Some(c)) => c,
        BackendRun::Finished(None) => 1,
    }
}

/// The arguments the backend is run with for a request: the request's
/// JSON text.
pub fn request_args(req: &Request) -> (r: Vec<String>)
    requires
        in_key_order(req@),
    ensures
        r@.len() == 1,
        r@[0]@ == request_text(req@),
{
    vec![req.encode()]
}

/// A backend call succeeded iff it exited with 0.
pub fn check(code: i32) -> (r: Result<(), WizardError>)
    ensures
        code == 0 ==> r is Ok,
        code != 0 ==> r == Err::<(), WizardError>(WizardError::BackendFailed { code }),
{
    if code == 0 {
        Ok(())
    } else {
        Err(WizardError::BackendFailed { code })
    }
}

} // verus!
