//! Decisions of the welcome frame: where the build directory is, what is
//! asked of the backend before the wizard starts, and what follows.
use vstd::prelude::*;
use crate::common::Msg;
use crate::error::WizardError;
use crate::gameimage::fetch;
use crate::gameimage::fetch::fetch_op_view;
use crate::gameimage::init;
use crate::gameimage::init::build_view;
use crate::gameimage::request::Request;
use crate::path;
use crate::path::path_joined;

verus! {

/// The build directory for a chosen directory: its `build` subdirectory.
pub fn build_dir_of(selected: &str) -> (r: String)
    ensures
        r@ == path_joined(selected@, "build"@),
{
    path::join(selected, "build")
}

/// What the next button asks of the backend, in order: to initialise the
/// build directory, then to refresh the sources; an error when no build
/// directory was chosen.
pub fn welcome_next(path_dir_build: Option<&str>) -> (r: Result<(Request, Request), WizardError>)
    ensures
        match path_dir_build {
            None => r == Err::<(Request, Request), WizardError>(WizardError::InvalidBuildDir),
            Some(d) => (r matches Ok(p) && p.0@ == build_view(d@) && p.1@ == fetch_op_view("sources"@)),
        },
{
    match path_dir_build {
        None => Err(WizardError::InvalidBuildDir),
        Some(d) => Ok((init::build(d), fetch::sources())),
    }
}

/// The frame after the backend's version was checked: the creator frame
/// when it is supported; otherwise the welcome frame stays, usable again.
pub fn welcome_after_check(check: &Result<(), WizardError>) -> (r: Msg)
    ensures
        check is Ok ==> r == Msg::DrawCreator,
        check is Err ==> r == Msg::WindActivate,
{
    match check {
        Ok(()) => Msg::DrawCreator,
        Err(_) => Msg::WindActivate,
    }
}

} // verus!
