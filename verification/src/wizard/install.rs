//! Decisions of the frames that install files of a kind (roms, cores,
//! bios, keys): what the add, delete, default and remote buttons ask of
//! the backend, and when they ask nothing.
use vstd::prelude::*;
use crate::error::WizardError;
use crate::gameimage::install;
use crate::gameimage::install::install_view;
use crate::gameimage::request::Request;
use crate::gameimage::request::strings_view;
use crate::gameimage::select;
use crate::gameimage::select::select_view;

verus! {

/// The add button: installs the chosen files as files of kind `label`; an
/// error when no file was chosen.
pub fn add_next(label: &str, chosen: Vec<String>) -> (r: Result<Request, WizardError>)
    ensures
        chosen@.len() == 0 ==> r == Err::<Request, WizardError>(WizardError::NothingSelected),
        chosen@.len() > 0 ==> (r matches Ok(req) && req@ == install_view("install"@, label@, strings_view(chosen@))),
{
    if chosen.len() == 0 {
        return Err(WizardError::NothingSelected);
    }
    Ok(install::install(label, chosen))
}

/// The delete button: removes the selected files of kind `label`; an error
/// when none is selected.
pub fn remove_next(label: &str, selected: Vec<String>) -> (r: Result<Request, WizardError>)
    ensures
        selected@.len() == 0 ==> r == Err::<Request, WizardError>(WizardError::NothingSelected),
        selected@.len() > 0 ==> (r matches Ok(req) && req@ == install_view("remove"@, label@, strings_view(selected@))),
{
    if selected.len() == 0 {
        return Err(WizardError::NothingSelected);
    }
    Ok(install::remove(label, selected))
}

/// The default button: makes the one selected file the default of kind
/// `label`; an error when none, or more than one, is selected.
pub fn default_next(label: &str, selected: &Vec<String>) -> (r: Result<Request, WizardError>)
    ensures
        selected@.len() == 0 ==> r == Err::<Request, WizardError>(WizardError::NothingSelected),
        selected@.len() > 1 ==> r == Err::<Request, WizardError>(WizardError::MultipleSelected),
        selected@.len() == 1 ==> (r matches Ok(req) && req@ == select_view(label@, selected@[0]@)),
{
    if selected.len() == 0 {
        return Err(WizardError::NothingSelected);
    }
    if selected.len() != 1 {
        return Err(WizardError::MultipleSelected);
    }
    Ok(select::select(label, selected[0].as_str()))
}

/// The remote button: installs the selected files of kind `label` from the
/// remote repositories.
pub fn remote_next(label: &str, selected: Vec<String>) -> (r: Request)
    ensures
        r@ == install_view("remote"@, label@, strings_view(selected@)),
{
    install::remote(label, selected)
}

/// The linux install frame: runs the chosen script as a rom installer.
pub fn rom_script_next(choice: &str) -> (r: Request)
    ensures
        r@ == install_view("install"@, "rom"@, seq![choice@]),
{
    let args = vec![String::from_str(choice)];
    assert(strings_view(args@) =~= seq![choice@]);
    install::install("rom", args)
}

} // verus!
