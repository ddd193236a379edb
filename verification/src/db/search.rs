//! The result of a backend search (`gameimage.search.json` in the build
//! directory).
use vstd::prelude::*;
use crate::error::WizardError;

verus! {

/// Files found by the backend, by kind.
pub struct Entries {
    pub rom: Option<Vec<String>>,
    pub core: Option<Vec<String>>,
    pub bios: Option<Vec<String>>,
    pub keys: Option<Vec<String>>,
}

/// The roms of a search result, as the wine rom frame lists them: the
/// search must have succeeded (exit code 0) and found roms.
pub fn find_roms(code: i32, entries: Entries) -> (r: Result<Vec<String>, WizardError>)
    ensures
        code != 0 ==> r matches Err(WizardError::NoFileFound),
        code == 0 ==> match entries.rom {
            Some(v) => r == Ok::<Vec<String>, WizardError>(v),
            None => r matches Err(WizardError::NoItemsFound),
        },
{
    if code != 0 {
        return Err(WizardError::NoFileFound);
    }
    match entries.rom {
        Some(v) => Ok(v),
        None => Err(WizardError::NoItemsFound),
    }
}

} // verus!
