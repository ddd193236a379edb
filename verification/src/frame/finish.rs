//! Decisions of the finish frame.
use vstd::prelude::*;
use crate::error::WizardError;
use crate::path;
use crate::path::path_file_name;

verus! {

/// The directory a package creates beside itself when first launched:
/// `.<file name>.config`.
pub open spec fn config_dir_name(file_name: Seq<char>) -> Seq<char> {
    "."@ + file_name + ".config"@
}

/// The name of the directory the package at `path_file_output` keeps its
/// data in; an error when the path has no file name.
pub fn finish_file_location(path_file_output: &str) -> (r: Result<String, WizardError>)
    ensures
        match path_file_name(path_file_output@) {
            Some(n) => (r matches Ok(s) && s@ == config_dir_name(n)),
            None => r == Err::<String, WizardError>(WizardError::MissingFileName),
        },
{
    match path::file_name(path_file_output) {
        Some(n) => {
            let mut s = String::from_str(".");
            s.append(n.as_str());
            s.append(".config");
            Ok(s)
        },
        None => Err(WizardError::MissingFileName),
    }
}

} // verus!
