use vstd::prelude::*;

verus! {

/// Errors reported by the wizard library.
#[derive(Debug, Clone, PartialEq, Eq)]
pub enum WizardError {
    /// A project name was looked up and is not in the projects list.
    ProjectNotFound { name: String },
    /// The current project of the global database is not in its projects list.
    CurrentProjectNotFound,
    /// A variable key does not match `^[_[:alpha:]][_[:alnum:]]*$`.
    InvalidKey,
    /// The pattern used to validate keys could not be compiled.
    InvalidPattern,
    /// The project database holds no path for the requested entry.
    MissingPath,
    /// The backend exited with a non-zero code.
    BackendFailed { code: i32 },
    /// The backend could not be started or its exit code not retrieved.
    BackendUnavailable,
    /// A search database holds no item of the requested kind.
    NoItemsFound,
    /// Bytes received from the backend are not valid UTF-8.
    InvalidUtf8,
    /// Receiving a message from the queue failed.
    ReceiveFailed,
    /// The downloaded file does not match the expected SHA-256 digest.
    ShaMismatch { expected: String, got: String },
    /// A download part was answered with a status other than 200.
    ConnectionError { status: u16 },
    /// The backend release does not match the version the wizard supports.
    VersionMismatch { version: String },
    /// No application name was given.
    EmptyName,
    /// No icon was selected.
    NoIconSelected,
    /// The chosen icon is not a regular file.
    InvalidIconFile,
    /// No item was selected.
    NothingSelected,
    /// More than one item was selected where exactly one is expected.
    MultipleSelected,
    /// No project exists to be included.
    NoProjects,
    /// No platform was chosen.
    NoPlatform,
    /// No file could be found.
    NoFileFound,
    /// The wine prefix of the project does not exist.
    WinePrefixMissing,
    /// No build directory was chosen.
    InvalidBuildDir,
    /// A path has no file name.
    MissingFileName,
    /// The image or the build directory is not known.
    MissingImage,
    /// No destination path can be formed for the image.
    NoDestination,
    /// The download destination has no parent directory.
    NoParentDir,
    /// No address was given for a download.
    InvalidUrl,
    /// The downloader returned no summary for a transfer.
    DownloadFailure,
    /// A command line without a program was given to run.
    NoCommand,
}

} // verus!
