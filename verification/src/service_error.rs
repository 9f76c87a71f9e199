//! The errors of the manager's services: linking, loading, deploying and the
//! package, shell and editor operations.
use vstd::prelude::*;
use crate::error::IoError;
use crate::text::concat_str;

verus! {

/// An error of the manager's services.
#[derive(Debug, Clone)]
pub enum AppError {
    /// Shown as "IO error: ...".
    Io(IoError),
    /// Shown as "TOML parse error: ...".
    TomlParse(String),
    /// Shown as "Shell execution error: ...".
    ShellExecution(String),
    /// Shown as "Unsupported OS: ...".
    UnsupportedOS(String),
    /// Shown as "Logger error: ...".
    Logger(String),
    /// Shown as "File not found: ...".
    FileNotFound(String),
    /// Shown as "Invalid file name: ...".
    InvalidFilename(String),
    /// Shown as "Directory not found".
    DirectoryNotFound,
    /// Shown as "Deployment error: ...".
    Deployment(String),
    /// Shown as "Symlink error: ...".
    Symlink(String),
    /// Shown as "Code command not installed".
    CodeCommandNotInstalled,
}

impl AppError {
    /// The text the error is shown with.
    pub open spec fn spec_message(self) -> Seq<char> {
        match self {
            AppError::Io(e) => "IO error: "@ + e.message@,
            AppError::TomlParse(e) => "TOML parse error: "@ + e@,
            AppError::ShellExecution(e) => "Shell execution error: "@ + e@,
            AppError::UnsupportedOS(e) => "Unsupported OS: "@ + e@,
            AppError::Logger(e) => "Logger error: "@ + e@,
            AppError::FileNotFound(e) => "File not found: "@ + e@,
            AppError::InvalidFilename(e) => "Invalid file name: "@ + e@,
            AppError::DirectoryNotFound => "Directory not found"@,
            AppError::Deployment(e) => "Deployment error: "@ + e@,
            AppError::Symlink(e) => "Symlink error: "@ + e@,
            AppError::CodeCommandNotInstalled => "Code command not installed"@,
        }
    }

    /// The text the error is shown with.
    pub fn message(&self) -> (res: String)
        ensures
            res@ == self.spec_message(),
    {
        match self {
            AppError::Io(e) => concat_str("IO error: ", e.message.as_str()),
            AppError::TomlParse(e) => concat_str("TOML parse error: ", e.as_str()),
            AppError::ShellExecution(e) => concat_str("Shell execution error: ", e.as_str()),
            AppError::UnsupportedOS(e) => concat_str("Unsupported OS: ", e.as_str()),
            AppError::Logger(e) => concat_str("Logger error: ", e.as_str()),
            AppError::FileNotFound(e) => concat_str("File not found: ", e.as_str()),
            AppError::InvalidFilename(e) => concat_str("Invalid file name: ", e.as_str()),
            AppError::DirectoryNotFound => String::from_str("Directory not found"),
            AppError::Deployment(e) => concat_str("Deployment error: ", e.as_str()),
            AppError::Symlink(e) => concat_str("Symlink error: ", e.as_str()),
            AppError::CodeCommandNotInstalled => String::from_str("Code command not installed"),
        }
    }
}

} // verus!
