//! The errors of the manager's file, shell and configuration work.
pub mod app_error;

use vstd::prelude::*;
use crate::text::concat_str;

verus! {

/// The kind of a failed file system operation.
#[derive(Debug, Clone, Copy, PartialEq, Eq, Structural)]
pub enum IoErrorKind {
    NotFound,
    PermissionDenied,
    AlreadyExists,
    InvalidInput,
    Other,
}

/// A failed file system operation: its kind and the text it is shown with.
#[derive(Debug, Clone)]
pub struct IoError {
    pub kind: IoErrorKind,
    pub message: String,
}

/// An error of the manager's file, shell and configuration work.
#[derive(Debug, Clone)]
pub enum AppError {
    /// Shown as "IO error: ...".
    Io(IoError),
    /// Shown as "Home directory not found".
    HomeDirectoryNotFound,
    /// Shown as "Path error: ...".
    Path(String),
    /// Shown as "Failed to strip path prefix: ...".
    PathStripPrefixError(String),
    /// Shown as "Failed to canonicalize path: ...".
    PathCanonicalizationError(String),
    /// Shown as "Command execution error: ...".
    CommandExecution(String),
    /// Shown as "Failed to create temporary file: ...".
    TempFileCreationError(String),
    /// Shown as "Failed to write script to temporary file: ...".
    ScriptWriteError(String),
    /// Shown as "Bash execution failed: ...".
    BashExecutionFailed(String),
    /// Shown as "Shell execution failed: ...".
    ShellExecutionFailed(String),
    /// Shown as "Sudo execution failed: ...".
    SudoExecutionFailed(String),
    /// Shown as "Which execution failed: ...".
    WhichExecutionError(String),
    /// Shown as "Empty command".
    EmptyCommand,
    /// Shown as "YAML error: ...".
    Yaml(String),
    /// Shown as "File not found: ...".
    FileNotFound(String),
    /// Shown as "Permission denied: ...".
    PermissionDenied(String),
    /// Shown as "Configuration error: ...".
    Config(String),
    /// Shown as "Homebrew error: ...".
    Homebrew(String),
    /// Shown as "Fish shell error: ...".
    Fish(String),
    /// Shown as "Linking error: ...".
    Link(String),
    /// Shown as "VSCode error: ...".
    VSCode(String),
    /// Shown as "Deployment error: ...".
    Deployment(String),
    /// Shown as "Logger error: ...".
    Logger(String),
    /// Shown as "Invalid input: ...".
    InvalidInput(String),
    /// Shown as "Unsupported operation: ...".
    UnsupportedOperation(String),
    /// Shown as "Unexpected error: ...".
    Unexpected(String),
    /// Shown as "Failed to add fish to /etc/shells".
    AddFishToEtcShellsFailed,
}

/// Prefixes `context` and `": "` to a message.
pub open spec fn with_context_text(context: Seq<char>, e: Seq<char>) -> Seq<char> {
    context + ": "@ + e
}

fn context_text(context: &str, e: &str) -> (res: String)
    ensures
        res@ == with_context_text(context@, e@),
{
    concat_str(context, ": ").concat(e)
}

impl AppError {
    /// Adds `context` before the message of an I/O or path error; every
    /// other error is returned unchanged.
    pub fn with_context(self, context: &str) -> (res: AppError)
        ensures
            match self {
                AppError::Io(e) => res matches AppError::Io(r) && r.kind == e.kind && r.message@
                    == with_context_text(context@, e.message@),
                AppError::Path(e) => res matches AppError::Path(r) && r@ == with_context_text(
                    context@,
                    e@,
                ),
                _ => res == self,
            },
    {
        match self {
            AppError::Io(e) => AppError::Io(
                IoError { kind: e.kind, message: context_text(context, e.message.as_str()) },
            ),
            AppError::Path(e) => AppError::Path(context_text(context, e.as_str())),
            _ => self,
        }
    }

    /// The text the error is shown with.
    pub open spec fn spec_message(self) -> Seq<char> {
        match self {
            AppError::Io(e) => "IO error: "@ + e.message@,
            AppError::HomeDirectoryNotFound => "Home directory not found"@,
            AppError::Path(e) => "Path error: "@ + e@,
            AppError::PathStripPrefixError(e) => "Failed to strip path prefix: "@ + e@,
            AppError::PathCanonicalizationError(e) => "Failed to canonicalize path: "@ + e@,
            AppError::CommandExecution(e) => "Command execution error: "@ + e@,
            AppError::TempFileCreationError(e) => "Failed to create temporary file: "@ + e@,
            AppError::ScriptWriteError(e) => "Failed to write script to temporary file: "@ + e@,
            AppError::BashExecutionFailed(e) => "Bash execution failed: "@ + e@,
            AppError::ShellExecutionFailed(e) => "Shell execution failed: "@ + e@,
            AppError::SudoExecutionFailed(e) => "Sudo execution failed: "@ + e@,
            AppError::WhichExecutionError(e) => "Which execution failed: "@ + e@,
            AppError::EmptyCommand => "Empty command"@,
            AppError::Yaml(e) => "YAML error: "@ + e@,
            AppError::FileNotFound(e) => "File not found: "@ + e@,
            AppError::PermissionDenied(e) => "Permission denied: "@ + e@,
            AppError::Config(e) => "Configuration error: "@ + e@,
            AppError::Homebrew(e) => "Homebrew error: "@ + e@,
            AppError::Fish(e) => "Fish shell error: "@ + e@,
            AppError::Link(e) => "Linking error: "@ + e@,
            AppError::VSCode(e) => "VSCode error: "@ + e@,
            AppError::Deployment(e) => "Deployment error: "@ + e@,
            AppError::Logger(e) => "Logger error: "@ + e@,
            AppError::InvalidInput(e) => "Invalid input: "@ + e@,
            AppError::UnsupportedOperation(e) => "Unsupported operation: "@ + e@,
            AppError::Unexpected(e) => "Unexpected error: "@ + e@,
            AppError::AddFishToEtcShellsFailed => "Failed to add fish to /etc/shells"@,
        }
    }

    /// The text the error is shown with.
    pub fn message(&self) -> (res: String)
        ensures
            res@ == self.spec_message(),
    {
        match self {
            AppError::Io(e) => concat_str("IO error: ", e.message.as_str()),
            AppError::HomeDirectoryNotFound => String::from_str("Home directory not found"),
            AppError::Path(e) => concat_str("Path error: ", e.as_str()),
            AppError::PathStripPrefixError(e) => concat_str("Failed to strip path prefix: ", e.as_str()),
            AppError::PathCanonicalizationError(e) => concat_str("Failed to canonicalize path: ", e.as_str()),
            AppError::CommandExecution(e) => concat_str("Command execution error: ", e.as_str()),
            AppError::TempFileCreationError(e) => concat_str("Failed to create temporary file: ", e.as_str()),
            AppError::ScriptWriteError(e) => concat_str("Failed to write script to temporary file: ", e.as_str()),
            AppError::BashExecutionFailed(e) => concat_str("Bash execution failed: ", e.as_str()),
            AppError::ShellExecutionFailed(e) => concat_str("Shell execution failed: ", e.as_str()),
            AppError::SudoExecutionFailed(e) => concat_str("Sudo execution failed: ", e.as_str()),
            AppError::WhichExecutionError(e) => concat_str("Which execution failed: ", e.as_str()),
            AppError::EmptyCommand => String::from_str("Empty command"),
            AppError::Yaml(e) => concat_str("YAML error: ", e.as_str()),
            AppError::FileNotFound(e) => concat_str("File not found: ", e.as_str()),
            AppError::PermissionDenied(e) => concat_str("Permission denied: ", e.as_str()),
            AppError::Config(e) => concat_str("Configuration error: ", e.as_str()),
            AppError::Homebrew(e) => concat_str("Homebrew error: ", e.as_str()),
            AppError::Fish(e) => concat_str("Fish shell error: ", e.as_str()),
            AppError::Link(e) => concat_str("Linking error: ", e.as_str()),
            AppError::VSCode(e) => concat_str("VSCode error: ", e.as_str()),
            AppError::Deployment(e) => concat_str("Deployment error: ", e.as_str()),
            AppError::Logger(e) => concat_str("Logger error: ", e.as_str()),
            AppError::InvalidInput(e) => concat_str("Invalid input: ", e.as_str()),
            AppError::UnsupportedOperation(e) => concat_str("Unsupported operation: ", e.as_str()),
            AppError::Unexpected(e) => concat_str("Unexpected error: ", e.as_str()),
            AppError::AddFishToEtcShellsFailed => String::from_str("Failed to add fish to /etc/shells"),
        }
    }
}

} // verus!
