//! The errors of the run-file driven commands.
use vstd::prelude::*;
use crate::text::concat_str;
use super::{context_text, with_context_text};

verus! {

/// An error of the run-file driven commands.
#[derive(Debug, Clone)]
pub enum AppError {
    /// Shown as "IO error: ...".
    IoError(String),
    /// Shown as "YAML parse error: ...".
    YamlParseError(String),
    /// Shown as "Configuration error: ...".
    ConfigError(String),
    /// Shown as "Shell execution error: ...".
    ShellExecutionError(String),
    /// Shown as "Unsupported OS: ...".
    UnsupportedOS(String),
    /// Shown as "Path error: ...".
    PathError(String),
    /// Shown as "Logger error: ...".
    LoggerError(String),
}

impl AppError {
    /// The message an error carries, whatever its kind.
    pub open spec fn payload(self) -> Seq<char> {
        match self {
            AppError::IoError(e) => e@,
            AppError::YamlParseError(e) => e@,
            AppError::ConfigError(e) => e@,
            AppError::ShellExecutionError(e) => e@,
            AppError::UnsupportedOS(e) => e@,
            AppError::PathError(e) => e@,
            AppError::LoggerError(e) => e@,
        }
    }

    /// Whether two errors are of the same kind.
    pub open spec fn same_kind(self, other: AppError) -> bool {
        match (self, other) {
            (AppError::IoError(_), AppError::IoError(_)) => true,
            (AppError::YamlParseError(_), AppError::YamlParseError(_)) => true,
            (AppError::ConfigError(_), AppError::ConfigError(_)) => true,
            (AppError::ShellExecutionError(_), AppError::ShellExecutionError(_)) => true,
            (AppError::UnsupportedOS(_), AppError::UnsupportedOS(_)) => true,
            (AppError::PathError(_), AppError::PathError(_)) => true,
            (AppError::LoggerError(_), AppError::LoggerError(_)) => true,
            _ => false,
        }
    }

    /// Adds `context` before the message; the kind of the error stays.
    pub fn with_context(self, context: &str) -> (res: AppError)
        ensures
            res.same_kind(self),
            res.payload() == with_context_text(context@, self.payload()),
    {
        match self {
            AppError::IoError(e) => AppError::IoError(context_text(context, e.as_str())),
            AppError::YamlParseError(e) => AppError::YamlParseError(context_text(context, e.as_str())),
            AppError::ConfigError(e) => AppError::ConfigError(context_text(context, e.as_str())),
            AppError::ShellExecutionError(e) => AppError::ShellExecutionError(
                context_text(context, e.as_str()),
            ),
            AppError::UnsupportedOS(e) => AppError::UnsupportedOS(context_text(context, e.as_str())),
            AppError::PathError(e) => AppError::PathError(context_text(context, e.as_str())),
            AppError::LoggerError(e) => AppError::LoggerError(context_text(context, e.as_str())),
        }
    }

    /// The text the error is shown with.
    pub open spec fn spec_message(self) -> Seq<char> {
        match self {
            AppError::IoError(e) => "IO error: "@ + e@,
            AppError::YamlParseError(e) => "YAML parse error: "@ + e@,
            AppError::ConfigError(e) => "Configuration error: "@ + e@,
            AppError::ShellExecutionError(e) => "Shell execution error: "@ + e@,
            AppError::UnsupportedOS(e) => "Unsupported OS: "@ + e@,
            AppError::PathError(e) => "Path error: "@ + e@,
            AppError::LoggerError(e) => "Logger error: "@ + e@,
        }
    }

    /// The text the error is shown with.
    pub fn message(&self) -> (res: String)
        ensures
            res@ == self.spec_message(),
    {
        match self {
            AppError::IoError(e) => concat_str("IO error: ", e.as_str()),
            AppError::YamlParseError(e) => concat_str("YAML parse error: ", e.as_str()),
            AppError::ConfigError(e) => concat_str("Configuration error: ", e.as_str()),
            AppError::ShellExecutionError(e) => concat_str("Shell execution error: ", e.as_str()),
            AppError::UnsupportedOS(e) => concat_str("Unsupported OS: ", e.as_str()),
            AppError::PathError(e) => concat_str("Path error: ", e.as_str()),
            AppError::LoggerError(e) => concat_str("Logger error: ", e.as_str()),
        }
    }
}

} // verus!
