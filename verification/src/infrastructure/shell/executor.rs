//! Turning a finished command into its output or an error.
use vstd::prelude::*;
use vstd::utf8::{decode_utf8, valid_utf8};
use crate::service_error::AppError;
use crate::text::concat_str;

verus! {

/// The text of the error that `String::from_utf8` reports for `bytes`.
pub uninterp spec fn utf8_error_text(bytes: Seq<u8>) -> Seq<char>;

/// The text that `String::from_utf8_lossy` makes of `bytes`.
pub uninterp spec fn utf8_lossy_text(bytes: Seq<u8>) -> Seq<char>;

/// `String::from_utf8`: the text the bytes encode where they are valid
/// UTF-8, as its documentation says; else the text of its error, named.
#[verifier::external_body]
pub(crate) fn string_from_utf8(bytes: Vec<u8>) -> (res: Result<String, String>)
    ensures
        res is Ok == valid_utf8(bytes@),
        res matches Ok(s) ==> s@ == decode_utf8(bytes@),
        res matches Err(e) ==> e@ == utf8_error_text(bytes@),
{
    String::from_utf8(bytes).map_err(|e| e.to_string())
}

/// `String::from_utf8_lossy`: the text the bytes encode, with each invalid
/// sequence replaced; equal to the decoded text where the bytes are valid
/// UTF-8, as its documentation says.
#[verifier::external_body]
pub(crate) fn string_from_utf8_lossy(bytes: &Vec<u8>) -> (res: String)
    ensures
        res@ == utf8_lossy_text(bytes@),
        valid_utf8(bytes@) ==> res@ == decode_utf8(bytes@),
{
    String::from_utf8_lossy(bytes.as_slice()).to_string()
}

/// Runs commands on the system shell.
#[derive(Debug)]
pub struct SystemShellExecutor;

impl SystemShellExecutor {
    pub fn new() -> (res: Self) {
        SystemShellExecutor
    }

    /// What `execute` gives for a finished command: its standard output
    /// where it succeeded and the output is valid UTF-8; else an error with
    /// the reason.
    pub fn execution_result(&self, success: bool, stdout: Vec<u8>, stderr: Vec<u8>) -> (res: Result<
        String,
        AppError,
    >)
        ensures
            success && valid_utf8(stdout@) ==> (res matches Ok(s) && s@ == decode_utf8(stdout@)),
            success && !valid_utf8(stdout@) ==> (res matches Err(AppError::ShellExecution(m)) && m@
                == "Failed to parse command output: "@ + utf8_error_text(stdout@)),
            !success ==> (res matches Err(AppError::ShellExecution(m)) && m@ == utf8_lossy_text(
                stderr@,
            )),
    {
        if success {
            match string_from_utf8(stdout) {
                Ok(s) => Ok(s),
                Err(e) => Err(
                    AppError::ShellExecution(concat_str("Failed to parse command output: ", e.as_str())),
                ),
            }
        } else {
            Err(AppError::ShellExecution(self.stderr(&stderr)))
        }
    }

    /// The error output of a command as text.
    pub fn stderr(&self, stderr: &Vec<u8>) -> (res: String)
        ensures
            res@ == utf8_lossy_text(stderr@),
            valid_utf8(stderr@) ==> res@ == decode_utf8(stderr@),
    {
        string_from_utf8_lossy(stderr)
    }

    /// The error for a command that could not be started.
    pub fn spawn_error(&self, reason: &str) -> (res: AppError)
        ensures
            res matches AppError::ShellExecution(m) && m@ == "Failed to execute command: "@ + reason@,
    {
        AppError::ShellExecution(concat_str("Failed to execute command: ", reason))
    }
}

impl Default for SystemShellExecutor {
    /// An executor; it holds no state.
    fn default() -> (res: Self)
        ensures
            res == SystemShellExecutor,
    {
        SystemShellExecutor::new()
    }
}

} // verus!
