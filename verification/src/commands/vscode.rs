//! The editor's extensions: writing the installed ones to a list and
//! installing the listed ones.
use vstd::prelude::*;
use crate::config::constants::{APP_RESOURCE_DIR, VSCODE_EXTENSIONS_FILENAME};
use crate::error::AppError;
use crate::models::path::{join, path_join};
use crate::text::concat_str;

verus! {

/// The shell command that lists the installed extensions.
pub const LIST_EXTENSIONS_COMMAND: &'static str = "code --list-extensions";

/// Writes and installs the editor's extensions.
pub struct VSCode;

impl VSCode {
    pub fn new() -> (res: Self) {
        VSCode
    }

    /// The list of extensions: `resources/vscode-extensions.txt`.
    pub fn get_extensions_path(&self) -> (res: String)
        ensures
            res@ == path_join(APP_RESOURCE_DIR@, VSCODE_EXTENSIONS_FILENAME@),
    {
        join(APP_RESOURCE_DIR, VSCODE_EXTENSIONS_FILENAME)
    }

    /// A failed listing of the extensions is an error.
    pub fn list_outcome(&self, success: bool) -> (res: Result<(), AppError>)
        ensures
            success ==> res is Ok,
            !success ==> (res matches Err(AppError::VSCode(m)) && m@ == "Failed to list extensions"@),
    {
        if success {
            Ok(())
        } else {
            Err(AppError::VSCode(String::from_str("Failed to list extensions")))
        }
    }

    /// The shell command that installs (or reinstalls) an extension.
    pub fn install_extension_command(&self, extension: &str) -> (res: String)
        ensures
            res@ == "code --install-extension --force "@ + extension@,
    {
        concat_str("code --install-extension --force ", extension)
    }

    /// A failed install is an error naming the extension.
    pub fn install_outcome(&self, extension: &str, success: bool) -> (res: Result<(), AppError>)
        ensures
            success ==> res is Ok,
            !success ==> (res matches Err(AppError::VSCode(m)) && m@ == "Failed to install extension: "@
                + extension@),
    {
        if success {
            Ok(())
        } else {
            Err(AppError::VSCode(concat_str("Failed to install extension: ", extension)))
        }
    }
}

} // verus!
