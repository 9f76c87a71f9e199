//! Writing the installed editor extensions to a list, installing the listed
//! ones, and making the `code` command available.
use vstd::prelude::*;
use crate::constants::{RESOURCES_DIR, VSCODE_EXTENSIONS_FILENAME};
use crate::models::path::{join, path_join};
use crate::models::shell::{command_line, commands_view, make_command, CommandLine, CommandLineView};
use crate::service_error::AppError;
use crate::text::str_eq;

verus! {

/// Where the editor application lives on macOS.
pub const VSCODE_APP_PATH: &'static str = "/Applications/Visual Studio Code.app";

/// The `code` program inside the editor application.
pub const VSCODE_APP_CODE_BINARY: &'static str = "/Applications/Visual Studio Code.app/Contents/Resources/app/bin/code";

/// Where the `code` command is linked to.
pub const CODE_COMMAND_PATH: &'static str = "/usr/local/bin/code";

/// The list of extensions: `resources/vscode_extensions.txt`.
pub fn extensions_path() -> (res: String)
    ensures
        res@ == path_join(RESOURCES_DIR@, VSCODE_EXTENSIONS_FILENAME@),
{
    join(RESOURCES_DIR, VSCODE_EXTENSIONS_FILENAME)
}

/// The command whose output lists the installed extensions.
pub fn list_extensions_command() -> (res: CommandLine)
    ensures
        res@ == command_line("code"@, seq!["--list-extensions"@]),
{
    let c = make_command("code", &["--list-extensions"]);
    assert(c@.args =~= seq!["--list-extensions"@]);
    c
}

/// `code --install-extension <name>` for each listed extension, in order.
pub open spec fn spec_install_extension_commands(exts: Seq<Seq<char>>) -> Seq<CommandLineView> {
    exts.map_values(|e: Seq<char>| command_line("code"@, seq!["--install-extension"@, e]))
}

/// The commands that install the listed extensions, in order.
pub fn install_extension_commands(exts: &Vec<String>) -> (res: Vec<CommandLine>)
    ensures
        commands_view(res@) == spec_install_extension_commands(exts@.map_values(|s: String| s@)),
{
    let ghost ev = exts@.map_values(|s: String| s@);
    let mut out: Vec<CommandLine> = Vec::new();
    let mut i: usize = 0;
    while i < exts.len()
        invariant
            ev == exts@.map_values(|s: String| s@),
            i <= exts@.len(),
            commands_view(out@) == spec_install_extension_commands(ev.take(i as int)),
        decreases exts@.len() - i,
    {
        let ghost before = commands_view(out@);
        let c = make_command("code", &["--install-extension", exts[i].as_str()]);
        out.push(c);
        assert(c@.args =~= seq!["--install-extension"@, ev[i as int]]);
        assert(ev.take(i + 1) =~= ev.take(i as int).push(ev[i as int]));
        assert(spec_install_extension_commands(ev.take(i + 1)) =~= spec_install_extension_commands(
            ev.take(i as int),
        ).push(c@));
        assert(commands_view(out@) =~= before.push(c@));
        i = i + 1;
    }
    assert(ev.take(exts@.len() as int) =~= ev);
    out
}

/// The command that tells whether `code` is on the path: `which code`.
pub fn which_code_command() -> (res: CommandLine)
    ensures
        res@ == command_line("which"@, seq!["code"@]),
{
    let c = make_command("which", &["code"]);
    assert(c@.args =~= seq!["code"@]);
    c
}

/// The command that links `code` from the editor application.
pub open spec fn spec_link_code_command() -> CommandLineView {
    command_line("ln"@, seq!["-s"@, VSCODE_APP_CODE_BINARY@, CODE_COMMAND_PATH@])
}

/// What making `code` available takes: nothing where `which code`
/// succeeded; else, on macOS with the editor installed, one link; else
/// `CodeCommandNotInstalled`. The system name and whether the editor is
/// installed are only read where `which code` failed.
pub fn ensure_code_plan(which_succeeded: bool, os: &str, app_installed: bool) -> (res: Result<
    Option<CommandLine>,
    AppError,
>)
    ensures
        which_succeeded ==> res matches Ok(None),
        !which_succeeded && os@ == "macos"@ && app_installed ==> (res matches Ok(Some(c)) && c@
            == spec_link_code_command()),
        !which_succeeded && !(os@ == "macos"@ && app_installed) ==> res matches Err(
            AppError::CodeCommandNotInstalled,
        ),
{
    if which_succeeded {
        return Ok(None);
    }
    if str_eq(os, "macos") && app_installed {
        let c = make_command("ln", &["-s", VSCODE_APP_CODE_BINARY, CODE_COMMAND_PATH]);
        assert(c@.args =~= seq!["-s"@, VSCODE_APP_CODE_BINARY@, CODE_COMMAND_PATH@]);
        Ok(Some(c))
    } else {
        Err(AppError::CodeCommandNotInstalled)
    }
}

} // verus!
