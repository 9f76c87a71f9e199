//! Installing the fish shell, making it the login shell, and installing the
//! Fisher plugin manager.
use vstd::prelude::*;
use crate::models::shell::{command_line, make_command, CommandLine, CommandLineView};
use crate::service_error::AppError;
use crate::text::{str_eq, trim, trimmed};

verus! {

/// The script that installs Fisher.
pub const FISHER_INSTALL_SCRIPT: &'static str = "curl -sL https://git.io/fisher | source && fisher install jorgebucaran/fisher";

/// The command that installs fish on a system: Homebrew on macOS, apt on
/// Linux; any other system is not supported.
pub open spec fn spec_install_command(os: Seq<char>) -> Result<CommandLineView, Seq<char>> {
    if os == "macos"@ {
        Ok(command_line("brew"@, seq!["install"@, "fish"@]))
    } else if os == "linux"@ {
        Ok(command_line("sudo"@, seq!["apt-get"@, "install"@, "fish"@]))
    } else {
        Err(os)
    }
}

/// The command that installs fish on the system named `os`;
/// `UnsupportedOS(os)` for a system other than macOS and Linux.
pub fn install_command(os: &str) -> (res: Result<CommandLine, AppError>)
    ensures
        spec_install_command(os@) matches Ok(c) ==> (res matches Ok(r) && r@ == c),
        spec_install_command(os@) is Err ==> (res matches Err(AppError::UnsupportedOS(m)) && m@ == os@),
{
    if str_eq(os, "macos") {
        let c = make_command("brew", &["install", "fish"]);
        assert(c@.args =~= seq!["install"@, "fish"@]);
        Ok(c)
    } else if str_eq(os, "linux") {
        let c = make_command("sudo", &["apt-get", "install", "fish"]);
        assert(c@.args =~= seq!["apt-get"@, "install"@, "fish"@]);
        Ok(c)
    } else {
        Err(AppError::UnsupportedOS(String::from_str(os)))
    }
}

/// The command whose output is the path of fish: `which fish`.
pub fn which_fish_command() -> (res: CommandLine)
    ensures
        res@ == command_line("which"@, seq!["fish"@]),
{
    let c = make_command("which", &["fish"]);
    assert(c@.args =~= seq!["fish"@]);
    c
}

/// The commands that make fish the login shell, given the output of
/// `which fish`: fish's path (the output trimmed) is added to
/// `/etc/shells`, then set with `chsh`.
pub open spec fn spec_set_default_commands(which_output: Seq<char>) -> Seq<CommandLineView> {
    let path = trimmed(which_output);
    seq![
        command_line("echo"@, seq!["'"@, path, "'"@, "|"@, "sudo"@, "tee"@, "-a"@, "/etc/shells"@]),
        command_line("chsh"@, seq!["-s"@, path]),
    ]
}

/// The commands that make fish the login shell, in order.
pub fn set_default_commands(which_output: &str) -> (res: Vec<CommandLine>)
    ensures
        res@.map_values(|c: CommandLine| c@) == spec_set_default_commands(which_output@),
{
    let path = trim(which_output);
    let p = path.as_str();
    let add = make_command("echo", &["'", p, "'", "|", "sudo", "tee", "-a", "/etc/shells"]);
    assert(add@.args =~= seq!["'"@, path@, "'"@, "|"@, "sudo"@, "tee"@, "-a"@, "/etc/shells"@]);
    let chsh = make_command("chsh", &["-s", p]);
    assert(chsh@.args =~= seq!["-s"@, path@]);
    let mut res: Vec<CommandLine> = Vec::new();
    res.push(add);
    res.push(chsh);
    assert(res@.map_values(|c: CommandLine| c@) =~= spec_set_default_commands(which_output@));
    res
}

/// The command that installs Fisher, run by fish.
pub fn install_fisher_command() -> (res: CommandLine)
    ensures
        res@ == command_line("fish"@, seq!["-c"@, "'"@, FISHER_INSTALL_SCRIPT@, "'"@]),
{
    let c = make_command("fish", &["-c", "'", FISHER_INSTALL_SCRIPT, "'"]);
    assert(c@.args =~= seq!["-c"@, "'"@, FISHER_INSTALL_SCRIPT@, "'"@]);
    c
}

} // verus!
