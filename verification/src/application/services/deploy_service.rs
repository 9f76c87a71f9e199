//! Building the program, installing it, and placing its shell completions.
use vstd::prelude::*;
use crate::constants::{DEPLOY_SOURCE_PATH, FISH_COMPLETIONS_FILENAME};
use crate::models::path::{join, path_join};
use crate::models::shell::{command_line, commands_view, make_command, CommandLine, CommandLineView};
use crate::service_error::AppError;

verus! {

/// The command that builds the program: `cargo build --release`.
pub fn build_command() -> (res: CommandLine)
    ensures
        res@ == command_line("cargo"@, seq!["build"@, "--release"@]),
{
    let c = make_command("cargo", &["build", "--release"]);
    assert(c@.args =~= seq!["build"@, "--release"@]);
    c
}

/// A failed build is a `Deployment` error carrying the build's error output.
pub fn build_outcome(success: bool, stderr: &str) -> (res: Result<(), AppError>)
    ensures
        success ==> res is Ok,
        !success ==> (res matches Err(AppError::Deployment(m)) && m@ == stderr@),
{
    if success {
        Ok(())
    } else {
        Err(AppError::Deployment(String::from_str(stderr)))
    }
}

/// The built program must exist before it is installed; else
/// `FileNotFound` names it.
pub fn check_source(source_exists: bool) -> (res: Result<(), AppError>)
    ensures
        source_exists ==> res is Ok,
        !source_exists ==> (res matches Err(AppError::FileNotFound(p)) && p@ == DEPLOY_SOURCE_PATH@),
{
    if source_exists {
        Ok(())
    } else {
        Err(AppError::FileNotFound(String::from_str(DEPLOY_SOURCE_PATH)))
    }
}

/// The commands that install the built program at `destination`: copy it
/// there, then make it executable.
pub open spec fn spec_install_commands(destination: Seq<char>) -> Seq<CommandLineView> {
    seq![
        command_line("sudo"@, seq!["cp"@, DEPLOY_SOURCE_PATH@, destination]),
        command_line("sudo"@, seq!["chmod"@, "+x"@, destination]),
    ]
}

/// The commands that install the built program at `destination`, in order.
pub fn install_commands(destination: &str) -> (res: Vec<CommandLine>)
    ensures
        commands_view(res@) == spec_install_commands(destination@),
{
    let cp = make_command("sudo", &["cp", DEPLOY_SOURCE_PATH, destination]);
    assert(cp@.args =~= seq!["cp"@, DEPLOY_SOURCE_PATH@, destination@]);
    let chmod = make_command("sudo", &["chmod", "+x", destination]);
    assert(chmod@.args =~= seq!["chmod"@, "+x"@, destination@]);
    let mut res: Vec<CommandLine> = Vec::new();
    res.push(cp);
    res.push(chmod);
    assert(commands_view(res@) =~= spec_install_commands(destination@));
    res
}

/// Where the completions file goes inside the completions directory.
pub fn completions_target(target_dir: &str) -> (res: String)
    ensures
        res@ == path_join(target_dir@, FISH_COMPLETIONS_FILENAME@),
{
    join(target_dir, FISH_COMPLETIONS_FILENAME)
}

} // verus!
