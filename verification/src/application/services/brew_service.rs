//! Installing Homebrew, installing the listed packages, and writing the
//! installed packages to lists.
use vstd::prelude::*;
use crate::constants::{BREW_CASK_FORMULA_FILENAME, BREW_FORMULA_FILENAME, RESOURCES_DIR};
use crate::models::path::{join, path_join};
use crate::models::shell::{command_line, commands_view, make_command, CommandLine, CommandLineView};

verus! {

/// The script that installs Homebrew.
pub const HOMEBREW_INSTALL_SCRIPT: &'static str = "\"$(curl -fsSL https://raw.githubusercontent.com/Homebrew/install/HEAD/install.sh)\"";

/// The command that installs Homebrew: the install script run by bash.
pub fn install_command() -> (res: CommandLine)
    ensures
        res@ == command_line("bash"@, seq!["-c"@, HOMEBREW_INSTALL_SCRIPT@]),
{
    let res = make_command("bash", &["-c", HOMEBREW_INSTALL_SCRIPT]);
    assert(res@.args =~= seq!["-c"@, HOMEBREW_INSTALL_SCRIPT@]);
    res
}

/// The list of formulas: `resources/brew_formulas.txt`.
pub fn formula_list_path() -> (res: String)
    ensures
        res@ == path_join(RESOURCES_DIR@, BREW_FORMULA_FILENAME@),
{
    join(RESOURCES_DIR, BREW_FORMULA_FILENAME)
}

/// The list of casks: `resources/brew_casks.txt`.
pub fn cask_list_path() -> (res: String)
    ensures
        res@ == path_join(RESOURCES_DIR@, BREW_CASK_FORMULA_FILENAME@),
{
    join(RESOURCES_DIR, BREW_CASK_FORMULA_FILENAME)
}

/// `brew install <name>` for each listed formula, in order.
pub open spec fn spec_formula_install_commands(formulas: Seq<Seq<char>>) -> Seq<CommandLineView> {
    formulas.map_values(|f: Seq<char>| command_line("brew"@, seq!["install"@, f]))
}

/// `brew install --cask <name>` for each listed cask, in order.
pub open spec fn spec_cask_install_commands(casks: Seq<Seq<char>>) -> Seq<CommandLineView> {
    casks.map_values(|c: Seq<char>| command_line("brew"@, seq!["install"@, "--cask"@, c]))
}

/// The commands that install the listed formulas, in order.
pub fn formula_install_commands(formulas: &Vec<String>) -> (res: Vec<CommandLine>)
    ensures
        commands_view(res@) == spec_formula_install_commands(
            formulas@.map_values(|s: String| s@),
        ),
{
    let ghost fv = formulas@.map_values(|s: String| s@);
    let mut out: Vec<CommandLine> = Vec::new();
    let mut i: usize = 0;
    while i < formulas.len()
        invariant
            fv == formulas@.map_values(|s: String| s@),
            i <= formulas@.len(),
            commands_view(out@) == spec_formula_install_commands(fv.take(i as int)),
        decreases formulas@.len() - i,
    {
        let ghost before = commands_view(out@);
        let c = make_command("brew", &["install", formulas[i].as_str()]);
        out.push(c);
        assert(c@.args =~= seq!["install"@, fv[i as int]]);
        assert(fv.take(i + 1) =~= fv.take(i as int).push(fv[i as int]));
        assert(spec_formula_install_commands(fv.take(i + 1)) =~= spec_formula_install_commands(
            fv.take(i as int),
        ).push(c@));
        assert(commands_view(out@) =~= before.push(c@));
        i = i + 1;
    }
    assert(fv.take(formulas@.len() as int) =~= fv);
    out
}

/// The commands that install the listed casks, in order.
pub fn cask_install_commands(casks: &Vec<String>) -> (res: Vec<CommandLine>)
    ensures
        commands_view(res@) == spec_cask_install_commands(casks@.map_values(|s: String| s@)),
{
    let ghost cv = casks@.map_values(|s: String| s@);
    let mut out: Vec<CommandLine> = Vec::new();
    let mut i: usize = 0;
    while i < casks.len()
        invariant
            cv == casks@.map_values(|s: String| s@),
            i <= casks@.len(),
            commands_view(out@) == spec_cask_install_commands(cv.take(i as int)),
        decreases casks@.len() - i,
    {
        let ghost before = commands_view(out@);
        let c = make_command("brew", &["install", "--cask", casks[i].as_str()]);
        out.push(c);
        assert(c@.args =~= seq!["install"@, "--cask"@, cv[i as int]]);
        assert(cv.take(i + 1) =~= cv.take(i as int).push(cv[i as int]));
        assert(spec_cask_install_commands(cv.take(i + 1)) =~= spec_cask_install_commands(
            cv.take(i as int),
        ).push(c@));
        assert(commands_view(out@) =~= before.push(c@));
        i = i + 1;
    }
    assert(cv.take(casks@.len() as int) =~= cv);
    out
}

/// The command whose output lists the installed formulas: `brew leaves`.
pub fn list_formulas_command() -> (res: CommandLine)
    ensures
        res@ == command_line("brew"@, seq!["leaves"@]),
{
    let res = make_command("brew", &["leaves"]);
    assert(res@.args =~= seq!["leaves"@]);
    res
}

/// The command whose output lists the installed casks: `brew list --cask`.
pub fn list_casks_command() -> (res: CommandLine)
    ensures
        res@ == command_line("brew"@, seq!["list"@, "--cask"@]),
{
    let res = make_command("brew", &["list", "--cask"]);
    assert(res@.args =~= seq!["list"@, "--cask"@]);
    res
}

} // verus!
