//! Homebrew: installing it, installing the listed formulas and casks, and
//! writing the installed ones to lists.
use vstd::prelude::*;
use crate::text::strings_view;
use crate::config::constants::{APP_RESOURCE_DIR, BREW_CASK_FORMULA_FILENAME, BREW_FORMULA_FILENAME};
use crate::error::AppError;
use crate::models::path::{join, path_join};
use crate::text::{concat_str, trim, trimmed};

verus! {

/// The script that installs Homebrew.
pub const HOMEBREW_INSTALL_SCRIPT: &'static str = "/bin/bash -c \"$(curl -fsSL https://raw.githubusercontent.com/Homebrew/install/HEAD/install.sh)\"";

/// The shell commands that install the formulas listed one per line: each
/// line is trimmed, blank lines are left out, and `arg` (such as `--cask`)
/// goes before the name.
pub open spec fn spec_install_formula_commands(lines: Seq<Seq<char>>, arg: Seq<char>) -> Seq<Seq<char>>
    decreases lines.len(),
{
    if lines.len() == 0 {
        Seq::empty()
    } else {
        let prev = spec_install_formula_commands(lines.drop_last(), arg);
        let f = trimmed(lines.last());
        if f.len() > 0 {
            prev.push("brew install "@ + arg + " "@ + f)
        } else {
            prev
        }
    }
}

/// The words of a command line joined with single spaces.
pub open spec fn spec_join_words(words: Seq<Seq<char>>) -> Seq<char>
    decreases words.len(),
{
    if words.len() == 0 {
        Seq::empty()
    } else if words.len() == 1 {
        words[0]
    } else {
        spec_join_words(words.drop_last()) + " "@ + words.last()
    }
}

/// Installs Homebrew and its packages.
pub struct Homebrew;

impl Homebrew {
    pub fn new() -> (res: Self) {
        Homebrew
    }

    /// Installing Homebrew when it is installed already is an error.
    pub fn check_not_installed(&self, installed: bool) -> (res: Result<(), AppError>)
        ensures
            !installed ==> res is Ok,
            installed ==> (res matches Err(AppError::Homebrew(m)) && m@
                == "Homebrew is already installed"@),
    {
        if installed {
            Err(AppError::Homebrew(String::from_str("Homebrew is already installed")))
        } else {
            Ok(())
        }
    }

    /// Importing or exporting packages needs Homebrew.
    pub fn check_installed(&self, installed: bool) -> (res: Result<(), AppError>)
        ensures
            installed ==> res is Ok,
            !installed ==> (res matches Err(AppError::Homebrew(m)) && m@
                == "Homebrew is not installed"@),
    {
        if installed {
            Ok(())
        } else {
            Err(AppError::Homebrew(String::from_str("Homebrew is not installed")))
        }
    }

    /// A failed run of the install script is an error.
    pub fn install_outcome(&self, success: bool) -> (res: Result<(), AppError>)
        ensures
            success ==> res is Ok,
            !success ==> (res matches Err(AppError::Homebrew(m)) && m@
                == "Failed to install Homebrew"@),
    {
        if success {
            Ok(())
        } else {
            Err(AppError::Homebrew(String::from_str("Failed to install Homebrew")))
        }
    }

    /// The list of formulas: `resources/formula.txt`.
    pub fn formula_path(&self) -> (res: String)
        ensures
            res@ == path_join(APP_RESOURCE_DIR@, BREW_FORMULA_FILENAME@),
    {
        join(APP_RESOURCE_DIR, BREW_FORMULA_FILENAME)
    }

    /// The list of casks: `resources/cask-formula.txt`.
    pub fn cask_path(&self) -> (res: String)
        ensures
            res@ == path_join(APP_RESOURCE_DIR@, BREW_CASK_FORMULA_FILENAME@),
    {
        join(APP_RESOURCE_DIR, BREW_CASK_FORMULA_FILENAME)
    }

    /// The shell commands that install the formulas listed in `lines`.
    pub fn install_formula_commands(&self, lines: &Vec<String>, arg: &str) -> (res: Vec<String>)
        ensures
            strings_view(res@) == spec_install_formula_commands(strings_view(lines@), arg@),
    {
        let ghost lv = strings_view(lines@);
        let mut out: Vec<String> = Vec::new();
        let mut i: usize = 0;
        assert(lv.take(0) =~= Seq::<Seq<char>>::empty());
        while i < lines.len()
            invariant
                lv == strings_view(lines@),
                i <= lines@.len(),
                strings_view(out@) == spec_install_formula_commands(lv.take(i as int), arg@),
            decreases lines@.len() - i,
        {
            assert(lv.take(i + 1).drop_last() =~= lv.take(i as int));
            assert(lv.take(i + 1).last() == lines@[i as int]@);
            let f = trim(lines[i].as_str());
            if f.as_str().unicode_len() > 0 {
                let ghost before = strings_view(out@);
                let c = concat_str("brew install ", arg).concat(" ").concat(f.as_str());
                out.push(c);
                assert(strings_view(out@) =~= before.push("brew install "@ + arg@ + " "@ + f@));
            }
            i = i + 1;
        }
        assert(lv.take(lines@.len() as int) =~= lv);
        out
    }

    /// The shell command that prints a package list: `brew` and the words.
    pub fn export_command(&self, args: &Vec<String>) -> (res: String)
        ensures
            res@ == "brew "@ + spec_join_words(strings_view(args@)),
    {
        let ghost av = strings_view(args@);
        let mut joined = String::new();
        let mut i: usize = 0;
        assert(av.take(0) =~= Seq::<Seq<char>>::empty());
        while i < args.len()
            invariant
                av == strings_view(args@),
                i <= args@.len(),
                joined@ == spec_join_words(av.take(i as int)),
            decreases args@.len() - i,
        {
            assert(av.take(i + 1).drop_last() =~= av.take(i as int));
            assert(av.take(i + 1).last() == args@[i as int]@);
            if i == 0 {
                joined = args[i].clone();
            } else {
                joined.append(" ");
                joined.append(args[i].as_str());
            }
            i = i + 1;
        }
        assert(av.take(args@.len() as int) =~= av);
        concat_str("brew ", joined.as_str())
    }
}

/// Importing a package list installs every listed package and nothing
/// else: one `brew install <arg> <name>` per line that is not blank once
/// trimmed, with the trimmed line as the name, in the order of the list.
pub proof fn lemma_install_commands_cover_every_line(lines: Seq<Seq<char>>, arg: Seq<char>)
    ensures
        spec_install_formula_commands(lines, arg) == lines.filter(
            |l: Seq<char>| trimmed(l).len() > 0,
        ).map_values(|l: Seq<char>| "brew install "@ + arg + " "@ + trimmed(l)),
    decreases lines.len(),
{
    reveal(Seq::filter);
    if lines.len() > 0 {
        let init = lines.drop_last();
        lemma_install_commands_cover_every_line(init, arg);
        let sub = init.filter(|l: Seq<char>| trimmed(l).len() > 0);
        let g = |l: Seq<char>| "brew install "@ + arg + " "@ + trimmed(l);
        assert(sub.push(lines.last()).map_values(g) =~= sub.map_values(g).push(g(lines.last())));
    }
}

} // verus!
