//! The fish shell: installing it and making it the login shell.
use vstd::prelude::*;
use crate::error::AppError;
use crate::models::lines::{
    is_plain_line, lemma_scan_no_newline, scan_lines, spec_split_lines, split_lines, strip_cr,
};
use crate::text::strings_view;
use crate::text::{concat_str, contains_text, occurs_at, str_eq, trim, trimmed};
use crate::infrastructure::shell::executor::{string_from_utf8_lossy, utf8_lossy_text};
use crate::models::path::{join, path_join};
use crate::models::shell::Argument;

verus! {

/// The user name as `whoami::username` reports it (`unknown` where it
/// cannot be read); it depends on the environment, so nothing is claimed
/// of it.
#[verifier::external_body]
pub(crate) fn username() -> (res: String) {
    whoami::username()
}

/// The shell command that prints the login shell of `user`.
pub open spec fn spec_user_shell_command(user: Seq<char>) -> Seq<char> {
    "dscl . -read "@ + path_join("/Users"@, user) + " UserShell"@
}

/// Installs fish and makes it the login shell.
pub struct Fish;

impl Fish {
    pub fn new() -> (res: Self) {
        Fish
    }

    /// The path of fish from what `which fish` printed: the output trimmed
    /// where `which` succeeded, none where it failed.
    pub fn fish_path_from(&self, success: bool, stdout: &str) -> (res: Option<String>)
        ensures
            success ==> (res matches Some(p) && p@ == trimmed(stdout@)),
            !success ==> res is None,
    {
        if success {
            Some(trim(stdout))
        } else {
            None
        }
    }

    /// The path of fish from the output of `which fish`, read as UTF-8
    /// with invalid sequences replaced: the output trimmed where `which`
    /// succeeded, none where it failed.
    pub fn fish_path_from_output(&self, success: bool, stdout: &Vec<u8>) -> (res: Option<String>)
        ensures
            success ==> (res matches Some(p) && p@ == trimmed(utf8_lossy_text(stdout@))),
            !success ==> res is None,
    {
        let text = string_from_utf8_lossy(stdout);
        self.fish_path_from(success, text.as_str())
    }

    /// The shell command that prints the login shell of `user`.
    pub fn user_shell_command(&self, user: &str) -> (res: String)
        ensures
            res@ == spec_user_shell_command(user@),
    {
        let path = join("/Users", user);
        concat_str("dscl . -read ", path.as_str()).concat(" UserShell")
    }

    /// The shell command that prints the login shell of the current user.
    pub fn current_user_shell_command(&self) -> (res: String)
        ensures
            exists|u: Seq<char>| res@ == #[trigger] spec_user_shell_command(u),
    {
        let user = username();
        self.user_shell_command(user.as_str())
    }

    /// Whether fish is the login shell, from the output of the login shell
    /// query read as UTF-8 with invalid sequences replaced.
    pub fn is_default_output(&self, user_shell_output: &Vec<u8>, fish_path: &str) -> (res: bool)
        ensures
            res == exists|i: int| #[trigger] occurs_at(
                utf8_lossy_text(user_shell_output@),
                fish_path@,
                i,
            ),
    {
        let text = string_from_utf8_lossy(user_shell_output);
        self.is_default_from(text.as_str(), fish_path)
    }

    /// Whether fish has to be added to `/etc/shells`, from its contents read
    /// as UTF-8 with invalid sequences replaced.
    pub fn needs_etc_shells_entry_output(&self, etc_shells: &Vec<u8>, fish_path: &str) -> (res: bool)
        ensures
            res == !spec_split_lines(utf8_lossy_text(etc_shells@)).contains(fish_path@),
    {
        let text = string_from_utf8_lossy(etc_shells);
        self.needs_etc_shells_entry(text.as_str(), fish_path)
    }

    /// The arguments of `chsh` that make `fish_path` the login shell of the
    /// current user: `-s`, the path, and the user name.
    pub fn change_shell_arguments(&self, fish_path: &str) -> (res: Argument)
        ensures
            res matches Argument::Args(v) && v@.len() == 3 && v@[0]@ == "-s"@ && v@[1]@
                == fish_path@,
    {
        let mut v: Vec<String> = Vec::new();
        v.push(String::from_str("-s"));
        v.push(String::from_str(fish_path));
        v.push(username());
        proof {
            reveal_strlit("-s");
        }
        Argument::Args(v)
    }

    /// Fish is the login shell when the printed login shell mentions its
    /// path.
    pub fn is_default_from(&self, user_shell_output: &str, fish_path: &str) -> (res: bool)
        ensures
            res == exists|i: int| #[trigger] occurs_at(user_shell_output@, fish_path@, i),
    {
        contains_text(user_shell_output, fish_path)
    }

    /// Fish has to be added to `/etc/shells` when no line of it is fish's
    /// path.
    pub fn needs_etc_shells_entry(&self, etc_shells: &str, fish_path: &str) -> (res: bool)
        ensures
            res == !spec_split_lines(etc_shells@).contains(fish_path@),
    {
        let lines = split_lines(etc_shells);
        let ghost lv = strings_view(lines@);
        let mut i: usize = 0;
        while i < lines.len()
            invariant
                lv == strings_view(lines@),
                lv == spec_split_lines(etc_shells@),
                i <= lines@.len(),
                forall|j: int| 0 <= j < i ==> lv[j] != fish_path@,
            decreases lines@.len() - i,
        {
            if str_eq(lines[i].as_str(), fish_path) {
                assert(lv[i as int] == fish_path@);
                return false;
            }
            i = i + 1;
        }
        true
    }

    /// Adding fish to `/etc/shells` must succeed.
    pub fn etc_shells_outcome(&self, success: bool) -> (res: Result<(), AppError>)
        ensures
            success ==> res is Ok,
            !success ==> res matches Err(AppError::AddFishToEtcShellsFailed),
    {
        if success {
            Ok(())
        } else {
            Err(AppError::AddFishToEtcShellsFailed)
        }
    }

    /// Changing the login shell must succeed.
    pub fn change_shell_outcome(&self, success: bool) -> (res: Result<(), AppError>)
        ensures
            success ==> res is Ok,
            !success ==> (res matches Err(AppError::Fish(m)) && m@
                == "Failed to change default shell to Fish"@),
    {
        if success {
            Ok(())
        } else {
            Err(AppError::Fish(String::from_str("Failed to change default shell to Fish")))
        }
    }

    /// Installing fish needs Homebrew.
    pub fn check_homebrew(&self, homebrew_installed: bool) -> (res: Result<(), AppError>)
        ensures
            homebrew_installed ==> res is Ok,
            !homebrew_installed ==> (res matches Err(AppError::Homebrew(m)) && m@
                == "Homebrew is not installed"@),
    {
        if homebrew_installed {
            Ok(())
        } else {
            Err(AppError::Homebrew(String::from_str("Homebrew is not installed")))
        }
    }

    /// `brew install fish` must succeed.
    pub fn install_outcome(&self, success: bool) -> (res: Result<(), AppError>)
        ensures
            success ==> res is Ok,
            !success ==> (res matches Err(AppError::Fish(m)) && m@ == "Failed to install fish shell"@),
    {
        if success {
            Ok(())
        } else {
            Err(AppError::Fish(String::from_str("Failed to install fish shell")))
        }
    }

    /// Making fish the login shell needs fish.
    pub fn require_fish(&self, fish_path: Option<String>) -> (res: Result<String, AppError>)
        ensures
            fish_path matches Some(p) ==> res == Ok::<String, AppError>(p),
            fish_path is None ==> (res matches Err(AppError::Fish(m)) && m@ == "Fish not found"@),
    {
        match fish_path {
            Some(p) => Ok(p),
            None => Err(AppError::Fish(String::from_str("Fish not found"))),
        }
    }
}

/// Once fish's path has been appended to `/etc/shells` (which was empty or
/// ended with a line end), with or without a line end after it, the path is
/// a line of the file: a later run finds it and adds nothing.
pub proof fn lemma_etc_shells_append_found(shells: Seq<char>, fish_path: Seq<char>)
    requires
        shells.len() == 0 || shells.last() == '\n',
        fish_path.len() > 0,
        is_plain_line(fish_path),
    ensures
        spec_split_lines(shells + fish_path).contains(fish_path),
        spec_split_lines(shells + fish_path + seq!['\n']).contains(fish_path),
{
    assert(scan_lines(shells).1.len() == 0) by {
        if shells.len() > 0 {
            assert(shells.last() == '\n');
        }
    }
    assert(scan_lines(shells).1 + fish_path =~= fish_path);
    lemma_scan_no_newline(shells, fish_path);
    let lines = scan_lines(shells).0;
    assert(spec_split_lines(shells + fish_path) == lines.push(fish_path));
    assert(lines.push(fish_path)[lines.len() as int] == fish_path);
    let t = shells + fish_path + seq!['\n'];
    assert(t.drop_last() =~= shells + fish_path);
    assert(t.last() == '\n');
    assert(strip_cr(fish_path) == fish_path);
    assert(scan_lines(t).0 == lines.push(fish_path));
    assert(spec_split_lines(t) == lines.push(fish_path));
}

} // verus!
