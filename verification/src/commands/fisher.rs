//! The Fisher plugin manager for fish: installing it and its plugins.
use vstd::prelude::*;
use vstd::utf8::{decode_utf8, valid_utf8};
use crate::error::AppError;
use crate::infrastructure::shell::executor::{string_from_utf8, utf8_error_text};
use crate::models::lines::{spec_split_lines, split_lines};
use crate::text::strings_view;
use crate::text::{concat_str, str_eq, trim, trimmed};

verus! {

/// The shell command that tells whether Fisher is installed.
pub const FISHER_CHECK_COMMAND: &'static str = "fish -c 'type -q fisher'";

/// The shell command that installs Fisher.
pub const FISHER_INSTALL_COMMAND: &'static str = "curl -sL https://raw.githubusercontent.com/jorgebucaran/fisher/main/functions/fisher.fish | source && fisher install jorgebucaran/fisher";

/// The shell command that lists the installed plugins.
pub const FISHER_LIST_COMMAND: &'static str = "fish -c 'fisher list'";

/// The plugin names of a listing: its lines trimmed, blank ones left out.
pub open spec fn spec_plugin_names(lines: Seq<Seq<char>>) -> Seq<Seq<char>>
    decreases lines.len(),
{
    if lines.len() == 0 {
        Seq::empty()
    } else {
        let prev = spec_plugin_names(lines.drop_last());
        let t = trimmed(lines.last());
        if t.len() > 0 {
            prev.push(t)
        } else {
            prev
        }
    }
}

/// Installs Fisher and its plugins.
pub struct Fisher;

impl Fisher {
    pub fn new() -> (res: Self) {
        Fisher
    }

    /// Installing Fisher when it is installed already is an error.
    pub fn check_not_installed(&self, installed: bool) -> (res: Result<(), AppError>)
        ensures
            !installed ==> res is Ok,
            installed ==> (res matches Err(AppError::Fish(m)) && m@ == "Fisher is already installed"@),
    {
        if installed {
            Err(AppError::Fish(String::from_str("Fisher is already installed")))
        } else {
            Ok(())
        }
    }

    /// A failed install of Fisher is an error carrying its error output.
    pub fn install_outcome(&self, success: bool, stderr: &str) -> (res: Result<(), AppError>)
        ensures
            success ==> res is Ok,
            !success ==> (res matches Err(AppError::Fish(m)) && m@ == "Failed to install Fisher: "@
                + stderr@),
    {
        if success {
            Ok(())
        } else {
            Err(AppError::Fish(concat_str("Failed to install Fisher: ", stderr)))
        }
    }

    /// The plugins that the listing names, each once: a failed listing and
    /// a listing that is not UTF-8 are errors.
    pub fn read_plugins(&self, success: bool, stdout: Vec<u8>) -> (res: Result<Vec<String>, AppError>)
        ensures
            !success ==> (res matches Err(AppError::Fish(m)) && m@ == "Failed to list Fisher plugins"@),
            success && !valid_utf8(stdout@) ==> (res matches Err(AppError::Unexpected(m)) && m@
                == utf8_error_text(stdout@)),
            success && valid_utf8(stdout@) ==> (res matches Ok(v) && v@.map_values(|s: String| s@).no_duplicates()
                && forall|p: Seq<char>|
                v@.map_values(|s: String| s@).contains(p) == spec_plugin_names(
                    spec_split_lines(decode_utf8(stdout@)),
                ).contains(p)),
    {
        if !success {
            return Err(AppError::Fish(String::from_str("Failed to list Fisher plugins")));
        }
        let text = match string_from_utf8(stdout) {
            Ok(t) => t,
            Err(e) => {
                return Err(AppError::Unexpected(e));
            },
        };
        let lines = split_lines(text.as_str());
        let ghost lv = strings_view(lines@);
        let mut out: Vec<String> = Vec::new();
        let mut i: usize = 0;
        assert(lv.take(0) =~= Seq::<Seq<char>>::empty());
        while i < lines.len()
            invariant
                lv == strings_view(lines@),
                i <= lines@.len(),
                out@.map_values(|s: String| s@).no_duplicates(),
                forall|p: Seq<char>|
                    out@.map_values(|s: String| s@).contains(p) == spec_plugin_names(
                        lv.take(i as int),
                    ).contains(p),
            decreases lines@.len() - i,
        {
            assert(lv.take(i + 1).drop_last() =~= lv.take(i as int));
            assert(lv.take(i + 1).last() == lines@[i as int]@);
            let ghost prev_names = spec_plugin_names(lv.take(i as int));
            let ghost before = out@.map_values(|s: String| s@);
            let t = trim(lines[i].as_str());
            if t.as_str().unicode_len() > 0 {
                let ghost tv = t@;
                let present = contains_string(&out, t.as_str());
                if !present {
                    out.push(t);
                    assert(out@.map_values(|s: String| s@) =~= before.push(tv));
                    assert(out@.map_values(|s: String| s@)[before.len() as int] == tv);
                } else {
                    assert(out@.map_values(|s: String| s@) == before);
                }
                assert(out@.map_values(|s: String| s@).contains(tv));
                let ghost after = out@.map_values(|s: String| s@);
                assert forall|p: Seq<char>|
                    after.contains(p) == spec_plugin_names(lv.take(i + 1)).contains(p) by {
                    assert(spec_plugin_names(lv.take(i + 1)) == prev_names.push(tv));
                    if p == tv {
                        assert(prev_names.push(tv)[prev_names.len() as int] == t@);
                    } else {
                        if prev_names.push(tv).contains(p) {
                            let k = choose|k: int| 0 <= k < prev_names.push(tv).len() && prev_names.push(tv)[k] == p;
                            assert(prev_names[k] == p);
                        }
                        if prev_names.contains(p) {
                            let k = choose|k: int| 0 <= k < prev_names.len() && prev_names[k] == p;
                            assert(prev_names.push(tv)[k] == p);
                        }
                        if after.contains(p) {
                            let k = choose|k: int| 0 <= k < after.len() && after[k] == p;
                            if k < before.len() {
                                assert(before[k] == p);
                            }
                        }
                        if before.contains(p) {
                            let k = choose|k: int| 0 <= k < before.len() && before[k] == p;
                            assert(after[k] == p);
                        }
                    }
                }
            }
            i = i + 1;
        }
        assert(lv.take(lines@.len() as int) =~= lv);
        Ok(out)
    }

    /// The shell command that installs a plugin.
    pub fn install_plugin_command(&self, plugin: &str) -> (res: String)
        ensures
            res@ == "fish -c 'fisher install "@ + plugin@ + "'"@,
    {
        concat_str("fish -c 'fisher install ", plugin).concat("'")
    }

    /// A failed plugin install is an error naming the plugin and carrying
    /// the error output.
    pub fn plugin_outcome(&self, plugin: &str, success: bool, stderr: &str) -> (res: Result<(), AppError>)
        ensures
            success ==> res is Ok,
            !success ==> (res matches Err(AppError::Fish(m)) && m@ == "Failed to install Fisher plugin "@
                + plugin@ + ": "@ + stderr@),
    {
        if success {
            Ok(())
        } else {
            Err(
                AppError::Fish(
                    concat_str("Failed to install Fisher plugin ", plugin).concat(": ").concat(stderr),
                ),
            )
        }
    }
}

fn contains_string(v: &Vec<String>, s: &str) -> (res: bool)
    ensures
        res == v@.map_values(|x: String| x@).contains(s@),
{
    let ghost vv = v@.map_values(|x: String| x@);
    let mut i: usize = 0;
    while i < v.len()
        invariant
            vv == v@.map_values(|x: String| x@),
            i <= v@.len(),
            forall|j: int| 0 <= j < i ==> vv[j] != s@,
        decreases v@.len() - i,
    {
        if str_eq(v[i].as_str(), s) {
            assert(vv[i as int] == s@);
            return true;
        }
        i = i + 1;
    }
    false
}

/// A name is among the plugins of a listing exactly when it is not empty
/// and some line of the listing trims to it.
pub proof fn lemma_plugin_names_are_the_nonblank_lines(lines: Seq<Seq<char>>, p: Seq<char>)
    ensures
        spec_plugin_names(lines).contains(p) <==> (p.len() > 0 && exists|j: int|
            0 <= j < lines.len() && trimmed(#[trigger] lines[j]) == p),
    decreases lines.len(),
{
    if lines.len() > 0 {
        let init = lines.drop_last();
        lemma_plugin_names_are_the_nonblank_lines(init, p);
        let prev = spec_plugin_names(init);
        let t = trimmed(lines.last());
        let out = spec_plugin_names(lines);
        if out.contains(p) {
            let k = choose|k: int| 0 <= k < out.len() && out[k] == p;
            if t.len() > 0 && k == prev.len() {
                assert(lines[lines.len() - 1] == lines.last());
            } else {
                assert(prev[k] == p);
                let j = choose|j: int| 0 <= j < init.len() && trimmed(#[trigger] init[j]) == p;
                assert(lines[j] == init[j]);
            }
        }
        if p.len() > 0 && exists|j: int| 0 <= j < lines.len() && trimmed(#[trigger] lines[j]) == p {
            let j = choose|j: int| 0 <= j < lines.len() && trimmed(#[trigger] lines[j]) == p;
            if j == lines.len() - 1 {
                assert(out[prev.len() as int] == p);
            } else {
                assert(init[j] == lines[j]);
                let k = choose|k: int| 0 <= k < prev.len() && prev[k] == p;
                assert(out[k] == p);
            }
        }
    }
}

} // verus!
