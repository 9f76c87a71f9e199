//! Which files a link run touches, and how each directory entry is handled.
use vstd::prelude::*;
use crate::constants::{LINK_IGNORED_ANCESTORS, LINK_IGNORED_FILES, LINK_IGNORED_PREFIXES};
use crate::models::path::{
    components, components_view, file_name, file_name_or_empty, has_normal_component,
    path_components, spec_file_name, PathComponent,
};
use crate::models::link::{results_view, FileProcessResult, FileProcessResultView};
use crate::models::path::{join, path_join};
use crate::text::{contains_str, starts_with_any, str_eq, strs_view};

verus! {

/// The pattern that a linkable file name matches.
pub const VALID_FILENAME_PATTERN: &'static str = "^[a-zA-Z0-9._-]+$";

/// A character of a linkable file name: an ASCII letter or digit, `.`, `_`
/// or `-`.
pub open spec fn is_filename_char(c: char) -> bool {
    let n = c as u32;
    (0x61 <= n && n <= 0x7a) || (0x41 <= n && n <= 0x5a) || (0x30 <= n && n <= 0x39) || n == 0x2e
        || n == 0x5f || n == 0x2d
}

/// One or more characters of linkable file names and nothing else: what
/// `VALID_FILENAME_PATTERN` matches, its class repeated by `+` between the
/// anchors `^` and `$` of the whole text.
pub open spec fn filename_chars_only(text: Seq<char>) -> bool {
    text.len() > 0 && forall|i: int| 0 <= i < text.len() ==> is_filename_char(#[trigger] text[i])
}

/// Compiles `pattern`, the pattern of linkable names, with
/// `regex::Regex::new` and asks `Regex::is_match` whether it matches `text`.
/// The pattern compiles, and its class repeated by `+` between the anchors
/// `^` and `$` matches exactly the texts of one or more such characters, as
/// the regex syntax documents them.
#[verifier::external_body]
fn regex_is_match(pattern: &str, text: &str) -> (res: Option<bool>)
    requires
        pattern@ == VALID_FILENAME_PATTERN@,
    ensures
        res == Some(filename_chars_only(text@)),
{
    match regex::Regex::new(pattern) {
        Ok(re) => Some(re.is_match(text)),
        Err(_) => None,
    }
}

pub open spec fn spec_is_ignored_file(name: Seq<char>) -> bool {
    strs_view(LINK_IGNORED_FILES@).contains(name)
}

pub open spec fn spec_has_ignored_prefix(name: Seq<char>) -> bool {
    exists|k: int|
        0 <= k < LINK_IGNORED_PREFIXES@.len() && (#[trigger] LINK_IGNORED_PREFIXES@[k])@.is_prefix_of(
            name,
        )
}

pub open spec fn spec_has_ignored_ancestor(p: Seq<char>) -> bool {
    has_normal_component(p, strs_view(LINK_IGNORED_ANCESTORS@))
}

/// The last two components are `git` and `ignore` or `git` and `config`.
pub open spec fn spec_is_git_ignore_or_config(p: Seq<char>) -> bool {
    let c = path_components(p);
    &&& c.len() >= 2
    &&& c[c.len() - 2] is Normal
    &&& c[c.len() - 1] is Normal
    &&& c[c.len() - 2]->Normal_0 == "git"@
    &&& (c[c.len() - 1]->Normal_0 == "ignore"@ || c[c.len() - 1]->Normal_0 == "config"@)
}

/// A path is ignored when its file name is ignored or has an ignored prefix,
/// when one of its ancestors is an ignored directory, or when it is a git
/// ignore or config file.
pub open spec fn spec_should_ignore(p: Seq<char>) -> bool {
    let name = file_name_or_empty(p);
    spec_is_ignored_file(name) || spec_has_ignored_prefix(name) || spec_has_ignored_ancestor(p)
        || spec_is_git_ignore_or_config(p)
}

/// Why a file name cannot be linked, given whether it matches the pattern
/// of linkable names (`None` where the pattern was not compiled).
pub open spec fn spec_filename_verdict(name: Seq<char>, matched: Option<bool>) -> Result<(), Seq<char>> {
    if name.len() == 0 {
        Err("Filename cannot be empty"@)
    } else if name == "."@ || name == ".."@ {
        Err("Filename cannot be '.' or '..'"@)
    } else if matched != Some(true) {
        Err("Filename contains invalid characters"@)
    } else {
        Ok(())
    }
}

/// Why a file name cannot be linked.
pub open spec fn spec_validate_filename(name: Seq<char>) -> Result<(), Seq<char>> {
    spec_filename_verdict(name, Some(filename_chars_only(name)))
}

pub open spec fn result_unit_view(r: Result<(), String>) -> Result<(), Seq<char>> {
    match r {
        Ok(()) => Ok(()),
        Err(e) => Err(e@),
    }
}

/// What a link run does with one entry of a source directory.
#[derive(Debug, Clone)]
pub enum LinkEntryStep {
    /// Leave the entry alone and report it as skipped.
    Skip(String),
    /// Create the target directory and link the source directory into it.
    Descend { source: String, target: String },
    /// Put a symlink to the source at the target, replacing whatever is there.
    Link { source: String, target: String },
}

/// What a materialize run does with one directory entry.
#[derive(Debug, Clone)]
pub enum MaterializeStep {
    /// Read the directory later.
    Descend(String),
    /// Replace the symlink by a copy of its target.
    Materialize(String),
    /// Leave the entry alone.
    Ignore,
}

/// Links dotfiles and materializes symlinks.
#[derive(Debug)]
pub struct LinkerImpl;

impl LinkerImpl {
    pub fn new() -> (res: Self) {
        LinkerImpl
    }

    /// A name can be linked when it is not empty, not `.` or `..`, and made
    /// of ASCII letters, digits, `.`, `_` and `-` only.
    pub fn validate_filename(&self, filename: &str) -> (res: Result<(), String>)
        ensures
            result_unit_view(res) == spec_validate_filename(filename@),
    {
        let matched = if filename.unicode_len() == 0 || str_eq(filename, ".") || str_eq(
            filename,
            "..",
        ) {
            None
        } else {
            regex_is_match(VALID_FILENAME_PATTERN, filename)
        };
        self.filename_verdict(filename, matched)
    }

    /// The verdict on a file name, given whether it matches the pattern of
    /// linkable names: empty names, `.` and `..` are refused first, then
    /// names that do not match.
    pub fn filename_verdict(&self, filename: &str, matched: Option<bool>) -> (res: Result<(), String>)
        ensures
            result_unit_view(res) == spec_filename_verdict(filename@, matched),
    {
        if filename.unicode_len() == 0 {
            return Err(String::from_str("Filename cannot be empty"));
        }
        if str_eq(filename, ".") || str_eq(filename, "..") {
            return Err(String::from_str("Filename cannot be '.' or '..'"));
        }
        match matched {
            Some(true) => Ok(()),
            _ => Err(String::from_str("Filename contains invalid characters")),
        }
    }

    pub fn is_ignored_file(&self, file_name: &str) -> (res: bool)
        ensures
            res == spec_is_ignored_file(file_name@),
    {
        contains_str(&LINK_IGNORED_FILES, file_name)
    }

    pub fn has_ignored_prefix(&self, file_name: &str) -> (res: bool)
        ensures
            res == spec_has_ignored_prefix(file_name@),
    {
        starts_with_any(&LINK_IGNORED_PREFIXES, file_name)
    }

    pub fn has_ignored_ancestor(&self, path: &str) -> (res: bool)
        ensures
            res == spec_has_ignored_ancestor(path@),
    {
        let comps = components(path);
        let ghost cv = components_view(comps@);
        let mut k: usize = 0;
        while k < comps.len()
            invariant
                cv == components_view(comps@),
                cv == path_components(path@),
                k <= comps@.len(),
                forall|j: int|
                    0 <= j < k ==> !((#[trigger] cv[j]) is Normal && strs_view(
                        LINK_IGNORED_ANCESTORS@,
                    ).contains(cv[j]->Normal_0)),
            decreases comps@.len() - k,
        {
            assert(cv[k as int] == comps@[k as int]@);
            match &comps[k] {
                PathComponent::Normal(name) => {
                    if contains_str(&LINK_IGNORED_ANCESTORS, name.as_str()) {
                        return true;
                    }
                },
                _ => {},
            }
            k = k + 1;
        }
        false
    }

    pub fn is_git_ignore_or_config(&self, path: &str) -> (res: bool)
        ensures
            res == spec_is_git_ignore_or_config(path@),
    {
        let comps = components(path);
        let ghost cv = components_view(comps@);
        let len = comps.len();
        if len < 2 {
            return false;
        }
        assert(cv[len - 2] == comps@[len - 2]@);
        assert(cv[len - 1] == comps@[len - 1]@);
        match (&comps[len - 2], &comps[len - 1]) {
            (PathComponent::Normal(dir), PathComponent::Normal(file)) => {
                str_eq(dir.as_str(), "git") && (str_eq(file.as_str(), "ignore") || str_eq(
                    file.as_str(),
                    "config",
                ))
            },
            _ => false,
        }
    }

    /// The report a link run starts with: the target directory is created
    /// where it does not exist yet.
    pub fn plan_target(&self, target: &str, target_exists: bool) -> (res: Vec<FileProcessResult>)
        ensures
            target_exists ==> res@.len() == 0,
            !target_exists ==> results_view(res@) == seq![FileProcessResultView::Created(target@)],
    {
        let mut res: Vec<FileProcessResult> = Vec::new();
        if !target_exists {
            res.push(FileProcessResult::Created(String::from_str(target)));
            assert(results_view(res@) =~= seq![FileProcessResultView::Created(target@)]);
        }
        res
    }

    /// An entry with an invalid name or an ignored path is skipped; a
    /// directory is descended into, under the same name in the target; a
    /// file is linked under the same name in the target.
    pub fn plan_link_entry(&self, target: &str, source_path: &str, name: &str, is_dir: bool) -> (res:
        LinkEntryStep)
        ensures
            spec_validate_filename(name@) is Err ==> (res matches LinkEntryStep::Skip(p) && p@
                == source_path@),
            spec_validate_filename(name@) is Ok && spec_should_ignore(source_path@) ==> (
            res matches LinkEntryStep::Skip(p) && p@ == source_path@),
            spec_validate_filename(name@) is Ok && !spec_should_ignore(source_path@) && is_dir ==> (
            res matches LinkEntryStep::Descend { source, target: t } && source@ == source_path@ && t@
                == path_join(target@, name@)),
            spec_validate_filename(name@) is Ok && !spec_should_ignore(source_path@) && !is_dir ==> (
            res matches LinkEntryStep::Link { source, target: t } && source@ == source_path@ && t@
                == path_join(target@, name@)),
    {
        if self.validate_filename(name).is_err() {
            return LinkEntryStep::Skip(String::from_str(source_path));
        }
        if self.should_ignore(source_path) {
            return LinkEntryStep::Skip(String::from_str(source_path));
        }
        let dst = join(target, name);
        if is_dir {
            LinkEntryStep::Descend { source: String::from_str(source_path), target: dst }
        } else {
            LinkEntryStep::Link { source: String::from_str(source_path), target: dst }
        }
    }

    /// What a link run reports for a step once it is done: a skipped entry
    /// as skipped, a made symlink as linked; a directory that is descended
    /// into is reported by the entries under it, not by itself.
    pub fn step_result(&self, step: &LinkEntryStep) -> (res: Option<FileProcessResult>)
        ensures
            step matches LinkEntryStep::Skip(p) ==> (res matches Some(r) && r@
                == FileProcessResultView::Skipped(p@)),
            step matches LinkEntryStep::Link { source, target } ==> (res matches Some(r) && r@
                == FileProcessResultView::Linked(source@, target@)),
            step is Descend ==> res is None,
    {
        match step {
            LinkEntryStep::Skip(p) => Some(FileProcessResult::Skipped(p.clone())),
            LinkEntryStep::Link { source, target } => Some(
                FileProcessResult::Linked(source.clone(), target.clone()),
            ),
            LinkEntryStep::Descend { .. } => None,
        }
    }

    /// Directories are read later, symlinks are materialized, anything else
    /// is left alone.
    pub fn plan_materialize_entry(&self, path: &str, is_dir: bool, is_symlink: bool) -> (res:
        MaterializeStep)
        ensures
            is_dir ==> (res matches MaterializeStep::Descend(p) && p@ == path@),
            !is_dir && is_symlink ==> (res matches MaterializeStep::Materialize(p) && p@ == path@),
            !is_dir && !is_symlink ==> res is Ignore,
    {
        if is_dir {
            MaterializeStep::Descend(String::from_str(path))
        } else if is_symlink {
            MaterializeStep::Materialize(String::from_str(path))
        } else {
            MaterializeStep::Ignore
        }
    }

    /// Whether a path is left out of a link run.
    pub fn should_ignore(&self, path: &str) -> (res: bool)
        ensures
            res == spec_should_ignore(path@),
    {
        let name = match file_name(path) {
            Some(n) => n,
            None => String::new(),
        };
        self.is_ignored_file(name.as_str()) || self.has_ignored_prefix(name.as_str())
            || self.has_ignored_ancestor(path) || self.is_git_ignore_or_config(path)
    }
}

impl Default for LinkerImpl {
    /// A linker; it holds no state.
    fn default() -> (res: Self)
        ensures
            res == LinkerImpl,
    {
        LinkerImpl::new()
    }
}

} // verus!
