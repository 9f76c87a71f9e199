//! Linking a dotfile tree into a target directory, and turning the links
//! back into plain files.
use vstd::prelude::*;
use crate::config::constants::{
    LINK_IGNORED_ANCESTORS, LINK_IGNORED_FILES, LINK_IGNORED_GIT_FILES, LINK_IGNORED_PREFIXES,
    LINK_TEST_DIR,
};
use crate::system::path::PathExpander;
use crate::models::link::FileProcessResult;
use crate::models::path::{
    components, components_view, file_name, has_normal_component, join, path_components,
    path_join, spec_file_name, spec_strip_prefix, strip_prefix, PathComponent, ComponentView,
    leading_components, lemma_components_after_separator, lemma_names_path_components, names_path,
    plain_name,
};
use crate::text::{contains_str, starts_with_any, str_eq, strs_view};

verus! {

/// The parent of a path is a directory named `git`.
pub open spec fn parent_is_git(p: Seq<char>) -> bool {
    let c = path_components(p);
    c.len() >= 2 && c[c.len() - 2] is Normal && c[c.len() - 2]->Normal_0 == "git"@
}

/// A path is left out of a link run when its file name is ignored, starts
/// with an ignored prefix, or is a git file inside a `git` directory, or
/// when one of its ancestors is an ignored directory.
pub open spec fn spec_should_ignore(p: Seq<char>) -> bool {
    (match spec_file_name(p) {
        Some(name) => strs_view(LINK_IGNORED_FILES@).contains(name) || (exists|k: int|
            0 <= k < LINK_IGNORED_PREFIXES@.len() && (#[trigger] LINK_IGNORED_PREFIXES@[k])@.is_prefix_of(
                name,
            )) || (parent_is_git(p) && strs_view(LINK_IGNORED_GIT_FILES@).contains(name)),
        None => false,
    }) || has_normal_component(p, strs_view(LINK_IGNORED_ANCESTORS@))
}

/// Where an entry of the source tree is linked to: the target directory
/// joined with the entry's path relative to the source directory.
pub open spec fn spec_entry_target(source: Seq<char>, target: Seq<char>, entry: Seq<char>) -> Option<
    Seq<char>,
> {
    match spec_strip_prefix(entry, source) {
        Some(rel) => Some(path_join(target, rel)),
        None => None,
    }
}

/// What a link run does with one entry of the source tree.
#[derive(Debug, Clone)]
pub enum LinkStep {
    /// Make a symlink at `target` to the file `source`.
    MakeSymlink { source: String, target: String },
    /// Create the directory.
    CreateDirectory(String),
    /// Leave the path alone.
    Skip(String),
}

/// What is done where a symlink is to be made.
#[derive(Debug, Clone, Copy, PartialEq, Eq, Structural)]
pub enum SymlinkPlan {
    /// Nothing is in the way: make the link.
    Create,
    /// Remove what is there, then make the link.
    ReplaceAndCreate,
    /// Something is there and may not be replaced.
    Skip,
}

/// The run-file driven linker.
pub struct Linker {
    path_expander: PathExpander,
}

impl Linker {
    /// The path expander the linker holds.
    pub closed spec fn held_expander(&self) -> PathExpander {
        self.path_expander
    }

    pub fn new(path_expander: PathExpander) -> (res: Self)
        ensures
            res.held_expander() == path_expander,
    {
        Linker { path_expander }
    }

    /// The path expander the linker reads its paths with.
    pub fn path_expander(&self) -> (res: &PathExpander)
        ensures
            *res == self.held_expander(),
    {
        &self.path_expander
    }

    /// Whether a path is left out of a link or materialize run.
    pub fn should_ignore(&self, path: &str) -> (res: bool)
        ensures
            res == spec_should_ignore(path@),
    {
        let by_name = match file_name(path) {
            Some(name) => {
                let n = name.as_str();
                contains_str(&LINK_IGNORED_FILES, n) || starts_with_any(&LINK_IGNORED_PREFIXES, n)
                    || (parent_is_git_exec(path) && contains_str(&LINK_IGNORED_GIT_FILES, n))
            },
            None => false,
        };
        by_name || has_ignored_ancestor(path)
    }

    /// Where the entry `entry` of the source tree `source` is linked to
    /// inside `target`; `None` where `entry` does not lie in `source`.
    pub fn entry_target(&self, source: &str, target: &str, entry: &str) -> (res: Option<String>)
        ensures
            crate::models::path::opt_string_view(res) == spec_entry_target(source@, target@, entry@),
    {
        match strip_prefix(entry, source) {
            Some(rel) => Some(join(target, rel.as_str())),
            None => None,
        }
    }

    /// A file gets a symlink; a directory is created where it does not exist
    /// yet and skipped where it does; anything else is skipped.
    pub fn plan_entry(
        &self,
        entry: &str,
        target: &str,
        is_file: bool,
        is_dir: bool,
        target_exists: bool,
    ) -> (res: LinkStep)
        ensures
            is_file ==> (res matches LinkStep::MakeSymlink { source, target: t } && source@ == entry@
                && t@ == target@),
            !is_file && is_dir && !target_exists ==> (res matches LinkStep::CreateDirectory(t)
                && t@ == target@),
            !is_file && is_dir && target_exists ==> (res matches LinkStep::Skip(t) && t@ == target@),
            !is_file && !is_dir ==> (res matches LinkStep::Skip(p) && p@ == entry@),
    {
        if is_file {
            LinkStep::MakeSymlink { source: String::from_str(entry), target: String::from_str(target) }
        } else if is_dir {
            if !target_exists {
                LinkStep::CreateDirectory(String::from_str(target))
            } else {
                LinkStep::Skip(String::from_str(target))
            }
        } else {
            LinkStep::Skip(String::from_str(entry))
        }
    }

    /// Something in the way of a new symlink is replaced only when `force`
    /// is given.
    pub fn plan_make_symlink(&self, target_exists: bool, force: bool) -> (res: SymlinkPlan)
        ensures
            !target_exists ==> res == SymlinkPlan::Create,
            target_exists && force ==> res == SymlinkPlan::ReplaceAndCreate,
            target_exists && !force ==> res == SymlinkPlan::Skip,
    {
        if target_exists {
            if force {
                SymlinkPlan::ReplaceAndCreate
            } else {
                SymlinkPlan::Skip
            }
        } else {
            SymlinkPlan::Create
        }
    }

    /// A symlink is materialized when it is not ignored.
    pub fn should_materialize(&self, path: &str, is_symlink: bool) -> (res: bool)
        ensures
            res == (!spec_should_ignore(path@) && is_symlink),
    {
        !self.should_ignore(path) && is_symlink
    }
}

fn parent_is_git_exec(path: &str) -> (res: bool)
    ensures
        res == parent_is_git(path@),
{
    let comps = components(path);
    let n = comps.len();
    if n < 2 {
        return false;
    }
    assert(components_view(comps@)[n - 2] == comps@[n - 2]@);
    match &comps[n - 2] {
        PathComponent::Normal(dir) => str_eq(dir.as_str(), "git"),
        _ => false,
    }
}

fn has_ignored_ancestor(path: &str) -> (res: bool)
    ensures
        res == has_normal_component(path@, strs_view(LINK_IGNORED_ANCESTORS@)),
{
    let comps = components(path);
    let ghost cv = components_view(comps@);
    let mut k: usize = 0;
    while k < comps.len()
        invariant
            cv == components_view(comps@),
            cv == path_components(path@),
            k <= comps@.len(),
            forall|j: int|
                0 <= j < k ==> !((#[trigger] cv[j]) is Normal && strs_view(
                    LINK_IGNORED_ANCESTORS@,
                ).contains(cv[j]->Normal_0)),
        decreases comps@.len() - k,
    {
        assert(cv[k as int] == comps@[k as int]@);
        match &comps[k] {
            PathComponent::Normal(name) => {
                if contains_str(&LINK_IGNORED_ANCESTORS, name.as_str()) {
                    return true;
                }
            },
            _ => {},
        }
        k = k + 1;
    }
    false
}

/// The directory that `make_symlinks` links into: the home directory, or
/// its test directory when `test` is set.
pub fn symlink_target_dir(home: &str, test: bool) -> (res: String)
    ensures
        test ==> res@ == path_join(home@, LINK_TEST_DIR@),
        !test ==> res@ == home@,
{
    if test {
        join(home, LINK_TEST_DIR)
    } else {
        String::from_str(home)
    }
}

/// A link run mirrors the source tree: the entry found at some plain names
/// below the source directory is linked to the same names below the target
/// directory.
pub proof fn lemma_entry_target_mirrors_source(
    source: Seq<char>,
    target: Seq<char>,
    names: Seq<Seq<char>>,
)
    requires
        source.len() > 0,
        names.len() > 0,
        forall|k: int| 0 <= k < names.len() ==> plain_name(#[trigger] names[k]),
    ensures
        spec_entry_target(source, target, source + seq!['/'] + names_path(names)) == Some(
            path_join(target, names_path(names)),
        ),
{
    let rel = names_path(names);
    let cs = names.map_values(|n: Seq<char>| ComponentView::Normal(n));
    lemma_names_path_components(names);
    assert(cs[0] == ComponentView::Normal(names[0]));
    assert(leading_components(rel) =~= Seq::<ComponentView>::empty()) by {
        let l = leading_components(rel);
        if l.len() > 0 {
            assert(path_components(rel)[0] == l[0]);
        }
    }
    lemma_components_after_separator(source, rel);
    let c = path_components(source + seq!['/'] + rel);
    let b = path_components(source);
    assert(b.is_prefix_of(c)) by {
        assert(c.subrange(0, b.len() as int) =~= b);
    }
    assert(c.skip(b.len() as int) =~= cs);
}

/// Apart from the other rules (ignored names and prefixes, ignored
/// directories on the way), a file is left out of a link run exactly when
/// it is one of the git files and sits directly in a directory named `git`;
/// a `config` anywhere else, such as `.ssh/config`, is linked.
pub proof fn lemma_git_files_ignored_only_in_git_directory(p: Seq<char>, name: Seq<char>)
    requires
        spec_file_name(p) == Some(name),
        !strs_view(LINK_IGNORED_FILES@).contains(name),
        forall|k: int|
            0 <= k < LINK_IGNORED_PREFIXES@.len() ==> !(#[trigger] LINK_IGNORED_PREFIXES@[k])@.is_prefix_of(name),
        forall|k: int|
            0 <= k < path_components(p).len() && (#[trigger] path_components(p)[k]) is Normal
                ==> !strs_view(LINK_IGNORED_ANCESTORS@).contains(path_components(p)[k]->Normal_0),
    ensures
        spec_should_ignore(p) <==> ({
            let c = path_components(p);
            &&& c.len() >= 2
            &&& c[c.len() - 2] == ComponentView::Normal("git"@)
            &&& strs_view(LINK_IGNORED_GIT_FILES@).contains(name)
        }),
{
}

/// Each rule on its own leaves a path out of a link run: an ignored file
/// name, a name with an ignored prefix, a git file directly inside a
/// directory named `git`, or an ignored directory anywhere on the path.
pub proof fn lemma_each_rule_ignores(p: Seq<char>, k: int)
    ensures
        spec_file_name(p) matches Some(name) && strs_view(LINK_IGNORED_FILES@).contains(name)
            ==> spec_should_ignore(p),
        spec_file_name(p) matches Some(name) && 0 <= k < LINK_IGNORED_PREFIXES@.len()
            && LINK_IGNORED_PREFIXES@[k]@.is_prefix_of(name) ==> spec_should_ignore(p),
        spec_file_name(p) matches Some(name) && strs_view(LINK_IGNORED_GIT_FILES@).contains(name)
            && path_components(p).len() >= 2 && path_components(p)[path_components(p).len() - 2]
            == ComponentView::Normal("git"@) ==> spec_should_ignore(p),
        0 <= k < path_components(p).len() && path_components(p)[k] is Normal
            && strs_view(LINK_IGNORED_ANCESTORS@).contains(path_components(p)[k]->Normal_0)
            ==> spec_should_ignore(p),
{
}

} // verus!
