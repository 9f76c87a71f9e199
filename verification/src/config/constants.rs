//! Names and locations used by the run-file driven commands.
use vstd::prelude::*;

verus! {

pub const BREW_FORMULA_FILENAME: &'static str = "formula.txt";

pub const BREW_CASK_FORMULA_FILENAME: &'static str = "cask-formula.txt";

pub const APP_RESOURCE_DIR: &'static str = "resources";

pub const DEPLOY_SOURCE_PATH: &'static str = "target/release/widots";

pub const DEPLOY_DESTINATION_PATH: &'static str = "/usr/local/bin/widots";

pub const LINK_TEST_DIR: &'static str = ".widots_test";

pub const VSCODE_EXTENSIONS_FILENAME: &'static str = "vscode-extensions.txt";

pub const FISH_COMPLETIONS_SOURCE_PATH: &'static str = "completions/widots.fish";

pub const FISH_COMPLETIONS_TARGET_DIR: &'static str = ".config/fish/completions";

pub const FISH_COMPLETIONS_FILENAME: &'static str = "widots.fish";

/// File names that are never linked.
pub const LINK_IGNORED_FILES: [&'static str; 4] = [
    ".DS_Store",
    ".fseventsd",
    ".Spotlight-V100",
    ".Trashes",
];

/// File name prefixes whose files are never linked.
pub const LINK_IGNORED_PREFIXES: [&'static str; 1] = ["._"];

/// Directory names whose contents are never linked.
pub const LINK_IGNORED_ANCESTORS: [&'static str; 2] = [".git", "node_modules"];

/// File names that are never linked from a directory named `git`.
pub const LINK_IGNORED_GIT_FILES: [&'static str; 2] = ["config", "ignore"];

} // verus!
