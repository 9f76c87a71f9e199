//! Names and locations that the manager's rules refer to.
use vstd::prelude::*;

verus! {

/// File names that are never linked.
pub const LINK_IGNORED_FILES: [&'static str; 2] = [".DS_Store", ".gitignore"];

/// File name prefixes whose files are never linked.
pub const LINK_IGNORED_PREFIXES: [&'static str; 1] = ["_"];

/// Directory names whose contents are never linked.
pub const LINK_IGNORED_ANCESTORS: [&'static str; 2] = [".git", "node_modules"];

pub const APP_NAME: &'static str = "widots";

pub const DEFAULT_CONFIG_TOML: &'static str = "~/.config/widots/config.toml";

pub const TEST_HOME_DIR: &'static str = ".widots-test";

pub const BREW_FORMULA_FILENAME: &'static str = "brew_formulas.txt";

pub const BREW_CASK_FORMULA_FILENAME: &'static str = "brew_casks.txt";

pub const RESOURCES_DIR: &'static str = "resources";

pub const VSCODE_EXTENSIONS_FILENAME: &'static str = "vscode_extensions.txt";

pub const DEPLOY_SOURCE_PATH: &'static str = "target/release/widots";

pub const DEPLOY_DESTINATION_PATH: &'static str = "/usr/local/bin/widots";

pub const FISH_COMPLETIONS_SOURCE_PATH: &'static str = "completions/widots.fish";

pub const FISH_COMPLETIONS_TARGET_DIR: &'static str = "~/.config/fish/completions";

pub const FISH_COMPLETIONS_FILENAME: &'static str = "widots.fish";

} // verus!
