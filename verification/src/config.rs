//! Settings of the manager: its name and version, the locations of backups
//! and of the package lists.
pub mod constants;

use vstd::prelude::*;

verus! {

/// The manager's settings: its name and version, its paths and its package
/// lists.
#[derive(Debug, Clone)]
pub struct Config {
    pub _app: AppConfig,
    pub paths: PathConfig,
    pub brew: BrewConfig,
}

/// The manager's name and version.
#[derive(Debug, Clone)]
pub struct AppConfig {
    pub _name: String,
    pub _version: String,
}

/// Where dotfiles and their backups live.
#[derive(Debug, Clone)]
pub struct PathConfig {
    pub _dotfiles: String,
    pub backups: String,
}

/// Where the Homebrew package lists live.
#[derive(Debug, Clone)]
pub struct BrewConfig {
    pub formula_file: String,
    pub cask_file: String,
}

} // verus!
