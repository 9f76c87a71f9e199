//! The load configuration: which dotfile directories to link and which
//! provisioning scripts to run.
use vstd::prelude::*;

verus! {

/// The load configuration.
#[derive(Debug, Clone)]
pub struct Config {
    pub link: Option<Vec<Link>>,
    pub provision: Option<Vec<Provision>>,
}

/// A dotfile directory to link.
#[derive(Debug, Clone)]
pub struct Link {
    pub location: String,
}

/// A provisioning script and the operating system it is meant for.
#[derive(Debug, Clone)]
pub struct Provision {
    pub mode: String,
    pub script: String,
}

impl Config {
    /// A configuration with neither links nor provisioning scripts.
    pub fn new() -> (res: Self)
        ensures
            res.link is None,
            res.provision is None,
    {
        Config { link: None, provision: None }
    }
}

impl Default for Config {
    /// A configuration with neither links nor provisioning scripts.
    fn default() -> (res: Self)
        ensures
            res.link is None,
            res.provision is None,
    {
        Config::new()
    }
}

} // verus!
