//! The structure of the YAML run file.
use vstd::prelude::*;

verus! {

/// The run file: links to create and provisioning scripts to run.
#[derive(Debug)]
pub struct RunFile {
    /// The list of links to create.
    pub link: Option<Vec<Link>>,
    /// The list of provisioning scripts to run.
    pub provision: Option<Vec<Provision>>,
}

/// A link to be created.
#[derive(Debug)]
pub struct Link {
    /// The location of the file to link.
    pub location: String,
}

/// A provisioning script to run.
#[derive(Debug)]
pub struct Provision {
    /// The mode in which to run the script.
    pub mode: String,
    /// The script to run.
    pub script: String,
}

impl RunFile {
    /// An empty run file.
    pub fn new() -> (res: Self)
        ensures
            res.link is None,
            res.provision is None,
    {
        RunFile { link: None, provision: None }
    }
}

impl Link {
    /// A link to `location`.
    pub fn new(location: String) -> (res: Self)
        ensures
            res.location == location,
    {
        Link { location }
    }
}

impl Provision {
    /// A script meant for `mode`.
    pub fn new(mode: String, script: String) -> (res: Self)
        ensures
            res.mode == mode,
            res.script == script,
    {
        Provision { mode, script }
    }
}

impl Default for RunFile {
    /// An empty run file.
    fn default() -> (res: Self)
        ensures
            res.link is None,
            res.provision is None,
    {
        RunFile::new()
    }
}

} // verus!
