//! Building the program, installing it, and placing its fish completions.
use vstd::prelude::*;
use crate::text::strings_view;
use crate::config::constants::{
    DEPLOY_DESTINATION_PATH, DEPLOY_SOURCE_PATH, FISH_COMPLETIONS_FILENAME,
    FISH_COMPLETIONS_TARGET_DIR,
};
use crate::error::AppError;
use crate::models::path::{join, path_join};
use crate::models::shell::{Argument, Cmd};

verus! {

/// The shell command that builds the program.
pub const BUILD_COMMAND: &'static str = "cargo build --release";

/// Builds and installs the program.
pub struct Deployer;

impl Deployer {
    pub fn new() -> (res: Self) {
        Deployer
    }

    /// A failed build stops the deployment.
    pub fn build_outcome(&self, built: bool) -> (res: Result<(), AppError>)
        ensures
            built ==> res is Ok,
            !built ==> (res matches Err(AppError::Deployment(m)) && m@ == "Build failed"@),
    {
        if built {
            Ok(())
        } else {
            Err(AppError::Deployment(String::from_str("Build failed")))
        }
    }

    /// The built program must exist before it is installed.
    pub fn check_source(&self, source_exists: bool) -> (res: Result<(), AppError>)
        ensures
            source_exists ==> res is Ok,
            !source_exists ==> (res matches Err(AppError::FileNotFound(p)) && p@ == DEPLOY_SOURCE_PATH@),
    {
        if source_exists {
            Ok(())
        } else {
            Err(AppError::FileNotFound(String::from_str(DEPLOY_SOURCE_PATH)))
        }
    }

    /// The `sudo` steps that install the program: copy it into place, then
    /// make it executable.
    pub fn install_steps(&self) -> (res: Vec<(Cmd, Argument)>)
        ensures
            res@.len() == 2,
            res@[0].0 matches Cmd::Cmd(c) && c@ == "cp"@,
            res@[0].1 matches Argument::Args(a) && strings_view(a@) == seq![
                DEPLOY_SOURCE_PATH@,
                DEPLOY_DESTINATION_PATH@,
            ],
            res@[1].0 matches Cmd::Cmd(c) && c@ == "chmod"@,
            res@[1].1 matches Argument::Args(a) && strings_view(a@) == seq![
                "+x"@,
                DEPLOY_DESTINATION_PATH@,
            ],
    {
        let mut cp_args: Vec<String> = Vec::new();
        cp_args.push(String::from_str(DEPLOY_SOURCE_PATH));
        cp_args.push(String::from_str(DEPLOY_DESTINATION_PATH));
        assert(strings_view(cp_args@) =~= seq![DEPLOY_SOURCE_PATH@, DEPLOY_DESTINATION_PATH@]);
        let mut chmod_args: Vec<String> = Vec::new();
        chmod_args.push(String::from_str("+x"));
        chmod_args.push(String::from_str(DEPLOY_DESTINATION_PATH));
        assert(strings_view(chmod_args@) =~= seq!["+x"@, DEPLOY_DESTINATION_PATH@]);
        let mut res: Vec<(Cmd, Argument)> = Vec::new();
        res.push((Cmd::Cmd(String::from_str("cp")), Argument::Args(cp_args)));
        res.push((Cmd::Cmd(String::from_str("chmod")), Argument::Args(chmod_args)));
        res
    }

    /// The directory the completions file goes to, inside the home
    /// directory.
    pub fn completions_dir(&self, home: &str) -> (res: String)
        ensures
            res@ == path_join(home@, FISH_COMPLETIONS_TARGET_DIR@),
    {
        join(home, FISH_COMPLETIONS_TARGET_DIR)
    }

    /// Where the completions file goes.
    pub fn completions_target(&self, home: &str) -> (res: String)
        ensures
            res@ == path_join(path_join(home@, FISH_COMPLETIONS_TARGET_DIR@), FISH_COMPLETIONS_FILENAME@),
    {
        let dir = self.completions_dir(home);
        join(dir.as_str(), FISH_COMPLETIONS_FILENAME)
    }
}

} // verus!
