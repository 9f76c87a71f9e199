//! The run-file driven commands: link, materialize, run, deploy, and the
//! package, shell and editor operations.
pub mod link;
pub mod brew;
pub mod fish;
pub mod fisher;
pub mod vscode;
pub mod deploy;
pub mod materialize;
pub mod run;
