//! Operating system, path and shell rules of the run-file driven commands.
pub mod path;
pub mod os;
pub mod shell;
