//! Linking, path, shell and prompt rules of the manager's services.
pub mod fs;
pub mod link;
pub mod os;
pub mod path;
pub mod prompt;
pub mod shell;
