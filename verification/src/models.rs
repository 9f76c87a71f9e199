//! The data that the manager's decisions work on.
pub mod path;
pub mod link;
pub mod shell;
pub mod config;
pub mod yaml;
pub mod lines;
pub mod file;
