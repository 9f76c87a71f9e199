//! Widots: a dotfile manager.
//!
//! The library holds the decisions of the manager: how paths are split and
//! joined, which files are ignored when linking, how a link or materialize
//! run classifies each directory entry, how configuration trees are read,
//! which shell commands are issued, and how the command line is understood.
//! The program around it performs the file system and process work.
pub mod text;
pub mod models;
pub mod constants;
pub mod infrastructure;
pub mod error;
pub mod service_error;
pub mod config;
pub mod system;
pub mod commands;
pub mod application;
pub mod utils;
pub mod argv;
pub mod cli;
pub mod logger;
pub mod presentation;
