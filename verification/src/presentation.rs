//! The command line of the program.
pub mod cli;
pub mod commands;
