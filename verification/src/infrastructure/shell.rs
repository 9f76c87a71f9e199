//! Running commands and reading what they print.
pub mod executor;
