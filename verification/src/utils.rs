//! Reading line lists and run files.
pub mod io;
pub mod yaml;
pub mod yaml_loader;
pub mod toml;
