//! Reading the TOML configuration file; the parse itself is serde's work.
use vstd::prelude::*;

verus! {

/// Reads TOML configuration files.
#[derive(Debug)]
pub struct TomlParser;

impl TomlParser {
    pub fn new() -> (res: Self) {
        TomlParser
    }
}

} // verus!
