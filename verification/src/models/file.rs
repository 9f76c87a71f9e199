//! A file or directory as the file system describes it.
use vstd::prelude::*;

verus! {

/// A moment in UTC: whole seconds since the Unix epoch and the nanoseconds
/// past them.
#[derive(Debug, Clone, Copy, PartialEq, Eq, Structural)]
pub struct Timestamp {
    pub seconds: i64,
    pub nanos: u32,
}

/// A file or directory of the file system.
#[derive(Debug, Clone)]
pub struct File {
    /// The path to the file or directory.
    pub path: String,
    /// Whether this is a directory.
    pub is_directory: bool,
    /// When it was last changed, where known.
    pub last_modified: Option<Timestamp>,
    /// Its size in bytes.
    pub size: u64,
}

impl File {
    pub fn new(path: String, is_directory: bool, last_modified: Option<Timestamp>, size: u64) -> (res:
        Self)
        ensures
            res.path == path,
            res.is_directory == is_directory,
            res.last_modified == last_modified,
            res.size == size,
    {
        File { path, is_directory, last_modified, size }
    }
}

} // verus!
