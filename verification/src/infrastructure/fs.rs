//! Reading and writing text files as lists of lines.
use vstd::prelude::*;
use crate::models::lines::{render_lines, spec_render_lines, spec_split_lines, split_lines};
use crate::text::strings_view;

verus! {

/// Reads and writes files of lines.
#[derive(Debug)]
pub struct FileSystemOperationsImpl;

impl FileSystemOperationsImpl {
    pub fn new() -> (res: Self) {
        FileSystemOperationsImpl
    }

    /// The lines that `read_lines` gives for a file holding `contents`.
    pub fn lines_of(&self, contents: &str) -> (res: Vec<String>)
        ensures
            strings_view(res@) == spec_split_lines(contents@),
    {
        split_lines(contents)
    }

    /// What `write_lines` puts in a file: each line followed by `\n`.
    pub fn contents_of(&self, lines: &Vec<String>) -> (res: String)
        ensures
            res@ == spec_render_lines(strings_view(lines@)),
    {
        render_lines(lines)
    }
}

impl Default for FileSystemOperationsImpl {
    /// An operations value; it holds no state.
    fn default() -> (res: Self)
        ensures
            res == FileSystemOperationsImpl,
    {
        FileSystemOperationsImpl::new()
    }
}

} // verus!
