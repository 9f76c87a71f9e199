//! Reading a file of lines, where an empty file is an error.
use vstd::prelude::*;
use crate::error::AppError;
use crate::models::lines::{spec_split_lines, split_lines};
use crate::text::strings_view;

verus! {

/// Reads files of lines.
#[derive(Debug)]
pub struct IO;

/// The lines of a file's contents; no lines at all is an error.
pub open spec fn spec_read_lines(contents: Seq<char>) -> Option<Seq<Seq<char>>> {
    if spec_split_lines(contents).len() == 0 {
        None
    } else {
        Some(spec_split_lines(contents))
    }
}

impl IO {
    pub fn new() -> (res: Self) {
        IO
    }

    /// The lines of a file holding `contents`; `Unexpected("File is empty")`
    /// where it has none.
    pub fn read_lines(&self, contents: &str) -> (res: Result<Vec<String>, AppError>)
        ensures
            spec_read_lines(contents@) matches Some(ls) ==> (res matches Ok(v) && strings_view(v@) == ls),
            spec_read_lines(contents@) is None ==> (res matches Err(AppError::Unexpected(m)) && m@
                == "File is empty"@),
    {
        let lines = split_lines(contents);
        if lines.len() == 0 {
            Err(AppError::Unexpected(String::from_str("File is empty")))
        } else {
            Ok(lines)
        }
    }
}

/// The lines of a file holding `contents`, as `IO::read_lines` gives them.
pub fn read_lines(contents: &str) -> (res: Result<Vec<String>, AppError>)
    ensures
        spec_read_lines(contents@) matches Some(ls) ==> (res matches Ok(v) && strings_view(v@) == ls),
        spec_read_lines(contents@) is None ==> (res matches Err(AppError::Unexpected(m)) && m@
            == "File is empty"@),
{
    IO.read_lines(contents)
}

impl Default for IO {
    /// A reader; it holds no state.
    fn default() -> (res: Self)
        ensures
            res == IO,
    {
        IO::new()
    }
}

} // verus!
