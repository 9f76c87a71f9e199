//! Expanding `~` to the user's home directory.
use vstd::prelude::*;
use crate::models::path::{expand_tilde_with_home, spec_expand_tilde, starts_with_tilde};
use crate::service_error::AppError;

verus! {

/// The user's home directory as `dirs::home_dir` reports it, where it has
/// one that is valid UTF-8. It depends on the environment, so nothing is
/// claimed of it. Paths in this library are text, so a home directory whose
/// name is not valid UTF-8 comes back as `None`: converting it lossily would
/// name another directory.
#[verifier::external_body]
pub(crate) fn home_dir() -> (res: Option<String>) {
    match dirs::home_dir() {
        Some(p) => p.to_str().map(|s| s.to_string()),
        None => None,
    }
}

/// Expands `~` in paths.
#[derive(Debug)]
pub struct PathExpander;

impl PathExpander {
    pub fn new() -> (res: Self) {
        PathExpander
    }

    /// The user's home directory; `DirectoryNotFound` where it has none (or
    /// one whose name is not valid UTF-8).
    pub fn get_home_dir(&self) -> (res: Result<String, AppError>)
        ensures
            res is Err ==> res matches Err(AppError::DirectoryNotFound),
    {
        match home_dir() {
            Some(h) => Ok(h),
            None => Err(AppError::DirectoryNotFound),
        }
    }

    /// A path whose first component is `~` gets the home directory in its
    /// place; every other path is returned as it is.
    pub fn expand_tilde(&self, path: &str) -> (res: Result<String, AppError>)
        ensures
            !starts_with_tilde(path@) ==> (res matches Ok(r) && r@ == path@),
            starts_with_tilde(path@) ==> match res {
                Ok(r) => exists|h: Seq<char>| #[trigger] spec_expand_tilde(path@, h) == r@,
                Err(e) => e is DirectoryNotFound,
            },
    {
        if !crate::models::path::path_starts_with_tilde(path) {
            return Ok(String::from_str(path));
        }
        let home = self.get_home_dir()?;
        let r = expand_tilde_with_home(path, home.as_str());
        assert(spec_expand_tilde(path@, home@) == r@);
        Ok(r)
    }
}

impl Default for PathExpander {
    /// An expander; it holds no state.
    fn default() -> (res: Self)
        ensures
            res == PathExpander,
    {
        PathExpander::new()
    }
}

} // verus!
