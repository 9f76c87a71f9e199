//! Which operating system the manager runs on.
use vstd::prelude::*;
use crate::service_error::AppError;
use crate::text::str_eq;

verus! {

/// Names the operating system the manager supports.
#[derive(Debug)]
pub struct OSDetector;

/// macOS and Linux are supported; any other system is not.
pub open spec fn spec_os_name(target_os: Seq<char>) -> Option<Seq<char>> {
    if target_os == "macos"@ {
        Some("macos"@)
    } else if target_os == "linux"@ {
        Some("linux"@)
    } else {
        None
    }
}

impl OSDetector {
    pub fn new() -> (res: Self) {
        OSDetector
    }

    /// The name of the system the program was built for (`target_os`):
    /// `macos`, `linux`, or `UnsupportedOS("Unknown")` for any other.
    pub fn get_os_for(&self, target_os: &str) -> (res: Result<String, AppError>)
        ensures
            spec_os_name(target_os@) matches Some(n) ==> (res matches Ok(r) && r@ == n),
            spec_os_name(target_os@) is None ==> (res matches Err(AppError::UnsupportedOS(m))
                && m@ == "Unknown"@),
    {
        if str_eq(target_os, "macos") {
            Ok(String::from_str("macos"))
        } else if str_eq(target_os, "linux") {
            Ok(String::from_str("linux"))
        } else {
            Err(AppError::UnsupportedOS(String::from_str("Unknown")))
        }
    }
}

impl Default for OSDetector {
    /// A detector; it holds no state.
    fn default() -> (res: Self)
        ensures
            res == OSDetector,
    {
        OSDetector::new()
    }
}

} // verus!
