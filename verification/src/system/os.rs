//! Which operating system the run-file commands run on.
use vstd::prelude::*;
use crate::error::AppError;
use crate::text::str_eq;

verus! {

/// Names the operating system: `mac`, `linux` or `unknown`.
#[derive(Debug)]
pub struct OSDetector;

/// The short name of a system the program was built for.
pub open spec fn spec_short_os_name(target_os: Seq<char>) -> Seq<char> {
    if target_os == "macos"@ {
        "mac"@
    } else if target_os == "linux"@ {
        "linux"@
    } else {
        "unknown"@
    }
}

impl OSDetector {
    pub fn new() -> (res: Self) {
        OSDetector
    }

    /// The short name of the system the program was built for
    /// (`target_os`); it never fails.
    pub fn get_os_for(&self, target_os: &str) -> (res: Result<String, AppError>)
        ensures
            res matches Ok(r) && r@ == spec_short_os_name(target_os@),
    {
        if str_eq(target_os, "macos") {
            Ok(String::from_str("mac"))
        } else if str_eq(target_os, "linux") {
            Ok(String::from_str("linux"))
        } else {
            Ok(String::from_str("unknown"))
        }
    }
}

impl Default for OSDetector {
    /// A detector; it holds no state.
    fn default() -> (res: Self)
        ensures
            res == OSDetector,
    {
        OSDetector::new()
    }
}

} // verus!
