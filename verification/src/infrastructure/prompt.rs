//! Asking the user to confirm an action.
use vstd::prelude::*;

verus! {

/// Asks the user to confirm; with `force_yes`, every action is confirmed
/// without asking.
#[derive(Debug)]
pub struct Prompt {
    pub force_yes: bool,
}

impl Prompt {
    pub fn new(force_yes: bool) -> (res: Self)
        ensures
            res.force_yes == force_yes,
    {
        Prompt { force_yes }
    }

    /// The answer given without asking: yes when `force_yes` is set; else
    /// the user has to be asked.
    pub fn answer_without_asking(&self) -> (res: Option<bool>)
        ensures
            self.force_yes ==> res == Some(true),
            !self.force_yes ==> res is None,
    {
        if self.force_yes {
            Some(true)
        } else {
            None
        }
    }
}

impl Default for Prompt {
    /// A prompt that asks.
    fn default() -> (res: Self)
        ensures
            !res.force_yes,
    {
        Prompt::new(false)
    }
}

} // verus!
