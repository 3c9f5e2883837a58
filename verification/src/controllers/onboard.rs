//! The first-run setup.
use vstd::prelude::*;

verus! {

/// The command that writes a new configuration.
#[derive(Clone, Copy, Debug)]
pub struct OnboardController;

impl OnboardController {
    pub fn new() -> (r: Self) {
        OnboardController
    }

    /// Whether a new configuration is made: always when none can be read,
    /// else only when the user confirms overwriting it.
    pub fn should_initialize(config_readable: bool, overwrite_confirmed: bool) -> (r: bool)
        ensures
            r == (!config_readable || overwrite_confirmed),
    {
        if config_readable {
            overwrite_confirmed
        } else {
            true
        }
    }
}

} // verus!
