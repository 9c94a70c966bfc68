//! The policy's configuration.
use vstd::prelude::*;

verus! {

/// Configuration given when the policy is loaded.
pub struct Settings {
    /// Deadline, in seconds, given to a run-once Pod whose namespace sets no
    /// override.
    pub default_active_deadline: i64,
}

impl Default for Settings {
    fn default() -> (r: Settings)
        ensures
            r.default_active_deadline == 0,
    {
        Settings { default_active_deadline: 0 }
    }
}

impl Settings {
    /// Every value of the settings is accepted.
    pub fn validate(&self) -> (r: Result<(), String>)
        ensures
            r is Ok,
    {
        Ok(())
    }
}

} // verus!
