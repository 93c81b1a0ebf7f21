//! The verbose-logging switch.
//!
//! The flag is a value owned by the application context and passed by
//! handle; printing itself is the caller's business.

use vstd::prelude::*;

verus! {

/// Whether verbose logging is enabled.
#[derive(Debug, Clone, Copy, PartialEq, Eq, Structural)]
pub struct Verbosity {
    /// The switch.
    pub enabled: bool,
}

impl Verbosity {
    /// Logging starts quiet.
    pub fn new() -> (v: Self)
        ensures
            v.enabled == false,
    {
        Verbosity { enabled: false }
    }

    /// Enable or disable verbose logging.
    pub fn set_verbose(&mut self, enabled: bool)
        ensures
            final(self).enabled == enabled,
    {
        self.enabled = enabled;
    }

    /// Whether verbose logging is enabled.
    pub fn is_verbose(&self) -> (r: bool)
        ensures
            r == self.enabled,
    {
        self.enabled
    }
}

} // verus!
