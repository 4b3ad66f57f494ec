use vstd::prelude::*;

verus! {

/// Width of the reset pulse, in delay units (from the device datasheet).
pub const RESET_PULSE_MS: u32 = 10;

/// Budget for the busy line to clear after reset, in delay units (from the
/// device datasheet).
pub const RESET_TIMEOUT_MS: u32 = 100;

/// Polling interval used when the caller gives none.
pub const DEFAULT_POLL_MS: u32 = 100;

/// Driver configuration data.
#[derive(Clone, Copy, Debug, PartialEq, Eq, Structural)]
pub struct Config {
    /// Time to wait between two reads of the busy line. Zero is accepted but
    /// lets the wait for the busy line run for as long as it stays low.
    pub poll_ms: u32,
}

impl Default for Config {
    fn default() -> (r: Self)
        ensures
            r.poll_ms == DEFAULT_POLL_MS,
    {
        Config { poll_ms: DEFAULT_POLL_MS }
    }
}

} // verus!
