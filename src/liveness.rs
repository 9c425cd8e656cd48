//! The heartbeat: a line written after every interval of sleep, forever.

use vstd::prelude::*;

verus! {

/// Seconds slept between two heartbeats.
pub const HEARTBEAT_INTERVAL_SECS: u64 = 30;

/// The line written at each heartbeat.
pub const HEARTBEAT_LINE: &'static str = "Test";

/// Counts the heartbeats written so far.
#[derive(Debug, Clone, Copy, PartialEq, Eq, Structural)]
pub struct Watchdog {
    pub beats: u64,
}

impl Watchdog {
    /// A watchdog that has written no heartbeat yet.
    pub fn new() -> (r: Watchdog)
        ensures
            r.beats == 0,
    {
        Watchdog { beats: 0 }
    }

    /// Called once an interval has passed: gives the one line to write for it.
    pub fn wake(&mut self) -> (line: &'static str)
        requires
            old(self).beats < u64::MAX,
        ensures
            final(self).beats == old(self).beats + 1,
            line@ == HEARTBEAT_LINE@,
    {
        self.beats = self.beats + 1;
        HEARTBEAT_LINE
    }
}

} // verus!
