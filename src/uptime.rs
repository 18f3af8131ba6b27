//! The time stamp of log lines: the time since the node started, as
//! hours, minutes and seconds.

use vstd::prelude::*;
use crate::text::{two_digits, push_two_digits};

verus! {

/// `elapsed` seconds as `HH:MM:SS`; the hours grow past two digits as needed.
pub open spec fn uptime_text(elapsed: nat) -> Seq<char> {
    two_digits(elapsed / 3600) + ":"@ + two_digits((elapsed / 60) % 60) + ":"@ + two_digits(elapsed % 60)
}

/// A clock of the time since a start instant, in whole seconds.
pub struct UptimeTimer {
    start: u64,
}

impl UptimeTimer {
    pub closed spec fn start_spec(&self) -> u64 {
        self.start
    }

    /// A timer started at `start` seconds on the caller's clock.
    pub fn new(start: u64) -> (r: Self)
        ensures
            r.start_spec() == start,
    {
        UptimeTimer { start }
    }

    /// The time stamp at `now` seconds on the same clock; a `now` before the
    /// start counts as no time at all.
    pub fn format_time(&self, now: u64) -> (r: String)
        ensures
            r@ == uptime_text(if now >= self.start_spec() { (now - self.start_spec()) as nat } else { 0 }),
    {
        let elapsed: u64 = if now >= self.start { now - self.start } else { 0 };
        let mut s = String::new();
        push_two_digits(&mut s, elapsed / 3600);
        s.append(":");
        push_two_digits(&mut s, (elapsed / 60) % 60);
        s.append(":");
        push_two_digits(&mut s, elapsed % 60);
        s
    }
}

} // verus!
