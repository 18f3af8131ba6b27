//! Whether a cached transport is still alive: a Ping is sent on it and
//! the next frame, awaited for at most `PROBE_TIMEOUT_MS`, decides.

use vstd::prelude::*;

verus! {

/// How long a probe waits for the answer to its Ping, in milliseconds.
pub const PROBE_TIMEOUT_MS: u64 = 1000;

/// What a probe saw.
#[derive(Clone, Copy, Debug, PartialEq, Eq, Structural)]
pub enum ProbeOutcome {
    /// The Ping could not be sent.
    SendFailed,
    /// No frame came within the timeout.
    TimedOut,
    /// The peer closed the connection.
    Closed,
    /// Reading failed.
    SocketError,
    /// A Pong came back.
    Pong,
    /// The peer's own Ping came in the same window.
    Ping,
    /// A frame of another kind came.
    OtherFrame,
}

/// A transport is alive exactly when the probe got a Pong or a Ping back.
pub fn is_alive(outcome: ProbeOutcome) -> (r: bool)
    ensures
        r == (outcome == ProbeOutcome::Pong || outcome == ProbeOutcome::Ping),
{
    match outcome {
        ProbeOutcome::Pong => true,
        ProbeOutcome::Ping => true,
        _ => false,
    }
}

} // verus!
