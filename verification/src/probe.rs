//! The probe of the listen address.

use vstd::prelude::*;

verus! {

/// How one bounded attempt to connect to the listen address ended.
#[derive(Clone, Copy, Debug, PartialEq, Eq, Structural)]
pub enum ProbeOutcome {
    /// The connection was made.
    Connected,
    /// The peer refused the connection.
    Refused,
    /// No answer came within the time allowed.
    TimedOut,
    /// The host could not be reached.
    Unreachable,
    /// Any other failure.
    Failed,
}

/// Something listens only where the connection was made. Every failure
/// counts as no listener, and nothing is tried again.
pub fn is_listening(outcome: ProbeOutcome) -> (listening: bool)
    ensures
        listening == (outcome == ProbeOutcome::Connected),
{
    match outcome {
        ProbeOutcome::Connected => true,
        _ => false,
    }
}

} // verus!
