//! Supervision of a single local backend server process.
//!
//! The library holds the decisions of the supervisor: what to launch, when a
//! start is finished, what a status report says, which process is to be
//! terminated. The host performs the actions (probing the port, spawning,
//! sleeping, signalling) and hands the outcomes back as plain values.

use vstd::prelude::*;

pub mod config;
pub mod error;
pub mod launch;
pub mod probe;
pub mod laws;
pub mod start;
pub mod supervisor;

verus! {

/// Milliseconds that one probe of the listen address may take.
pub const PROBE_TIMEOUT_MS: u64 = 150;

/// Milliseconds between two probes while a start waits for readiness.
pub const POLL_INTERVAL_MS: u64 = 150;

/// Milliseconds after which a start gives up waiting for readiness.
pub const START_DEADLINE_MS: u64 = 6000;

} // verus!
