//! One call of start, as a machine that the host drives: the host performs
//! the action it is given and reports the outcome as the next event.
//!
//! The progress of a call belongs to the caller; the slot of the tracked
//! process is shared. The host holds the lock on the slot for a step, not
//! for the wait between two steps, so status and stop are never held up by
//! a start that waits for readiness.

use vstd::prelude::*;
use crate::error::SupervisorError;
use crate::supervisor::running_at;
use crate::supervisor::slot_after_status;
use crate::supervisor::BackendStatus;
use crate::supervisor::Liveness;
use crate::supervisor::Supervisor;
use crate::POLL_INTERVAL_MS;
use crate::START_DEADLINE_MS;

verus! {

/// Where a call of start stands, named by what it waits for.
#[derive(Clone, Copy, Debug, PartialEq, Eq, Structural)]
pub enum StartPhase {
    /// The first probe of the listen address.
    Probing,
    /// The liveness of the process that is tracked already.
    Reconciling,
    /// The outcome of the launch.
    Spawning,
    /// The time since the launch.
    Timing,
    /// A probe for readiness.
    Polling,
    /// The end of a pause between two probes.
    Sleeping,
    /// Nothing: the call is over.
    Finished,
}

/// What the host reports.
#[derive(Clone, Copy, Debug, PartialEq, Eq)]
pub enum StartEvent {
    /// Whether a connection to the listen address succeeded.
    Probed(bool),
    /// What a non-blocking wait on the tracked process said.
    Checked(Liveness),
    /// The launch succeeded; the identifier of the new process.
    Spawned(u32),
    /// The launch failed.
    SpawnFailed,
    /// Milliseconds since the launch succeeded.
    Clock(u64),
    /// The pause is over.
    Slept,
}

/// Why a call of start failed.
#[derive(Clone, Copy, Debug, PartialEq, Eq, Structural)]
pub enum StartFailure {
    /// The host could not create the process.
    Spawn,
    /// Nothing listened before the deadline. The process is left running.
    Timeout,
}

/// What the host is to do next.
#[derive(Clone, Copy, Debug, PartialEq, Eq)]
pub enum StartAction {
    /// Probe the listen address and report `Probed`.
    Probe,
    /// Query the process with this identifier and report `Checked`.
    Check(u32),
    /// Launch the backend and report `Spawned` or `SpawnFailed`.
    Spawn,
    /// Read the time since the launch and report `Clock`.
    ReadClock,
    /// Pause for this many milliseconds and report `Slept`.
    Sleep(u64),
    /// Return: the backend runs, with this identifier where it is ours.
    Succeed(Option<u32>),
    /// Return this failure.
    Fail(StartFailure),
    /// Nothing: the event was not awaited and changed nothing.
    Ignore,
}

/// The outcome of one step: the phase and the slot after it, and the action.
pub struct StartTransition {
    pub phase: StartPhase,
    pub slot: Option<u32>,
    pub action: StartAction,
}

/// The rule of the machine.
///
/// A listener found by the first probe ends the call at once, whoever it
/// belongs to. Else a tracked process that has exited is forgotten, the
/// backend is launched and tracked, and the listen address is probed with
/// pauses until it answers or the deadline has passed. Failure leaves the
/// slot as it was. An event that the phase does not await is ignored.
pub open spec fn start_next(
    phase: StartPhase,
    slot: Option<u32>,
    event: StartEvent,
) -> StartTransition {
    match (phase, event) {
        (StartPhase::Probing, StartEvent::Probed(listening)) => if listening {
            StartTransition { phase: StartPhase::Finished, slot, action: StartAction::Succeed(None) }
        } else {
            match slot {
                Some(pid) => StartTransition {
                    phase: StartPhase::Reconciling,
                    slot,
                    action: StartAction::Check(pid),
                },
                None => StartTransition {
                    phase: StartPhase::Spawning,
                    slot,
                    action: StartAction::Spawn,
                },
            }
        },
        (StartPhase::Reconciling, StartEvent::Checked(observed)) => StartTransition {
            phase: StartPhase::Spawning,
            slot: slot_after_status(slot, observed),
            action: StartAction::Spawn,
        },
        (StartPhase::Spawning, StartEvent::Spawned(pid)) => StartTransition {
            phase: StartPhase::Timing,
            slot: Some(pid),
            action: StartAction::ReadClock,
        },
        (StartPhase::Spawning, StartEvent::SpawnFailed) => StartTransition {
            phase: StartPhase::Finished,
            slot,
            action: StartAction::Fail(StartFailure::Spawn),
        },
        (StartPhase::Timing, StartEvent::Clock(elapsed)) => if elapsed < START_DEADLINE_MS {
            StartTransition { phase: StartPhase::Polling, slot, action: StartAction::Probe }
        } else {
            StartTransition {
                phase: StartPhase::Finished,
                slot,
                action: StartAction::Fail(StartFailure::Timeout),
            }
        },
        (StartPhase::Polling, StartEvent::Probed(listening)) => if listening {
            StartTransition { phase: StartPhase::Finished, slot, action: StartAction::Succeed(slot) }
        } else {
            StartTransition {
                phase: StartPhase::Sleeping,
                slot,
                action: StartAction::Sleep(POLL_INTERVAL_MS),
            }
        },
        (StartPhase::Sleeping, StartEvent::Slept) => StartTransition {
            phase: StartPhase::Timing,
            slot,
            action: StartAction::ReadClock,
        },
        _ => StartTransition { phase, slot, action: StartAction::Ignore },
    }
}

/// What the caller of start is told once the call is over: the report of a
/// running backend, or the failure. While the call goes on there is no
/// reply.
pub open spec fn reply_matches(
    reply: Option<Result<BackendStatus, SupervisorError>>,
    action: StartAction,
    url: Seq<char>,
    os_error: Seq<char>,
    command: Seq<char>,
) -> bool {
    match action {
        StartAction::Succeed(pid) => {
            &&& reply is Some
            &&& reply->0 is Ok
            &&& reply->0->Ok_0@ == running_at(url, pid)
        },
        StartAction::Fail(StartFailure::Spawn) => {
            &&& reply is Some
            &&& reply->0 is Err
            &&& reply->0->Err_0 is Spawn
            &&& reply->0->Err_0->os_error@ == os_error
            &&& reply->0->Err_0->command@ == command
        },
        StartAction::Fail(StartFailure::Timeout) => reply == Some(
            Err::<BackendStatus, SupervisorError>(SupervisorError::StartTimeout),
        ),
        _ => reply is None,
    }
}

/// The reply to the caller of start for an action of the machine. `os_error`
/// is the host's account of a failed launch and `command` the command that
/// was tried; both are read only where the launch failed.
pub fn start_reply(
    action: StartAction,
    url: String,
    os_error: &str,
    command: &str,
) -> (reply: Option<Result<BackendStatus, SupervisorError>>)
    ensures
        reply_matches(reply, action, url@, os_error@, command@),
{
    match action {
        StartAction::Succeed(pid) => Some(Ok(BackendStatus::running(url, pid))),
        StartAction::Fail(StartFailure::Spawn) => Some(
            Err(SupervisorError::spawn(os_error, command)),
        ),
        StartAction::Fail(StartFailure::Timeout) => Some(Err(SupervisorError::StartTimeout)),
        _ => None,
    }
}

/// The progress of one call of start.
#[derive(Debug, PartialEq, Eq)]
pub struct StartCall {
    phase: StartPhase,
}

impl View for StartCall {
    type V = StartPhase;

    closed spec fn view(&self) -> StartPhase {
        self.phase
    }
}

impl StartCall {
    /// A call that has not begun: the host's first action is to probe the
    /// listen address.
    pub fn begin() -> (begun: (StartCall, StartAction))
        ensures
            begun.0@ == StartPhase::Probing,
            begun.1 == StartAction::Probe,
    {
        (StartCall { phase: StartPhase::Probing }, StartAction::Probe)
    }

    /// Where the call stands.
    pub fn phase(&self) -> (phase: StartPhase)
        ensures
            phase == self@,
    {
        self.phase
    }

    /// Whether the call is over.
    pub fn is_finished(&self) -> (finished: bool)
        ensures
            finished == (self@ == StartPhase::Finished),
    {
        match self.phase {
            StartPhase::Finished => true,
            _ => false,
        }
    }

    /// Takes one event and says what the host is to do next.
    pub fn step(&mut self, supervisor: &mut Supervisor, event: StartEvent) -> (action: StartAction)
        ensures
            final(self)@ == start_next(old(self)@, old(supervisor)@, event).phase,
            final(supervisor)@ == start_next(old(self)@, old(supervisor)@, event).slot,
            action == start_next(old(self)@, old(supervisor)@, event).action,
    {
        match (self.phase, event) {
            (StartPhase::Probing, StartEvent::Probed(listening)) => {
                if listening {
                    self.phase = StartPhase::Finished;
                    StartAction::Succeed(None)
                } else {
                    match supervisor.pid() {
                        Some(pid) => {
                            self.phase = StartPhase::Reconciling;
                            StartAction::Check(pid)
                        },
                        None => {
                            self.phase = StartPhase::Spawning;
                            StartAction::Spawn
                        },
                    }
                }
            },
            (StartPhase::Reconciling, StartEvent::Checked(observed)) => {
                supervisor.reconcile(observed);
                self.phase = StartPhase::Spawning;
                StartAction::Spawn
            },
            (StartPhase::Spawning, StartEvent::Spawned(pid)) => {
                supervisor.track(pid);
                self.phase = StartPhase::Timing;
                StartAction::ReadClock
            },
            (StartPhase::Spawning, StartEvent::SpawnFailed) => {
                self.phase = StartPhase::Finished;
                StartAction::Fail(StartFailure::Spawn)
            },
            (StartPhase::Timing, StartEvent::Clock(elapsed)) => {
                if elapsed < START_DEADLINE_MS {
                    self.phase = StartPhase::Polling;
                    StartAction::Probe
                } else {
                    self.phase = StartPhase::Finished;
                    StartAction::Fail(StartFailure::Timeout)
                }
            },
            (StartPhase::Polling, StartEvent::Probed(listening)) => {
                if listening {
                    self.phase = StartPhase::Finished;
                    StartAction::Succeed(supervisor.pid())
                } else {
                    self.phase = StartPhase::Sleeping;
                    StartAction::Sleep(POLL_INTERVAL_MS)
                }
            },
            (StartPhase::Sleeping, StartEvent::Slept) => {
                self.phase = StartPhase::Timing;
                StartAction::ReadClock
            },
            _ => StartAction::Ignore,
        }
    }
}

} // verus!
