//! What holds of every run of the supervisor.

use vstd::prelude::*;
use crate::start::start_next;
use crate::start::StartAction;
use crate::start::StartEvent;
use crate::start::StartFailure;
use crate::start::StartPhase;
use crate::start::StartTransition;
use crate::supervisor::running_at;
use crate::supervisor::slot_after_status;
use crate::supervisor::status_report;
use crate::supervisor::stopped_at;
use crate::supervisor::Liveness;
use crate::POLL_INTERVAL_MS;
use crate::START_DEADLINE_MS;

verus! {

/// Where a call of start stands after a sequence of events, with the slot
/// and the last action. Before any event the action is `Ignore`.
pub open spec fn start_after(
    phase: StartPhase,
    slot: Option<u32>,
    events: Seq<StartEvent>,
) -> StartTransition
    decreases events.len(),
{
    if events.len() == 0 {
        StartTransition { phase, slot, action: StartAction::Ignore }
    } else {
        let before = start_after(phase, slot, events.drop_last());
        start_next(before.phase, before.slot, events.last())
    }
}

/// The host has reported the launch of a process with this identifier.
pub open spec fn launched(events: Seq<StartEvent>, pid: u32) -> bool {
    exists|i: int| 0 <= i < events.len() && #[trigger] events[i] == StartEvent::Spawned(pid)
}

/// The slot holds a process that this call launched.
pub open spec fn holds_launched(slot: Option<u32>, events: Seq<StartEvent>) -> bool {
    match slot {
        Some(pid) => launched(events, pid),
        None => false,
    }
}

/// A call of start whose first probe finds a listener is over at once: it
/// succeeds without an identifier, launches nothing then or later, and
/// leaves the slot as it found it, whatever the slot held and whatever
/// else the host reports.
pub proof fn occupied_port_is_accepted(slot: Option<u32>, events: Seq<StartEvent>)
    requires
        events.len() > 0,
        events[0] == StartEvent::Probed(true),
    ensures
        start_after(StartPhase::Probing, slot, events).phase == StartPhase::Finished,
        start_after(StartPhase::Probing, slot, events).slot == slot,
        start_after(StartPhase::Probing, slot, events).action != StartAction::Spawn,
        events.len() == 1 ==> start_after(StartPhase::Probing, slot, events).action
            == StartAction::Succeed(None),
    decreases events.len(),
{
    let earlier = events.drop_last();
    if events.len() == 1 {
        assert(start_after(StartPhase::Probing, slot, earlier).phase == StartPhase::Probing);
    } else {
        occupied_port_is_accepted(slot, earlier);
    }
}

/// Start is idempotent: once a first call has succeeded, a second call that
/// finds the listener launches no second process and leaves the slot as the
/// first call left it.
pub proof fn second_start_launches_nothing(
    slot: Option<u32>,
    first: Seq<StartEvent>,
    second: Seq<StartEvent>,
)
    requires
        start_after(StartPhase::Probing, slot, first).action is Succeed,
        second.len() > 0,
        second[0] == StartEvent::Probed(true),
    ensures
        ({
            let between = start_after(StartPhase::Probing, slot, first).slot;
            let end = start_after(StartPhase::Probing, between, second);
            &&& end.slot == between
            &&& end.action != StartAction::Spawn
            &&& end.phase == StartPhase::Finished
        }),
{
    occupied_port_is_accepted(start_after(StartPhase::Probing, slot, first).slot, second);
}

/// From the launch on, and in every result that names a process or reports
/// the deadline, the slot holds the process that this call launched. Start
/// itself never gives it up.
pub proof fn start_keeps_what_it_launched(slot: Option<u32>, events: Seq<StartEvent>)
    ensures
        ({
            let end = start_after(StartPhase::Probing, slot, events);
            &&& (end.phase == StartPhase::Timing || end.phase == StartPhase::Polling || end.phase
                == StartPhase::Sleeping) ==> holds_launched(end.slot, events)
            &&& (forall|pid: u32| end.action == StartAction::Succeed(Some(pid)) ==> end.slot
                == Some(pid) && launched(events, pid))
            &&& end.action == StartAction::Fail(StartFailure::Timeout) ==> holds_launched(
                end.slot,
                events,
            )
        }),
    decreases events.len(),
{
    if events.len() > 0 {
        let earlier = events.drop_last();
        let before = start_after(StartPhase::Probing, slot, earlier);
        let end = start_after(StartPhase::Probing, slot, events);
        start_keeps_what_it_launched(slot, earlier);
        assert forall|pid: u32| launched(earlier, pid) implies launched(events, pid) by {
            let i = choose|i: int|
                0 <= i < earlier.len() && #[trigger] earlier[i] == StartEvent::Spawned(pid);
            assert(events[i] == StartEvent::Spawned(pid));
        }
        match events.last() {
            StartEvent::Spawned(pid) => {
                assert(events[events.len() - 1] == StartEvent::Spawned(pid));
                assert(launched(events, pid));
            },
            _ => {},
        }
    }
}

/// After a successful start that names a process, that process is the one
/// the call launched, and a status query reports it running under the same
/// identifier for as long as it has not exited. Once it has exited, or the
/// query fails, the next status query reports that nothing runs and the
/// slot is empty.
pub proof fn status_follows_successful_start(
    slot: Option<u32>,
    events: Seq<StartEvent>,
    pid: u32,
    url: Seq<char>,
    observed: Liveness,
)
    requires
        start_after(StartPhase::Probing, slot, events).action == StartAction::Succeed(Some(pid)),
    ensures
        launched(events, pid),
        start_after(StartPhase::Probing, slot, events).slot == Some(pid),
        ({
            let held = start_after(StartPhase::Probing, slot, events).slot;
            if observed == Liveness::Running {
                &&& status_report(url, held, observed) == running_at(url, Some(pid))
                &&& slot_after_status(held, observed) == Some(pid)
            } else {
                &&& status_report(url, held, observed) == stopped_at(url)
                &&& slot_after_status(held, observed) is None
            }
        }),
{
    start_keeps_what_it_launched(slot, events);
}

/// While a start waits for readiness, a clock reading at or past the
/// deadline ends the call with the timeout and leaves the slot untouched:
/// the process stays tracked and is not terminated.
pub proof fn deadline_ends_the_wait(slot: Option<u32>, elapsed: u64)
    requires
        elapsed >= START_DEADLINE_MS,
    ensures
        start_next(StartPhase::Timing, slot, StartEvent::Clock(elapsed)) == (StartTransition {
            phase: StartPhase::Finished,
            slot,
            action: StartAction::Fail(StartFailure::Timeout),
        }),
{
}

/// A start that ends with the timeout still tracks the process that it
/// launched.
pub proof fn timed_out_start_keeps_process(slot: Option<u32>, events: Seq<StartEvent>)
    requires
        start_after(StartPhase::Probing, slot, events).action == StartAction::Fail(
            StartFailure::Timeout,
        ),
    ensures
        holds_launched(start_after(StartPhase::Probing, slot, events).slot, events),
{
    start_keeps_what_it_launched(slot, events);
}

/// How a call of start can end: it succeeds only on a probe that found a
/// listener, it reports a failed launch only when the host reported one,
/// and it reports the timeout only on a clock reading at or past the
/// deadline.
pub proof fn start_ends_for_a_reason(phase: StartPhase, slot: Option<u32>, event: StartEvent)
    ensures
        start_next(phase, slot, event).action is Succeed ==> event == StartEvent::Probed(true),
        start_next(phase, slot, event).action == StartAction::Fail(StartFailure::Spawn) ==> phase
            == StartPhase::Spawning && event == StartEvent::SpawnFailed,
        start_next(phase, slot, event).action == StartAction::Fail(StartFailure::Timeout)
            ==> phase == StartPhase::Timing && event is Clock && event->Clock_0
            >= START_DEADLINE_MS,
{
}

/// The number of pauses among the events.
pub open spec fn pauses(events: Seq<StartEvent>) -> nat
    decreases events.len(),
{
    if events.len() == 0 {
        0
    } else if events.last() == StartEvent::Slept {
        pauses(events.drop_last()) + 1
    } else {
        pauses(events.drop_last())
    }
}

/// The host plays its part: every event is the one that the machine waits
/// for, and each clock reading is at least the time that the pauses before
/// it took.
pub open spec fn orderly(slot: Option<u32>, events: Seq<StartEvent>) -> bool
    decreases events.len(),
{
    events.len() == 0 || {
        &&& orderly(slot, events.drop_last())
        &&& start_after(StartPhase::Probing, slot, events).action != StartAction::Ignore
        &&& match events.last() {
            StartEvent::Clock(elapsed) => elapsed >= POLL_INTERVAL_MS * pauses(events.drop_last()),
            _ => true,
        }
    }
}

/// The most pauses that fit before the deadline.
pub open spec fn most_pauses() -> nat {
    (START_DEADLINE_MS / POLL_INTERVAL_MS) as nat
}

/// The events that lead to a phase before the first pause, at most.
pub open spec fn lead(phase: StartPhase) -> nat {
    match phase {
        StartPhase::Probing => 0,
        StartPhase::Reconciling => 1,
        StartPhase::Spawning => 2,
        StartPhase::Timing => 3,
        StartPhase::Polling => 4,
        StartPhase::Sleeping => 5,
        StartPhase::Finished => 5,
    }
}

/// No start waits for ever. With a host that plays its part, a call pauses
/// no more often than pauses fit before the deadline, and it is over after
/// three events for each pause and five more.
pub proof fn start_wait_is_bounded(slot: Option<u32>, events: Seq<StartEvent>)
    requires
        orderly(slot, events),
    ensures
        pauses(events) <= most_pauses(),
        events.len() <= 3 * pauses(events) + lead(
            start_after(StartPhase::Probing, slot, events).phase,
        ),
        events.len() <= 3 * most_pauses() + 5,
        ({
            let phase = start_after(StartPhase::Probing, slot, events).phase;
            phase == StartPhase::Polling || phase == StartPhase::Sleeping ==> pauses(events)
                < most_pauses()
        }),
    decreases events.len(),
{
    if events.len() > 0 {
        start_wait_is_bounded(slot, events.drop_last());
    }
}

/// A start that fails leaves the slot as the events before the failure
/// left it.
pub proof fn failed_start_changes_nothing(
    phase: StartPhase,
    slot: Option<u32>,
    event: StartEvent,
)
    requires
        start_next(phase, slot, event).action is Fail,
    ensures
        start_next(phase, slot, event).slot == slot,
        start_next(phase, slot, event).phase == StartPhase::Finished,
{
}

/// Where nothing is tracked, as after a stop or after the hook at
/// application close, a status query reports that nothing runs, whatever
/// the host observed, and the slot stays empty.
pub proof fn empty_slot_reports_stopped(url: Seq<char>, observed: Liveness)
    ensures
        status_report(url, None, observed) == stopped_at(url),
        slot_after_status(None, observed) is None,
{
}

/// A call that is over stays over: every further event is ignored.
pub proof fn finished_call_ignores_events(slot: Option<u32>, event: StartEvent)
    ensures
        start_next(StartPhase::Finished, slot, event) == (StartTransition {
            phase: StartPhase::Finished,
            slot,
            action: StartAction::Ignore,
        }),
{
}

} // verus!
