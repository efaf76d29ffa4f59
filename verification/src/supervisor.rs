//! The supervisor: the slot that tracks at most one process, and what
//! status, stop and the two application hooks do to it.

use vstd::prelude::*;

verus! {

/// What a non-blocking wait on the tracked process told the host.
#[derive(Clone, Copy, Debug, PartialEq, Eq, Structural)]
pub enum Liveness {
    /// The process has not exited.
    Running,
    /// The process has exited.
    Exited,
    /// The query itself failed.
    Unknown,
}

/// A process counts as running only where the query said that it has not
/// exited.
pub fn child_is_running(observed: Liveness) -> (running: bool)
    ensures
        running == (observed == Liveness::Running),
{
    match observed {
        Liveness::Running => true,
        Liveness::Exited => false,
        Liveness::Unknown => false,
    }
}

/// What the supervisor reports of the backend.
#[derive(Clone, Debug, PartialEq, Eq)]
pub struct BackendStatus {
    pub url: String,
    pub running: bool,
    pub pid: Option<u32>,
}

/// A report as plain values.
pub struct StatusView {
    pub url: Seq<char>,
    pub running: bool,
    pub pid: Option<u32>,
}

impl View for BackendStatus {
    type V = StatusView;

    open spec fn view(&self) -> StatusView {
        StatusView { url: self.url@, running: self.running, pid: self.pid }
    }
}

/// The report of a backend that runs, owned (`pid` given) or not.
pub open spec fn running_at(url: Seq<char>, pid: Option<u32>) -> StatusView {
    StatusView { url, running: true, pid }
}

/// The report of a backend that does not run.
pub open spec fn stopped_at(url: Seq<char>) -> StatusView {
    StatusView { url, running: false, pid: None }
}

impl BackendStatus {
    pub fn running(url: String, pid: Option<u32>) -> (status: BackendStatus)
        ensures
            status@ == running_at(url@, pid),
    {
        BackendStatus { url, running: true, pid }
    }

    pub fn stopped(url: String) -> (status: BackendStatus)
        ensures
            status@ == stopped_at(url@),
    {
        BackendStatus { url, running: false, pid: None }
    }
}

/// The slot of the tracked process. It holds the identifier of the one
/// process that the supervisor launched and still answers for, or nothing.
#[derive(Debug, PartialEq, Eq)]
pub struct Supervisor {
    child: Option<u32>,
}

impl View for Supervisor {
    type V = Option<u32>;

    closed spec fn view(&self) -> Option<u32> {
        self.child
    }
}

/// The slot after the tracked process was queried: a process stays tracked
/// only while it runs.
pub open spec fn slot_after_status(slot: Option<u32>, observed: Liveness) -> Option<u32> {
    if observed == Liveness::Running {
        slot
    } else {
        None
    }
}

/// The report of a status query: running with its identifier where a process
/// is tracked and has not exited, else not running.
pub open spec fn status_report(
    url: Seq<char>,
    slot: Option<u32>,
    observed: Liveness,
) -> StatusView {
    match slot_after_status(slot, observed) {
        Some(pid) => running_at(url, Some(pid)),
        None => stopped_at(url),
    }
}

/// What the hook at application start does next.
#[derive(Clone, Copy, Debug, PartialEq, Eq, Structural)]
pub enum HookStep {
    /// Nothing more.
    Nothing,
    /// Probe the listen address.
    Probe,
    /// Launch the backend.
    Spawn,
}

impl Default for Supervisor {
    fn default() -> (supervisor: Supervisor)
        ensures
            supervisor@ is None,
    {
        Supervisor { child: None }
    }
}

impl Supervisor {
    /// A supervisor that tracks nothing.
    pub fn new() -> (supervisor: Supervisor)
        ensures
            supervisor@ is None,
    {
        Supervisor { child: None }
    }

    /// The identifier of the tracked process.
    pub fn pid(&self) -> (pid: Option<u32>)
        ensures
            pid == self@,
    {
        self.child
    }

    /// Tracks a process that was just launched, in place of whatever was
    /// tracked before.
    pub fn track(&mut self, pid: u32)
        ensures
            final(self)@ == Some(pid),
    {
        self.child = Some(pid);
    }

    /// Forgets the tracked process unless it was seen running.
    pub fn reconcile(&mut self, observed: Liveness)
        ensures
            final(self)@ == slot_after_status(old(self)@, observed),
    {
        if !child_is_running(observed) {
            self.child = None;
        }
    }

    /// Answers a status query. `observed` is what the host learned of the
    /// tracked process; it plays no part where nothing is tracked. A tracked
    /// process that no longer runs is forgotten. The listen address is not
    /// consulted: a backend that somebody else started is not seen here.
    pub fn status(&mut self, url: String, observed: Liveness) -> (status: BackendStatus)
        ensures
            final(self)@ == slot_after_status(old(self)@, observed),
            status@ == status_report(url@, old(self)@, observed),
    {
        let alive = child_is_running(observed);
        match self.child {
            Some(pid) => {
                if alive {
                    BackendStatus::running(url, Some(pid))
                } else {
                    self.child = None;
                    BackendStatus::stopped(url)
                }
            },
            None => BackendStatus::stopped(url),
        }
    }

    /// Gives up the tracked process: the slot is empty afterwards, and the
    /// result names the process that the host is to terminate and wait for.
    pub fn release(&mut self) -> (terminate: Option<u32>)
        ensures
            final(self)@ is None,
            terminate == old(self)@,
    {
        let terminate = self.child;
        self.child = None;
        terminate
    }

    /// Stops the backend. Always succeeds: the report says that nothing
    /// runs, the slot is empty, and the second part names the process to
    /// terminate, if one was tracked.
    pub fn stop(&mut self, url: String) -> (stopped: (BackendStatus, Option<u32>))
        ensures
            final(self)@ is None,
            stopped.0@ == stopped_at(url@),
            stopped.1 == old(self)@,
    {
        let terminate = self.release();
        (BackendStatus::stopped(url), terminate)
    }

    /// The hook at application close: whatever is tracked is released for
    /// termination, so that no process outlives the application.
    pub fn on_application_close(&mut self) -> (terminate: Option<u32>)
        ensures
            final(self)@ is None,
            terminate == old(self)@,
    {
        self.release()
    }

    /// The hook at application start: the listen address is probed only
    /// where autostart is switched on.
    pub fn on_application_start(autostart: bool) -> (step: HookStep)
        ensures
            step == if autostart {
                HookStep::Probe
            } else {
                HookStep::Nothing
            },
    {
        if autostart {
            HookStep::Probe
        } else {
            HookStep::Nothing
        }
    }

    /// After the probe of the autostart: launch unless something listens.
    pub fn on_autostart_probed(listening: bool) -> (step: HookStep)
        ensures
            step == if listening {
                HookStep::Nothing
            } else {
                HookStep::Spawn
            },
    {
        if listening {
            HookStep::Nothing
        } else {
            HookStep::Spawn
        }
    }

    /// After the launch of the autostart: a process that was created is
    /// tracked, a failure changes nothing.
    pub fn on_autostart_spawned(&mut self, spawned: Option<u32>)
        ensures
            final(self)@ == match spawned {
                Some(pid) => Some(pid),
                None => old(self)@,
            },
    {
        match spawned {
            Some(pid) => {
                self.child = Some(pid);
            },
            None => {},
        }
    }
}

} // verus!
