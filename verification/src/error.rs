//! The failures that the supervisor reports.

use vstd::prelude::*;
use vstd::string::*;

verus! {

/// Why an operation of the supervisor failed.
#[derive(Clone, Debug, PartialEq, Eq)]
pub enum SupervisorError {
    /// The host could not create the process at all.
    Spawn { os_error: String, command: String },
    /// The process was created, but nothing accepted connections on the
    /// listen address before the deadline.
    StartTimeout,
    /// The lock round the tracked handle was left corrupted.
    StatePoisoned,
}

impl SupervisorError {
    /// The text of the failure.
    pub open spec fn text(self) -> Seq<char> {
        match self {
            SupervisorError::Spawn { os_error, command } => "failed_to_spawn_backend: "@ + os_error@
                + " (cmd="@ + command@ + ")"@,
            SupervisorError::StartTimeout => "backend_start_timeout_waiting_for_port"@,
            SupervisorError::StatePoisoned => "backend_state_poisoned"@,
        }
    }

    /// The failure of a launch, from what the host reported and the command
    /// that was tried.
    pub fn spawn(os_error: &str, command: &str) -> (error: SupervisorError)
        ensures
            error is Spawn,
            error->os_error@ == os_error@,
            error->command@ == command@,
    {
        SupervisorError::Spawn {
            os_error: String::from_str(os_error),
            command: String::from_str(command),
        }
    }

    /// The text shown to the caller.
    pub fn message(&self) -> (message: String)
        ensures
            message@ == self.text(),
    {
        match self {
            SupervisorError::Spawn { os_error, command } => {
                let mut message = String::from_str("failed_to_spawn_backend: ");
                message.append(os_error.as_str());
                message.append(" (cmd=");
                message.append(command.as_str());
                message.append(")");
                message
            },
            SupervisorError::StartTimeout => String::from_str(
                "backend_start_timeout_waiting_for_port",
            ),
            SupervisorError::StatePoisoned => String::from_str("backend_state_poisoned"),
        }
    }
}

} // verus!
