//! Everything that can go wrong, and how much it matters.

use crate::lifecycle::Phase;
use crate::spawn::SpawnError;
use vstd::prelude::*;

verus! {

/// The errors of the supervisor.
#[derive(Clone, Copy, Debug, PartialEq, Eq, Structural)]
pub enum SupervisorError {
    /// No port of the range was free.
    AllPortsExhausted,
    /// The service executable is missing.
    BinaryNotFound,
    /// A spawn was asked for while no port allocation was waiting for it.
    PortNotAllocated,
    /// The operating system did not create the process.
    SpawnFailure,
    /// The service did not answer within the attempt budget.
    ReadinessTimeout,
    /// A step that terminates the process or its group failed.
    KillFailure,
    /// Waiting for the process to exit failed.
    WaitFailure,
}

impl SupervisorError {
    /// Whether the error aborts the start of the application. The errors of
    /// the start do; a late service and the errors of a shutdown are logged
    /// and passed over, so that a shutdown never stands in the way of the
    /// application's own exit.
    pub open spec fn fatal(self) -> bool {
        match self {
            SupervisorError::AllPortsExhausted => true,
            SupervisorError::BinaryNotFound => true,
            SupervisorError::PortNotAllocated => true,
            SupervisorError::SpawnFailure => true,
            SupervisorError::ReadinessTimeout => false,
            SupervisorError::KillFailure => false,
            SupervisorError::WaitFailure => false,
        }
    }

    /// The failed start that the error leaves the supervisor in, for those
    /// that leave it in one.
    pub open spec fn failed_phase(self) -> Option<Phase> {
        match self {
            SupervisorError::AllPortsExhausted => Some(Phase::PortExhausted),
            SupervisorError::BinaryNotFound => Some(Phase::BinaryMissing),
            SupervisorError::SpawnFailure => Some(Phase::SpawnFailed),
            _ => None,
        }
    }

    pub fn is_fatal(&self) -> (fatal: bool)
        ensures
            fatal == self.fatal(),
    {
        match self {
            SupervisorError::AllPortsExhausted
            | SupervisorError::BinaryNotFound
            | SupervisorError::PortNotAllocated
            | SupervisorError::SpawnFailure => true,
            SupervisorError::ReadinessTimeout
            | SupervisorError::KillFailure
            | SupervisorError::WaitFailure => false,
        }
    }
}

/// An error that leaves the supervisor in a failed start is fatal.
pub proof fn law_failed_start_is_fatal(error: SupervisorError)
    requires
        error.failed_phase() is Some,
    ensures
        error.fatal(),
        error.failed_phase()->0.failed(),
{
}

/// The place of a spawn error among the errors of the supervisor.
pub open spec fn spawn_error_class(error: SpawnError) -> SupervisorError {
    match error {
        SpawnError::BinaryNotFound => SupervisorError::BinaryNotFound,
        SpawnError::PortNotAllocated => SupervisorError::PortNotAllocated,
        SpawnError::SpawnFailure => SupervisorError::SpawnFailure,
    }
}

pub fn classify_spawn_error(error: SpawnError) -> (class: SupervisorError)
    ensures
        class == spawn_error_class(error),
{
    match error {
        SpawnError::BinaryNotFound => SupervisorError::BinaryNotFound,
        SpawnError::PortNotAllocated => SupervisorError::PortNotAllocated,
        SpawnError::SpawnFailure => SupervisorError::SpawnFailure,
    }
}

/// Every error of a spawn is fatal.
pub proof fn law_spawn_errors_are_fatal(error: SpawnError)
    ensures
        spawn_error_class(error).fatal(),
{
}

/// The errors of a shutdown are never fatal.
pub proof fn law_shutdown_errors_are_not_fatal(killed: bool, reaped: bool, i: int)
    requires
        0 <= i < crate::supervisor::shutdown_warnings(killed, reaped).len(),
    ensures
        !crate::supervisor::shutdown_warnings(killed, reaped)[i].fatal(),
{
}

} // verus!
