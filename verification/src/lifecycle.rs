//! The life of the supervised service as a state machine:
//! `NotStarted → Starting → Running → Stopping → Stopped`, with three ways
//! for a start to fail.

use vstd::prelude::*;

verus! {

/// Where the supervisor is in the life of its one service instance.
#[derive(Clone, Copy, Debug, PartialEq, Eq, Structural)]
pub enum Phase {
    NotStarted,
    Starting,
    Running,
    Stopping,
    Stopped,
    /// The start failed: no port of the range was free.
    PortExhausted,
    /// The start failed: the service executable is missing.
    BinaryMissing,
    /// The start failed: the operating system did not create the process.
    SpawnFailed,
}

/// How the application was launched.
#[derive(Clone, Copy, Debug, PartialEq, Eq, Structural)]
pub enum LaunchMode {
    /// The supervisor starts the service itself.
    Production,
    /// The service is started by hand; the supervisor starts nothing.
    Development,
}

/// What can move the supervisor from one phase to the next.
#[derive(Clone, Copy, Debug, PartialEq, Eq, Structural)]
pub enum LifecycleEvent {
    Launched(LaunchMode),
    PortsExhausted,
    BinaryNotFound,
    SpawnSucceeded,
    SpawnFailed,
    StopRequested,
    ProcessReaped,
}

impl Phase {
    /// The phase after `event`. An event that the phase has no use for
    /// leaves it as it is.
    pub open spec fn next(self, event: LifecycleEvent) -> Phase {
        match (self, event) {
            (Phase::NotStarted, LifecycleEvent::Launched(LaunchMode::Production)) => Phase::Starting,
            (Phase::Starting, LifecycleEvent::PortsExhausted) => Phase::PortExhausted,
            (Phase::Starting, LifecycleEvent::BinaryNotFound) => Phase::BinaryMissing,
            (Phase::Starting, LifecycleEvent::SpawnFailed) => Phase::SpawnFailed,
            (Phase::Starting, LifecycleEvent::SpawnSucceeded) => Phase::Running,
            (Phase::Running, LifecycleEvent::StopRequested) => Phase::Stopping,
            (Phase::Stopping, LifecycleEvent::ProcessReaped) => Phase::Stopped,
            _ => self,
        }
    }

    /// The phase after a whole sequence of events.
    pub open spec fn after(self, events: Seq<LifecycleEvent>) -> Phase
        decreases events.len(),
    {
        if events.len() == 0 {
            self
        } else {
            self.after(events.drop_last()).next(events.last())
        }
    }

    /// Whether the phase is one of the three failed starts, each of which
    /// aborts the start of the application.
    pub open spec fn failed(self) -> bool {
        self == Phase::PortExhausted || self == Phase::BinaryMissing || self == Phase::SpawnFailed
    }

    /// Whether nothing leads out of the phase.
    pub open spec fn terminal(self) -> bool {
        self == Phase::Stopped || self.failed()
    }

    /// How far along the phase is. No event ever lowers it.
    pub open spec fn rank(self) -> nat {
        match self {
            Phase::NotStarted => 0,
            Phase::Starting => 1,
            Phase::Running => 2,
            Phase::Stopping => 3,
            Phase::Stopped => 4,
            Phase::PortExhausted => 5,
            Phase::BinaryMissing => 5,
            Phase::SpawnFailed => 5,
        }
    }

    pub fn advance(self, event: LifecycleEvent) -> (next: Phase)
        ensures
            next == self.next(event),
    {
        match (self, event) {
            (Phase::NotStarted, LifecycleEvent::Launched(LaunchMode::Production)) => Phase::Starting,
            (Phase::Starting, LifecycleEvent::PortsExhausted) => Phase::PortExhausted,
            (Phase::Starting, LifecycleEvent::BinaryNotFound) => Phase::BinaryMissing,
            (Phase::Starting, LifecycleEvent::SpawnFailed) => Phase::SpawnFailed,
            (Phase::Starting, LifecycleEvent::SpawnSucceeded) => Phase::Running,
            (Phase::Running, LifecycleEvent::StopRequested) => Phase::Stopping,
            (Phase::Stopping, LifecycleEvent::ProcessReaped) => Phase::Stopped,
            (phase, _) => phase,
        }
    }

    pub fn is_failed(self) -> (failed: bool)
        ensures
            failed == self.failed(),
    {
        match self {
            Phase::PortExhausted | Phase::BinaryMissing | Phase::SpawnFailed => true,
            _ => false,
        }
    }

    pub fn is_terminal(self) -> (terminal: bool)
        ensures
            terminal == self.terminal(),
    {
        match self {
            Phase::Stopped | Phase::PortExhausted | Phase::BinaryMissing | Phase::SpawnFailed => true,
            _ => false,
        }
    }
}

/// A failed start is reached from `Starting` and from nowhere else.
pub proof fn law_failure_only_from_starting(phase: Phase, event: LifecycleEvent)
    requires
        !phase.failed(),
        phase.next(event).failed(),
    ensures
        phase == Phase::Starting,
{
}

/// `Running` is entered from `Starting`, by a spawn that succeeded, and in no
/// other way.
pub proof fn law_running_only_by_spawn(phase: Phase, event: LifecycleEvent)
    requires
        phase != Phase::Running,
        phase.next(event) == Phase::Running,
    ensures
        phase == Phase::Starting,
        event == LifecycleEvent::SpawnSucceeded,
{
}

/// `Stopped` is entered from `Stopping`, when the process was reaped, and in
/// no other way: a stop is not complete before that.
pub proof fn law_stopped_only_after_reaping(phase: Phase, event: LifecycleEvent)
    requires
        phase != Phase::Stopped,
        phase.next(event) == Phase::Stopped,
    ensures
        phase == Phase::Stopping,
        event == LifecycleEvent::ProcessReaped,
{
}

/// Nothing leads out of `Stopped` or out of a failed start.
pub proof fn law_terminal_phases_stay(phase: Phase, events: Seq<LifecycleEvent>)
    requires
        phase.terminal(),
    ensures
        phase.after(events) == phase,
    decreases events.len(),
{
    if events.len() > 0 {
        law_terminal_phases_stay(phase, events.drop_last());
    }
}

/// No sequence of events moves the supervisor backwards.
pub proof fn law_phases_never_go_back(phase: Phase, events: Seq<LifecycleEvent>)
    ensures
        phase.rank() <= phase.after(events).rank(),
    decreases events.len(),
{
    if events.len() > 0 {
        law_phases_never_go_back(phase, events.drop_last());
    }
}

/// Once the service is being stopped, or has stopped, or its start has
/// failed, it is never running again: nothing restarts it.
pub proof fn law_no_restart(phase: Phase, events: Seq<LifecycleEvent>)
    requires
        phase.rank() > Phase::Running.rank(),
    ensures
        phase.after(events) != Phase::Running,
{
    law_phases_never_go_back(phase, events);
}

/// In a development launch nothing is started.
pub proof fn law_development_starts_nothing(phase: Phase)
    ensures
        phase.next(LifecycleEvent::Launched(LaunchMode::Development)) == phase,
{
}

} // verus!
