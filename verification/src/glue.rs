//! What ties the supervisor to the application around it: which events stop
//! the service, what follows a stop, and when the user interface is sent to
//! the service.

use crate::address::service_url_text;
use crate::error::SupervisorError;
use crate::probe::{answers_ready, poll_until_ready, OutcomeModel, ReadinessOutcome};
use crate::supervisor::{StopOutcome, SupervisorState};
use vstd::prelude::*;

verus! {

/// What the window layer reports.
#[derive(Clone, Copy, Debug, PartialEq, Eq)]
pub enum WindowEvent {
    /// The user asked for the window to be closed.
    CloseRequested,
    /// The window is gone.
    Destroyed,
    /// Anything else.
    Other,
}

/// What can ask for the service to be stopped.
#[derive(Clone, Copy, Debug, PartialEq, Eq)]
pub enum ShutdownTrigger {
    WindowCloseRequested,
    InterruptSignal,
    Teardown,
}

/// What the caller does once a stop has returned.
#[derive(Clone, Copy, Debug, PartialEq, Eq)]
pub enum FollowUp {
    /// Let the window finish closing.
    FinishWindowClose,
    /// End the application with this exit code.
    Exit { code: i32 },
    /// Nothing more.
    Nothing,
}

/// The trigger that a window event amounts to. Only a request to close is
/// one; that the window was destroyed is news and no more.
pub open spec fn trigger_of(event: WindowEvent) -> Option<ShutdownTrigger> {
    match event {
        WindowEvent::CloseRequested => Some(ShutdownTrigger::WindowCloseRequested),
        WindowEvent::Destroyed => None,
        WindowEvent::Other => None,
    }
}

/// What follows the stop that a trigger led to, whether that stop found a
/// service or not.
pub open spec fn follow_up_of(trigger: ShutdownTrigger) -> FollowUp {
    match trigger {
        ShutdownTrigger::WindowCloseRequested => FollowUp::FinishWindowClose,
        ShutdownTrigger::InterruptSignal => FollowUp::Exit { code: 0 },
        ShutdownTrigger::Teardown => FollowUp::Nothing,
    }
}

/// The address that the user interface is sent to after a probe: that of the
/// service if the probe found it ready, none if it timed out.
pub open spec fn navigation_target(outcome: OutcomeModel) -> Option<Seq<char>> {
    match outcome {
        OutcomeModel::Ready(url) => Some(url),
        OutcomeModel::TimedOut => None,
    }
}

/// The warning that a probe leaves behind. A timeout is no more than that:
/// the service keeps running and the user interface keeps its placeholder.
pub open spec fn readiness_warning(outcome: OutcomeModel) -> Option<SupervisorError> {
    match outcome {
        OutcomeModel::Ready(_) => None,
        OutcomeModel::TimedOut => Some(SupervisorError::ReadinessTimeout),
    }
}

pub fn window_trigger(event: WindowEvent) -> (trigger: Option<ShutdownTrigger>)
    ensures
        trigger == trigger_of(event),
{
    match event {
        WindowEvent::CloseRequested => Some(ShutdownTrigger::WindowCloseRequested),
        WindowEvent::Destroyed => None,
        WindowEvent::Other => None,
    }
}

pub fn follow_up(trigger: ShutdownTrigger) -> (next: FollowUp)
    ensures
        next == follow_up_of(trigger),
{
    match trigger {
        ShutdownTrigger::WindowCloseRequested => FollowUp::FinishWindowClose,
        ShutdownTrigger::InterruptSignal => FollowUp::Exit { code: 0 },
        ShutdownTrigger::Teardown => FollowUp::Nothing,
    }
}

/// Handles a trigger: every one of them leads to the same stop; what differs
/// is what the caller does after it.
pub fn on_trigger<H>(state: &mut SupervisorState<H>, trigger: ShutdownTrigger) -> (result: (
    StopOutcome<H>,
    FollowUp,
))
    ensures
        final(state)@ == old(state)@.stop().0,
        final(state)@.wf(),
        result.0@ == old(state)@.stop().1,
        result.1 == follow_up_of(trigger),
{
    let outcome = state.stop();
    (outcome, follow_up(trigger))
}

pub fn navigation(outcome: &ReadinessOutcome) -> (target: Option<String>)
    ensures
        match target {
            Some(url) => navigation_target(outcome@) == Some(url@),
            None => navigation_target(outcome@) is None,
        },
{
    match outcome {
        ReadinessOutcome::Ready(url) => Some(url.clone()),
        ReadinessOutcome::TimedOut => None,
    }
}

pub fn readiness_error(outcome: &ReadinessOutcome) -> (warning: Option<SupervisorError>)
    ensures
        warning == readiness_warning(outcome@),
{
    match outcome {
        ReadinessOutcome::Ready(_) => None,
        ReadinessOutcome::TimedOut => Some(SupervisorError::ReadinessTimeout),
    }
}

/// The user interface is sent to the service only after a request of the
/// probe was answered with success, and then to the address of the service
/// on the very port that was probed.
pub proof fn law_navigation_follows_success(
    port: u16,
    interval_ms: u64,
    max_attempts: nat,
    responses: spec_fn(nat) -> Option<u16>,
)
    ensures
        ({
            let (outcome, polls) = poll_until_ready(port, interval_ms, max_attempts, responses);
            navigation_target(outcome) matches Some(url) ==> {
                &&& url == service_url_text(port)
                &&& 1 <= polls <= max_attempts
                &&& answers_ready(responses((polls - 1) as nat))
            }
        }),
{
    crate::probe::law_ready_only_after_success(port, interval_ms, max_attempts, responses);
}

/// A probe that timed out sends the user interface nowhere, and what it
/// leaves behind is not fatal.
pub proof fn law_timeout_is_not_fatal()
    ensures
        navigation_target(OutcomeModel::TimedOut) is None,
        readiness_warning(OutcomeModel::TimedOut) == Some(SupervisorError::ReadinessTimeout),
        !SupervisorError::ReadinessTimeout.fatal(),
{
}

} // verus!
