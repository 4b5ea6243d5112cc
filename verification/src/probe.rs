//! The readiness probe: the service is polled over HTTP until it answers with
//! a success status or the attempt budget is used up.

use crate::address::{readiness_url, readiness_url_text, service_url, service_url_text};
use vstd::prelude::*;

verus! {

/// The pause before each request, in milliseconds, unless told otherwise.
pub const DEFAULT_INTERVAL_MS: u64 = 500;

/// The number of requests that are made at most, unless told otherwise.
pub const DEFAULT_MAX_ATTEMPTS: u32 = 20;

/// The time that one request may take, in milliseconds.
pub const REQUEST_TIMEOUT_MS: u64 = 500;

/// Whether an HTTP status is of the success class.
pub open spec fn success_class(status: u16) -> bool {
    200 <= status <= 299
}

/// Whether the answer to one request shows that the service is up. `None`
/// stands for a request that got no HTTP response at all.
pub open spec fn answers_ready(response: Option<u16>) -> bool {
    response matches Some(status) && success_class(status)
}

pub fn is_success_status(status: u16) -> (success: bool)
    ensures
        success == success_class(status),
{
    200 <= status && status <= 299
}

/// How a probe ended.
#[derive(Debug, PartialEq, Eq)]
pub enum ReadinessOutcome {
    /// The service answered; the user interface may load this address.
    Ready(String),
    /// The budget ran out first. The service is left running.
    TimedOut,
}

pub enum OutcomeModel {
    Ready(Seq<char>),
    TimedOut,
}

impl View for ReadinessOutcome {
    type V = OutcomeModel;

    open spec fn view(&self) -> OutcomeModel {
        match self {
            ReadinessOutcome::Ready(url) => OutcomeModel::Ready(url@),
            ReadinessOutcome::TimedOut => OutcomeModel::TimedOut,
        }
    }
}

/// What a probe asks of its driver.
#[derive(Debug, PartialEq, Eq)]
pub enum ProbeStep {
    /// Sleep for `wait_ms`, send a GET request to `url` that gives up after
    /// `timeout_ms`, and report the answer with `observe`.
    Poll { wait_ms: u64, timeout_ms: u64, url: String },
    /// The probe is over.
    Finished(ReadinessOutcome),
}

pub enum ProbeStepModel {
    Poll { wait_ms: u64, timeout_ms: u64, url: Seq<char> },
    Finished(OutcomeModel),
}

impl View for ProbeStep {
    type V = ProbeStepModel;

    open spec fn view(&self) -> ProbeStepModel {
        match self {
            ProbeStep::Poll { wait_ms, timeout_ms, url } => ProbeStepModel::Poll {
                wait_ms: *wait_ms,
                timeout_ms: *timeout_ms,
                url: url@,
            },
            ProbeStep::Finished(outcome) => ProbeStepModel::Finished(outcome@),
        }
    }
}

/// The state of a probe: `attempts` requests were answered so far, and
/// `ready` says that the last of them was answered with success.
pub struct ProbeModel {
    pub port: u16,
    pub interval_ms: u64,
    pub max_attempts: nat,
    pub attempts: nat,
    pub ready: bool,
}

impl ProbeModel {
    /// A probe that has asked nothing yet.
    pub open spec fn begin(port: u16, interval_ms: u64, max_attempts: nat) -> ProbeModel {
        ProbeModel { port, interval_ms, max_attempts, attempts: 0, ready: false }
    }

    /// What holds of every state that a probe goes through: it stays
    /// within its budget, and it is ready only after a request.
    pub open spec fn wf(self) -> bool {
        &&& self.attempts <= self.max_attempts
        &&& self.ready ==> self.attempts >= 1
    }

    /// Whether no further request will be asked for.
    pub open spec fn finished(self) -> bool {
        self.ready || self.attempts >= self.max_attempts
    }

    pub open spec fn step(self) -> ProbeStepModel {
        if self.ready {
            ProbeStepModel::Finished(OutcomeModel::Ready(service_url_text(self.port)))
        } else if self.attempts >= self.max_attempts {
            ProbeStepModel::Finished(OutcomeModel::TimedOut)
        } else {
            ProbeStepModel::Poll {
                wait_ms: self.interval_ms,
                timeout_ms: REQUEST_TIMEOUT_MS,
                url: readiness_url_text(self.port),
            }
        }
    }

    /// The state after the driver reported the answer to the request of
    /// `step`. A finished probe ignores the report.
    pub open spec fn after(self, response: Option<u16>) -> ProbeModel {
        if self.finished() {
            self
        } else {
            ProbeModel { attempts: self.attempts + 1, ready: answers_ready(response), ..self }
        }
    }

    /// The number of requests that can still be asked for.
    pub open spec fn budget(self) -> nat {
        if self.finished() {
            0
        } else {
            (self.max_attempts - self.attempts) as nat
        }
    }

    /// The state in which the probe ends when it is driven to its end in a
    /// world that answers the request after `i` earlier ones with
    /// `responses(i)`.
    pub open spec fn run(self, responses: spec_fn(nat) -> Option<u16>) -> ProbeModel
        decreases self.budget(),
    {
        if self.finished() {
            self
        } else {
            self.after(responses(self.attempts)).run(responses)
        }
    }

    /// How a finished probe ended.
    pub open spec fn outcome(self) -> OutcomeModel {
        if self.ready {
            OutcomeModel::Ready(service_url_text(self.port))
        } else {
            OutcomeModel::TimedOut
        }
    }
}

/// What polling the service on `port` comes to in a world that answers the
/// request after `i` earlier ones with `responses(i)`: how it ends, and after
/// how many requests.
pub open spec fn poll_until_ready(
    port: u16,
    interval_ms: u64,
    max_attempts: nat,
    responses: spec_fn(nat) -> Option<u16>,
) -> (OutcomeModel, nat) {
    let end = ProbeModel::begin(port, interval_ms, max_attempts).run(responses);
    (end.outcome(), end.attempts)
}

/// A probe in progress.
pub struct ReadinessProbe {
    port: u16,
    interval_ms: u64,
    max_attempts: u32,
    attempts: u32,
    ready: bool,
}

impl View for ReadinessProbe {
    type V = ProbeModel;

    closed spec fn view(&self) -> ProbeModel {
        ProbeModel {
            port: self.port,
            interval_ms: self.interval_ms,
            max_attempts: self.max_attempts as nat,
            attempts: self.attempts as nat,
            ready: self.ready,
        }
    }
}

impl ReadinessProbe {
    #[verifier::type_invariant]
    spec fn inv(self) -> bool {
        self@.wf()
    }

    pub fn new(port: u16, interval_ms: u64, max_attempts: u32) -> (probe: ReadinessProbe)
        ensures
            probe@ == ProbeModel::begin(port, interval_ms, max_attempts as nat),
            probe@.wf(),
    {
        ReadinessProbe { port, interval_ms, max_attempts, attempts: 0, ready: false }
    }

    /// A probe that waits half a second before each of at most twenty
    /// requests.
    pub fn with_defaults(port: u16) -> (probe: ReadinessProbe)
        ensures
            probe@ == ProbeModel::begin(port, DEFAULT_INTERVAL_MS, DEFAULT_MAX_ATTEMPTS as nat),
            probe@.wf(),
    {
        ReadinessProbe::new(port, DEFAULT_INTERVAL_MS, DEFAULT_MAX_ATTEMPTS)
    }

    /// What the driver has to do now.
    pub fn next_step(&self) -> (step: ProbeStep)
        ensures
            step@ == self@.step(),
            self@.wf(),
    {
        proof {
            use_type_invariant(self);
        }
        if self.ready {
            ProbeStep::Finished(ReadinessOutcome::Ready(service_url(self.port)))
        } else if self.attempts >= self.max_attempts {
            ProbeStep::Finished(ReadinessOutcome::TimedOut)
        } else {
            ProbeStep::Poll {
                wait_ms: self.interval_ms,
                timeout_ms: REQUEST_TIMEOUT_MS,
                url: readiness_url(self.port),
            }
        }
    }

    /// Takes the answer to the request that `next_step` named: the status of
    /// the HTTP response, or `None` where there was no response.
    pub fn observe(&mut self, response: Option<u16>)
        ensures
            final(self)@ == old(self)@.after(response),
            final(self)@.wf(),
    {
        proof {
            use_type_invariant(&*self);
        }
        if !self.ready && self.attempts < self.max_attempts {
            self.attempts = self.attempts + 1;
            self.ready = match response {
                Some(status) => is_success_status(status),
                None => false,
            };
        }
    }

    /// The number of requests that were answered so far.
    pub fn attempts(&self) -> (n: u32)
        ensures
            n == self@.attempts,
            self@.wf(),
    {
        proof {
            use_type_invariant(self);
        }
        self.attempts
    }
}

/// No answer takes a probe out of the states that `wf` describes.
pub proof fn law_probe_stays_in_budget(probe: ProbeModel, response: Option<u16>)
    requires
        probe.wf(),
    ensures
        probe.after(response).wf(),
        probe.after(response).attempts <= probe.attempts + 1,
{
}

/// A probe that has not seen a success and is run to its end sees the first
/// success that lies within its budget, and stops right there; without one it
/// uses its budget up.
proof fn lemma_run_from(probe: ProbeModel, responses: spec_fn(nat) -> Option<u16>)
    requires
        !probe.ready,
        probe.attempts <= probe.max_attempts,
    ensures
        ({
            let end = probe.run(responses);
            &&& end.port == probe.port
            &&& end.max_attempts == probe.max_attempts
            &&& probe.attempts <= end.attempts <= probe.max_attempts
            &&& forall|i: nat|
                probe.attempts <= i && i + 1 < end.attempts ==> !answers_ready(#[trigger] responses(i))
            &&& end.ready ==> end.attempts > probe.attempts && answers_ready(
                responses((end.attempts - 1) as nat),
            )
            &&& !end.ready ==> end.attempts == probe.max_attempts && forall|i: nat|
                probe.attempts <= i < end.attempts ==> !answers_ready(#[trigger] responses(i))
        }),
    decreases probe.max_attempts - probe.attempts,
{
    if probe.attempts < probe.max_attempts {
        let next = probe.after(responses(probe.attempts));
        assert(probe.run(responses) == next.run(responses));
        if next.ready {
            assert(next.run(responses) == next);
        } else {
            lemma_run_from(next, responses);
        }
    }
}

/// A probe whose requests are never answered with success makes exactly as
/// many requests as its budget allows, and then reports a timeout.
pub proof fn law_timeout_after_exact_budget(
    port: u16,
    interval_ms: u64,
    max_attempts: nat,
    responses: spec_fn(nat) -> Option<u16>,
)
    requires
        forall|i: nat| i < max_attempts ==> !answers_ready(#[trigger] responses(i)),
    ensures
        poll_until_ready(port, interval_ms, max_attempts, responses) == (
            OutcomeModel::TimedOut,
            max_attempts,
        ),
{
    let probe = ProbeModel::begin(port, interval_ms, max_attempts);
    lemma_run_from(probe, responses);
    let end = probe.run(responses);
    if end.ready {
        assert(!answers_ready(responses((end.attempts - 1) as nat)));
    }
}

/// A probe stops at the first request that is answered with success, provided
/// that the budget reaches that far, and reports the address of the service
/// on the probed port.
pub proof fn law_ready_at_first_success(
    port: u16,
    interval_ms: u64,
    max_attempts: nat,
    responses: spec_fn(nat) -> Option<u16>,
    first: nat,
)
    requires
        first < max_attempts,
        answers_ready(responses(first)),
        forall|i: nat| i < first ==> !answers_ready(#[trigger] responses(i)),
    ensures
        poll_until_ready(port, interval_ms, max_attempts, responses) == (
            OutcomeModel::Ready(service_url_text(port)),
            first + 1,
        ),
{
    let probe = ProbeModel::begin(port, interval_ms, max_attempts);
    lemma_run_from(probe, responses);
    let end = probe.run(responses);
    if end.ready {
        let last = (end.attempts - 1) as nat;
        if last < first {
            assert(!answers_ready(responses(last)));
        } else if first < last {
            assert(first + 1 < end.attempts);
            assert(!answers_ready(responses(first)));
        }
    } else {
        assert(!answers_ready(responses(first)));
    }
}

/// A probe reports readiness only after a request within its budget was
/// answered with success, and then with the address of the service on the
/// probed port; it reports a timeout only with its budget used up; and it
/// never makes more requests than its budget allows.
pub proof fn law_ready_only_after_success(
    port: u16,
    interval_ms: u64,
    max_attempts: nat,
    responses: spec_fn(nat) -> Option<u16>,
)
    ensures
        ({
            let (outcome, polls) = poll_until_ready(port, interval_ms, max_attempts, responses);
            &&& polls <= max_attempts
            &&& outcome is Ready ==> polls >= 1 && answers_ready(responses((polls - 1) as nat))
            &&& outcome is Ready ==> outcome == OutcomeModel::Ready(service_url_text(port))
            &&& outcome is TimedOut ==> polls == max_attempts
        }),
{
    lemma_run_from(ProbeModel::begin(port, interval_ms, max_attempts), responses);
}

} // verus!
