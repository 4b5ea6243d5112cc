use service_supervisor::probe::{
    is_success_status, ProbeStep, ReadinessOutcome, ReadinessProbe, DEFAULT_INTERVAL_MS,
    DEFAULT_MAX_ATTEMPTS, REQUEST_TIMEOUT_MS,
};

/// Drives a probe to its end in a world that answers the request after `i`
/// earlier ones with `responses(i)`. Returns the outcome, the number of
/// requests made and the time slept, in milliseconds.
fn drive(mut probe: ReadinessProbe, responses: &dyn Fn(u32) -> Option<u16>) -> (ReadinessOutcome, u32, u64) {
    let mut polls = 0;
    let mut slept = 0;
    loop {
        match probe.next_step() {
            ProbeStep::Poll { wait_ms, .. } => {
                slept += wait_ms;
                probe.observe(responses(polls));
                polls += 1;
            }
            ProbeStep::Finished(outcome) => return (outcome, polls, slept),
        }
    }
}

#[test]
fn silent_service_times_out_after_exactly_the_budget() {
    let (outcome, polls, slept) = drive(ReadinessProbe::with_defaults(5555), &|_| None);
    assert_eq!(outcome, ReadinessOutcome::TimedOut);
    assert_eq!(polls, 20);
    assert_eq!(slept, 10_000);
}

#[test]
fn budget_is_exact_for_every_size() {
    for budget in 0u32..50 {
        let probe = ReadinessProbe::new(5555, 10, budget);
        let (outcome, polls, _) = drive(probe, &|_| Some(503));
        assert_eq!(outcome, ReadinessOutcome::TimedOut);
        assert_eq!(polls, budget);
    }
}

#[test]
fn service_up_after_three_seconds_is_ready_on_attempt_six() {
    // With half a second before each request, the sixth request is sent three
    // seconds after the spawn.
    let (outcome, polls, slept) = drive(ReadinessProbe::with_defaults(5557), &|i| {
        if (u64::from(i) + 1) * 500 >= 3000 { Some(200) } else { None }
    });
    assert_eq!(outcome, ReadinessOutcome::Ready("http://127.0.0.1:5557".to_string()));
    assert_eq!(polls, 6);
    assert_eq!(slept, 3000);
}

#[test]
fn probe_stops_at_the_first_success() {
    for first in 0u32..20 {
        let (outcome, polls, _) =
            drive(ReadinessProbe::with_defaults(5600), &|i| if i >= first { Some(200) } else { Some(500) });
        assert_eq!(outcome, ReadinessOutcome::Ready("http://127.0.0.1:5600".to_string()));
        assert_eq!(polls, first + 1);
    }
}

#[test]
fn success_on_the_last_attempt_still_counts() {
    let (outcome, polls, _) = drive(ReadinessProbe::new(5555, 500, 3), &|i| if i == 2 { Some(204) } else { None });
    assert_eq!(outcome, ReadinessOutcome::Ready("http://127.0.0.1:5555".to_string()));
    assert_eq!(polls, 3);
}

#[test]
fn success_beyond_the_budget_is_never_seen() {
    let (outcome, polls, _) = drive(ReadinessProbe::new(5555, 500, 3), &|i| if i >= 3 { Some(200) } else { None });
    assert_eq!(outcome, ReadinessOutcome::TimedOut);
    assert_eq!(polls, 3);
}

#[test]
fn zero_budget_times_out_at_once() {
    let probe = ReadinessProbe::new(5555, 500, 0);
    assert_eq!(probe.next_step(), ProbeStep::Finished(ReadinessOutcome::TimedOut));
}

#[test]
fn poll_names_interval_timeout_and_address() {
    let probe = ReadinessProbe::with_defaults(5557);
    assert_eq!(
        probe.next_step(),
        ProbeStep::Poll { wait_ms: 500, timeout_ms: 500, url: "http://127.0.0.1:5557/".to_string() }
    );
    let probe = ReadinessProbe::new(6000, 250, 4);
    assert_eq!(
        probe.next_step(),
        ProbeStep::Poll { wait_ms: 250, timeout_ms: 500, url: "http://127.0.0.1:6000/".to_string() }
    );
}

#[test]
fn default_tuning() {
    assert_eq!(DEFAULT_INTERVAL_MS, 500);
    assert_eq!(DEFAULT_MAX_ATTEMPTS, 20);
    assert!(REQUEST_TIMEOUT_MS <= 1000);
}

#[test]
fn only_success_class_statuses_are_ready() {
    for status in [200u16, 201, 204, 226, 299] {
        assert!(is_success_status(status));
        let mut probe = ReadinessProbe::with_defaults(5555);
        probe.observe(Some(status));
        assert_eq!(
            probe.next_step(),
            ProbeStep::Finished(ReadinessOutcome::Ready("http://127.0.0.1:5555".to_string()))
        );
    }
    for status in [0u16, 100, 199, 300, 301, 404, 500, 503, 65535] {
        assert!(!is_success_status(status));
        let mut probe = ReadinessProbe::with_defaults(5555);
        probe.observe(Some(status));
        assert!(matches!(probe.next_step(), ProbeStep::Poll { .. }));
    }
}

#[test]
fn attempts_are_counted() {
    let mut probe = ReadinessProbe::new(5555, 500, 3);
    assert_eq!(probe.attempts(), 0);
    probe.observe(None);
    assert_eq!(probe.attempts(), 1);
    probe.observe(Some(404));
    assert_eq!(probe.attempts(), 2);
    probe.observe(None);
    assert_eq!(probe.attempts(), 3);
    probe.observe(Some(200));
    assert_eq!(probe.attempts(), 3);
    assert_eq!(probe.next_step(), ProbeStep::Finished(ReadinessOutcome::TimedOut));
}

#[test]
fn finished_probe_ignores_further_answers() {
    let mut probe = ReadinessProbe::with_defaults(5555);
    probe.observe(Some(200));
    probe.observe(None);
    probe.observe(Some(500));
    assert_eq!(probe.attempts(), 1);
    assert_eq!(
        probe.next_step(),
        ProbeStep::Finished(ReadinessOutcome::Ready("http://127.0.0.1:5555".to_string()))
    );
}

#[test]
fn largest_budget_does_not_overflow() {
    let mut probe = ReadinessProbe::new(5555, 0, u32::MAX);
    probe.observe(None);
    assert_eq!(probe.attempts(), 1);
    assert!(matches!(probe.next_step(), ProbeStep::Poll { wait_ms: 0, .. }));
}
