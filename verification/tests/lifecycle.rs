use service_supervisor::lifecycle::{LaunchMode, LifecycleEvent, Phase};

const PHASES: [Phase; 8] = [
    Phase::NotStarted,
    Phase::Starting,
    Phase::Running,
    Phase::Stopping,
    Phase::Stopped,
    Phase::PortExhausted,
    Phase::BinaryMissing,
    Phase::SpawnFailed,
];

const EVENTS: [LifecycleEvent; 8] = [
    LifecycleEvent::Launched(LaunchMode::Production),
    LifecycleEvent::Launched(LaunchMode::Development),
    LifecycleEvent::PortsExhausted,
    LifecycleEvent::BinaryNotFound,
    LifecycleEvent::SpawnSucceeded,
    LifecycleEvent::SpawnFailed,
    LifecycleEvent::StopRequested,
    LifecycleEvent::ProcessReaped,
];

#[test]
fn the_good_path() {
    let mut phase = Phase::NotStarted;
    phase = phase.advance(LifecycleEvent::Launched(LaunchMode::Production));
    assert_eq!(phase, Phase::Starting);
    phase = phase.advance(LifecycleEvent::SpawnSucceeded);
    assert_eq!(phase, Phase::Running);
    phase = phase.advance(LifecycleEvent::StopRequested);
    assert_eq!(phase, Phase::Stopping);
    phase = phase.advance(LifecycleEvent::ProcessReaped);
    assert_eq!(phase, Phase::Stopped);
}

#[test]
fn the_three_failed_starts() {
    assert_eq!(Phase::Starting.advance(LifecycleEvent::PortsExhausted), Phase::PortExhausted);
    assert_eq!(Phase::Starting.advance(LifecycleEvent::BinaryNotFound), Phase::BinaryMissing);
    assert_eq!(Phase::Starting.advance(LifecycleEvent::SpawnFailed), Phase::SpawnFailed);
}

#[test]
fn development_launch_starts_nothing() {
    for phase in PHASES {
        assert_eq!(phase.advance(LifecycleEvent::Launched(LaunchMode::Development)), phase);
    }
}

#[test]
fn failed_starts_come_from_starting_only() {
    for phase in PHASES {
        for event in EVENTS {
            let next = phase.advance(event);
            if next.is_failed() && !phase.is_failed() {
                assert_eq!(phase, Phase::Starting);
            }
        }
    }
}

#[test]
fn running_comes_from_a_successful_spawn_only() {
    for phase in PHASES {
        for event in EVENTS {
            if phase != Phase::Running && phase.advance(event) == Phase::Running {
                assert_eq!(phase, Phase::Starting);
                assert_eq!(event, LifecycleEvent::SpawnSucceeded);
            }
        }
    }
}

#[test]
fn terminal_phases_do_not_move() {
    for phase in PHASES {
        let terminal = matches!(
            phase,
            Phase::Stopped | Phase::PortExhausted | Phase::BinaryMissing | Phase::SpawnFailed
        );
        assert_eq!(phase.is_terminal(), terminal);
        if terminal {
            for event in EVENTS {
                assert_eq!(phase.advance(event), phase);
            }
        }
    }
}

#[test]
fn failed_phases_are_the_three_failures() {
    assert!(Phase::PortExhausted.is_failed());
    assert!(Phase::BinaryMissing.is_failed());
    assert!(Phase::SpawnFailed.is_failed());
    assert!(!Phase::NotStarted.is_failed());
    assert!(!Phase::Starting.is_failed());
    assert!(!Phase::Running.is_failed());
    assert!(!Phase::Stopping.is_failed());
    assert!(!Phase::Stopped.is_failed());
}

#[test]
fn nothing_restarts_a_stopped_service() {
    for start in [Phase::Stopping, Phase::Stopped, Phase::PortExhausted, Phase::BinaryMissing, Phase::SpawnFailed] {
        for first in EVENTS {
            for second in EVENTS {
                for third in EVENTS {
                    let end = start.advance(first).advance(second).advance(third);
                    assert_ne!(end, Phase::Running);
                    assert_ne!(end, Phase::Starting);
                }
            }
        }
    }
}

#[test]
fn events_out_of_place_are_ignored() {
    assert_eq!(Phase::NotStarted.advance(LifecycleEvent::SpawnSucceeded), Phase::NotStarted);
    assert_eq!(Phase::NotStarted.advance(LifecycleEvent::StopRequested), Phase::NotStarted);
    assert_eq!(Phase::Running.advance(LifecycleEvent::Launched(LaunchMode::Production)), Phase::Running);
    assert_eq!(Phase::Running.advance(LifecycleEvent::SpawnFailed), Phase::Running);
    assert_eq!(Phase::Running.advance(LifecycleEvent::ProcessReaped), Phase::Running);
    assert_eq!(Phase::Stopping.advance(LifecycleEvent::StopRequested), Phase::Stopping);
    assert_eq!(Phase::Starting.advance(LifecycleEvent::StopRequested), Phase::Starting);
}
