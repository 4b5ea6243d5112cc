use service_supervisor::spawn::{
    plan_spawn, spawn_args, verbose_requested, SpawnCommand, SpawnError, TreeKill, VERBOSE_VARIABLE,
};

#[test]
fn verbose_is_off_when_the_variable_is_unset() {
    assert!(!verbose_requested(None));
}

#[test]
fn verbose_accepts_one_and_true() {
    assert!(verbose_requested(Some("1")));
    assert!(verbose_requested(Some("true")));
}

#[test]
fn verbose_accepts_true_in_any_case() {
    for v in ["TRUE", "True", "tRuE", "truE", "TRUe", "tRUE"] {
        assert!(verbose_requested(Some(v)), "{}", v);
    }
}

#[test]
fn verbose_rejects_everything_else() {
    for v in ["", "0", "2", "11", "01", "yes", "on", "false", "true ", " true", "tru", "truee", "t", "1 ", "trve", "\u{165}rue"] {
        assert!(!verbose_requested(Some(v)), "{:?}", v);
    }
}

#[test]
fn verbose_agrees_with_lowercasing() {
    for v in ["true", "TRUE", "True", "1", "0", "", "TrUe", "false", "\u{130}rue", "truE", "one"] {
        let expected = v.to_lowercase() == "true" || v == "1";
        assert_eq!(verbose_requested(Some(v)), expected, "{:?}", v);
    }
}

#[test]
fn arguments_without_verbose() {
    assert_eq!(spawn_args(5557, false), vec!["--port".to_string(), "5557".to_string()]);
}

#[test]
fn arguments_with_verbose() {
    assert_eq!(
        spawn_args(5555, true),
        vec!["--port".to_string(), "5555".to_string(), "--verbose".to_string()]
    );
}

#[test]
fn missing_binary_is_binary_not_found() {
    assert_eq!(
        plan_spawn(false, Some(5555), false, TreeKill::ProcessGroup),
        Err(SpawnError::BinaryNotFound)
    );
}

#[test]
fn missing_binary_comes_before_missing_port() {
    assert_eq!(plan_spawn(false, None, true, TreeKill::Unsupported), Err(SpawnError::BinaryNotFound));
}

#[test]
fn missing_port_is_port_not_allocated() {
    assert_eq!(plan_spawn(true, None, false, TreeKill::ProcessGroup), Err(SpawnError::PortNotAllocated));
}

#[test]
fn command_for_a_process_group_platform() {
    assert_eq!(
        plan_spawn(true, Some(5557), false, TreeKill::ProcessGroup),
        Ok(SpawnCommand {
            port: 5557,
            args: vec!["--port".to_string(), "5557".to_string()],
            own_process_group: true,
        })
    );
}

#[test]
fn command_for_a_platform_without_process_groups() {
    assert_eq!(
        plan_spawn(true, Some(5600), true, TreeKill::Unsupported),
        Ok(SpawnCommand {
            port: 5600,
            args: vec!["--port".to_string(), "5600".to_string(), "--verbose".to_string()],
            own_process_group: false,
        })
    );
}

#[test]
fn verbose_variable_is_named_verbose() {
    assert_eq!(VERBOSE_VARIABLE, "VERBOSE");
}
