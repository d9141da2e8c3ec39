//! Operations, their arguments and their errors.

use aw_gateway::failure::Failure;
use aw_gateway::gateway::failures::{AgentNotReady, ContainerNotFound};
use aw_gateway::gateway::ops::dispatch::{
    execute_gateway_operation, execute_gateway_operation_cancelable, OperationWork, RuntimeTask,
};
use aw_gateway::gateway::ops::request::{
    lookup_launch, reject_listen_up, ClientConfigArgs, GatewayOperation, LaunchShowArgs,
    LaunchesArgs, RemoveArgs, ResultKind, RunArgs, SetDefaultArgs, StatusArg, StopArgs,
    TargetsArgs,
};
use aw_gateway::gateway::ops::ssh::{
    ClientBundleAction, ClientConfigAction, GatewayAction, KeyAction, KeySourceAction, RunAction,
    SshGatewayOperation, SshRenderOptions, StatusAction, TargetSessionAction,
};
use aw_gateway::gateway::ops::types::{
    CanonicalLaunchVarValue, LaunchPassthroughArgs, LaunchVarConfig, LaunchVarType,
    LaunchVarValue, NumberReading, OperationError, OperationExecutionOptions, SuppliedLaunchVars,
};
use aw_gateway::config::LocalSshMode;
use aw_gateway::runtime::{
    validate_gateway_labels, ContainerConfig, ContainerInspect, ContainerState,
};
use aw_gateway::text_map::TextMap;

fn texts(parts: &[&str]) -> Vec<String> {
    parts.iter().map(|part| part.to_string()).collect()
}

/// What reading `raw` as a number gives, as the caller of the library finds it.
fn reading(raw: &str) -> NumberReading {
    match raw.parse::<f64>() {
        Err(_) => NumberReading::NotANumber,
        Ok(value) if !value.is_finite() => NumberReading::NotFinite,
        Ok(value) => NumberReading::Finite(format!("{value}")),
    }
}

fn reading_of(value: &CanonicalLaunchVarValue) -> NumberReading {
    match value {
        CanonicalLaunchVarValue::String(raw) => reading(raw),
        _ => NumberReading::NotANumber,
    }
}

fn launch_var_config(var_type: LaunchVarType, values: Option<Vec<&str>>) -> LaunchVarConfig {
    LaunchVarConfig {
        var_type,
        required: false,
        default: None,
        values: values.map(|values| values.into_iter().map(str::to_string).collect()),
        description: None,
    }
}

fn assert_coerced_rendered(
    name: &str,
    var: LaunchVarConfig,
    value: CanonicalLaunchVarValue,
    expected: &str,
) {
    let rendered = value
        .coerce_for_config(name, &var, &reading_of(&value))
        .unwrap()
        .rendered();
    assert_eq!(rendered, expected);
}

fn assert_coercion_error(
    name: &str,
    var: LaunchVarConfig,
    value: CanonicalLaunchVarValue,
    expected: &str,
) {
    let err = value
        .coerce_for_config(name, &var, &reading_of(&value))
        .unwrap_err();
    assert!(
        err.message().contains(expected),
        "expected {expected:?} in {}",
        err.message()
    );
}

#[test]
fn canonical_launch_var_values_coerce_render_and_convert_defaults_for_config_types() {
    assert_coerced_rendered(
        "repo",
        launch_var_config(LaunchVarType::String, None),
        CanonicalLaunchVarValue::String("https://example.test/repo.git".into()),
        "https://example.test/repo.git",
    );
    assert_coerced_rendered(
        "mode",
        launch_var_config(LaunchVarType::Enum, Some(vec!["fast", "safe"])),
        CanonicalLaunchVarValue::String("safe".into()),
        "safe",
    );
    assert_coerced_rendered(
        "debug",
        launch_var_config(LaunchVarType::Boolean, None),
        CanonicalLaunchVarValue::String("true".into()),
        "true",
    );
    assert_coerced_rendered(
        "debug",
        launch_var_config(LaunchVarType::Boolean, None),
        CanonicalLaunchVarValue::String("false".into()),
        "false",
    );
    assert_coerced_rendered(
        "debug",
        launch_var_config(LaunchVarType::Boolean, None),
        CanonicalLaunchVarValue::Boolean(true),
        "true",
    );
    assert_coerced_rendered(
        "count",
        launch_var_config(LaunchVarType::Number, None),
        CanonicalLaunchVarValue::String("2.0".into()),
        "2",
    );
    assert_coerced_rendered(
        "count",
        launch_var_config(LaunchVarType::Number, None),
        CanonicalLaunchVarValue::String("+2".into()),
        "2",
    );
    assert_coerced_rendered(
        "count",
        launch_var_config(LaunchVarType::Number, None),
        CanonicalLaunchVarValue::String("001".into()),
        "001",
    );
    assert_coerced_rendered(
        "count",
        launch_var_config(LaunchVarType::Number, None),
        CanonicalLaunchVarValue::Number("3".into()),
        "3",
    );
    assert_coerced_rendered(
        "ratio",
        launch_var_config(LaunchVarType::Number, None),
        CanonicalLaunchVarValue::Number("1.5".into()),
        "1.5",
    );
    assert_coerced_rendered(
        "limit",
        launch_var_config(LaunchVarType::Number, None),
        CanonicalLaunchVarValue::from_config_default(&LaunchVarValue::Float(format!("{}", 2.0))),
        "2",
    );

    assert_coercion_error(
        "count",
        launch_var_config(LaunchVarType::Number, None),
        CanonicalLaunchVarValue::String("abc".into()),
        "invalid number launch variable \"count\"",
    );
    assert_coercion_error(
        "count",
        launch_var_config(LaunchVarType::Number, None),
        CanonicalLaunchVarValue::String("NaN".into()),
        "invalid number launch variable \"count\"; expected finite number",
    );
    assert_coercion_error(
        "count",
        launch_var_config(LaunchVarType::Number, None),
        CanonicalLaunchVarValue::String("inf".into()),
        "invalid number launch variable \"count\"; expected finite number",
    );
    assert_coercion_error(
        "count",
        launch_var_config(LaunchVarType::Number, None),
        CanonicalLaunchVarValue::String("-inf".into()),
        "invalid number launch variable \"count\"; expected finite number",
    );
    assert_coercion_error(
        "debug",
        launch_var_config(LaunchVarType::Boolean, None),
        CanonicalLaunchVarValue::String("yes".into()),
        "invalid boolean launch variable \"debug\"; expected true or false",
    );
    assert_coercion_error(
        "repo",
        launch_var_config(LaunchVarType::String, None),
        CanonicalLaunchVarValue::Boolean(true),
        "invalid string launch variable \"repo\"; expected string",
    );
    assert_coercion_error(
        "repo",
        launch_var_config(LaunchVarType::String, None),
        CanonicalLaunchVarValue::String("line\nbreak".into()),
        "invalid launch variable \"repo\"; must not contain NUL, LF, or CR",
    );
    assert_coercion_error(
        "repo",
        launch_var_config(LaunchVarType::String, None),
        CanonicalLaunchVarValue::String("bad\0value".into()),
        "invalid launch variable \"repo\"; must not contain NUL, LF, or CR",
    );
    assert_coercion_error(
        "mode",
        launch_var_config(LaunchVarType::Enum, Some(vec!["fast", "safe"])),
        CanonicalLaunchVarValue::Boolean(true),
        "invalid enum launch variable \"mode\"; expected string",
    );
    assert_coercion_error(
        "mode",
        launch_var_config(LaunchVarType::Enum, Some(vec!["fast", "safe"])),
        CanonicalLaunchVarValue::String("safe\r".into()),
        "invalid launch variable \"mode\"; must not contain NUL, LF, or CR",
    );
    assert_coercion_error(
        "count",
        launch_var_config(LaunchVarType::Number, None),
        CanonicalLaunchVarValue::Boolean(true),
        "invalid number launch variable \"count\"",
    );
}

#[test]
fn enum_values_outside_the_choices_are_refused_with_the_choices() {
    let var = launch_var_config(LaunchVarType::Enum, Some(vec!["fast", "safe"]));
    let err = CanonicalLaunchVarValue::String("slow".into())
        .coerce_for_config("mode", &var, &NumberReading::NotANumber)
        .unwrap_err();
    assert_eq!(
        err.message(),
        "invalid enum launch variable \"mode\"; expected one of fast, safe"
    );
}

#[test]
fn coercing_a_coerced_value_changes_nothing() {
    for (var_type, raw) in [
        (LaunchVarType::Number, "2.50"),
        (LaunchVarType::Boolean, "true"),
        (LaunchVarType::String, "x y"),
    ] {
        let var = launch_var_config(var_type, None);
        let once = CanonicalLaunchVarValue::String(raw.into())
            .coerce_for_config("v", &var, &reading(raw))
            .unwrap();
        let twice = once
            .coerce_for_config("v", &var, &reading_of(&once))
            .unwrap();
        assert_eq!(once, twice);
    }
}

#[test]
fn canonical_launch_var_json_constructors_preserve_http_scalar_rules() {
    assert_eq!(
        CanonicalLaunchVarValue::from_json_string("repo".into()),
        CanonicalLaunchVarValue::String("repo".into())
    );
    assert_eq!(
        CanonicalLaunchVarValue::from_json_bool(true),
        CanonicalLaunchVarValue::Boolean(true)
    );
    assert_eq!(
        CanonicalLaunchVarValue::from_json_number(
            "count",
            Some(3),
            &NumberReading::Finite(format!("{}", 3.0))
        )
        .unwrap(),
        CanonicalLaunchVarValue::Number("3".into())
    );
    assert_eq!(
        CanonicalLaunchVarValue::from_json_number(
            "ratio",
            None,
            &NumberReading::Finite(format!("{}", 1.5))
        )
        .unwrap(),
        CanonicalLaunchVarValue::Number("1.5".into())
    );

    let err =
        CanonicalLaunchVarValue::from_json_number("count", None, &NumberReading::NotANumber)
            .unwrap_err();
    assert_eq!(
        err,
        "invalid launch variable \"count\": number must be finite"
    );
    let err = CanonicalLaunchVarValue::from_json_number("count", None, &NumberReading::NotFinite)
        .unwrap_err();
    assert_eq!(
        err,
        "invalid launch variable \"count\": number must be finite"
    );
}

#[test]
fn operation_error_display_preserves_messages_and_source() {
    for (err, expected) in [
        (
            OperationError::invalid_request("missing argument"),
            "missing argument",
        ),
        (
            OperationError::disabled_action("http action \"run\" is disabled"),
            "http action \"run\" is disabled",
        ),
        (
            OperationError::unknown_launch("unknown launch \"repo\""),
            "unknown launch \"repo\"",
        ),
        (
            OperationError::invalid_launch_variable("missing required launch variable \"repo\""),
            "missing required launch variable \"repo\"",
        ),
        (
            OperationError::invalid_session("invalid session id \"../bad\""),
            "invalid session id \"../bad\"",
        ),
    ] {
        assert_eq!(err.message(), expected);
        assert!(err.source().is_none());
    }

    let err = OperationError::operation_failed(Failure::msg("runtime failed"));
    assert_eq!(err.message(), "runtime failed");
    assert!(err.source().is_some());
}

#[test]
fn operation_failure_classifier_preserves_typed_runtime_failures() {
    let err = OperationError::operation_failed(AgentNotReady::failure());
    assert!(matches!(err, OperationError::AgentNotReady { .. }));
    assert_eq!(err.message(), "container agent did not become ready");
    assert!(err.source().is_some());

    let err = OperationError::operation_failed(ContainerNotFound::after_start());
    assert!(matches!(err, OperationError::ContainerNotFound { .. }));
    assert_eq!(err.message(), "container did not exist after start");

    let mut expected = TextMap::new();
    expected.insert("io.aw-gateway.target".to_string(), "default".to_string());
    let unlabeled = ContainerInspect {
        id: "id".into(),
        name: "ubuntu-dev".into(),
        state: ContainerState { running: true, pid: None },
        config: ContainerConfig { labels: TextMap::new() },
    };
    let err = OperationError::operation_failed(
        validate_gateway_labels(&unlabeled, &expected).unwrap_err(),
    );
    assert!(matches!(err, OperationError::ContainerLabelMismatch { .. }));
    assert_eq!(
        err.message(),
        "container missing required label \"io.aw-gateway.target\""
    );
}

#[test]
fn context_does_not_change_how_a_failure_is_classified() {
    let err = OperationError::operation_failed(AgentNotReady::failure().context("bring up"));
    assert!(matches!(err, OperationError::AgentNotReady { .. }));
    let err = OperationError::operation_failed(Failure::msg("x").context("bring up"));
    assert!(matches!(err, OperationError::OperationFailed { .. }));
    assert_eq!(err.message(), "bring up");
    assert_eq!(err.source().unwrap().full_message(), "bring up: x");
}

#[test]
fn operation_error_constructors_set_expected_variants() {
    assert!(matches!(
        OperationError::invalid_request("x"),
        OperationError::InvalidRequest { .. }
    ));
    assert!(matches!(
        OperationError::disabled_action("x"),
        OperationError::DisabledAction { .. }
    ));
    assert!(matches!(
        OperationError::unknown_launch("x"),
        OperationError::UnknownLaunch { .. }
    ));
    assert!(matches!(
        OperationError::invalid_launch_variable("x"),
        OperationError::InvalidLaunchVariable { .. }
    ));
    assert!(matches!(
        OperationError::invalid_session("x"),
        OperationError::InvalidSession { .. }
    ));
    assert!(matches!(
        OperationError::operation_failed(Failure::msg("x")),
        OperationError::OperationFailed { .. }
    ));
}

#[test]
fn launch_lookup_distinguishes_missing_launch_from_invalid_launch_config() {
    let unresolved = Failure::msg("launch \"agent\" uses launch template \"missing-template\"");

    let err = lookup_launch::<()>(false, "missing", Err(unresolved.duplicate())).unwrap_err();
    assert!(matches!(
        err,
        OperationError::UnknownLaunch { ref message }
            if message == "unknown launch \"missing\""
    ));

    let err = lookup_launch::<()>(true, "agent", Err(unresolved)).unwrap_err();
    assert!(matches!(err, OperationError::OperationFailed { .. }));
    assert!(
        err.message()
            .contains("launch \"agent\" uses launch template \"missing-template\""),
        "{}",
        err.message()
    );

    assert_eq!(lookup_launch(true, "agent", Ok(7)).unwrap(), 7);
}

#[test]
fn constructs_targets_request_without_rendering_flags() {
    assert_eq!(
        GatewayOperation::from_targets_args(TargetsArgs { json: true }),
        GatewayOperation::Targets
    );
}

#[test]
fn constructs_status_and_status_all_requests_without_json() {
    assert_eq!(
        GatewayOperation::from_status_args(StatusArg {
            target: Some("dev".into()),
            all: false,
            json: true,
            session_id: Some("abc123".into()),
        }),
        GatewayOperation::Status {
            target: Some("dev".into()),
            session_id: Some("abc123".into()),
        }
    );
    assert_eq!(
        GatewayOperation::from_status_args(StatusArg {
            target: None,
            all: true,
            json: true,
            session_id: None,
        }),
        GatewayOperation::StatusAll
    );
}

#[test]
fn constructs_run_request() {
    let operation = GatewayOperation::from_run_args(RunArgs {
        target: Some("dev".into()),
        session_id: Some("abc123".into()),
        cwd: Some("/work".into()),
        command: vec!["cargo".into(), "test".into()],
    })
    .unwrap();
    assert_eq!(
        operation,
        GatewayOperation::Run {
            target: Some("dev".into()),
            session_id: Some("abc123".into()),
            cwd: Some("/work".into()),
            command: vec!["cargo".into(), "test".into()],
            options: OperationExecutionOptions::stream(),
        }
    );
}

#[test]
fn constructs_launch_discovery_requests_without_json() {
    assert_eq!(
        GatewayOperation::from_launches_args(LaunchesArgs { json: true }),
        GatewayOperation::Launches
    );
    assert_eq!(
        GatewayOperation::from_launch_show_args(LaunchShowArgs {
            name: "repo-shell".into(),
            json: true,
        }),
        GatewayOperation::LaunchShow {
            name: "repo-shell".into(),
        }
    );
}

#[test]
fn constructs_launch_run_request() {
    assert_eq!(
        GatewayOperation::launch_run(
            "repo-shell".into(),
            Some("abc123".into()),
            SuppliedLaunchVars::from_cli_pairs(&texts(&["repo=https://example.test/repo.git"]))
                .unwrap(),
            LaunchPassthroughArgs::new(),
        ),
        GatewayOperation::Launch {
            name: "repo-shell".into(),
            session_id: Some("abc123".into()),
            vars: SuppliedLaunchVars::from_cli_pairs(&texts(&[
                "repo=https://example.test/repo.git"
            ]))
            .unwrap(),
            args: LaunchPassthroughArgs::new(),
            options: OperationExecutionOptions::stream(),
        }
    );
}

fn assert_ssh_operation_request(
    action: GatewayAction,
    operation: GatewayOperation,
    render: SshRenderOptions,
) {
    assert_eq!(
        SshGatewayOperation::from_action(&action).unwrap(),
        Some(SshGatewayOperation { operation, render })
    );
}

#[test]
fn constructs_operation_requests_from_ssh_actions() {
    assert_ssh_operation_request(
        GatewayAction::Up(Some("dev".into())),
        GatewayOperation::Up {
            target: Some("dev".into()),
            session_id: None,
        },
        SshRenderOptions::plain_text(),
    );
    assert_ssh_operation_request(
        GatewayAction::Run(RunAction {
            target: Some("dev".into()),
            session_id: Some("abc123".into()),
            cwd: Some("/work".into()),
            command: vec!["cargo".into(), "test".into()],
        }),
        GatewayOperation::from_run_args(RunArgs {
            target: Some("dev".into()),
            session_id: Some("abc123".into()),
            cwd: Some("/work".into()),
            command: vec!["cargo".into(), "test".into()],
        })
        .unwrap(),
        SshRenderOptions::plain_text(),
    );
    assert_ssh_operation_request(
        GatewayAction::LaunchRun {
            name: "repo-shell".into(),
            session_id: Some("abc123".into()),
            vars: vec!["repo=https://example.test/repo.git".into()],
            args: vec!["--skill".into(), "fresh-eyes".into()],
        },
        GatewayOperation::launch_run(
            "repo-shell".into(),
            Some("abc123".into()),
            SuppliedLaunchVars::from_cli_pairs(&texts(&["repo=https://example.test/repo.git"]))
                .unwrap(),
            LaunchPassthroughArgs::from_strings(vec!["--skill".into(), "fresh-eyes".into()])
                .unwrap(),
        ),
        SshRenderOptions::plain_text(),
    );
    assert_ssh_operation_request(
        GatewayAction::Status(StatusAction {
            target: Some("dev".into()),
            all: false,
        }),
        GatewayOperation::from_status_args(StatusArg {
            target: Some("dev".into()),
            all: false,
            json: false,
            session_id: None,
        }),
        SshRenderOptions::plain_text(),
    );
    assert_ssh_operation_request(
        GatewayAction::Status(StatusAction {
            target: None,
            all: true,
        }),
        GatewayOperation::from_status_args(StatusArg {
            target: None,
            all: true,
            json: false,
            session_id: None,
        }),
        SshRenderOptions::plain_text(),
    );
    assert_ssh_operation_request(
        GatewayAction::Stop(TargetSessionAction {
            target: Some("dev".into()),
            session_id: Some("abc123".into()),
        }),
        GatewayOperation::Stop {
            target: Some("dev".into()),
            session_id: Some("abc123".into()),
        },
        SshRenderOptions::plain_text(),
    );
    assert_ssh_operation_request(
        GatewayAction::Remove(TargetSessionAction {
            target: Some("dev".into()),
            session_id: Some("abc123".into()),
        }),
        GatewayOperation::Remove {
            target: Some("dev".into()),
            session_id: Some("abc123".into()),
        },
        SshRenderOptions::plain_text(),
    );
    assert_ssh_operation_request(
        GatewayAction::SetDefault("fedora-dev".into()),
        GatewayOperation::SetDefault {
            target_or_image: "fedora-dev".into(),
        },
        SshRenderOptions::plain_text(),
    );
    assert_ssh_operation_request(
        GatewayAction::ShowDefault,
        GatewayOperation::ShowDefault,
        SshRenderOptions::plain_text(),
    );
    assert_ssh_operation_request(
        GatewayAction::ResetDefault,
        GatewayOperation::ResetDefault,
        SshRenderOptions::plain_text(),
    );
    assert_ssh_operation_request(
        GatewayAction::ClientConfig(ClientConfigAction {
            target: Some("dev".into()),
            identity_file: Some("/tmp/id".into()),
        }),
        GatewayOperation::ClientConfig {
            target: Some("dev".into()),
            identity_file: Some("/tmp/id".into()),
        },
        SshRenderOptions::plain_text(),
    );
}

#[test]
fn preserves_ssh_render_options_for_metadata_actions() {
    for json in [false, true] {
        assert_ssh_operation_request(
            GatewayAction::Launches { json },
            GatewayOperation::from_launches_args(LaunchesArgs { json: false }),
            SshRenderOptions { json },
        );
        assert_ssh_operation_request(
            GatewayAction::Targets { json },
            GatewayOperation::from_targets_args(TargetsArgs { json: false }),
            SshRenderOptions { json },
        );
        assert_ssh_operation_request(
            GatewayAction::LaunchShow {
                name: "repo-shell".into(),
                json,
            },
            GatewayOperation::from_launch_show_args(LaunchShowArgs {
                name: "repo-shell".into(),
                json: false,
            }),
            SshRenderOptions { json },
        );
    }
}

#[test]
fn status_ssh_requests_ignore_transport_json_and_render_as_status_operations() {
    assert_ssh_operation_request(
        GatewayAction::Status(StatusAction {
            target: Some("dev".into()),
            all: false,
        }),
        GatewayOperation::Status {
            target: Some("dev".into()),
            session_id: None,
        },
        SshRenderOptions::plain_text(),
    );
    assert_ssh_operation_request(
        GatewayAction::Status(StatusAction {
            target: None,
            all: true,
        }),
        GatewayOperation::StatusAll,
        SshRenderOptions::plain_text(),
    );
}

#[test]
fn non_operation_ssh_actions_are_deferred() {
    for action in [
        GatewayAction::Connect(TargetSessionAction {
            target: Some("dev".into()),
            session_id: Some("abc123".into()),
        }),
        GatewayAction::AddKey(KeyAction {
            target: Some("dev".into()),
            public_key: Some("-".into()),
        }),
        GatewayAction::AddHostKey(KeySourceAction {
            public_key: Some("-".into()),
        }),
        GatewayAction::AddContainerKey(KeyAction {
            target: Some("dev".into()),
            public_key: Some("-".into()),
        }),
        GatewayAction::ClientBundle(ClientBundleAction {
            target: Some("dev".into()),
            identity_file: Some("/tmp/id".into()),
            rotate_key: true,
        }),
        GatewayAction::Help,
    ] {
        assert_eq!(SshGatewayOperation::from_action(&action).unwrap(), None);
    }
}

#[test]
fn ssh_launch_var_conversion_errors_remain_typed() {
    let err = SshGatewayOperation::from_action(&GatewayAction::LaunchRun {
        name: "repo-shell".into(),
        session_id: None,
        vars: vec!["repo=a".into(), "repo=b".into()],
        args: Vec::new(),
    })
    .unwrap_err();
    assert!(matches!(err, OperationError::InvalidLaunchVariable { .. }));
    assert_eq!(err.message(), "duplicate launch variable \"repo\"");
}

#[test]
fn launch_var_conversion_uses_existing_cli_pair_validation() {
    let err = SshGatewayOperation::from_action(&GatewayAction::LaunchRun {
        name: "repo-shell".into(),
        session_id: None,
        vars: vec!["repo".into()],
        args: Vec::new(),
    })
    .unwrap_err();
    assert!(matches!(err, OperationError::InvalidLaunchVariable { .. }));
    assert_eq!(err.message(), "--var must be key=value");
}

#[test]
fn supplied_variables_keep_every_pair() {
    let vars = SuppliedLaunchVars::from_cli_pairs(&texts(&["b=2=two", "a=1"])).unwrap();
    assert_eq!(
        vars.get("b"),
        Some(&CanonicalLaunchVarValue::String("2=two".into()))
    );
    assert_eq!(vars.keys(), texts(&["a", "b"]));
    assert_eq!(vars.get("c"), None);
}

#[test]
fn empty_arguments_are_refused() {
    let err = LaunchPassthroughArgs::from_strings(texts(&["a", ""])).unwrap_err();
    assert!(matches!(err, OperationError::InvalidLaunchArgs { .. }));
    assert_eq!(
        LaunchPassthroughArgs::from_strings(texts(&["a", "b c"]))
            .unwrap()
            .as_slice(),
        ["a", "b c"]
    );
}

#[test]
fn runs_need_a_command() {
    let err = GatewayOperation::from_run_args(RunArgs {
        target: None,
        session_id: None,
        cwd: None,
        command: Vec::new(),
    })
    .unwrap_err();
    assert!(matches!(err, OperationError::InvalidRequest { .. }));
    assert_eq!(err.message(), "run requires -- followed by a command; use up to start or hold a target");
}

#[test]
fn default_selection_requests_tell_set_show_and_reset_apart() {
    let request = |target: Option<&str>, reset: bool| {
        GatewayOperation::from_set_default_args(SetDefaultArgs {
            target_or_image: target.map(str::to_string),
            reset,
        })
    };
    assert_eq!(
        request(Some("dev"), false).unwrap(),
        GatewayOperation::SetDefault { target_or_image: "dev".into() }
    );
    assert_eq!(request(None, true).unwrap(), GatewayOperation::ResetDefault);
    assert!(matches!(
        request(None, false).unwrap_err(),
        OperationError::InvalidRequest { .. }
    ));
}

#[test]
fn operations_answer_with_their_own_kind_of_result() {
    let stop = GatewayOperation::from_stop_args(StopArgs {
        target: Some("dev".into()),
        session_id: None,
    });
    assert_eq!(stop.result_kind(), ResultKind::Stop);
    assert!(!stop.is_cancelable());
    let remove = GatewayOperation::from_remove_args(RemoveArgs {
        target: None,
        session_id: Some("abc123".into()),
    });
    assert_eq!(remove.result_kind(), ResultKind::Remove);
    let config = GatewayOperation::from_client_config_args(ClientConfigArgs {
        target: None,
        identity_file: None,
    });
    assert_eq!(config.result_kind(), ResultKind::ClientConfig);
    assert_eq!(
        GatewayOperation::ShowDefault.result_kind(),
        ResultKind::DefaultSelection
    );
    let run = GatewayOperation::from_run_args(RunArgs {
        target: None,
        session_id: None,
        cwd: None,
        command: texts(&["true"]),
    })
    .unwrap();
    assert_eq!(run.result_kind(), ResultKind::Run);
    assert!(run.is_cancelable());
}

#[test]
fn up_is_refused_for_listening_targets() {
    assert!(reject_listen_up(None).is_ok());
    assert!(reject_listen_up(Some(LocalSshMode::Direct)).is_ok());
    assert!(reject_listen_up(Some(LocalSshMode::Listen)).is_err());
}

#[test]
fn operations_are_carried_out_on_what_they_name() {
    let on_target = |operation: GatewayOperation| match execute_gateway_operation(operation) {
        OperationWork::OnTarget {
            target,
            session_id,
            may_begin_session,
            task,
        } => (target, session_id, may_begin_session, task),
        other => panic!("{other:?}"),
    };
    let target = Some("dev".to_string());
    let session_id = Some("s1".to_string());

    let (named, session, may_begin, task) = on_target(GatewayOperation::Up {
        target: target.clone(),
        session_id: session_id.clone(),
    });
    assert_eq!((named, session), (target.clone(), session_id.clone()));
    assert!(may_begin);
    assert_eq!(task, RuntimeTask::BringUp);

    let (_, session, may_begin, task) = on_target(GatewayOperation::Remove {
        target: target.clone(),
        session_id: session_id.clone(),
    });
    assert_eq!(session, session_id);
    assert!(!may_begin);
    assert_eq!(task, RuntimeTask::Remove);

    let (_, session, may_begin, task) = on_target(GatewayOperation::ClientConfig {
        target: target.clone(),
        identity_file: Some("/k".to_string()),
    });
    assert_eq!(session, None);
    assert!(!may_begin);
    assert_eq!(
        task,
        RuntimeTask::WriteClientConfig {
            identity_file: Some("/k".to_string())
        }
    );

    let run = GatewayOperation::Run {
        target,
        session_id: None,
        cwd: None,
        command: vec!["true".to_string()],
        options: OperationExecutionOptions::wait(),
    };
    let (work, cancelable) = execute_gateway_operation_cancelable(run.clone());
    assert_eq!(work, execute_gateway_operation(run));
    assert!(cancelable);
    let (work, cancelable) = execute_gateway_operation_cancelable(GatewayOperation::StatusAll);
    assert_eq!(work, OperationWork::ListContainers);
    assert!(!cancelable);
    assert_eq!(
        execute_gateway_operation(GatewayOperation::ResetDefault),
        OperationWork::ForgetDefault
    );
}
