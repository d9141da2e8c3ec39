//! Sessions, the agents and clients that take part in them, and what is printed.

use aw_gateway::config::{
    ContainerRuntimeType, LocalSshBackend, LocalSshMode, TargetAccessMethod, TargetMode,
    WorkspaceCleanup,
};
use aw_gateway::failure::{Failure, FailureKind};
use aw_gateway::gateway::agent_client::{
    after_agent_status, confirm_session_hold, judge_reply, parse_agent_control_success,
    request_timed_out, AgentLine, AgentLineStep, AgentRequest, AgentWait, ControlFault,
    MAX_AGENT_RESPONSE_BYTES,
};
use aw_gateway::gateway::client::{
    accept_public_key, configured_default_display, key_report, key_status,
    normalize_image_selection, read_default_selection, resolve_target_selection, set_default,
    show_default, ssh_identity_lines, ClientConfigInputs, DefaultFile,
};
use aw_gateway::gateway::execution::{
    detach_discard_options, foreground_canceled, foreground_finished, launch_container_step_env,
    launch_final_env, listens_for_signals, render_launch_cwd, runs_in_background,
    ForegroundCancelSignal, OperationSessionSpec, RenderedLaunch, SessionNext, SessionStep,
};
use aw_gateway::gateway::health::{
    command_end, command_result, field_result, group_is_gone, health_check_timeout, http_health,
    network_check_result, process_group, steps_after_wait, CheckEnd, CommandEnd, CommandStep,
    NetworkCheck, WaitEnd,
};
use aw_gateway::gateway::http::pty::{
    auth_step, canceled_pty, expect_execution, handle_pty_exit, listener_enabled,
    lost_operation, parse_pty_auth, parse_pty_control, shutdown_step, unstarted_pty, AttachedPty,
    AuthEvent, PtyAction, PtyClientControl, PtyEvent, PtyExit, PtyFarewell, PtyLeaseManager,
    ShutdownStep, WaitShutdown, WaitShutdownAction, MAX_WS_BINARY_BYTES, MAX_WS_TEXT_BYTES,
};
use aw_gateway::gateway::http::request::{ContainerPtySize, TerminalRequest};
use aw_gateway::gateway::http::response::ErrorCode;
use aw_gateway::gateway::identity::{
    ensure_authorized_key, is_plausible_public_key, validate_public_key_content,
};
use aw_gateway::gateway::lifecycle::{
    container_after_start, readiness_plan, ContainerReadinessPlan, ReadinessDecision,
    ReadinessStep,
};
use aw_gateway::gateway::lifecycle_hooks::{
    after_host_command, after_host_health_check, after_lifecycle_step, host_hook_timeout,
    steps_in_phase, HealthCheckTexts, HostStep, HostStepNext, LifecycleStep,
};
use aw_gateway::gateway::listener::{bind_failure, listener_address, LocalSshAddress};
use aw_gateway::gateway::model::{
    gateway_status_name, AgentBridgeStatus, AgentIdleStatus, AgentStatus, AllStatusEntry,
    GatewayStatus, LaunchDetail, LaunchStepDetail, LaunchSummary, LaunchVarMetadata, LocalListenerStatus, LocalSshReady, ReadyStatus,
    SessionMarker, SessionOutcome, SessionStatus, SshTarget, TargetEntry, TcpEndpoint,
};
use aw_gateway::gateway::ops::remove::{
    removal_after_first_look, removal_after_removed, removal_after_second_look,
    removal_after_stop, removal_result, stop_after_inspect, stop_result, Removal, StopStep,
};
use aw_gateway::gateway::ops::request::ResultKind;
use aw_gateway::gateway::ops::types::{
    ExecutionOutcome, LaunchVarValue, OperationError, OperationExecutionOptions, OperationMode,
    OutputSelection, RemoveResult, StopResult,
};
use aw_gateway::gateway::published_port::{
    after_published_port_run, port_file_content, published_port_bind_conflict,
    reservation_failure, runtime_type_name, target_mode_name, EndpointFile, PortFile,
    PublishedFacts, RunNext,
};
use aw_gateway::gateway::render::{
    env_summary, launch_var_description, launch_var_text, remove_result_text,
    render_launch_detail, render_launches, render_remove_result, render_status_all,
    render_status_result, render_stop_result, render_targets, stop_result_text,
};
use aw_gateway::gateway::session::{
    active_local_listener_status, active_session_markers, generate_session_id_value,
    local_listener_is_active, local_ssh_port, parse_process_start_time, ps_start_time,
    session_id_from_token, session_marker_is_active, validate_session_id, ListenerFinding,
    ListenerRecord, LocalPort, RecordFile,
};
use aw_gateway::gateway::state::{
    ControlSocketPaths, Runtime, RuntimeIdentity, RuntimePaths, TargetConfig,
};
use aw_gateway::gateway::tokens::{
    ensure_control_token, ensure_identity_token, identity_token_after_create,
    identity_token_text, keygen_arguments, keygen_result, keypair_plan, new_control_token,
    read_control_token_file, validate_control_token_content, validate_identity_token_content,
    validate_secret_file_permissions, CreateEnd, KeygenEnd, KeygenTask, KeypairStep, SecretFile,
    TokenSource,
};
use aw_gateway::health_probe::{HttpHealthResponse, JsonFieldCheck};
use aw_gateway::paths::UserContext;
use aw_gateway::runtime::{ContainerConfig, ContainerInspect, ContainerState};
use aw_gateway::text_map::TextMap;
use serde_json::Value;

fn texts(parts: &[&str]) -> Vec<String> {
    parts.iter().map(|part| part.to_string()).collect()
}

fn entries(pairs: &[(&str, &str)]) -> TextMap<String> {
    let mut map = TextMap::new();
    for (key, value) in pairs {
        map.insert(key.to_string(), value.to_string());
    }
    map
}

fn runtime() -> Runtime {
    Runtime {
        context: TextMap::new(),
        target: TargetConfig {
            image: "ubuntu/dev".into(),
            mode: TargetMode::Fixed,
            access_method: TargetAccessMethod::Ssh,
            agent_enabled: true,
            agent_control_enabled: true,
            ssh_bridge_enabled: false,
            ssh_endpoint_configured: true,
            ssh_backend: LocalSshBackend::Socket,
            ssh_mode: LocalSshMode::ProxyCommand,
            ssh_port: None,
            requires_control_socket_dir: true,
            bootstrap_enabled: false,
            session_env_inherit: Vec::new(),
            workspace_cleanup: WorkspaceCleanup::Never,
            idle_cleanup: None,
            host_socket_exposures: false,
        },
        identity: RuntimeIdentity {
            user: UserContext {
                uid: 2450,
                gid: 2450,
                user: "alice".into(),
                home: "/home/alice".into(),
            },
            target_name: "default".into(),
            launch_name: Some("agent".into()),
            session_id: None,
            bootstrap_user: "root".into(),
            session_uid: 2450,
            session_gid: 2451,
            session_shell: "/bin/bash".into(),
            container_user: "alice".into(),
            container_home: "/home/alice".into(),
            container_name: "ubuntu-dev".into(),
        },
        paths: RuntimePaths {
            workspace: "/base/workspace".into(),
            workspace_container_path: "/home/alice".into(),
            workspace_state_dir: "/base/workspace/.aw-gateway".into(),
            workspace_state_dir_in_container: "/home/alice/.aw-gateway".into(),
            container_state_dir: "/base/state".into(),
            container_state_dir_in_container: "/home/alice/.aw-gateway/containers/ubuntu-dev"
                .into(),
            control_sockets: ControlSocketPaths {
                host_dir: "/base/sockets".into(),
                container_dir: "/run/aw-gateway".into(),
                host_agent_socket: "/base/sockets/agent.sock".into(),
                host_ssh_socket: "/base/sockets/ssh.sock".into(),
                container_agent_socket: "/run/aw-gateway/agent.sock".into(),
                container_ssh_socket: "/run/aw-gateway/ssh.sock".into(),
                default_host_dir: false,
            },
        },
        kind: ContainerRuntimeType::Podman,
    }
}

fn published_runtime(kind: ContainerRuntimeType) -> Runtime {
    let mut runtime = runtime();
    runtime.kind = kind;
    runtime.target.ssh_backend = LocalSshBackend::PublishedPort;
    runtime.target.ssh_mode = LocalSshMode::Direct;
    runtime
}

fn inspect_with_running(running: bool) -> ContainerInspect {
    ContainerInspect {
        id: "id".into(),
        name: "ubuntu-dev".into(),
        state: ContainerState {
            running,
            pid: Some(123),
        },
        config: ContainerConfig {
            labels: runtime().labels(),
        },
    }
}

// ---------------------------------------------------------------- session ids and records

#[test]
fn generated_session_ids_are_short_lower_hex() {
    let id = generate_session_id_value().unwrap();

    assert_eq!(id.len(), 12);
    assert!(id.chars().all(|ch| ch.is_ascii_hexdigit()));
    assert!(id.chars().all(|ch| !ch.is_ascii_uppercase()));
}

#[test]
fn explicit_session_id_validation_keeps_existing_shape() {
    validate_session_id("x9k2p.custom_id").unwrap();
}

#[test]
fn session_ids_are_short_names() {
    assert_eq!(session_id_from_token("0123456789abcdef"), "0123456789ab");
    validate_session_id(&"x".repeat(64)).unwrap();
    for bad in ["", "..", "a/b", "a b", "\u{e9}"] {
        let err = validate_session_id(bad).unwrap_err();
        assert!(err.message().contains("invalid session id"), "{bad:?}");
    }
    assert!(validate_session_id(&"x".repeat(65)).is_err());
}

#[test]
fn session_outcome_maps_exit_code_results() {
    assert_eq!(
        SessionOutcome::from_exit_code_result(&Ok(0)),
        SessionOutcome::Success
    );
    assert_eq!(
        SessionOutcome::from_exit_code_result(&Ok(7)),
        SessionOutcome::Failure
    );
    assert_eq!(
        SessionOutcome::from_exit_code_result(&Err(Failure::msg("setup failed"))),
        SessionOutcome::Failure
    );
}

#[test]
fn executions_end_as_their_exit_codes_say() {
    assert_eq!(
        SessionOutcome::from_execution_result(&Ok(ExecutionOutcome::new(0))),
        SessionOutcome::Success
    );
    assert_eq!(
        SessionOutcome::from_execution_result(&Ok(ExecutionOutcome::captured(1, None, None))),
        SessionOutcome::Failure
    );
    assert_eq!(
        SessionOutcome::from_execution_result(&Err(Failure::msg("x"))),
        SessionOutcome::Failure
    );
    assert_eq!(ExecutionOutcome::detached("id".into()).exit_code(), None);
}

#[test]
fn parses_proc_stat_start_time() {
    let stat = "123 (bash) S 1 2 3 4 5 6 7 8 9 10 11 12 13 14 15 16 17 18 987654 20";
    assert_eq!(parse_process_start_time(stat).unwrap(), "987654");
}

#[test]
fn start_times_are_read_from_ps() {
    let told = |success: bool, stdout: &[u8]| ps_start_time(42, success, stdout.to_vec());
    assert_eq!(
        told(true, b" Mon Nov 16 09:00:00 2026\n").unwrap(),
        "Mon Nov 16 09:00:00 2026"
    );
    assert_eq!(told(false, b"x").unwrap_err().message(), "process 42 is not active");
    assert_eq!(told(true, b" \n").unwrap_err().message(), "process 42 has no start time");
    let err = told(true, b"\xff").unwrap_err();
    assert_eq!(err.message(), "process start time output is not valid UTF-8");
    assert_ne!(err.full_message(), err.message());
}

#[test]
fn malformed_stat_lines_are_refused() {
    assert_eq!(
        parse_process_start_time("123 bash").unwrap_err().message(),
        "malformed proc stat"
    );
    assert_eq!(
        parse_process_start_time("123 (a) S 1").unwrap_err().message(),
        "proc stat missing starttime"
    );
    let nested = "1 (a) b) c) S 1 2 3 4 5 6 7 8 9 10 11 12 13 14 15 16 17 18 42 20";
    assert_eq!(parse_process_start_time(nested).unwrap(), "42");
}

fn marker(id: &str, pid: u32, start: &str) -> SessionMarker {
    SessionMarker {
        id: id.into(),
        kind: "connect".into(),
        gateway_pid: pid,
        gateway_start_time: start.into(),
        container: "ubuntu-dev".into(),
        target: "default".into(),
        launch: None,
        context: TextMap::new(),
        created_at_ms: 0,
    }
}

#[test]
fn detects_current_process_session_marker_as_active() {
    assert!(session_marker_is_active(&marker("test", 77, "500"), 77, Some("500")));
}

#[test]
fn detects_current_process_session_marker_as_active_with_empty_start_time() {
    assert!(session_marker_is_active(&marker("test", 77, ""), 77, None));
}

#[test]
fn detects_current_process_local_listener_status_as_active() {
    let status = LocalListenerStatus {
        gateway_pid: 77,
        gateway_start_time: "500".into(),
        host: "127.0.0.1".into(),
        port: 40222,
        created_at_ms: 0,
    };
    assert!(local_listener_is_active(&status, 77, Some("500")));
    assert!(!local_listener_is_active(&status, 78, None));
}

#[test]
fn reused_process_numbers_do_not_keep_sessions_alive() {
    assert!(session_marker_is_active(&marker("s", 10, "500"), 77, Some("500")));
    assert!(!session_marker_is_active(&marker("s", 10, "500"), 77, Some("501")));
    assert!(!session_marker_is_active(&marker("s", 10, "500"), 77, None));
    assert!(!session_marker_is_active(&marker("s", 10, ""), 77, Some("")));
    assert!(!session_marker_is_active(&marker("s", 77, "500"), 77, Some("501")));
    assert!(!session_marker_is_active(&marker("s", 77, "500"), 77, None));
}

#[test]
fn sessions_are_listed_by_their_ids_and_stale_records_named() {
    let file = |path: &str, marker: Option<SessionMarker>, start: Option<&str>| RecordFile {
        path: path.into(),
        marker,
        start_time: start.map(str::to_string),
    };
    let survey = active_session_markers(
        vec![
            file("/m/b.json", Some(marker("b", 1, "5")), Some("5")),
            file("/m/stale.json", Some(marker("x", 2, "5")), None),
            file("/m/a.json", Some(marker("a", 3, "6")), Some("6")),
            file("/m/notes.txt", Some(marker("c", 3, "6")), Some("6")),
            file("/m/broken.json", None, None),
        ],
        77,
    );
    let ids: Vec<&str> = survey.sessions.iter().map(|s| s.id.as_str()).collect();
    assert_eq!(ids, ["a", "b"]);
    assert_eq!(survey.stale, texts(&["/m/stale.json"]));
}

#[test]
fn markers_name_their_session() {
    let mut runtime = runtime();
    runtime.context = entries(&[("tenant", "acme")]);
    let (path, marker) =
        runtime.session_marker("abc".into(), "launch", true, 9, Some("500".into()), 1234);
    assert!(path.ends_with("/abc.json"), "{path}");
    assert!(path.starts_with(&runtime.session_marker_dir()), "{path}");
    assert_eq!(marker.id, "abc");
    assert_eq!(marker.kind, "launch");
    assert_eq!(marker.launch.as_deref(), Some("agent"));
    assert_eq!(marker.gateway_start_time, "500");
    assert_eq!(marker.context, entries(&[("tenant", "acme")]));
    let status = SessionStatus::from_marker(marker);
    assert_eq!(status.created_at_ms, 1234);
    assert_eq!(status.container, "ubuntu-dev");
    let (_, plain) = runtime.session_marker("abc".into(), "connect", false, 9, None, 1);
    assert_eq!(plain.launch, None);
    assert_eq!(plain.gateway_start_time, "");
}

#[test]
fn listeners_are_found_through_their_record() {
    let status = LocalListenerStatus {
        gateway_pid: 1,
        gateway_start_time: "5".into(),
        host: "127.0.0.1".into(),
        port: 40222,
        created_at_ms: 0,
    };
    assert!(matches!(
        active_local_listener_status("/l", ListenerRecord::Found(status.clone(), true)).unwrap(),
        ListenerFinding::Active(found) if found.port == 40222
    ));
    assert!(matches!(
        active_local_listener_status("/l", ListenerRecord::Found(status.clone(), false)).unwrap(),
        ListenerFinding::Stale
    ));
    assert!(matches!(
        active_local_listener_status("/l", ListenerRecord::Missing).unwrap(),
        ListenerFinding::NoListener
    ));
    assert!(active_local_listener_status("/l", ListenerRecord::Malformed("x".into())).is_err());

    let any = LocalSshAddress {
        host: "127.0.0.1".into(),
        port: None,
    };
    let fixed = LocalSshAddress {
        host: "127.0.0.1".into(),
        port: Some(2222),
    };
    assert!(matches!(
        local_ssh_port(&fixed, "/l", "gone", ListenerRecord::Missing).unwrap(),
        LocalPort::Known(2222)
    ));
    assert!(matches!(
        local_ssh_port(&any, "/l", "gone", ListenerRecord::Found(status, true)).unwrap(),
        LocalPort::Known(40222)
    ));
    assert!(local_ssh_port(&any, "/l", "gone", ListenerRecord::Missing).is_err());
}

#[test]
fn listeners_are_not_started_twice() {
    let address = LocalSshAddress {
        host: "127.0.0.1".into(),
        port: Some(2222),
    };
    assert_eq!(
        listener_address(Some(&address), None).unwrap(),
        LocalSshReady {
            host: "127.0.0.1".into(),
            port: 2222,
        }
    );
    let active = LocalListenerStatus {
        gateway_pid: 1,
        gateway_start_time: "5".into(),
        host: "127.0.0.1".into(),
        port: 40222,
        created_at_ms: 0,
    };
    assert!(listener_address(Some(&address), Some(&active)).is_err());
    let failure = bind_failure(
        &LocalSshReady {
            host: "127.0.0.1".into(),
            port: 2222,
        },
        "address in use",
    );
    assert!(failure.full_message().contains("127.0.0.1:2222"));
    assert!(failure.full_message().contains("address in use"));
}

// ---------------------------------------------------------------- executions

#[test]
fn launch_env_precedence_is_session_then_launch_then_step() {
    let vars = entries(&[("var.step", "step-rendered")]);
    let session_env = entries(&[
        ("KEEP", "session"),
        ("OVERRIDE", "session"),
        ("STEP", "session"),
    ]);
    let launch_env = entries(&[("OVERRIDE", "launch")]);
    let step_env = entries(&[("STEP", vars.get("var.step").unwrap())]);

    let container_env = launch_container_step_env(&session_env, &launch_env, Ok(step_env)).unwrap();
    assert_eq!(container_env.get("KEEP").unwrap(), "session");
    assert_eq!(container_env.get("OVERRIDE").unwrap(), "launch");
    assert_eq!(container_env.get("STEP").unwrap(), "step-rendered");

    let final_env = launch_final_env(&session_env, &launch_env);
    assert_eq!(final_env.get("KEEP").unwrap(), "session");
    assert_eq!(final_env.get("OVERRIDE").unwrap(), "launch");
    assert_eq!(final_env.get("STEP").unwrap(), "session");
}

#[test]
fn detached_runner_uses_detach_mode_without_selected_output() {
    assert_eq!(
        detach_discard_options(),
        OperationExecutionOptions {
            mode: OperationMode::Detach,
            output: OutputSelection {
                stdout: false,
                stderr: false,
            },
        }
    );
}

#[test]
fn only_streamed_executions_listen_for_signals() {
    assert!(runs_in_background(OperationExecutionOptions::detach()));
    assert!(!runs_in_background(OperationExecutionOptions::wait()));
    assert!(listens_for_signals(OperationExecutionOptions::stream()));
    assert!(!listens_for_signals(OperationExecutionOptions::detach()));
}

#[test]
fn interrupted_executions_exit_by_their_signal() {
    let signal = ForegroundCancelSignal {
        name: "SIGINT".into(),
        number: 2,
    };
    assert_eq!(signal.exit_code(), 130);
    let canceled = foreground_canceled(&signal);
    assert!(canceled.interrupted);
    assert_eq!(canceled.outcome, SessionOutcome::Canceled);
    let finished = foreground_finished(Ok(ExecutionOutcome::new(0)));
    assert!(!finished.interrupted);
    assert_eq!(finished.outcome, SessionOutcome::Success);
}

#[test]
fn begun_sessions_are_finished_whatever_fails() {
    assert_eq!(SessionStep::Begin.next(false), SessionNext::Over);
    for step in [
        SessionStep::EnsureReady,
        SessionStep::HoldWithAgent,
        SessionStep::PrepareCommand,
        SessionStep::Execute,
    ] {
        assert_eq!(
            step.next(false),
            SessionNext::Continue(SessionStep::Finish),
            "{step:?}"
        );
    }
    assert_eq!(SessionStep::Finish.next(true), SessionNext::Over);
    assert_eq!(OperationSessionSpec::RunCommand.kind(), "run-command");
    assert!(OperationSessionSpec::Launch.uses_launch_marker());
}

#[test]
fn commands_run_as_the_sessions_user() {
    let spec = runtime().final_container_exec_spec(
        texts(&["cargo", "test"]),
        Some("/work".into()),
        entries(&[("A", "1")]),
        true,
        false,
    );
    assert_eq!(spec.user, "2450:2451");
    assert_eq!(spec.container_name, "ubuntu-dev");
    assert_eq!(spec.command, texts(&["cargo", "test"]));
    let mut docker = runtime();
    docker.kind = ContainerRuntimeType::Docker;
    let spec = docker.final_container_exec_spec(Vec::new(), None, TextMap::new(), false, false);
    assert_eq!(spec.user, "alice");
    assert_eq!(
        render_launch_cwd(Some(Ok("~/work".into())), "/home/alice").unwrap().as_deref(),
        Some("/home/alice/work")
    );
    assert_eq!(
        render_launch_cwd(Some(Ok("/step-safe-2".into())), "/home/alice").unwrap().as_deref(),
        Some("/step-safe-2")
    );
    assert!(render_launch_cwd(Some(Err(Failure::msg("x"))), "/home/alice").is_err());
    assert_eq!(runtime().run_cwd(Some("/work")).as_deref(), Some("/work"));
}

#[test]
fn runs_are_prepared_in_the_sessions_environment() {
    let spec = runtime()
        .prepare_run_command(
            texts(&["make"]),
            Some("~/src"),
            Ok(entries(&[("A", "1")])),
            true,
            false,
        )
        .unwrap();
    let home = runtime().identity.container_home;
    assert_eq!(spec.cwd, Some(format!("{home}/src")));
    assert_eq!(spec.env.get("A").unwrap(), "1");
    assert!(spec.stdin_tty);
    assert!(!spec.stdout_tty);

    let err = runtime()
        .prepare_run_command(texts(&["make"]), None, Err(Failure::msg("no env")), false, false)
        .unwrap_err();
    assert_eq!(err.message(), "no env");
}

fn rendered_launch() -> RenderedLaunch {
    RenderedLaunch {
        env: Ok(entries(&[("A", "launch")])),
        steps: Ok(()),
        session_env: Ok(entries(&[("A", "session"), ("B", "session")])),
        cwd: Some(Ok("/work".into())),
        command: Ok(texts(&["build"])),
    }
}

#[test]
fn launches_are_prepared_after_their_steps() {
    let spec = runtime().prepare_launch_command(rendered_launch(), false, false).unwrap();
    assert_eq!(spec.command, texts(&["build"]));
    assert_eq!(spec.cwd.as_deref(), Some("/work"));
    assert_eq!(spec.env.get("A").unwrap(), "launch");
    assert_eq!(spec.env.get("B").unwrap(), "session");

    let mut launch = rendered_launch();
    launch.command = Err(Failure::msg("command"));
    launch.cwd = Some(Err(Failure::msg("cwd")));
    let refused = |launch: RenderedLaunch| {
        runtime().prepare_launch_command(launch, false, false).unwrap_err().message()
    };
    assert_eq!(refused(launch), "cwd");
    let mut launch = rendered_launch();
    launch.session_env = Err(Failure::msg("session"));
    launch.steps = Err(Failure::msg("steps"));
    assert_eq!(refused(launch), "steps");
    let mut launch = rendered_launch();
    launch.steps = Err(Failure::msg("steps"));
    launch.env = Err(Failure::msg("env"));
    assert_eq!(refused(launch), "env");
    let mut launch = rendered_launch();
    launch.command = Err(Failure::msg("command"));
    assert_eq!(refused(launch), "command");
}

// ---------------------------------------------------------------- bringing up, stopping, removing

#[test]
fn readiness_plan_skips_pre_start_for_running_container() {
    let running = inspect_with_running(true);
    let stopped = inspect_with_running(false);

    match readiness_plan(Some(running.clone())) {
        ContainerReadinessPlan::ReuseRunning(inspect) => assert_eq!(inspect.name, running.name),
        other => panic!("expected running container reuse, got {other:?}"),
    }
    match readiness_plan(Some(stopped.clone())) {
        ContainerReadinessPlan::StartStopped(inspect) => assert_eq!(inspect.name, stopped.name),
        other => panic!("expected stopped container start, got {other:?}"),
    }
    assert!(matches!(
        readiness_plan(None),
        ContainerReadinessPlan::CreateMissing
    ));
}

#[test]
fn stale_sockets_are_removed_before_the_runtime_is_asked() {
    let runtime = runtime();
    assert!(matches!(
        runtime
            .begin_readiness(readiness_plan(Some(inspect_with_running(true))))
            .unwrap(),
        ReadinessDecision::Use(_)
    ));
    let ReadinessDecision::Proceed(mut state) =
        runtime.begin_readiness(readiness_plan(None)).unwrap()
    else {
        panic!("a missing container is created");
    };
    let mut steps = vec![state.next];
    while let Some(next) = state.advance() {
        state = next;
        steps.push(state.next);
    }
    assert_eq!(
        steps,
        [
            ReadinessStep::RunPreStartHooks,
            ReadinessStep::RemoveStaleSockets,
            ReadinessStep::CreateContainer,
            ReadinessStep::InspectContainer,
        ]
    );
    assert!(state.needs_cleanup());
    let mut foreign = inspect_with_running(false);
    foreign.config.labels = TextMap::new();
    assert!(runtime.begin_readiness(readiness_plan(Some(foreign))).is_err());
}

#[test]
fn containers_must_exist_after_their_start() {
    assert!(container_after_start(Some(inspect_with_running(true))).is_ok());
    let err = container_after_start(None).unwrap_err();
    assert!(!err.is_kind(FailureKind::ContainerNotFound));
    assert_eq!(err.message(), "container did not exist after start");
    assert!(matches!(
        OperationError::operation_failed(err),
        OperationError::OperationFailed { .. }
    ));
}

#[test]
fn running_containers_are_stopped_before_they_are_removed() {
    let runtime = runtime();
    let running = inspect_with_running(true);
    let stopped = inspect_with_running(false);
    assert_eq!(
        removal_after_first_look(&runtime, Some(&running)).unwrap(),
        Removal::StopFirst
    );
    assert_eq!(
        removal_after_first_look(&runtime, Some(&stopped)).unwrap(),
        Removal::LookAgain { was_running: false }
    );
    assert_eq!(removal_after_stop(), Removal::LookAgain { was_running: true });
    let second = removal_after_second_look(&runtime, true, Some(&stopped)).unwrap();
    assert_ne!(second, Removal::StopFirst);
    let done = removal_after_removed(true);
    assert_ne!(done, second);
    let mut foreign = inspect_with_running(true);
    foreign.config.labels = TextMap::new();
    assert!(removal_after_first_look(&runtime, Some(&foreign)).is_err());
    assert_eq!(
        removal_result("ubuntu-dev", true),
        RemoveResult {
            container: "ubuntu-dev".into(),
            removed: true,
        }
    );
    assert!(matches!(stop_after_inspect("c", true), StopStep::StopContainer));
    assert!(matches!(
        stop_after_inspect("c", false),
        StopStep::Finished(StopResult { stopped: false, .. })
    ));
    assert!(stop_result("c").stopped);
}

fn lifecycle_step(name: &str, phase: &str, required: bool) -> LifecycleStep {
    LifecycleStep {
        name: name.into(),
        phase: phase.into(),
        required,
    }
}

#[test]
fn optional_steps_may_fail() {
    let steps = vec![
        lifecycle_step("a", "pre_start", true),
        lifecycle_step("b", "post_ready", true),
        lifecycle_step("c", "pre_start", false),
    ];
    assert_eq!(steps_in_phase(&steps, "pre_start"), [0, 2]);
    assert!(after_lifecycle_step(&steps[2], Err(Failure::msg("x"))).is_ok());
    assert!(after_lifecycle_step(&steps[0], Err(Failure::msg("x"))).is_err());
    assert!(after_lifecycle_step(&steps[0], Ok(())).is_ok());

    let mut step = HostStep {
        name: "h".into(),
        required: true,
        has_health_check: true,
    };
    assert_eq!(
        after_host_command(&step, Ok(())).unwrap(),
        HostStepNext::CheckHealth
    );
    assert!(after_host_command(&step, Err(Failure::msg("x"))).is_err());
    assert!(after_host_health_check(&step, Err(Failure::msg("x"))).is_err());
    step.required = false;
    assert_eq!(
        after_host_command(&step, Err(Failure::msg("x"))).unwrap(),
        HostStepNext::NextStep
    );
    assert!(after_host_health_check(&step, Err(Failure::msg("x"))).is_ok());
}

#[test]
fn host_hook_timeout_defaults_to_sixty_seconds() {
    assert_eq!(host_hook_timeout(None).unwrap(), 60_000);
    assert_eq!(host_hook_timeout(Some(Ok(250))).unwrap(), 250);
    assert!(host_hook_timeout(Some(Err(Failure::msg("duration \"5\" has no unit")))).is_err());
}

#[test]
fn health_check_timeout_defaults_to_five_seconds() {
    assert_eq!(health_check_timeout(None), 5_000);
    assert_eq!(health_check_timeout(Some(Ok(250))), 250);
}

#[test]
fn process_ids_cannot_be_rendered_for_every_runtime() {
    let mut runtime = runtime();
    let mentioning = || vec![Ok(false), Ok(true)];
    assert!(runtime
        .ensure_runtime_template_values_supported(Some("123"), mentioning())
        .is_ok());
    runtime.kind = ContainerRuntimeType::AppleContainer;
    assert!(runtime
        .ensure_runtime_template_values_supported(None, mentioning())
        .is_err());
    assert!(runtime
        .ensure_runtime_template_values_supported(None, vec![Ok(false)])
        .is_ok());
    assert!(runtime
        .ensure_host_health_check_templates_supported(HealthCheckTexts::Tcp, None)
        .is_ok());
    assert!(runtime
        .ensure_host_health_check_templates_supported(HealthCheckTexts::Http(Ok(true)), None)
        .is_err());
}

// ---------------------------------------------------------------- health checks

#[test]
fn commands_are_judged_by_how_they_end() {
    let command = texts(&["/usr/bin/false"]);
    assert!(command_result(
        &command,
        CommandEnd::Exited {
            success: true,
            status: "exit status: 0".into(),
            stderr: "noise".into(),
        }
    )
    .is_ok());
    let err = command_result(
        &command,
        CommandEnd::Exited {
            success: false,
            status: "exit status: 1".into(),
            stderr: " broken\n".into(),
        },
    )
    .unwrap_err();
    assert_eq!(
        err.message(),
        "command [\"/usr/bin/false\"] failed with exit status: 1: broken"
    );
    let err = command_result(
        &command,
        CommandEnd::TimedOut {
            after: "100ms".into(),
            stderr: String::new(),
        },
    )
    .unwrap_err();
    assert!(err.message().contains("timed out"), "{}", err.message());
    assert!(command_result(&command, CommandEnd::NotStarted { complaint: "x".into() }).is_err());
    assert!(command_result(&command, CommandEnd::NotAwaited { complaint: "x".into() }).is_err());
}

#[test]
fn commands_that_take_too_long_are_killed_before_they_are_judged() {
    let late = WaitEnd::TimedOut {
        after: "100ms".into(),
    };
    assert_eq!(
        steps_after_wait(&late),
        [
            CommandStep::KillGroup,
            CommandStep::Reap,
            CommandStep::DrainErrors
        ]
    );
    let err = command_result(&texts(&["sleep", "5"]), command_end(late, "bye".into())).unwrap_err();
    assert_eq!(
        err.message(),
        "command [\"sleep\", \"5\"] timed out after 100ms: bye"
    );
    let done = WaitEnd::Exited {
        success: true,
        status: "exit status: 0".into(),
    };
    assert_eq!(steps_after_wait(&done), [CommandStep::DrainErrors]);
    assert!(command_result(&texts(&["true"]), command_end(done, String::new())).is_ok());
}

#[test]
fn whole_process_groups_are_ended() {
    assert_eq!(process_group(Some(7)), Ok(Some(7)));
    assert_eq!(process_group(None), Ok(None));
    assert_eq!(process_group(Some(u32::MAX)), Err(()));
    assert!(group_is_gone(Some(libc::ESRCH), libc::ESRCH));
    assert!(!group_is_gone(Some(libc::EPERM), libc::ESRCH));
}

#[test]
fn services_are_healthy_when_they_answer_as_expected() {
    let response = HttpHealthResponse {
        response: "HTTP/1.1 200 OK\r\n\r\n{\"status\":\"ready\"}".into(),
    };
    assert!(http_health(&response, 200, &TextMap::new()).is_ok());
    assert!(http_health(&response, 200, &entries(&[("status", "ready")])).is_ok());
    let err = http_health(&response, 204, &TextMap::new()).unwrap_err();
    assert_eq!(
        err.message(),
        "HTTP health check expected 204, got Some(\"HTTP/1.1 200 OK\")"
    );
    let err = http_health(&response, 200, &entries(&[("status", "up")])).unwrap_err();
    assert_eq!(
        err.message(),
        "HTTP health check JSON field \"status\" expected \"up\", got \"ready\""
    );
    assert!(field_result(JsonFieldCheck::Match).is_ok());
    assert!(
        network_check_result(NetworkCheck::Tcp, "deadline has elapsed", CheckEnd::TimedOut)
            .unwrap_err()
            .full_message()
            .contains("deadline has elapsed")
    );
    assert!(network_check_result(NetworkCheck::Http, "5s", CheckEnd::Finished(Ok(()))).is_ok());
}

#[test]
fn gateway_status_distinguishes_agent_unready_from_ready() {
    assert_eq!(
        gateway_status_name(false, true, false, false),
        "not-running"
    );
    assert_eq!(
        gateway_status_name(true, false, false, false),
        "container-running"
    );
    assert_eq!(
        gateway_status_name(true, true, false, false),
        "container-running-agent-unavailable"
    );
    assert_eq!(
        gateway_status_name(true, true, true, false),
        "container-running-agent-not-ready"
    );
    assert_eq!(gateway_status_name(true, true, true, true), "ready");
}

// ---------------------------------------------------------------- agents

/// The parts of a reply that its reader needs.
fn parse_reply(line: &str, field: &str) -> Result<bool, Failure> {
    let value: Value = serde_json::from_str(line).unwrap();
    let success = value["result"][field]
        .as_bool()
        .ok_or_else(|| format!("missing field `{field}`"));
    let error = &value["error"];
    let fault = match (error["code"].as_str(), error["message"].as_str()) {
        (Some(code), Some(message)) => Ok(ControlFault {
            code: code.into(),
            message: message.into(),
        }),
        _ => Err("missing field `code`".to_string()),
    };
    parse_agent_control_success(line, success, fault)
}

#[test]
fn typed_agent_control_failure_response_is_reported() {
    let err = parse_reply(
        r#"{"id":"hold","ok":false,"error":{"code":"unauthorized","message":"control token is required"}}"#,
        "held",
    )
    .unwrap_err()
    .message();
    assert!(err.contains("agent control request failed: unauthorized"));
    assert!(err.contains("control token is required"));
}

#[test]
fn typed_agent_control_ok_false_without_error_is_reported() {
    let err = parse_reply(r#"{"id":"hold","ok":false,"result":{"held":true}}"#, "held")
        .unwrap_err()
        .message();
    assert!(err.contains("agent control request returned ok=false without error"));
    assert!(err.contains("hold"));
}

#[test]
fn typed_agent_status_parses_remote_smoke_response_shape() {
    let ready = parse_reply(
        r#"{"id":"status","ok":true,"result":{"ready":true,"version":"0.2.0","services":[{"name":"container-sshd","required":true,"state":"running","pid":13,"healthy":true,"restart_count":0,"last_error":null}],"ssh_bridge":{"enabled":true,"ready":true,"active_streams":0,"active_sessions":0},"idle_cleanup":{"owner":"agent","action":"exit_container","state":"idle_pending","idle_for_ms":11947,"preserve":false,"preserve_reason":null,"matched_processes":[],"last_reap_result":null},"shutting_down":false}}"#,
        "ready",
    )
    .unwrap();
    assert!(ready);
}

#[test]
fn statuses_carry_what_the_agent_says() {
    let mut reported = status(Some("ubuntu-dev"), None);
    reported.agent = Some(AgentStatus {
        ready: true,
        version: "0.2.0".into(),
        services: Vec::new(),
        ssh_bridge: AgentBridgeStatus {
            enabled: true,
            ready: true,
            active_streams: 0,
            active_sessions: 0,
        },
        idle_cleanup: Some(AgentIdleStatus {
            owner: "agent".into(),
            action: "exit_container".into(),
            state: "idle_pending".into(),
            idle_for_ms: None,
            preserve: false,
            preserve_reason: None,
            matched_processes: Vec::new(),
            last_reap_result: None,
        }),
        shutting_down: false,
    });
    let agent = reported.agent.unwrap();
    reported.status =
        gateway_status_name(true, true, true, agent.ready).to_string();
    assert_eq!(reported.status, "ready");
    assert!(agent.ssh_bridge.enabled && agent.ssh_bridge.ready);
    assert_eq!(agent.idle_cleanup.unwrap().state, "idle_pending");
}

#[test]
fn replies_that_are_no_json_are_refused() {
    let err = parse_agent_control_success::<bool>("not json", Ok(true), Err("x".into()));
    assert!(err.is_err());
    let unread = parse_agent_control_success::<bool>(
        r#"{"id":"status","ok":true,"result":{"ready":"yes"}}"#,
        Err("invalid type".into()),
        Err("x".into()),
    );
    assert!(unread.is_err());
    assert!(judge_reply(Some(true), true, "\"id\"", Err("x".into())).is_ok());
    assert!(judge_reply(Some(false), true, "\"id\"", Err("x".into())).is_err());
}

#[test]
fn read_agent_response_rejects_oversized_line() {
    let mut line = AgentLine::new();
    let err = line.feed(&vec![b'x'; MAX_AGENT_RESPONSE_BYTES + 1]).unwrap_err();
    assert!(err.message().contains("response exceeds"), "{}", err.full_message());
}

#[test]
fn replies_end_with_their_line() {
    let mut line = AgentLine::new();
    assert_eq!(line.feed(b"{\"a\"").unwrap(), AgentLineStep::More(4));
    assert_eq!(
        line.feed(b":1}\nrest").unwrap(),
        AgentLineStep::Line(4, "{\"a\":1}\n".into())
    );
    let mut broken = AgentLine::new();
    assert!(broken.feed(b"\xff\n").is_err());
}

#[test]
fn agents_are_asked_until_they_are_ready_or_time_is_up() {
    assert!(matches!(after_agent_status(Some(true), false), AgentWait::Ready));
    assert!(matches!(after_agent_status(Some(false), false), AgentWait::AskAgain));
    assert!(matches!(after_agent_status(None, false), AgentWait::AskAgain));
    assert!(matches!(
        after_agent_status(Some(false), true),
        AgentWait::Failed(failure) if failure.is_kind(FailureKind::AgentNotReady)
    ));
    assert!(confirm_session_hold(true).is_ok());
    assert!(confirm_session_hold(false).is_err());
    assert!(request_timed_out(AgentRequest::Control, "deadline has elapsed")
        .full_message()
        .contains("deadline has elapsed"));
}

// ---------------------------------------------------------------- keys and tokens

#[test]
fn public_key_validation_accepts_known_types() {
    assert!(is_plausible_public_key("ssh-ed25519 AAAAC3Nza comment"));
    assert!(!is_plausible_public_key("not-a-key"));
    assert!(validate_public_key_content("ssh-ed25519 AAAAC3Nza comment\n").is_ok());
    assert!(
        validate_public_key_content("ssh-ed25519 AAAAC3Nza one\nssh-ed25519 AAAAC3Nza two")
            .is_err()
    );
    assert!(validate_public_key_content(" ssh-ed25519 AAAAC3Nza").is_err());
}

#[test]
fn adding_a_key_again_changes_nothing() {
    let key = "ssh-ed25519 AAAAC3Nza comment";
    let once = ensure_authorized_key("/k", "ssh-rsa AAAA other", key).unwrap();
    assert!(once.added);
    assert_eq!(
        once.content,
        "ssh-rsa AAAA other\nssh-ed25519 AAAAC3Nza comment\n"
    );
    let twice = ensure_authorized_key("/k", &once.content, key).unwrap();
    assert!(!twice.added);
    assert_eq!(twice.content, once.content);
    assert!(ensure_authorized_key("/k", "", "not-a-key").is_err());
}

#[test]
fn identity_token_validation_requires_single_non_empty_line() {
    let path = "/tmp/token";
    assert_eq!(
        validate_identity_token_content("abc\n", path).unwrap(),
        "abc"
    );
    assert!(validate_identity_token_content("", path).is_err());
    assert!(validate_identity_token_content("a\nb", path).is_err());
    assert!(validate_identity_token_content(&"x".repeat(4097), path).is_err());
}

#[test]
fn control_token_validation_requires_single_non_empty_line() {
    let path = "/tmp/control.token";
    assert_eq!(
        validate_control_token_content("abc\n", path).unwrap(),
        "abc"
    );
    assert!(validate_control_token_content("", path).is_err());
    assert!(validate_control_token_content("a\nb", path).is_err());
    assert!(validate_control_token_content(&"x".repeat(4097), path).is_err());
}

fn secret(content: &str, mode: u32) -> SecretFile {
    SecretFile::Found {
        content: content.into(),
        mode: Ok(mode),
    }
}

#[test]
fn control_token_file_rejects_unsafe_permissions() {
    assert!(read_control_token_file("/c", secret("abc\n", 0o100644)).is_err());
    assert_eq!(
        read_control_token_file("/c", secret("abc\n", 0o100600)).unwrap(),
        "abc"
    );
    assert!(validate_secret_file_permissions("/c", 0o100640).is_err());
    assert!(validate_secret_file_permissions("/c", 0o100400).is_ok());
}

#[test]
fn identity_tokens_are_marked_as_random() {
    let token = identity_token_text(&vec![0xff; 16]);
    assert_eq!(token, "ffffffff-ffff-4fff-bfff-ffffffffffff");
    assert_eq!(
        identity_token_text(&vec![0; 16]),
        "00000000-0000-4000-8000-000000000000"
    );
    assert_eq!(token.len(), 36);
}

#[test]
fn tokens_are_taken_from_the_environment_the_file_or_made() {
    assert_eq!(
        ensure_identity_token(Some("env"), "/t", SecretFile::Missing("x".into())).unwrap(),
        TokenSource::Existing("env".into())
    );
    assert_eq!(
        ensure_identity_token(None, "/t", secret("abc\n", 0o100600)).unwrap(),
        TokenSource::Existing("abc".into())
    );
    assert_eq!(
        ensure_identity_token(None, "/t", SecretFile::Missing("x".into())).unwrap(),
        TokenSource::Create
    );
    assert!(ensure_identity_token(None, "/t", SecretFile::Unreadable("x".into())).is_err());
    assert_eq!(
        identity_token_after_create("/t", "new".into(), CreateEnd::Written).unwrap(),
        "new"
    );
    assert_eq!(
        identity_token_after_create(
            "/t",
            "new".into(),
            CreateEnd::AlreadyThere(secret("other\n", 0o100600))
        )
        .unwrap(),
        "other"
    );
    assert!(
        identity_token_after_create("/t", "new".into(), CreateEnd::CreateFailed("x".into()))
            .is_err()
    );
    assert_eq!(
        ensure_control_token("/c", SecretFile::Missing("x".into())).unwrap(),
        TokenSource::Create
    );
    let (token, content) = new_control_token().unwrap();
    assert_eq!(token.len(), 64);
    assert_eq!(content, format!("{token}\n"));
}

#[test]
fn key_pairs_are_made_once() {
    assert_eq!(keypair_plan(false, false, false).step, KeypairStep::Generate);
    assert_eq!(
        keypair_plan(false, true, false).step,
        KeypairStep::Check { derive_public: true }
    );
    assert_eq!(
        keypair_plan(false, true, true).step,
        KeypairStep::Check { derive_public: false }
    );
    let rotated = keypair_plan(true, true, true);
    assert!(rotated.remove_old);
    assert_eq!(rotated.step, KeypairStep::Generate);
    assert!(keygen_arguments("/k", "alice", "default").contains(&"/k".to_string()));
    let end = |success: bool| KeygenEnd::Exited {
        success,
        stderr: "bad".into(),
    };
    assert!(keygen_result(KeygenTask::Generate, end(true)).is_ok());
    assert!(keygen_result(KeygenTask::Generate, end(false)).is_err());
    assert!(keygen_result(KeygenTask::Generate, KeygenEnd::NotRun("x".into())).is_err());
    assert!(runtime().control_token_path().starts_with("/base/"));
}

// ---------------------------------------------------------------- targets of clients

fn targets() -> TextMap<String> {
    entries(&[("default", "ubuntu/dev")])
}

#[test]
fn target_selection_accepts_configured_target_or_image() {
    let cfg = targets();
    assert_eq!(
        resolve_target_selection("default", &cfg, Some("default")).unwrap(),
        "default"
    );
    assert_eq!(
        resolve_target_selection("default", &cfg, Some("ubuntu/dev")).unwrap(),
        "default"
    );
    assert_eq!(
        resolve_target_selection("default", &cfg, Some("localhost/ubuntu/dev:latest")).unwrap(),
        "default"
    );
    assert!(resolve_target_selection("default", &cfg, Some("fedora/dev")).is_err());
}

#[test]
fn images_of_several_targets_select_none() {
    let cfg = entries(&[("a", "ubuntu/dev"), ("b", "localhost/ubuntu/dev")]);
    assert!(resolve_target_selection("a", &cfg, Some("ubuntu/dev")).is_err());
    assert_eq!(resolve_target_selection("a", &cfg, None).unwrap(), "a");
}

#[test]
fn configured_default_display_uses_configured_default_target() {
    assert_eq!(configured_default_display("default"), "default");
}

#[test]
fn image_selection_normalizes_localhost_latest() {
    assert_eq!(normalize_image_selection("ubuntu/dev"), "ubuntu/dev");
    assert_eq!(
        normalize_image_selection("localhost/ubuntu/dev:latest"),
        "ubuntu/dev"
    );
}

#[test]
fn defaults_that_are_set_are_shown_again() {
    let (content, _) = set_default("default", &targets(), "ubuntu/dev").unwrap();
    assert_eq!(
        read_default_selection("/d", DefaultFile::Found(content.clone())),
        Some(Ok("ubuntu/dev".to_string()))
    );
    assert_eq!(
        show_default("default", &targets(), "/d", DefaultFile::Found(content)).unwrap(),
        "ubuntu/dev"
    );
    assert_eq!(
        show_default("default", &targets(), "/d", DefaultFile::Missing).unwrap(),
        "default"
    );
    assert!(set_default("default", &targets(), "fedora/dev").is_err());
    assert!(read_default_selection("/d", DefaultFile::Found(" \n".into()))
        .unwrap()
        .is_err());
    assert!(read_default_selection("/d", DefaultFile::Unreadable("x".into()))
        .unwrap()
        .is_err());
}

#[test]
fn key_reports_tell_both_places() {
    assert_eq!(key_status(true), "added");
    assert_eq!(key_status(false), "duplicate");
    let report = key_report(true, Ok(false)).unwrap();
    assert!(report.contains("added"), "{report}");
    assert!(report.contains("duplicate"), "{report}");
    assert!(key_report(true, Err(Failure::msg("x"))).is_err());
    assert!(accept_public_key("ssh-ed25519 AAAAC3Nza\n").is_ok());
    assert!(accept_public_key("not-a-key").is_err());
}

#[test]
fn client_configurations_follow_the_local_mode() {
    let inputs = |mode: Option<LocalSshMode>| ClientConfigInputs {
        alias: Ok("dev".into()),
        host_name: Ok("gw.example".into()),
        host: "gw.example".into(),
        gateway_path: "/usr/bin/aw-gateway".into(),
        local_mode: mode,
        local_host: "127.0.0.1".into(),
        local_port: Ok(2222),
    };
    let listening = runtime()
        .render_client_config(inputs(Some(LocalSshMode::Listen)), Some("/id"))
        .unwrap();
    assert!(listening.starts_with("Host dev\n"), "{listening}");
    assert!(listening.contains("    Port 2222\n"), "{listening}");
    assert!(listening.contains(&ssh_identity_lines(Some("/id"))), "{listening}");
    let proxied = runtime()
        .render_client_config(inputs(Some(LocalSshMode::ProxyCommand)), None)
        .unwrap();
    assert!(proxied.contains("    ProxyCommand "), "{proxied}");
    let mut bad = inputs(None);
    bad.alias = Err(Failure::msg("unknown template variable"));
    assert!(runtime().render_client_config(bad, None).is_err());
    let vars = runtime().client_vars(TextMap::new(), "gw.example");
    assert!(!vars.is_empty());
}

#[test]
fn ready_targets_are_reached_where_they_listen() {
    let ready = |socket: Option<&str>, tcp: Option<TcpEndpoint>| ReadyStatus {
        target: "default".into(),
        session_id: None,
        mode: "fixed".into(),
        user: "alice".into(),
        image: "ubuntu/dev".into(),
        container: "ubuntu-dev".into(),
        access: "ssh".into(),
        context: TextMap::new(),
        container_pid: None,
        ssh_socket: socket.map(str::to_string),
        ssh_tcp: tcp,
        status: "ready".into(),
        local_ssh: None,
        client_config: None,
    };
    assert_eq!(
        ready(Some("/s"), None).ssh_target().unwrap(),
        SshTarget::Unix("/s".into())
    );
    assert_eq!(
        ready(None, Some(TcpEndpoint::loopback(22))).ssh_target().unwrap(),
        SshTarget::Tcp(TcpEndpoint {
            host: "127.0.0.1".into(),
            port: 22,
        })
    );
    assert!(ready(None, None).ssh_target().is_err());
}

// ---------------------------------------------------------------- published ports

#[test]
fn noted_ports_are_read_back_from_their_file() {
    let runtime = published_runtime(ContainerRuntimeType::AppleContainer);
    for port in [1, 40222, 65535] {
        assert_eq!(
            runtime
                .read_published_ssh_port(&PortFile::Found(port_file_content(port)))
                .unwrap(),
            Some(port)
        );
    }
    assert_eq!(runtime.read_published_ssh_port(&PortFile::Missing).unwrap(), None);
    let err = runtime
        .read_published_ssh_port(&PortFile::Found("x".into()))
        .unwrap_err();
    assert_eq!(
        err.full_message(),
        "parse published SSH port /base/state/published-ssh-port: invalid digit found in string"
    );
    assert!(runtime
        .read_published_ssh_port(&PortFile::Found("70000".into()))
        .is_err());
    assert!(runtime
        .read_published_ssh_port(&PortFile::Unreadable("denied".into()))
        .is_err());
}

#[test]
fn endpoint_records_are_valid_for_the_runtime_that_made_them() {
    let runtime = published_runtime(ContainerRuntimeType::Docker);
    let state = runtime
        .published_ssh_endpoint_state(&TcpEndpoint::loopback(40222), 5)
        .unwrap();
    assert!(state.matches_runtime(&runtime));
    assert_eq!(
        runtime
            .read_matching_published_ssh_endpoint_state(&EndpointFile::Found(state.clone()))
            .unwrap(),
        Some(TcpEndpoint::loopback(40222))
    );
    let mut renamed = published_runtime(ContainerRuntimeType::Docker);
    renamed.identity.container_name = "other".into();
    assert!(!state.matches_runtime(&renamed));
    let mut moved = published_runtime(ContainerRuntimeType::Docker);
    moved.target.ssh_port = Some(2222);
    assert!(!state.matches_runtime(&moved));
    assert!(state.matches_runtime_except_configured_port(&moved));
    assert_eq!(
        moved
            .configured_port_mismatch_published_ssh_endpoint_state(&EndpointFile::Found(state))
            .unwrap(),
        Some(TcpEndpoint::loopback(40222))
    );
    assert_eq!(runtime_type_name(ContainerRuntimeType::AppleContainer), "apple_container");
    assert_eq!(target_mode_name(TargetMode::Ephemeral), "ephemeral");
}

#[test]
fn clients_are_sent_to_loopback_only() {
    let runtime = published_runtime(ContainerRuntimeType::Docker);
    let facts = |host: &str| PublishedFacts {
        published: Ok(Some(TcpEndpoint {
            host: host.into(),
            port: 40222,
        })),
        port_file: PortFile::Missing,
        endpoint_file: EndpointFile::Missing,
    };
    let running = inspect_with_running(true);
    assert_eq!(
        runtime
            .direct_client_ssh_endpoint(Some(&running), &facts("127.0.0.1"))
            .unwrap(),
        Some(TcpEndpoint::loopback(40222))
    );
    assert_eq!(
        runtime
            .direct_status_ssh_endpoint(Some(&running), &facts("127.0.0.1"))
            .unwrap(),
        Some(TcpEndpoint::loopback(40222))
    );
    let err = runtime
        .direct_client_ssh_endpoint(Some(&running), &facts("0.0.0.0"))
        .unwrap_err();
    assert!(
        err.message().contains("resolved to non-loopback host 0.0.0.0"),
        "{}",
        err.message()
    );
    let mut configured = published_runtime(ContainerRuntimeType::Docker);
    configured.target.ssh_port = Some(2222);
    assert!(configured
        .validate_direct_endpoint_matches_config(&TcpEndpoint::loopback(40222))
        .unwrap_err()
        .message()
        .contains("but local_ssh.port is 2222"));
}

#[test]
fn apple_endpoints_come_from_the_noted_port() {
    let mut runtime = published_runtime(ContainerRuntimeType::AppleContainer);
    runtime.target.ssh_mode = LocalSshMode::ProxyCommand;
    let noted = PortFile::Found("40222\n".into());
    let running = inspect_with_running(true);
    assert_eq!(
        runtime
            .apple_published_ssh_endpoint(Some(&running), &noted)
            .unwrap(),
        Some(TcpEndpoint::loopback(40222))
    );
    assert!(runtime
        .apple_published_ssh_endpoint(Some(&running), &PortFile::Missing)
        .is_err());
    let mut foreign = inspect_with_running(true);
    foreign.config.labels = TextMap::new();
    assert!(runtime
        .apple_published_ssh_endpoint(Some(&foreign), &noted)
        .is_err());
}

#[test]
fn port_conflicts_are_retried_a_few_times() {
    let conflict = || Failure::msg("run failed: Address already in use");
    assert!(published_port_bind_conflict(&conflict()));
    assert!(!published_port_bind_conflict(&Failure::msg("no such image")));
    assert!(matches!(after_published_port_run(1, Ok(())), RunNext::Promote));
    assert!(matches!(
        after_published_port_run(1, Err(conflict())),
        RunNext::Retry
    ));
    assert!(matches!(
        after_published_port_run(3, Err(conflict())),
        RunNext::GiveUp(_)
    ));
    assert!(matches!(
        after_published_port_run(1, Err(Failure::msg("no such image"))),
        RunNext::GiveUp(_)
    ));
    assert!(reservation_failure(2222, "in use").full_message().contains("2222"));
    let runtime = published_runtime(ContainerRuntimeType::AppleContainer);
    assert!(runtime
        .leftover_after_failed_run(Some(&inspect_with_running(false)), Ok(()))
        .unwrap());
    assert!(!runtime.leftover_after_failed_run(None, Ok(())).unwrap());
}

// ---------------------------------------------------------------- what is printed

#[test]
fn lifecycle_result_text_preserves_stop_and_remove_messages() {
    assert_eq!(
        stop_result_text(&StopResult {
            container: "ubuntu-dev".into(),
            stopped: true,
        }),
        "stopped ubuntu-dev"
    );
    assert_eq!(
        remove_result_text(&RemoveResult {
            container: "ubuntu-dev".into(),
            removed: true,
        }),
        "removed ubuntu-dev"
    );
}

#[test]
fn nothing_done_is_said_so() {
    assert_eq!(
        render_stop_result(&StopResult {
            container: "c".into(),
            stopped: false,
        }),
        "not running"
    );
    assert_eq!(
        render_remove_result(&RemoveResult {
            container: "c".into(),
            removed: false,
        }),
        "not found"
    );
}

fn status(container: Option<&str>, launch: Option<&str>) -> GatewayStatus {
    GatewayStatus {
        host_socket_exposures: Vec::new(),
        target: "default".into(),
        session_id: None,
        launch: launch.map(str::to_string),
        mode: "fixed".into(),
        user: "alice".into(),
        image: "ubuntu/dev".into(),
        access: "ssh".into(),
        container: container.map(str::to_string),
        context: TextMap::new(),
        container_pid: None,
        active_sessions: 0,
        sessions: Vec::new(),
        agent_ready: false,
        ssh_socket: None,
        ssh_tcp: None,
        local_ssh: None,
        status: "not-running".into(),
        agent: None,
    }
}

#[test]
fn statuses_are_printed_in_lines() {
    assert_eq!(
        render_status_result(&status(None, None)),
        ["default: not-running (not-created)"]
    );
    assert_eq!(
        render_status_result(&status(Some("ubuntu-dev"), Some("agent"))),
        ["default: not-running (ubuntu-dev)", "launch: agent"]
    );
    assert_eq!(
        render_status_all(&Vec::new()),
        ["No aw-gateway-managed containers found for this user."]
    );
    let lines = render_status_all(&vec![AllStatusEntry {
        target: "default".into(),
        session_id: None,
        launch: None,
        mode: "fixed".into(),
        user: "alice".into(),
        uid: "2450".into(),
        image: "ubuntu/dev".into(),
        container: "ubuntu-dev".into(),
        context: TextMap::new(),
        status: "running".into(),
    }]);
    assert_eq!(
        lines,
        [
            "TARGET          SESSION     LAUNCH           MODE        CONTAINER              STATUS",
            "default         -           -                fixed       ubuntu-dev             running",
        ]
    );
}

#[test]
fn targets_and_launches_are_printed_in_columns() {
    let lines = render_targets(&vec![TargetEntry {
        target: "default".into(),
        image: "ubuntu/dev".into(),
        access: "ssh".into(),
        mode: "fixed".into(),
        container: "ubuntu-dev".into(),
        default: true,
    }]);
    assert_eq!(lines.len(), 2);
    assert_eq!(
        lines[1],
        "default                  ubuntu/dev               fixed      ubuntu-dev *"
    );
    assert_eq!(render_launches(&Vec::new()), ["No launches configured."]);
    let summary = LaunchSummary {
        name: "agent".into(),
        target: "default".into(),
        allow_args: false,
        description: Some("runs an agent".into()),
        vars: launch_vars(vec![
            ("repo", launch_var("string", true, None)),
            ("branch", launch_var("string", true, None)),
            ("count", launch_var("number", false, Some(LaunchVarValue::Integer(1)))),
        ]),
    };
    let lines = render_launches(&vec![summary]);
    assert_eq!(
        lines[1],
        "agent                    default                  branch, repo              runs an agent"
    );
}

fn launch_vars(vars: Vec<(&str, LaunchVarMetadata)>) -> TextMap<LaunchVarMetadata> {
    let mut map = TextMap::new();
    for (name, var) in vars {
        map.insert(name.to_string(), var);
    }
    map
}

fn launch_var(kind: &str, required: bool, default: Option<LaunchVarValue>) -> LaunchVarMetadata {
    LaunchVarMetadata {
        var_type: kind.into(),
        required,
        default,
        values: None,
        description: None,
    }
}

#[test]
fn launch_variables_are_described() {
    assert_eq!(launch_var_text(&launch_var("string", true, None)), "string, required");
    assert_eq!(
        launch_var_text(&launch_var("number", false, Some(LaunchVarValue::Integer(-1)))),
        "number, default: -1"
    );
    assert_eq!(launch_var_text(&launch_var("boolean", false, None)), "boolean");
    let mut choice = launch_var("enum", false, Some(LaunchVarValue::String("fast".into())));
    choice.values = Some(texts(&["fast", "safe"]));
    choice.description = Some("how".into());
    assert_eq!(launch_var_text(&choice), "enum: fast, safe, default: fast");
    assert!(launch_var_description(&choice).contains("how"));
    assert_eq!(env_summary(&entries(&[("B", "2"), ("A", "1")])), "A=1, B=2");
}

#[test]
fn launch_details_name_every_step() {
    let detail = LaunchDetail {
        name: "agent".into(),
        target: "default".into(),
        target_mode: "fixed".into(),
        allow_args: true,
        target_container: Some("ubuntu-dev".into()),
        description: Some("runs an agent".into()),
        vars: launch_vars(vec![("repo", launch_var("string", true, None))]),
        steps: vec![LaunchStepDetail {
            name: "prepare".into(),
            phase: "post_ready".into(),
            location: "container".into(),
            required: true,
            timeout: None,
            cwd: None,
            env: TextMap::new(),
            command: texts(&["step-command"]),
        }],
        cwd: Some("/repo".into()),
        env: entries(&[("A", "1")]),
        command: texts(&["launch-command", "{var.repo}"]),
    };
    let printed = render_launch_detail(&detail).join("\n");
    for part in [
        "agent",
        "default",
        "runs an agent",
        "repo",
        "prepare",
        "step-command",
        "launch-command {var.repo}",
    ] {
        assert!(printed.contains(part), "{part}: {printed}");
    }
}

// ---------------------------------------------------------------- interactive sessions

fn size() -> ContainerPtySize {
    ContainerPtySize {
        cols: 80,
        rows: 24,
        pixel_width: 0,
        pixel_height: 0,
    }
}

#[test]
fn leases_are_used_once_and_only_with_their_token() {
    let mut leases = PtyLeaseManager::new();
    let lease = leases.insert_with("aa", "bb", Some("s1".into()), size(), 7);
    assert!(lease.ok);
    assert_eq!(lease.session_id.as_deref(), Some("s1"));
    assert!(lease.attach_url.contains(&lease.pty_id));
    assert!(leases.contains(&lease.pty_id));
    assert!(leases.may_attach(&lease.pty_id).is_ok());

    assert!(leases.consume_if_token(&lease.pty_id, "wrong").is_none());
    assert!(leases.contains(&lease.pty_id));
    let used = leases.attach(&lease.pty_id, Ok(lease.attach_token.clone())).unwrap();
    assert_eq!(used.execution, 7);
    assert!(!leases.contains(&lease.pty_id));
    assert!(leases.attach(&lease.pty_id, Ok(lease.attach_token)).is_err());
    assert!(leases.may_attach(&lease.pty_id).is_err());
}

#[test]
fn leases_expire_one_by_one() {
    let mut leases = PtyLeaseManager::new();
    let one = leases.insert(None, size(), 1).unwrap();
    let two = leases.insert(None, size(), 2).unwrap();
    assert_ne!(one.pty_id, two.pty_id);
    assert_ne!(one.attach_token, two.attach_token);
    assert_eq!(leases.expire(&one.pty_id).unwrap().execution, 1);
    assert!(leases.contains(&two.pty_id));
    assert_eq!(leases.cancel_all().len(), 1);
    assert!(!leases.contains(&two.pty_id));
}

#[test]
fn leases_are_kept_only_where_digits_were_drawn() {
    let mut leases = PtyLeaseManager::new();
    let refused = Failure::msg("no entropy").context("get random bytes");
    let failure = leases
        .insert_drawn(Err(refused), None, size(), 1)
        .unwrap_err();
    assert_eq!(failure.full_message(), "get random bytes: no entropy");
    assert_eq!(leases.cancel_all().len(), 0);

    let drawn = Ok(("aa".into(), "bb".into()));
    let lease = leases
        .insert_drawn(drawn, Some("s1".into()), size(), 2)
        .unwrap();
    assert_eq!(lease.pty_id, "pty_aa");
    assert_eq!(lease.attach_token, "awpt_bb");
    assert_eq!(lease.attach_url, "/api/v1/pty/pty_aa");
    assert_eq!(lease.session_id.as_deref(), Some("s1"));
    assert_eq!(leases.expire("pty_aa").unwrap().execution, 2);
}

#[test]
fn first_messages_must_authenticate() {
    let auth = |token: &str| Ok(PtyClientControl::Auth { token: token.into() });
    assert_eq!(parse_pty_auth(auth("t")).unwrap(), "t");
    assert_eq!(
        parse_pty_auth(auth("")).unwrap_err().code,
        ErrorCode::Unauthorized
    );
    assert!(parse_pty_auth(Ok(PtyClientControl::Close)).is_err());
    assert!(auth_step(AuthEvent::KeepAlive).is_none());
    assert!(auth_step(AuthEvent::Text(auth("t"))).unwrap().is_ok());
    assert!(auth_step(AuthEvent::SocketClosed).unwrap().is_err());
    assert!(auth_step(AuthEvent::ShutdownSignal { shutting_down: true })
        .unwrap()
        .is_err());
    assert!(auth_step(AuthEvent::ShutdownSignal { shutting_down: false }).is_none());
}

#[test]
fn control_messages_are_bounded() {
    assert!(parse_pty_control("{}", Ok(PtyClientControl::Close)).is_ok());
    let large = "x".repeat(MAX_WS_TEXT_BYTES + 1);
    assert!(parse_pty_control(&large, Ok(PtyClientControl::Close)).is_err());
    assert!(parse_pty_control("{", Err("expected value".into())).is_err());
    let resize = PtyClientControl::Resize {
        size: TerminalRequest {
            cols: 100,
            rows: 40,
            cell_width_px: None,
            cell_height_px: None,
        },
    };
    assert_eq!(resize.resize_size().unwrap().unwrap().cols, 100);
    assert_eq!(PtyClientControl::Close.resize_size().unwrap(), None);
}

#[test]
fn attached_sessions_go_on_until_they_are_closed_or_ended() {
    let (mut session, first) = AttachedPty::begin(true, false);
    assert!(matches!(first, PtyAction::Nothing));
    assert!(matches!(
        session.step(PtyEvent::InputArrived { bytes: 3 }),
        PtyAction::ForwardInput
    ));
    assert!(matches!(
        session.step(PtyEvent::InputArrived {
            bytes: MAX_WS_BINARY_BYTES + 1
        }),
        PtyAction::Complain(_)
    ));
    assert!(session.running);
    assert!(matches!(session.step(PtyEvent::OutputClosed), PtyAction::Nothing));
    assert!(!session.output_open);
    assert!(matches!(
        session.step(PtyEvent::ProcessEnded(PtyExit::Exited(0))),
        PtyAction::Finish(PtyExit::Exited(0))
    ));
    assert!(!session.running);

    let (mut closed, _) = AttachedPty::begin(true, false);
    closed.step(PtyEvent::Control(Ok(PtyClientControl::Close)));
    assert!(!closed.running);
    let (unheard, action) = AttachedPty::begin(false, false);
    assert!(!unheard.running);
    assert!(matches!(action, PtyAction::Cancel));
}

#[test]
fn only_ends_end_attached_sessions() {
    for (event, ends) in [
        (PtyEvent::OutputArrived, false),
        (PtyEvent::OutputClosed, false),
        (PtyEvent::OutputLost, true),
        (PtyEvent::ShutdownSignal { shutting_down: false }, false),
        (PtyEvent::ShutdownSignal { shutting_down: true }, true),
        (PtyEvent::InputArrived { bytes: 1 }, false),
        (PtyEvent::InputLost, true),
        (
            PtyEvent::Control(Ok(PtyClientControl::Auth { token: "x".into() })),
            false,
        ),
        (PtyEvent::Control(Ok(PtyClientControl::Close)), true),
        (PtyEvent::KeepAlive, false),
        (PtyEvent::SocketClosed, true),
        (PtyEvent::SocketFailed, true),
        (PtyEvent::ProcessEnded(PtyExit::Exited(1)), true),
    ] {
        let (mut session, _) = AttachedPty::begin(true, false);
        let shown = format!("{event:?}");
        session.step(event);
        assert_eq!(session.running, !ends, "{shown}");
    }
}

#[test]
fn sessions_end_as_their_process_did() {
    let ended = handle_pty_exit(PtyExit::Exited(7));
    assert!(matches!(
        ended.farewell,
        PtyFarewell::Exit { exit_code: 7, ref outcome } if outcome == "failure"
    ));
    assert_eq!(ended.outcome, SessionOutcome::Failure);
    assert_eq!(
        handle_pty_exit(PtyExit::Exited(0)).outcome,
        SessionOutcome::Success
    );
    assert!(handle_pty_exit(PtyExit::WaitFailed(Failure::msg("x"))).result.is_err());
    assert_eq!(canceled_pty().outcome, SessionOutcome::Canceled);
    assert_eq!(
        unstarted_pty(Failure::msg("x")).outcome,
        SessionOutcome::Failure
    );
}

#[test]
fn shutdowns_wait_for_a_while() {
    assert_eq!(shutdown_step(0, false), ShutdownStep::Finished);
    assert_eq!(shutdown_step(1, false), ShutdownStep::Wait);
    assert_eq!(shutdown_step(1, true), ShutdownStep::GiveUp);
    assert_eq!(
        WaitShutdown::Grace.step(1, true),
        (WaitShutdown::Canceled, WaitShutdownAction::CancelAll)
    );
    assert_eq!(
        WaitShutdown::Grace.step(1, false),
        (WaitShutdown::Grace, WaitShutdownAction::Sleep)
    );
    assert_eq!(WaitShutdown::Grace.step(0, false).1, WaitShutdownAction::Return);
    assert!(expect_execution(ResultKind::Run).is_ok());
    assert!(expect_execution(ResultKind::Status).is_err());
    assert_eq!(
        lost_operation().message,
        "operation task ended without a response"
    );
    assert!(listener_enabled(true).is_ok());
    assert_eq!(
        listener_enabled(false).unwrap_err().message(),
        "http listener is disabled in config"
    );
}
