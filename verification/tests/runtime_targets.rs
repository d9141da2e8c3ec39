//! Targets, the containers that serve them, and their state on the host.

use aw_gateway::config::{
    ContainerMountMode, ContainerRuntimeType, IdleCleanupAction, IdleCleanupOwner,
    LocalSshBackend, LocalSshMode, TargetAccessMethod, TargetMode, WorkspaceCleanup,
};
use aw_gateway::failure::Failure;
use aw_gateway::gateway::container_spec::{
    context_of_labels, reject_unsafe_container_mounts, render_container_mounts,
    validate_bind_mount_path, ConfiguredMount, ContainerMountInputs, RenderedTarget,
    DEFAULT_SESSION_SHELL_ENV,
};
use aw_gateway::gateway::control_sockets::{
    confirm_control_socket_dir, control_socket_vars, ensure_control_socket_dir,
    remove_stale_control_socket_file,
    render_control_socket_paths, resolve_workspace_state_path, sshd_session_env_config,
    validate_control_socket_host_dir, ContainerAgentConfig, LeftoverEnd,
    PathInspection,
    RenderedContainerBootstrapStep, RenderedSocketDirs, RunUserDir, ServiceConfig,
    SocketLeftover, SshBridge,
};
use aw_gateway::gateway::host_socket_exposures::{
    ContainerMountSpec, PreparedContainerInputs, SourceFileType,
};
use aw_gateway::gateway::model::{SessionOutcome, SessionStatus};
use aw_gateway::gateway::state::{
    ControlSocketPaths, IdleCleanup, Runtime, RuntimeIdentity, RuntimePaths, TargetConfig,
};
use aw_gateway::gateway::status_view::{
    status_all_entries, status_launch, ConfiguredTarget, ManagedContainer,
};
use aw_gateway::gateway::model::AllStatusEntry;
use aw_gateway::gateway::workspace::{
    after_cleanup_lock, after_cleanup_sessions, resolve_target_workspace,
    validate_workspace_cleanup_path, workspace_vars, CleanupStep, WorkspaceEntry,
};
use aw_gateway::paths::UserContext;
use aw_gateway::runtime::{
    validate_gateway_labels, ContainerConfig, ContainerInspect, ContainerState,
};
use aw_gateway::text_map::TextMap;

fn entries(pairs: &[(&str, &str)]) -> TextMap<String> {
    let mut map = TextMap::new();
    for (key, value) in pairs {
        map.insert(key.to_string(), value.to_string());
    }
    map
}

fn alice() -> UserContext {
    UserContext {
        uid: 2450,
        gid: 2450,
        user: "alice".into(),
        home: "/home/alice".into(),
    }
}

fn alice_runtime() -> Runtime {
    Runtime {
        context: TextMap::new(),
        target: TargetConfig {
            image: "ubuntu/dev".into(),
            mode: TargetMode::Fixed,
            access_method: TargetAccessMethod::Ssh,
            agent_enabled: true,
            agent_control_enabled: true,
            ssh_bridge_enabled: false,
            ssh_endpoint_configured: false,
            ssh_backend: LocalSshBackend::Socket,
            ssh_mode: LocalSshMode::ProxyCommand,
            ssh_port: None,
            requires_control_socket_dir: true,
            bootstrap_enabled: false,
            session_env_inherit: Vec::new(),
            workspace_cleanup: WorkspaceCleanup::Never,
            idle_cleanup: None,
            host_socket_exposures: false,
        },
        identity: RuntimeIdentity {
            user: alice(),
            target_name: "default".into(),
            launch_name: None,
            session_id: None,
            bootstrap_user: "root".into(),
            session_uid: 2450,
            session_gid: 2450,
            session_shell: "/bin/bash".into(),
            container_user: "alice".into(),
            container_home: "/home/alice".into(),
            container_name: "ubuntu-dev".into(),
        },
        paths: RuntimePaths {
            workspace: "/base/workspace".into(),
            workspace_container_path: "/home/alice".into(),
            workspace_state_dir: "/base/workspace/.aw-gateway".into(),
            workspace_state_dir_in_container: "/home/alice/.aw-gateway".into(),
            container_state_dir: "/base/workspace/.aw-gateway/containers/ubuntu-dev".into(),
            container_state_dir_in_container: "/home/alice/.aw-gateway/containers/ubuntu-dev"
                .into(),
            control_sockets: ControlSocketPaths {
                host_dir: "/base/runtime-sockets".into(),
                container_dir: "/run/aw-gateway".into(),
                host_agent_socket: "/base/runtime-sockets/agent.sock".into(),
                host_ssh_socket: "/base/runtime-sockets/ssh.sock".into(),
                container_agent_socket: "/run/aw-gateway/agent.sock".into(),
                container_ssh_socket: "/run/aw-gateway/ssh.sock".into(),
                default_host_dir: false,
            },
        },
        kind: ContainerRuntimeType::Podman,
    }
}

fn inspect_with(labels: TextMap<String>) -> ContainerInspect {
    ContainerInspect {
        id: "id".into(),
        name: "ubuntu-dev".into(),
        state: ContainerState {
            running: true,
            pid: Some(123),
        },
        config: ContainerConfig { labels },
    }
}

fn no_inputs() -> PreparedContainerInputs {
    PreparedContainerInputs {
        mounts: Vec::new(),
        host_socket_exposures: Vec::new(),
        exposure_manifest: None,
    }
}

fn rendered(env: &[(&str, &str)]) -> RenderedTarget {
    RenderedTarget {
        container_env: Ok(entries(env)),
        entrypoint: Ok("/opt/aw-gateway/bin/target-bootstrap".into()),
        extra_run_args: Ok(Vec::new()),
    }
}

// ---------------------------------------------------------------- labels

#[test]
fn context_labels_are_validation_labels_and_enforced() {
    let mut runtime = alice_runtime();
    runtime.context = entries(&[("tenant", "acme")]);

    let labels = runtime.validation_labels();
    assert_eq!(
        labels
            .get("io.aw-gateway.context.tenant")
            .map(String::as_str),
        Some("acme")
    );

    runtime.validate_labels(&inspect_with(labels)).unwrap();

    runtime.context = TextMap::new();
    let mut scoped_labels = runtime.validation_labels();
    scoped_labels.insert("io.aw-gateway.context.tenant".into(), "acme".into());
    let err = runtime
        .validate_labels(&inspect_with(scoped_labels))
        .unwrap_err()
        .message();
    assert!(err.contains("context does not match"), "{err}");
}

#[test]
fn runtime_labels_only_persist_launch_for_ephemeral_targets() {
    let mut runtime = alice_runtime();
    runtime.identity.launch_name = Some("agent-pack-codex".into());

    assert_eq!(runtime.target.mode, TargetMode::Fixed);
    assert!(!runtime.labels().contains_key("io.aw-gateway.launch"));

    runtime.target.mode = TargetMode::Ephemeral;
    runtime.identity.session_id = Some("1a2b3c4d5e6f".into());

    assert_eq!(
        runtime
            .labels()
            .get("io.aw-gateway.launch")
            .map(String::as_str),
        Some("agent-pack-codex")
    );
}

#[test]
fn containers_with_their_own_labels_are_accepted() {
    for method in [TargetAccessMethod::Ssh, TargetAccessMethod::RuntimeExec] {
        let mut runtime = alice_runtime();
        runtime.target.access_method = method;
        runtime.context = entries(&[("tenant", "acme"), ("team", "blue")]);
        runtime.paths.workspace_container_path = "/workspace".into();
        runtime
            .validate_labels(&inspect_with(runtime.labels()))
            .unwrap();
        assert_eq!(
            context_of_labels(&runtime.labels()),
            entries(&[("team", "blue"), ("tenant", "acme")])
        );
    }
}

#[test]
fn other_users_containers_are_refused() {
    let runtime = alice_runtime();
    let mut labels = runtime.labels();
    labels.insert("io.aw-gateway.user".into(), "bob".into());
    let err = runtime.validate_labels(&inspect_with(labels)).unwrap_err();
    assert_eq!(
        err.message(),
        "container label mismatch for io.aw-gateway.user"
    );
    assert!(validate_gateway_labels(
        &inspect_with(entries(&[("a", "1"), ("b", "2")])),
        &entries(&[("a", "1")])
    )
    .is_ok());
}

#[test]
fn access_labels_must_fit_the_access_method() {
    let mut runtime = alice_runtime();
    let unlabeled = runtime.validation_labels();
    assert!(runtime.validate_access_label(&inspect_with(unlabeled.clone())).is_ok());
    runtime.target.access_method = TargetAccessMethod::RuntimeExec;
    assert!(runtime
        .validate_access_label(&inspect_with(unlabeled))
        .unwrap_err()
        .message()
        .contains("is missing io.aw-gateway.access"));
    let labeled = entries(&[("io.aw-gateway.access", "ssh")]);
    assert!(runtime
        .validate_access_label(&inspect_with(labeled))
        .unwrap_err()
        .message()
        .contains("does not match configured access.method \"runtime_exec\""));
}

#[test]
fn unrecorded_layouts_are_the_default_layout() {
    let mut runtime = alice_runtime();
    let unlabeled = inspect_with(runtime.validation_labels());
    assert!(runtime.validate_workspace_layout_labels(&unlabeled).is_ok());
    runtime.paths.workspace_container_path = "/workspace".into();
    let err = runtime
        .validate_workspace_layout_labels(&unlabeled)
        .unwrap_err();
    assert!(err.message().contains("workspace layout does not match"));
}

#[test]
fn manifests_are_recorded_in_labels() {
    let runtime = alice_runtime();
    let labels = runtime.labels_with_exposure_manifest(Some("sha256:a"));
    assert_eq!(
        labels
            .get("io.aw-gateway.host-socket-exposures.v1")
            .map(String::as_str),
        Some("sha256:a")
    );
    assert_eq!(
        runtime.labels_with_exposure_manifest(None),
        runtime.labels()
    );
}

// ---------------------------------------------------------------- running

#[test]
fn run_specs_start_the_agent_with_workspace_and_tokens() {
    let runtime = alice_runtime();
    let spec = runtime
        .container_run_spec_with_inputs(
            Some("identity-token"),
            Some("control-token"),
            no_inputs(),
            None,
            rendered(&[("START_ONLY", "start")]),
        )
        .unwrap();

    assert_eq!(
        spec.passwd_entry.as_deref(),
        Some("alice:x:2450:2450:alice:/home/alice:/bin/bash")
    );
    assert_eq!(spec.workspace, "/base/workspace");
    assert_eq!(spec.workspace_container_path, "/home/alice");
    for (key, value) in [
        ("AW_IDENTITY_TOKEN", "identity-token"),
        ("AW_CONTAINER_CONTROL_TOKEN", "control-token"),
        ("AW_AUTHENTICATED_UID", "2450"),
        ("AW_AUTHENTICATED_GID", "2450"),
        ("START_ONLY", "start"),
    ] {
        assert_eq!(spec.env.get(key).map(String::as_str), Some(value));
    }
    for (key, value) in [
        ("io.aw-gateway.gateway", "true"),
        ("io.aw-gateway.target", "default"),
        ("io.aw-gateway.mode", "fixed"),
    ] {
        assert_eq!(spec.labels.get(key).map(String::as_str), Some(value));
    }
    assert_eq!(
        spec.command,
        [
            "aw-container-agent",
            "--config",
            "/home/alice/.aw-gateway/containers/ubuntu-dev/container-agent.toml",
            "run"
        ]
    );
}

#[test]
fn disabled_agent_run_spec_uses_plain_sleep_without_agent_tokens() {
    let mut runtime = alice_runtime();
    runtime.target.agent_enabled = false;
    runtime.target.agent_control_enabled = false;

    let spec = runtime
        .container_run_spec_with_inputs(None, None, no_inputs(), None, rendered(&[]))
        .unwrap();

    assert_eq!(&spec.command[spec.command.len() - 2..], ["sleep", "infinity"]);
    assert!(!spec.command.iter().any(|arg| arg == "aw-container-agent"));
    assert!(!spec.env.contains_key("AW_IDENTITY_TOKEN"));
    assert!(!spec.env.contains_key("AW_CONTAINER_CONTROL_TOKEN"));
}

#[test]
fn bootstrapped_targets_start_with_their_entrypoint() {
    let mut runtime = alice_runtime();
    runtime.target.bootstrap_enabled = true;
    let spec = runtime
        .container_run_spec_with_inputs(
            Some("identity-token"),
            Some("control-token"),
            no_inputs(),
            None,
            rendered(&[]),
        )
        .unwrap();
    assert_eq!(
        spec.command,
        [
            "/opt/aw-gateway/bin/target-bootstrap",
            "--config",
            "/home/alice/.aw-gateway/containers/ubuntu-dev/container-agent.toml",
            "--bootstrap-config",
            "/home/alice/.aw-gateway/containers/ubuntu-dev/container-bootstrap.toml",
        ]
    );
}

#[test]
fn failed_renderings_end_the_run_spec() {
    let runtime = alice_runtime();
    let mut bad = rendered(&[]);
    bad.container_env = Err(Failure::msg("unknown template variable"));
    let err = runtime
        .container_run_spec_with_inputs(None, None, no_inputs(), None, bad)
        .unwrap_err();
    assert_eq!(err.message(), "unknown template variable");
}

#[test]
fn session_environments_hold_defaults_then_inherited_then_own_values() {
    let mut runtime = alice_runtime();
    runtime.target.session_env_inherit = vec![
        "AW_GATEWAY_TEST_INHERITED_SESSION_ENV".into(),
        "AW_GATEWAY_TEST_SESSION_OVERRIDE_ENV".into(),
        "AW_GATEWAY_TEST_MISSING_SESSION_ENV".into(),
    ];
    let env = runtime
        .session_env_with_lookup(
            &entries(&[
                ("AW_GATEWAY_TEST_INHERITED_SESSION_ENV", "inherited-session"),
                ("AW_GATEWAY_TEST_SESSION_OVERRIDE_ENV", "inherited-value"),
                ("UNRELATED", "x"),
            ]),
            Ok(entries(&[
                ("SESSION_ONLY", "session"),
                ("AW_GATEWAY_TEST_SESSION_OVERRIDE_ENV", "explicit"),
            ])),
        )
        .unwrap();
    assert_eq!(
        env.get("SHELL").map(String::as_str),
        Some(DEFAULT_SESSION_SHELL_ENV)
    );
    assert_eq!(env.get("SESSION_ONLY").map(String::as_str), Some("session"));
    assert_eq!(
        env.get("AW_GATEWAY_TEST_INHERITED_SESSION_ENV")
            .map(String::as_str),
        Some("inherited-session")
    );
    assert_eq!(
        env.get("AW_GATEWAY_TEST_SESSION_OVERRIDE_ENV")
            .map(String::as_str),
        Some("explicit")
    );
    assert!(!env.contains_key("AW_GATEWAY_TEST_MISSING_SESSION_ENV"));
    assert!(!env.contains_key("UNRELATED"));
}

#[test]
fn template_variables_name_the_target() {
    let mut runtime = alice_runtime();
    runtime.context = entries(&[("tenant", "acme")]);
    let vars = runtime.vars("/home/alice/.local/state/aw-gateway", "ubuntu-dev", Some("123"));
    assert_eq!(vars.get("user").map(String::as_str), Some("alice"));
    assert_eq!(vars.get("uid").map(String::as_str), Some("2450"));
    assert_eq!(vars.get("target").map(String::as_str), Some("default"));
    assert_eq!(vars.get("image_slug").map(String::as_str), Some("ubuntu-dev"));
    assert_eq!(vars.get("container_pid").map(String::as_str), Some("123"));
    assert_eq!(vars.get("context.tenant").map(String::as_str), Some("acme"));
    assert_eq!(runtime.exec_identity(), "2450:2450");
}

// ---------------------------------------------------------------- mounts

fn mount(source: Result<String, Failure>, target: &str) -> ConfiguredMount {
    ConfiguredMount {
        source,
        parent: Ok("/data".into()),
        file_type: Ok(SourceFileType::Regular),
        target: Ok(target.into()),
        mode: ContainerMountMode::Ro,
    }
}

fn mounts_of(configured: Vec<ConfiguredMount>, container_dir: &str) -> Result<Vec<ContainerMountSpec>, Failure> {
    render_container_mounts(ContainerMountInputs {
        configured,
        control_socket_host_dir: "/base/runtime-sockets".into(),
        control_socket_container_dir: container_dir.into(),
        include_control_socket_mount: true,
    })
}

#[test]
fn container_mounts_error_when_source_is_missing() {
    let mut missing = mount(
        Ok("/data/missing-bootstrap-file".into()),
        "/opt/aw-gateway/bin/missing",
    );
    missing.file_type = Err("No such file or directory".into());
    let err = mounts_of(vec![missing], "/run/aw-gateway").unwrap_err();
    assert!(
        err.message().contains("container mount source #0"),
        "{}",
        err.full_message()
    );
}

#[test]
fn container_mounts_reject_separator_paths_and_relative_targets() {
    let err = mounts_of(vec![mount(Ok("/data/bad:source".into()), "/opt/good")], "/run/aw-gateway")
        .unwrap_err();
    assert!(
        err.message().contains("must not contain ':' or ','"),
        "{}",
        err.full_message()
    );
    let err = mounts_of(
        vec![mount(Ok("/data/good-source".into()), "/opt/bad,target")],
        "/run/aw-gateway",
    )
    .unwrap_err();
    assert!(
        err.message()
            .contains("container mount target #0 must not contain ':' or ','"),
        "{}",
        err.full_message()
    );
    let err = mounts_of(
        vec![mount(Ok("/data/good-source".into()), "relative-target")],
        "/run/aw-gateway",
    )
    .unwrap_err();
    assert!(
        err.message()
            .contains("container mount target #0 must render to an absolute path"),
        "{}",
        err.full_message()
    );
}

#[test]
fn generated_mounts_reject_separator_paths() {
    let err = mounts_of(Vec::new(), "/run/aw-gateway/bad:image").unwrap_err();
    assert!(
        err.message()
            .contains("control socket container directory must not contain ':' or ','"),
        "{}",
        err.full_message()
    );

    let mut runtime = alice_runtime();
    runtime.paths.workspace = "/tmp/bad:workspace".into();
    let err = runtime
        .container_run_spec_with_inputs(None, None, no_inputs(), None, rendered(&[]))
        .unwrap_err();
    assert!(
        err.message()
            .contains("workspace path must not contain ':' or ','"),
        "{}",
        err.full_message()
    );
}

#[test]
fn accepted_mounts_are_listed_in_order_before_the_control_sockets() {
    let mounts = mounts_of(
        vec![mount(Ok("/elsewhere/tool".into()), "/opt/tool")],
        "/run/aw-gateway",
    )
    .unwrap();
    assert_eq!(mounts.len(), 2);
    assert_eq!(mounts[0].source, "/data/tool");
    assert_eq!(mounts[0].target, "/opt/tool");
    assert!(mounts[0].readonly);
    assert_eq!(mounts[1].source, "/base/runtime-sockets");
    assert_eq!(mounts[1].target, "/run/aw-gateway");
    assert!(validate_bind_mount_path("x", "/a,b").is_err());
}

#[test]
fn sources_that_anyone_can_write_are_mounted_read_only_or_not_at_all() {
    let shared = |readonly: bool| {
        vec![ContainerMountSpec {
            source: "/shared".into(),
            target: "/mnt/shared".into(),
            readonly,
        }]
    };
    let err = reject_unsafe_container_mounts(&shared(false), &vec![Ok(0o40777)]).unwrap_err();
    assert!(err.message().contains("world-writable"), "{}", err.message());
    assert!(reject_unsafe_container_mounts(&shared(true), &vec![Ok(0o40777)]).is_ok());
    assert!(reject_unsafe_container_mounts(&shared(false), &vec![Ok(0o40775)]).is_ok());
    assert!(reject_unsafe_container_mounts(&shared(true), &vec![Err("gone".into())]).is_err());
}

// ---------------------------------------------------------------- control sockets

#[test]
fn unix_socket_path_inventory_includes_host_and_container_paths() {
    let mut runtime = alice_runtime();
    runtime.target.ssh_bridge_enabled = true;
    runtime.target.ssh_endpoint_configured = true;

    let labels = runtime
        .effective_unix_socket_paths()
        .into_iter()
        .map(|(label, _)| label)
        .collect::<Vec<_>>();

    assert!(labels.contains(&"host agent socket path".to_string()));
    assert!(labels.contains(&"host ssh socket path".to_string()));
    assert!(labels.contains(&"container agent socket path".to_string()));
    assert!(labels.contains(&"container ssh socket path".to_string()));
}

#[test]
fn overlong_sockets_are_refused() {
    let mut runtime = alice_runtime();
    assert!(runtime.validate_unix_socket_paths(107).is_ok());
    runtime.paths.control_sockets.host_agent_socket = format!("/{}", "h".repeat(120));
    let err = runtime.validate_unix_socket_paths(107).unwrap_err().message();
    assert!(err.contains("host agent socket path"), "{err}");
    assert!(err.contains("too long for a Unix domain socket"), "{err}");
    assert!(err.contains("control_sockets.host_dir"), "{err}");
}

fn socket_dirs(host: &str, container: &str) -> RenderedSocketDirs {
    RenderedSocketDirs {
        runtime_id_check: Ok(()),
        host_dir: Ok(host.into()),
        container_dir: Ok(container.into()),
        default_host_dir: true,
    }
}

#[test]
fn rendered_default_control_socket_host_dir_is_marked_default() {
    let paths = render_control_socket_paths(
        socket_dirs("/run/user/2450/aw-gateway/ubuntu-dev", "/run/aw-gateway"),
        "ubuntu-dev",
        &alice(),
    )
    .unwrap();

    assert_eq!(paths.host_dir, "/run/user/2450/aw-gateway/ubuntu-dev");
    assert!(paths.default_host_dir);
    assert_eq!(
        paths.host_agent_socket,
        "/run/user/2450/aw-gateway/ubuntu-dev/agent.sock"
    );
    assert_eq!(paths.container_ssh_socket, "/run/aw-gateway/ssh.sock");
}

#[test]
fn shared_and_relative_socket_directories_are_refused() {
    let refused = |host: &str| {
        render_control_socket_paths(socket_dirs(host, "/run/aw-gateway"), "ubuntu-dev", &alice())
            .unwrap_err()
            .message()
    };
    assert!(refused("relative/ubuntu-dev").contains("must render to an absolute path"));
    for shared in ["/", "/tmp", "/run", "/run/user", "/run/user/2450", "/home/alice"] {
        assert!(
            refused(shared).contains("dangerous shared path"),
            "{shared}"
        );
    }
    assert!(refused("/tmp/../x/ubuntu-dev").contains("must not contain '.' or '..'"));
    assert!(validate_control_socket_host_dir("/tmp/aw/ubuntu-dev", "ubuntu-dev", &alice()).is_ok());
    assert!(validate_control_socket_host_dir("/tmp/aw/other", "ubuntu-dev", &alice()).is_err());
    let vars = control_socket_vars(
        &alice(),
        "default",
        "ubuntu/dev",
        "ubuntu-dev",
        "ubuntu-dev",
        "ubuntu-dev",
        None,
        &TextMap::new(),
    );
    assert_eq!(vars.get("runtime_id").map(String::as_str), Some("ubuntu-dev"));
}

#[test]
fn socket_directories_are_private() {
    let missing = PathInspection::Unreadable {
        not_found: true,
        complaint: "not found".into(),
    };
    assert!(ensure_control_socket_dir("/d", &missing).unwrap());
    assert!(!ensure_control_socket_dir("/d", &PathInspection::Directory { mode: 0o40700 }).unwrap());
    assert!(ensure_control_socket_dir("/d", &PathInspection::Directory { mode: 0o40755 })
        .unwrap_err()
        .message()
        .contains("exists with permissions 755"));
    assert!(ensure_control_socket_dir("/d", &PathInspection::Symlink)
        .unwrap_err()
        .message()
        .contains("must not be a symlink"));
    assert!(ensure_control_socket_dir("/d", &PathInspection::OtherFile).is_err());
    assert!(confirm_control_socket_dir("/d", true, &PathInspection::Symlink).is_err());
    assert!(remove_stale_control_socket_file("/d/agent.sock", &PathInspection::OtherFile).unwrap());
    assert!(!remove_stale_control_socket_file("/d/agent.sock", &missing).unwrap());
    assert!(remove_stale_control_socket_file(
        "/d/agent.sock",
        &PathInspection::Directory { mode: 0o40700 }
    )
    .is_err());
}

#[test]
fn cleanup_control_socket_dir_removes_only_runtime_leaf() {
    let runtime = alice_runtime();
    let removed =
        runtime.cleanup_control_socket_dir(&PathInspection::Directory { mode: 0o40700 });
    assert_eq!(
        removed,
        [
            SocketLeftover::File("/base/runtime-sockets/agent.sock".into()),
            SocketLeftover::File("/base/runtime-sockets/ssh.sock".into()),
            SocketLeftover::EmptyDirectory("/base/runtime-sockets".into()),
        ]
    );
    assert!(!removed[2].is_reported(LeftoverEnd::NotEmpty));
    assert!(!removed[0].is_reported(LeftoverEnd::NotFound));
    assert!(removed[0].is_reported(LeftoverEnd::Failed));
}

#[test]
fn cleanup_control_socket_dir_refuses_symlink_deletion_root() {
    let runtime = alice_runtime();
    assert!(runtime
        .cleanup_control_socket_dir(&PathInspection::Symlink)
        .is_empty());
    assert!(runtime
        .cleanup_control_socket_dir(&PathInspection::OtherFile)
        .is_empty());
}

#[test]
fn default_socket_directories_need_the_users_runtime_directory() {
    let mut runtime = alice_runtime();
    let absent = RunUserDir {
        is_dir: Err("No such file or directory".into()),
        probe: Ok(()),
    };
    assert!(runtime.prepare_control_socket_dir(&absent).is_ok());
    runtime.paths.control_sockets.default_host_dir = true;
    let err = runtime.prepare_control_socket_dir(&absent).unwrap_err();
    assert!(err.message().contains("/run/user/2450"), "{}", err.message());
    let there = RunUserDir {
        is_dir: Ok(true),
        probe: Ok(()),
    };
    assert!(runtime.prepare_control_socket_dir(&there).is_ok());
}

#[test]
fn state_directories_lie_within_the_workspace() {
    assert_eq!(
        resolve_workspace_state_path("/work", ".aw-gateway").unwrap(),
        "/work/.aw-gateway"
    );
    assert_eq!(
        resolve_workspace_state_path("/work", "./a//b").unwrap(),
        "/work/a/b"
    );
    for outside in ["/abs", "~", "~/x", "a/../../b"] {
        assert!(resolve_workspace_state_path("/work", outside).is_err(), "{outside}");
    }
}

fn service(name: &str, user: &str) -> ServiceConfig {
    ServiceConfig {
        name: name.into(),
        user: user.into(),
        env: TextMap::new(),
    }
}

#[test]
fn agent_configurations_name_the_sockets_and_the_policy() {
    let mut runtime = alice_runtime();
    runtime.target.ssh_bridge_enabled = true;
    let config = runtime
        .container_agent_config(
            ContainerAgentConfig {
                control_socket: None,
                ssh_bridge: Some(SshBridge {
                    enabled: true,
                    socket: None,
                }),
                services: vec![
                    service("acl-proxy", "{container_user}"),
                    service("container-sshd", "root"),
                ],
                idle_cleanup: None,
            },
            "/home/alice/.aw-gateway/ssh/authorized_keys",
        )
        .unwrap();
    assert_eq!(
        config.control_socket.as_deref(),
        Some("/run/aw-gateway/agent.sock")
    );
    assert_eq!(
        config.ssh_bridge.unwrap().socket.as_deref(),
        Some("/run/aw-gateway/ssh.sock")
    );
    assert_eq!(config.services[0].user, "alice");
    assert!(config.services[0].env.is_empty());
    let env = &config.services[1].env;
    assert_eq!(
        env.get("AW_SSHD_POLICY_CONFIG").unwrap().value.as_deref(),
        Some("/home/alice/.aw-gateway/containers/ubuntu-dev/ssh-command-filter.toml")
    );
    assert_eq!(
        env.get("AW_SSHD_SETENV_CONFIG").unwrap().value.as_deref(),
        Some("/home/alice/.aw-gateway/containers/ubuntu-dev/sshd-session-env.conf")
    );

    for keys_file in ["/home/al ice/keys", "/home/alice/#keys"] {
        let mut services = vec![service("acl-proxy", "root"), service("container-sshd", "root")];
        assert!(runtime
            .inject_container_sshd_env(&mut services, keys_file)
            .is_err());
        assert_eq!(services.len(), 2);
        assert_eq!(services[0], service("acl-proxy", "root"));
        assert_eq!(services[1], service("container-sshd", "root"));
    }
}

#[test]
fn agents_end_containers_only_when_it_is_their_turn() {
    let mut runtime = alice_runtime();
    let own = |cleanup: Option<IdleCleanup>| ContainerAgentConfig {
        control_socket: None,
        ssh_bridge: None,
        services: Vec::new(),
        idle_cleanup: cleanup,
    };
    let by_agent = IdleCleanup {
        owner: IdleCleanupOwner::Agent,
        action: IdleCleanupAction::ExitContainer,
    };
    runtime.target.idle_cleanup = Some(by_agent);
    assert!(runtime.uses_agent_idle_cleanup());
    assert_eq!(
        runtime
            .container_agent_config(own(None), "/k")
            .unwrap()
            .idle_cleanup,
        Some(by_agent)
    );
    runtime.target.idle_cleanup = Some(IdleCleanup {
        owner: IdleCleanupOwner::Gateway,
        action: IdleCleanupAction::ExitContainer,
    });
    assert!(!runtime.uses_agent_idle_cleanup());
    assert_eq!(
        runtime
            .container_agent_config(own(Some(by_agent)), "/k")
            .unwrap()
            .idle_cleanup,
        None
    );
}

#[test]
fn bootstrap_files_name_the_session_user() {
    let runtime = alice_runtime();
    let file = runtime
        .container_bootstrap_file(
            Ok(vec![RenderedContainerBootstrapStep {
                name: "target-bootstrap".into(),
                required: false,
                user: "root".into(),
                command: vec!["/bin/target".into()],
                timeout: Some("5s".into()),
            }]),
            Ok("/opt/aw-gateway/bin/target-agent".into()),
        )
        .unwrap();
    assert_eq!(file.agent_program, "/opt/aw-gateway/bin/target-agent");
    assert_eq!(file.steps[0].command, ["/bin/target"]);
    assert_eq!(file.identity.session_user, "alice");
    assert_eq!(file.identity.session_uid, 2450);
    assert!(runtime
        .container_bootstrap_file(Err(Failure::msg("bad step")), Ok("x".into()))
        .is_err());
}

#[test]
fn sshd_environments_are_one_line() {
    assert_eq!(
        sshd_session_env_config(&entries(&[("B", "2"), ("A", "1")])).unwrap(),
        "# Generated by aw-gateway. Included by container SSHD helpers when configured.\nSetEnv A=1 B=2\n"
    );
    assert!(sshd_session_env_config(&entries(&[("A", "1 2")])).is_err());
    assert!(sshd_session_env_config(&entries(&[("A B", "1")])).is_err());
}

// ---------------------------------------------------------------- workspaces

fn cleanup_runtime(cleanup: WorkspaceCleanup) -> Runtime {
    let mut runtime = alice_runtime();
    runtime.target.mode = TargetMode::Ephemeral;
    runtime.target.workspace_cleanup = cleanup;
    runtime.identity.session_id = Some("abc123def456".into());
    runtime.paths.workspace =
        "/home/alice/.cache/aw-gateway/workspaces/default-abc123def456".into();
    runtime
}

const TEMPLATE: &str = "{home}/.cache/aw-gateway/workspaces/{target}-{session_id}";

#[test]
fn workspace_cleanup_policy_matches_outcome() {
    let mut runtime = alice_runtime();

    runtime.target.workspace_cleanup = WorkspaceCleanup::Never;
    assert!(!runtime.should_cleanup_workspace(SessionOutcome::Success));
    assert!(!runtime.should_cleanup_workspace(SessionOutcome::Canceled));
    assert!(!runtime.should_cleanup_workspace(SessionOutcome::Failure));

    runtime.target.workspace_cleanup = WorkspaceCleanup::Success;
    assert!(runtime.should_cleanup_workspace(SessionOutcome::Success));
    assert!(runtime.should_cleanup_workspace(SessionOutcome::Canceled));
    assert!(!runtime.should_cleanup_workspace(SessionOutcome::Failure));

    runtime.target.workspace_cleanup = WorkspaceCleanup::Always;
    assert!(runtime.should_cleanup_workspace(SessionOutcome::Success));
    assert!(runtime.should_cleanup_workspace(SessionOutcome::Canceled));
    assert!(runtime.should_cleanup_workspace(SessionOutcome::Failure));
}

#[test]
fn workspace_cleanup_path_allows_missing_session_workspace() {
    validate_workspace_cleanup_path(
        "/base/.cache/aw-gateway/workspaces/default-abc123def456",
        "/base",
        "abc123def456",
        Some(TEMPLATE),
    )
    .unwrap();
}

#[test]
fn workspace_cleanup_path_allows_three_character_session_id() {
    let workspace = "/base/.cache/aw-gateway/workspaces/default-abc";

    validate_workspace_cleanup_path(workspace, "/base", "abc", Some(TEMPLATE)).unwrap();

    let err = validate_workspace_cleanup_path(workspace, "/base", "ab", Some(TEMPLATE))
        .unwrap_err()
        .full_message();
    assert!(err.contains("must be at least 3 characters"), "{err}");
}

#[test]
fn workspace_cleanup_path_rejects_unsafe_roots() {
    let root_err = validate_workspace_cleanup_path("/", "/base", "abc123def456", Some(TEMPLATE))
        .unwrap_err()
        .full_message();
    assert!(root_err.contains("refuses to delete /"), "{root_err}");

    let home_err =
        validate_workspace_cleanup_path("/base", "/base", "abc123def456", Some(TEMPLATE))
            .unwrap_err()
            .full_message();
    assert!(
        home_err.contains("refuses to delete user home directory"),
        "{home_err}"
    );
}

#[test]
fn workspace_cleanup_path_rejects_paths_without_session_id() {
    let err = validate_workspace_cleanup_path(
        "/base/.cache/aw-gateway/workspaces/default",
        "/base",
        "abc123def456",
        Some(TEMPLATE),
    )
    .unwrap_err()
    .full_message();

    assert!(err.contains("must contain session_id"), "{err}");
}

#[test]
fn workspace_cleanup_path_rejects_empty_and_dot_components() {
    let empty_err = validate_workspace_cleanup_path("", "/base", "abc123def456", Some(TEMPLATE))
        .unwrap_err()
        .full_message();
    assert!(
        empty_err.contains("resolved workspace must not be empty"),
        "{empty_err}"
    );

    let dot_err = validate_workspace_cleanup_path(
        "/tmp/aw-gateway/../default-abc123def456",
        "/base",
        "abc123def456",
        Some(TEMPLATE),
    )
    .unwrap_err()
    .full_message();
    assert!(
        dot_err.contains("must not contain '.' or '..' components"),
        "{dot_err}"
    );
}

#[test]
fn workspace_cleanup_path_rejects_aw_gateway_template_mismatch() {
    let err = validate_workspace_cleanup_path(
        "/base/workspaces/default-abc123def456",
        "/base",
        "abc123def456",
        Some(TEMPLATE),
    )
    .unwrap_err()
    .full_message();

    assert!(
        err.contains("outside the configured aw-gateway workspace root"),
        "{err}"
    );
}

#[test]
fn only_real_directories_are_removed() {
    let runtime = cleanup_runtime(WorkspaceCleanup::Always);
    let remove = |first: WorkspaceEntry, second: WorkspaceEntry| {
        runtime.remove_session_workspace(TEMPLATE, &first, &second)
    };
    assert!(remove(WorkspaceEntry::Directory, WorkspaceEntry::Directory).unwrap());
    assert!(!remove(WorkspaceEntry::Missing, WorkspaceEntry::Missing).unwrap());
    assert!(remove(WorkspaceEntry::Symlink, WorkspaceEntry::Symlink).is_err());
    assert!(remove(WorkspaceEntry::OtherFile, WorkspaceEntry::OtherFile).is_err());
    assert!(remove(
        WorkspaceEntry::Unreadable("denied".into()),
        WorkspaceEntry::Directory
    )
    .is_err());
    assert!(runtime
        .check_workspace_cleanup(TEMPLATE, &WorkspaceEntry::Directory)
        .is_ok());
}

#[test]
fn workspaces_in_use_are_kept() {
    let runtime = cleanup_runtime(WorkspaceCleanup::Always);
    assert_eq!(
        runtime.begin_workspace_cleanup(SessionOutcome::Success),
        CleanupStep::AcquireLock
    );
    assert_eq!(after_cleanup_lock(true), CleanupStep::ListSessions);
    assert_eq!(after_cleanup_lock(false), CleanupStep::Finished);
    assert_eq!(after_cleanup_sessions(Some(0)), CleanupStep::RemoveWorkspace);
    assert_eq!(after_cleanup_sessions(Some(1)), CleanupStep::Finished);
    assert_eq!(after_cleanup_sessions(None), CleanupStep::Finished);
    assert!(runtime.removes_workspace_explicitly());
    assert!(!cleanup_runtime(WorkspaceCleanup::Never).removes_workspace_explicitly());
}

#[test]
fn target_workspace_override_resolves_relative_to_user_home() {
    let user = alice();
    let vars = workspace_vars(&user, "default", "ubuntu/dev", "ubuntu-dev", None, &TextMap::new());
    assert_eq!(vars.get("home").map(String::as_str), Some("/home/alice"));

    let rendered = "{home}/workspace-internal".replace("{home}", vars.get("home").unwrap());
    let workspace = resolve_target_workspace(&user, Ok(rendered)).unwrap();

    assert_eq!(workspace, "/home/alice/workspace-internal");
    assert_eq!(
        resolve_target_workspace(&user, Ok("work".into())).unwrap(),
        "/home/alice/work"
    );
}

// ---------------------------------------------------------------- statuses

fn managed_container(
    name: &str,
    image: &str,
    running: bool,
    labels: TextMap<String>,
) -> ManagedContainer {
    ManagedContainer {
        name: name.into(),
        image: image.into(),
        running,
        labels,
    }
}

fn managed_labels(target: &str, container: &str) -> TextMap<String> {
    entries(&[
        ("io.aw-gateway.gateway", "true"),
        ("io.aw-gateway.user", "alice"),
        ("io.aw-gateway.uid", "2450"),
        ("io.aw-gateway.target", target),
        ("io.aw-gateway.image", "ubuntu/dev"),
        ("io.aw-gateway.container_id", container),
    ])
}

fn configured(mode: TargetMode) -> TextMap<ConfiguredTarget> {
    let mut targets = TextMap::new();
    targets.insert(
        "default".to_string(),
        ConfiguredTarget {
            mode,
            container_name: Some("ubuntu-dev".into()),
        },
    );
    targets
}

#[test]
fn status_all_entries_empty_when_runtime_has_no_matches() {
    let entries = status_all_entries(&configured(TargetMode::Fixed), &Vec::new());

    assert!(entries.is_empty());
}

#[test]
fn status_all_entry_projects_fixed_container_from_labels() {
    let mut labels = managed_labels("default", "ubuntu-dev");
    labels.insert("io.aw-gateway.mode".into(), "fixed".into());

    let entries = status_all_entries(
        &configured(TargetMode::Fixed),
        &vec![managed_container(
            "ubuntu-dev",
            "runtime-image",
            true,
            labels,
        )],
    );

    assert_eq!(
        entries,
        vec![AllStatusEntry {
            target: "default".into(),
            session_id: None,
            launch: None,
            mode: "fixed".into(),
            user: "alice".into(),
            uid: "2450".into(),
            image: "ubuntu/dev".into(),
            container: "ubuntu-dev".into(),
            context: TextMap::new(),
            status: "running".into(),
        }]
    );
}

#[test]
fn status_all_entry_projects_context_labels() {
    let mut labels = managed_labels("default", "ubuntu-dev");
    labels.insert("io.aw-gateway.mode".into(), "fixed".into());
    labels.insert("io.aw-gateway.context.tenant".into(), "acme".into());

    let all = status_all_entries(
        &configured(TargetMode::Fixed),
        &vec![managed_container(
            "ubuntu-dev",
            "runtime-image",
            true,
            labels,
        )],
    );

    assert_eq!(all[0].context, entries(&[("tenant", "acme")]));
}

#[test]
fn status_all_entries_project_multiple_ephemeral_containers() {
    let mut first = managed_labels("default", "ubuntu-dev-1a2b3c4d5e6f");
    first.insert("io.aw-gateway.image".into(), "scratch/dev".into());
    first.insert("io.aw-gateway.mode".into(), "ephemeral".into());
    first.insert("io.aw-gateway.session_id".into(), "1a2b3c4d5e6f".into());
    let mut second = managed_labels("default", "ubuntu-dev-0f1e2d3c4b5a");
    second.insert("io.aw-gateway.image".into(), "scratch/dev".into());
    second.insert("io.aw-gateway.mode".into(), "ephemeral".into());
    second.insert("io.aw-gateway.session_id".into(), "0f1e2d3c4b5a".into());

    let entries = status_all_entries(
        &configured(TargetMode::Ephemeral),
        &vec![
            managed_container("ubuntu-dev-1a2b3c4d5e6f", "scratch/dev", false, first),
            managed_container("ubuntu-dev-0f1e2d3c4b5a", "scratch/dev", true, second),
        ],
    );

    assert_eq!(entries.len(), 2);
    assert_eq!(entries[0].session_id.as_deref(), Some("1a2b3c4d5e6f"));
    assert_eq!(entries[0].launch, None);
    assert_eq!(entries[0].status, "stopped");
    assert_eq!(entries[1].session_id.as_deref(), Some("0f1e2d3c4b5a"));
    assert_eq!(entries[1].status, "running");
}

#[test]
fn status_all_entry_keeps_stale_labeled_container_without_config_match() {
    let labels = managed_labels("old-target", "aw-old");

    let entries = status_all_entries(
        &configured(TargetMode::Fixed),
        &vec![managed_container("aw-old", "runtime/old", true, labels)],
    );

    assert_eq!(entries[0].target, "old-target");
    assert_eq!(entries[0].mode, "unknown");
    assert_eq!(entries[0].session_id, None);
    assert_eq!(entries[0].launch, None);
    assert_eq!(entries[0].status, "running");
}

#[test]
fn status_all_entry_uses_unknown_policy_for_missing_labels() {
    let entries = status_all_entries(
        &configured(TargetMode::Fixed),
        &vec![managed_container(
            "aw-unlabeled",
            "runtime/old",
            false,
            TextMap::new(),
        )],
    );

    assert_eq!(entries[0].target, "unknown");
    assert_eq!(entries[0].mode, "unknown");
    assert_eq!(entries[0].status, "stopped");
}

#[test]
fn status_all_entry_projects_ephemeral_launch_label() {
    let mut labels = managed_labels("default", "ubuntu-dev-1a2b3c4d5e6f");
    labels.insert("io.aw-gateway.mode".into(), "ephemeral".into());
    labels.insert("io.aw-gateway.session_id".into(), "1a2b3c4d5e6f".into());
    labels.insert("io.aw-gateway.launch".into(), "agent-pack-codex".into());

    let entries = status_all_entries(
        &configured(TargetMode::Fixed),
        &vec![managed_container(
            "ubuntu-dev-1a2b3c4d5e6f",
            "runtime-image",
            true,
            labels,
        )],
    );

    assert_eq!(entries[0].launch.as_deref(), Some("agent-pack-codex"));
    let shown = format!("{entries:?}");
    assert!(shown.contains("agent-pack-codex"));
    assert!(!shown.contains("repo"));
    assert!(!shown.contains("pack_id"));
    assert!(!shown.contains("AGENT_PACK_ID"));
}

#[test]
fn status_all_entry_ignores_stale_fixed_launch_label() {
    let mut labels = managed_labels("default", "ubuntu-dev");
    labels.insert("io.aw-gateway.mode".into(), "fixed".into());
    labels.insert("io.aw-gateway.launch".into(), "stale-launch".into());

    let entries = status_all_entries(
        &configured(TargetMode::Fixed),
        &vec![managed_container(
            "ubuntu-dev",
            "runtime-image",
            true,
            labels,
        )],
    );

    assert_eq!(entries[0].launch, None);
    assert!(!format!("{entries:?}").contains("stale-launch"));
}

#[test]
fn status_launch_prefers_selected_session() {
    let sessions = vec![
        SessionStatus {
            id: "s1".into(),
            kind: "launch".into(),
            gateway_pid: 1,
            container: "ubuntu-dev".into(),
            target: "default".into(),
            launch: Some("first".into()),
            context: TextMap::new(),
            created_at_ms: 1,
        },
        SessionStatus {
            id: "s2".into(),
            kind: "launch".into(),
            gateway_pid: 1,
            container: "ubuntu-dev".into(),
            target: "default".into(),
            launch: Some("second".into()),
            context: TextMap::new(),
            created_at_ms: 2,
        },
    ];

    assert_eq!(
        status_launch(Some("s2"), &sessions).as_deref(),
        Some("second")
    );
    assert_eq!(status_launch(Some("missing"), &sessions), None);
    assert_eq!(status_launch(None, &sessions).as_deref(), Some("first"));
}
