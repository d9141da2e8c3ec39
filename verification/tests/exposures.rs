//! Host sockets that are exposed to containers.

use aw_gateway::config::ContainerRuntimeType;
use aw_gateway::failure::Failure;
use aw_gateway::gateway::host_socket_exposures::{
    after_probe, after_wait, canonicalize_generic_mount_source,
    current_host_socket_exposure_statuses, exposure_common_failure,
    exposure_manifest, prepare_host_socket_exposures, prepared_exposure_statuses,
    reject_path_overlap, removed_config_manifest_status, unavailable_exposure_statuses,
    unix_socket_identity, validate_exposure_manifest, validate_exposure_manifest_values,
    validate_normalized_container_path, validate_runtime_path_separators,
    validate_socket_path_length, EndpointProbe, EndpointStep, ExposureRequest, HostPath,
    HostSocketExposureRealization, HostSocketExposureSpec, PreparedContainerInputs,
    RequestedExposure, RequestedMount, SourceFileType, SourceMetadata, UnixSourceIdentity,
    HOST_SOCKET_EXPOSURE_MANIFEST_LABEL, LINUX_UNIX_SOCKET_PATH_MAX_BYTES,
};
use aw_gateway::runtime::{ContainerConfig, ContainerInspect, ContainerState};
use aw_gateway::text_map::TextMap;

fn socket_at(inode: u64) -> SourceMetadata {
    SourceMetadata {
        is_socket: true,
        device: 7,
        inode,
        uid: 1000,
        gid: 1000,
        mode: 0o140600,
    }
}

/// A named socket `/srv/<file>` that is to appear at `container_path`.
fn exposure(name: &str, file: &str, container_path: &str) -> (String, RequestedExposure) {
    let requested = RequestedExposure {
        host_path: Ok(format!("/srv/{file}")),
        parent: Ok("/srv".into()),
        container_path: Ok(container_path.into()),
        user: Ok("test".into()),
        user_check: Ok(()),
        metadata: Ok(socket_at(42)),
        selinux_relabel: "None".into(),
    };
    (name.into(), requested)
}

fn request(
    exposures: Vec<(String, RequestedExposure)>,
    kind: ContainerRuntimeType,
) -> ExposureRequest {
    let mut named = TextMap::new();
    for (name, exposure) in exposures {
        named.insert(name, exposure);
    }
    ExposureRequest {
        exposures: named,
        runtime_kind: kind,
        mounts: Vec::new(),
        workspace_host: HostPath {
            path: "/home/test/work".into(),
            canonical: Ok("/home/test/work".into()),
        },
        workspace_container: "/workspace".into(),
        container_home: "/home/test".into(),
        control_host: None,
        control_container: None,
        host_limit: LINUX_UNIX_SOCKET_PATH_MAX_BYTES,
    }
}

fn prepare(
    exposures: Vec<(String, RequestedExposure)>,
    kind: ContainerRuntimeType,
) -> Result<PreparedContainerInputs, Failure> {
    prepare_host_socket_exposures(request(exposures, kind))
}

fn inspect(running: bool, labels: &[(&str, &str)]) -> ContainerInspect {
    let mut map = TextMap::new();
    for (key, value) in labels {
        map.insert(key.to_string(), value.to_string());
    }
    ContainerInspect {
        id: "id".into(),
        name: "target".into(),
        state: ContainerState {
            running,
            pid: Some(123),
        },
        config: ContainerConfig { labels: map },
    }
}

#[test]
fn sockets_are_prepared_as_they_are_found() {
    let prepared = prepare(
        vec![exposure("traffic", "traffic.sock", "/run/aw-gateway/traffic.sock")],
        ContainerRuntimeType::AppleContainer,
    )
    .unwrap();
    assert_eq!(prepared.host_socket_exposures.len(), 1);
    assert_eq!(
        prepared.host_socket_exposures[0].realization,
        HostSocketExposureRealization::PathReconnect
    );
    assert_eq!(
        prepared.host_socket_exposures[0].source_identity,
        UnixSourceIdentity {
            device: 7,
            inode: 42,
            uid: 1000,
            gid: 1000,
            mode: 0o600,
        }
    );
    assert!(prepare(Vec::new(), ContainerRuntimeType::Docker)
        .unwrap()
        .exposure_manifest
        .is_none());
}

#[test]
fn sources_that_are_missing_or_no_sockets_are_refused() {
    let mut missing = exposure("traffic", "missing.sock", "/run/traffic.sock");
    missing.1.metadata = Err("No such file or directory".into());
    let err = prepare(vec![missing], ContainerRuntimeType::Docker).unwrap_err();
    assert!(err.message().contains("stat host_socket_exposures"), "{}", err.message());

    let mut regular = exposure("traffic", "regular", "/run/traffic.sock");
    regular.1.metadata = Ok(SourceMetadata { is_socket: false, ..socket_at(42) });
    let err = prepare(vec![regular], ContainerRuntimeType::Docker).unwrap_err();
    assert!(err.message().contains("must be a Unix socket"), "{}", err.message());

    assert_eq!(
        unix_socket_identity("/srv/x", "x", &Ok(socket_at(9))).unwrap().inode,
        9
    );
}

#[test]
fn generic_mounts_reject_socket_and_final_symlink_sources() {
    let parent = Ok("/srv".to_string());
    let socket_err = canonicalize_generic_mount_source(
        "/srv/traffic.sock",
        "mount",
        &parent,
        &Ok(SourceFileType::Socket),
    )
    .unwrap_err()
    .message();
    assert!(socket_err.contains("host_socket_exposures"), "{socket_err}");
    let link_err = canonicalize_generic_mount_source(
        "/srv/link",
        "mount",
        &parent,
        &Ok(SourceFileType::Symlink),
    )
    .unwrap_err()
    .message();
    assert!(link_err.contains("must not be a symlink"), "{link_err}");
    assert_eq!(
        canonicalize_generic_mount_source(
            "/elsewhere/data",
            "mount",
            &Ok("/srv".to_string()),
            &Ok(SourceFileType::Regular),
        )
        .unwrap(),
        "/srv/data"
    );
}

#[test]
fn exposure_paths_reject_ancestor_collisions() {
    let err = prepare(
        vec![
            exposure("first", "first.sock", "/run/traffic"),
            exposure("second", "second.sock", "/run/traffic/nested.sock"),
        ],
        ContainerRuntimeType::Docker,
    )
    .unwrap_err()
    .message();
    assert!(err.contains("another host socket exposure path"), "{err}");
}

#[test]
fn rendered_exposure_paths_and_readiness_users_are_validated_after_rendering() {
    let err = prepare(
        vec![
            exposure("first", "first.sock", "/opt/socket-base/traffic.sock"),
            exposure("second", "second.sock", "/opt/socket-base/traffic.sock"),
        ],
        ContainerRuntimeType::Docker,
    )
    .unwrap_err()
    .message();
    assert!(err.contains("another host socket exposure path"), "{err}");

    let mut single = exposure("traffic", "first.sock", "/run/traffic.sock");
    single.1.user = Ok("acl-relay".into());
    let prepared = prepare(vec![single], ContainerRuntimeType::Docker).unwrap();
    assert_eq!(
        prepared.host_socket_exposures[0].readiness_user,
        "acl-relay"
    );

    let mut bad = exposure("traffic", "first.sock", "/run/traffic.sock");
    bad.1.user_check = Err(Failure::msg("user must not be empty"));
    assert!(prepare(vec![bad], ContainerRuntimeType::Docker).is_err());
}

#[test]
fn exposure_container_path_rejects_lexical_normalization_bypasses() {
    for container_path in ["/run/../workspace/traffic.sock", "/run//traffic.sock", "/"] {
        let err = prepare(
            vec![exposure("traffic", "traffic.sock", container_path)],
            ContainerRuntimeType::Docker,
        )
        .unwrap_err()
        .message();
        assert!(err.contains("normalized absolute non-root"), "{err}");
    }
    assert!(validate_normalized_container_path("x", "/run/traffic.sock").is_ok());
    assert!(validate_normalized_container_path("x", "/run/./traffic.sock").is_err());
    assert!(validate_normalized_container_path("x", "run/traffic.sock").is_err());
}

#[test]
fn canonicalized_workspace_paths_cannot_implicitly_expose_socket() {
    for path in ["/srv/workspace-link", "/srv/real-workspace/nested/.."] {
        let mut inside = exposure("traffic", "real-workspace/traffic.sock", "/run/traffic.sock");
        inside.1.parent = Ok("/srv/real-workspace".into());
        let mut asked = request(vec![inside], ContainerRuntimeType::Docker);
        asked.workspace_host = HostPath {
            path: path.into(),
            canonical: Ok("/srv/real-workspace".into()),
        };
        let err = prepare_host_socket_exposures(asked).unwrap_err().message();
        assert!(err.contains("workspace host path"), "{path:?}: {err}");
    }
}

#[test]
fn mounts_cannot_cover_exposures() {
    let mut asked = request(
        vec![exposure("traffic", "traffic.sock", "/run/traffic.sock")],
        ContainerRuntimeType::Docker,
    );
    asked.mounts = vec![RequestedMount {
        source: HostPath {
            path: "/data".into(),
            canonical: Ok("/data".into()),
        },
        target: "/run".into(),
        readonly: false,
    }];
    assert!(prepare_host_socket_exposures(asked).is_err());
}

#[test]
fn removed_config_reports_stale_container_manifest() {
    let inspect = inspect(true, &[(HOST_SOCKET_EXPOSURE_MANIFEST_LABEL, "sha256:stale")]);
    let statuses = removed_config_manifest_status(Some(&inspect), ContainerRuntimeType::Docker);
    assert_eq!(statuses.len(), 1);
    assert!(!statuses[0].ready);
    assert_eq!(
        statuses[0].failure_category.as_deref(),
        Some("recreate_required")
    );
    assert_eq!(statuses[0].realization, "pinned_inode");
    let apple =
        removed_config_manifest_status(Some(&inspect), ContainerRuntimeType::AppleContainer);
    assert_eq!(apple[0].realization, "path_reconnect");
    assert!(removed_config_manifest_status(None, ContainerRuntimeType::Docker).is_empty());
}

#[test]
fn apple_readiness_user_does_not_participate_in_host_preparation() {
    let mut relay = exposure("relay", "traffic.sock", "/run/relay.sock");
    relay.1.user = Ok("acl-relay".into());
    let prepared = prepare(vec![relay], ContainerRuntimeType::AppleContainer).unwrap();
    assert_eq!(
        prepared.host_socket_exposures[0].readiness_user,
        "acl-relay"
    );
}

#[test]
fn manifest_tracks_linux_inode_but_not_apple_inode() {
    let manifest = |inode: u64, kind: ContainerRuntimeType| {
        let mut traffic = exposure("traffic", "traffic.sock", "/run/traffic.sock");
        traffic.1.metadata = Ok(socket_at(inode));
        prepare(vec![traffic], kind).unwrap().exposure_manifest
    };
    assert_ne!(
        manifest(42, ContainerRuntimeType::Docker),
        manifest(43, ContainerRuntimeType::Docker)
    );
    assert_eq!(
        manifest(42, ContainerRuntimeType::AppleContainer),
        manifest(43, ContainerRuntimeType::AppleContainer)
    );
}

#[test]
fn manifest_ignores_readiness_user() {
    let manifest = |user: &str| {
        let mut traffic = exposure("traffic", "traffic.sock", "/run/traffic.sock");
        traffic.1.user = Ok(user.into());
        prepare(vec![traffic], ContainerRuntimeType::AppleContainer)
            .unwrap()
            .exposure_manifest
    };
    assert_eq!(manifest("root"), manifest("acl-relay"));
}

#[test]
fn exposures_keep_the_order_of_their_names() {
    let prepared = prepare(
        vec![
            exposure("traffic", "traffic.sock", "/run/traffic.sock"),
            exposure("agent", "agent.sock", "/run/agent.sock"),
        ],
        ContainerRuntimeType::Podman,
    )
    .unwrap();
    let names: Vec<&str> = prepared
        .host_socket_exposures
        .iter()
        .map(|exposure| exposure.name.as_str())
        .collect();
    assert_eq!(names, ["agent", "traffic"]);
    let manifest = prepared.exposure_manifest.unwrap();
    assert_eq!(manifest.len(), 71);
    let digits = manifest.strip_prefix("sha256:").unwrap();
    assert!(digits.chars().all(|c| matches!(c, '0'..='9' | 'a'..='f')));
}

#[test]
fn manifest_is_the_digest_of_the_exposures() {
    let spec = HostSocketExposureSpec {
        name: "traffic".into(),
        host_path: "/srv/traffic.sock".into(),
        container_path: "/run/traffic.sock".into(),
        readiness_user: "test".into(),
        selinux_relabel: "None".into(),
        realization: HostSocketExposureRealization::PinnedInode,
        source_identity: UnixSourceIdentity {
            device: 7,
            inode: 42,
            uid: 0,
            gid: 0,
            mode: 0,
        },
    };
    assert_eq!(exposure_manifest(&vec![spec]), "sha256:4042f49d5cd892ebfbf8a605a2a27c0d0ff2a55898822f306b93fd9bd7fdd115");
}

#[test]
fn existing_container_manifest_has_no_compatibility_fallback() {
    validate_exposure_manifest_values("target", Some("sha256:a"), Some("sha256:a")).unwrap();
    let missing = validate_exposure_manifest_values("target", Some("sha256:a"), None)
        .unwrap_err()
        .message();
    assert!(missing.contains("missing"), "{missing}");
    let changed = validate_exposure_manifest_values("target", Some("sha256:a"), Some("sha256:b"))
        .unwrap_err()
        .message();
    assert!(changed.contains("does not match"), "{changed}");
    let removed = validate_exposure_manifest_values("target", None, Some("sha256:a"))
        .unwrap_err()
        .message();
    assert!(removed.contains("target does not"), "{removed}");
}

#[test]
fn statuses_follow_the_container_and_its_endpoints() {
    let prepared = prepare(
        vec![exposure("traffic", "traffic.sock", "/run/traffic.sock")],
        ContainerRuntimeType::Docker,
    )
    .unwrap();
    let manifest = prepared.exposure_manifest.clone().unwrap();
    let running = inspect(true, &[(HOST_SOCKET_EXPOSURE_MANIFEST_LABEL, &manifest)]);
    let stopped = inspect(false, &[(HOST_SOCKET_EXPOSURE_MANIFEST_LABEL, &manifest)]);
    let stale = inspect(true, &[(HOST_SOCKET_EXPOSURE_MANIFEST_LABEL, "sha256:x")]);

    assert!(validate_exposure_manifest("target", &running, &prepared).is_ok());
    assert!(validate_exposure_manifest("target", &stale, &prepared).is_err());

    assert_eq!(
        exposure_common_failure("target", None, &prepared).as_deref(),
        Some("container_absent")
    );
    assert_eq!(
        exposure_common_failure("target", Some(&stale), &prepared).as_deref(),
        Some("recreate_required")
    );
    assert_eq!(
        exposure_common_failure("target", Some(&stopped), &prepared).as_deref(),
        Some("container_stopped")
    );
    assert_eq!(exposure_common_failure("target", Some(&running), &prepared), None);

    let ready = prepared_exposure_statuses("target", Some(&running), &prepared, &vec![true]);
    assert!(ready[0].ready);
    assert_eq!(ready[0].failure_category, None);
    let failed = prepared_exposure_statuses("target", Some(&running), &prepared, &vec![false]);
    assert!(!failed[0].ready);

    let lost = unavailable_exposure_statuses(
        &vec!["traffic".to_string()],
        ContainerRuntimeType::Docker,
    );
    assert_eq!(lost[0].failure_category.as_deref(), Some("source_unavailable"));
}

#[test]
fn exposures_are_ready_only_where_they_can_be_used() {
    let prepared = prepare(
        vec![exposure("traffic", "traffic.sock", "/run/traffic.sock")],
        ContainerRuntimeType::Docker,
    )
    .unwrap();
    let manifest = prepared.exposure_manifest.clone().unwrap();
    let names = vec!["traffic".to_string()];
    let running = inspect(true, &[(HOST_SOCKET_EXPOSURE_MANIFEST_LABEL, manifest.as_str())]);
    let stopped = inspect(false, &[(HOST_SOCKET_EXPOSURE_MANIFEST_LABEL, manifest.as_str())]);
    let other = inspect(true, &[(HOST_SOCKET_EXPOSURE_MANIFEST_LABEL, "sha256:stale")]);
    let told = |seen: Option<&ContainerInspect>, answers: bool| {
        let statuses = current_host_socket_exposure_statuses(
            ContainerRuntimeType::Docker,
            "target",
            &names,
            seen,
            Some(&prepared),
            &vec![answers],
        );
        assert_eq!(statuses.len(), 1);
        (statuses[0].ready, statuses[0].failure_category.clone())
    };
    assert_eq!(told(Some(&running), true), (true, None));
    for (seen, answers, category) in [
        (Some(&running), false, "guest_endpoint_unavailable"),
        (Some(&stopped), true, "container_stopped"),
        (Some(&other), true, "recreate_required"),
        (None, true, "container_absent"),
    ] {
        assert_eq!(told(seen, answers), (false, Some(category.to_string())));
    }

    let without_sources = current_host_socket_exposure_statuses(
        ContainerRuntimeType::Docker,
        "target",
        &names,
        Some(&running),
        None,
        &Vec::new(),
    );
    assert_eq!(without_sources[0].failure_category.as_deref(), Some("source_unavailable"));
    let without_config = current_host_socket_exposure_statuses(
        ContainerRuntimeType::Docker,
        "target",
        &Vec::new(),
        Some(&running),
        None,
        &Vec::new(),
    );
    assert_eq!(without_config[0].name, "container_manifest");
}

#[test]
fn endpoints_are_ready_after_both_probes() {
    let prepared = prepare(
        vec![exposure("traffic", "traffic.sock", "/run/traffic.sock")],
        ContainerRuntimeType::Docker,
    )
    .unwrap();
    let spec = &prepared.host_socket_exposures[0];
    assert_eq!(
        EndpointProbe::IsSocket.command("/run/traffic.sock"),
        ["/bin/test", "-S", "/run/traffic.sock"]
    );
    assert!(matches!(
        after_probe(EndpointProbe::IsSocket, Ok(0), spec),
        EndpointStep::Probe(EndpointProbe::IsWritable)
    ));
    assert!(matches!(
        after_probe(EndpointProbe::IsWritable, Ok(0), spec),
        EndpointStep::Ready
    ));
    assert!(matches!(
        after_probe(EndpointProbe::IsWritable, Ok(1), spec),
        EndpointStep::Wait(EndpointProbe::IsWritable)
    ));
    assert!(matches!(
        after_probe(EndpointProbe::IsSocket, Err(Failure::msg("no runtime")), spec),
        EndpointStep::Failed(_)
    ));
    assert!(matches!(
        after_wait(EndpointProbe::IsSocket, false, spec),
        EndpointStep::Probe(EndpointProbe::IsSocket)
    ));
    assert!(matches!(
        after_wait(EndpointProbe::IsSocket, true, spec),
        EndpointStep::Failed(_)
    ));
}

#[test]
fn path_rules_of_runtimes() {
    assert!(validate_runtime_path_separators("x", "/run/a").is_ok());
    assert!(validate_runtime_path_separators("x", "/run/a:b").is_err());
    assert!(validate_runtime_path_separators("x", "/run/a,b").is_err());
    assert!(validate_socket_path_length("x", "/run/a", 6).is_ok());
    assert!(validate_socket_path_length("x", "/run/a", 5).is_err());
    assert!(reject_path_overlap("a", "/run", "b", "/run/x").is_err());
    assert!(reject_path_overlap("a", "/run/x", "b", "/run").is_err());
    assert!(reject_path_overlap("a", "/run", "b", "/running").is_ok());
}
