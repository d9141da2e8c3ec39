//! Command lines, probes, log files, paths and the other services of a process.

use aw_gateway::failure::Failure;
use aw_gateway::health_probe::{
    check_json_fields, compare_field, http_probe, HttpHealthResponse, HttpProbe, JsonFieldCheck,
};
use aw_gateway::launch_args::{
    parse_launch_run_strings, LaunchRunArgRole, LaunchRunArgs, LaunchRunParser,
};
use aw_gateway::logging::{
    agent_logging_vars, fallback_config, file_logging_failure, gateway_logging_vars, init,
    init_agent, init_gateway, is_readable, log_directive, log_file_path, logging_guard, GatewayLogging,
    LogSink, LoggingConfig, DEFAULT_MAX_BYTES, DEFAULT_MAX_FILES,
};
use aw_gateway::paths::{
    agent_config_path, bootstrap_config_path, expand_home, gateway_config_path,
    resolve_gateway_config, resolve_workspace, ConfigSurroundings, GatewayConfigSource,
    UserContext,
};
use aw_gateway::process_security::{
    suppress_process_dumps, suppress_process_dumps_with, DumpStep,
};
use aw_gateway::random::{random_hex, random_hex_token};
use aw_gateway::rotating_log::{RotationPlan, RotationState, RotationStep};
use aw_gateway::text_map::TextMap;

fn texts(parts: &[&str]) -> Vec<String> {
    parts.iter().map(|part| part.to_string()).collect()
}

fn entries(pairs: &[(&str, &str)]) -> TextMap<String> {
    let mut map = TextMap::new();
    for (key, value) in pairs {
        map.insert(key.to_string(), value.to_string());
    }
    map
}

// ---------------------------------------------------------------- launch arguments

#[test]
fn parses_launch_run_flags() {
    let parsed = parse_launch_run_strings(&texts(&[
        "repo-shell",
        "--session-id=abc123",
        "--var",
        "repo=https://example.test/repo.git",
        "--var=branch=main",
    ]))
    .unwrap();

    assert_eq!(
        parsed,
        LaunchRunArgs {
            name: "repo-shell".into(),
            session_id: Some("abc123".into()),
            vars: vec![
                "repo=https://example.test/repo.git".into(),
                "branch=main".into()
            ],
        }
    );
}

#[test]
fn rejects_invalid_launch_run_flags() {
    for args in [
        vec!["repo-shell", "--json"],
        vec!["repo-shell", "--session-id", "a", "--session-id=b"],
        vec!["repo-shell", "--var"],
        vec!["repo-shell", "--var", "repo"],
        vec!["repo-shell", "extra"],
    ] {
        let err = parse_launch_run_strings(&texts(&args)).unwrap_err();
        assert!(!err.message().is_empty());
    }
}

#[test]
fn reports_missing_launch_name() {
    let err = parse_launch_run_strings(&Vec::new()).unwrap_err();
    assert_eq!(err.message(), "launch requires a launch name");
}

#[test]
fn parsers_know_what_they_wait_for() {
    let mut parser = LaunchRunParser::new();
    assert_eq!(parser.role(), LaunchRunArgRole::Name);
    parser.feed("agent").unwrap();
    assert_eq!(parser.role(), LaunchRunArgRole::Argument);
    parser.feed("--var").unwrap();
    assert_eq!(parser.role(), LaunchRunArgRole::Variable);
    parser.feed("a=1").unwrap();
    parser.feed("--session-id").unwrap();
    assert_eq!(parser.role(), LaunchRunArgRole::SessionId);
    parser.feed("s1").unwrap();
    assert!(parser.feed("--session-id=s2").is_err());
    assert!(parser.feed("--var=b").is_err());
    assert!(parser.feed("extra").is_err());
    assert_eq!(parser.role(), LaunchRunArgRole::Argument);
    let args = parser.finish().unwrap();
    assert_eq!(args.vars, texts(&["a=1"]));
    assert_eq!(args.session_id.as_deref(), Some("s1"));
}

// ---------------------------------------------------------------- probes

#[test]
fn status_matches_http_1_0_and_1_1() {
    let response = HttpHealthResponse {
        response: "HTTP/1.1 204 No Content\r\n\r\n".into(),
    };
    assert!(response.status_matches(204));
    assert!(!response.status_matches(200));

    let response = HttpHealthResponse {
        response: "HTTP/1.0 200 OK\r\n\r\n".into(),
    };
    assert!(response.status_matches(200));
}

#[test]
fn json_field_check_reports_match_missing_and_mismatch() {
    let expected = entries(&[("status", "ready")]);

    assert!(matches!(
        check_json_fields(r#"{"status":"ready"}"#, &expected).unwrap(),
        JsonFieldCheck::Match
    ));
    assert!(matches!(
        check_json_fields(r#"{"state":"ready"}"#, &expected).unwrap(),
        JsonFieldCheck::Missing { key } if key == "status"
    ));
    assert!(matches!(
        check_json_fields(r#"{"status":"starting"}"#, &expected).unwrap(),
        JsonFieldCheck::Mismatch { key, expected, actual }
            if key == "status" && expected == "ready" && actual == "starting"
    ));
}

#[test]
fn json_fields_that_are_no_texts_count_as_missing() {
    let expected = entries(&[("count", "3")]);
    assert!(matches!(
        check_json_fields(r#"{"count": 3}"#, &expected).unwrap(),
        JsonFieldCheck::Missing { key } if key == "count"
    ));
    assert!(check_json_fields("not json", &expected).is_err());
    assert!(matches!(
        compare_field("k", "a", Some("b".into())),
        JsonFieldCheck::Mismatch { .. }
    ));
}

#[test]
fn probes_ask_for_the_path_of_their_url() {
    assert_eq!(
        http_probe("http://127.0.0.1:8080/ready?x=1").unwrap(),
        HttpProbe {
            host: "127.0.0.1".into(),
            port: 8080,
            request: "GET /ready?x=1 HTTP/1.1\r\nHost: 127.0.0.1\r\nConnection: close\r\n\r\n"
                .into(),
        }
    );
    assert_eq!(http_probe("http://localhost").unwrap().port, 80);
    assert!(http_probe("https://localhost/").is_err());
    assert!(http_probe("http://localhost:port/").is_err());
}

#[test]
fn bodies_follow_the_first_empty_line() {
    let response = HttpHealthResponse {
        response: "HTTP/1.1 200 OK\r\nA: b\r\n\r\n{\"x\":\r\n\r\n1}".into(),
    };
    assert_eq!(response.body(), Some("{\"x\":\r\n\r\n1}"));
    assert_eq!(response.status_line().as_deref(), Some("HTTP/1.1 200 OK"));
    let cut = HttpHealthResponse {
        response: "HTTP/1.1 200 OK\r\n".into(),
    };
    assert_eq!(cut.body(), None);
}

// ---------------------------------------------------------------- log files

#[test]
fn rotation_state_rotates_only_after_threshold() {
    let mut state = RotationState::new("/tmp/service.log".into(), 8, 2, 0);
    assert!(!state.should_rotate(8));
    state.record_write(8);
    assert!(state.should_rotate(1));
}

#[test]
fn rotation_state_can_disable_rotation_and_clamps_max_bytes() {
    let mut state = RotationState::new("/tmp/service.log".into(), 0, 0, 0);
    state.record_write(100);
    assert!(!state.should_rotate(100));

    let state = RotationState::new("/tmp/service.log".into(), 0, 1, 1);
    assert!(state.should_rotate(1));
}

#[test]
fn generation_paths_append_generation_to_active_path() {
    let state = RotationState::new("/tmp/service.log".into(), 8, 2, 0);
    assert_eq!(state.path_for_generation(0), "/tmp/service.log");
    assert_eq!(state.path_for_generation(1), "/tmp/service.log.1");
}

#[test]
fn rotation_plan_removes_oldest_then_renames_generations_and_active_file() {
    let state = RotationState::new("/tmp/service.log".into(), 8, 3, 9);
    assert_eq!(
        state.rotation_plan(),
        RotationPlan {
            active_path: "/tmp/service.log".into(),
            steps: vec![
                RotationStep::Remove {
                    path: "/tmp/service.log.3".into()
                },
                RotationStep::Rename {
                    from: "/tmp/service.log.2".into(),
                    to: "/tmp/service.log.3".into()
                },
                RotationStep::Rename {
                    from: "/tmp/service.log.1".into(),
                    to: "/tmp/service.log.2".into()
                },
                RotationStep::Rename {
                    from: "/tmp/service.log".into(),
                    to: "/tmp/service.log.1".into()
                }
            ],
        }
    );
}

#[test]
fn rotated_files_start_again_empty() {
    let mut state = RotationState::new("/tmp/service.log".into(), 8, 1, 0);
    state.record_write(8);
    assert!(state.should_rotate(6));
    state.reset_after_rotation();
    assert!(!state.should_rotate(6));
    assert_eq!(state.rotation_plan().active_path(), "/tmp/service.log");
    assert_eq!(state.rotation_plan().steps().len(), 2);
}

fn logging(directory: Option<&str>) -> LoggingConfig {
    LoggingConfig {
        level: "info".into(),
        console: true,
        directory: directory.map(str::to_string),
        max_bytes: None,
        max_files: None,
    }
}

#[test]
fn directives_come_from_the_flag_then_the_environment_then_the_configuration() {
    assert_eq!(log_directive(Some("debug"), Some("warn"), "info"), "debug");
    assert_eq!(log_directive(None, Some("warn"), "info"), "warn");
    assert_eq!(log_directive(None, None, "info"), "info");
}

#[test]
fn bad_directives_are_refused() {
    let err = init(logging(None), Some("a=b=c"), None, "test", false).unwrap_err();
    assert_eq!(err.message(), "invalid log filter");
    assert!(init(logging(None), Some("debug,tower=warn"), None, "test", false).is_ok());
    assert!(init(logging(None), Some(" debug,\u{e9}=warn"), None, "test", false).is_ok());
    for directive in ["\u{3000}a=info", " \u{e9}=info", "debug, \u{e9}=info"] {
        assert!(!is_readable(directive));
        let err = init(logging(None), Some(directive), None, "test", false).unwrap_err();
        assert_eq!(
            err.full_message(),
            "invalid log filter: a filter directive that begins with white space must be plain ASCII"
        );
    }
    assert!(is_readable("") && is_readable(" debug") && is_readable("\u{e9}=info"));
}

#[test]
fn configured_directories_are_logged_to() {
    let guard = init(logging(Some("/var/log/aw")), None, None, "test", false).unwrap();
    assert_eq!(guard.directive, "info");
    assert_eq!(
        guard.sink,
        LogSink::File {
            directory: "/var/log/aw".into(),
            file_prefix: "test".into(),
            max_bytes: DEFAULT_MAX_BYTES,
            max_files: DEFAULT_MAX_FILES,
        }
    );
    assert_eq!(log_file_path("/var/log/aw", "test"), "/var/log/aw/test.log");
    let err = file_logging_failure("test", Failure::msg("not a directory"));
    assert_eq!(
        err.full_message(),
        "initialize file logging for test: not a directory"
    );
}

#[test]
fn protocols_are_not_disturbed_by_log_lines() {
    let quiet = || LoggingConfig {
        console: false,
        ..logging(None)
    };
    let guard = logging_guard(quiet(), "info".into(), None, "test", true).unwrap();
    assert_eq!(guard.sink, LogSink::StandardError);
    let silent = logging_guard(quiet(), "info".into(), None, "test", false).unwrap();
    assert_ne!(silent.sink, LogSink::StandardError);
}

#[test]
fn gateways_log_by_default_when_their_configuration_cannot_be_read() {
    let guard = init_gateway(None, logging(None), None, None, false).unwrap();
    assert_eq!(guard.directive, "info");
    let unread = GatewayLogging {
        loaded: Err(Failure::msg("no such file")),
        context: Ok(()),
        workspace: Ok(()),
        directory: Ok("/x".into()),
    };
    assert!(init_gateway(Some(unread), logging(None), None, None, false).is_err());
    let loaded = GatewayLogging {
        loaded: Ok(logging(Some("{state_dir}/logs"))),
        context: Ok(()),
        workspace: Ok(()),
        directory: Ok("/state/logs".into()),
    };
    let guard = init_gateway(Some(loaded), logging(None), None, None, false).unwrap();
    assert!(matches!(
        guard.sink,
        LogSink::File { ref directory, .. } if directory == "/state/logs"
    ));
    let agent = init_agent(None, logging(None), Some("warn"), None).unwrap();
    assert_eq!(agent.directive, "warn");
    assert!(fallback_config(logging(Some("/x")), true).console);
}

#[test]
fn logging_directories_can_name_the_user() {
    let user = UserContext {
        uid: 7,
        gid: 8,
        user: "alice".into(),
        home: "/home/alice".into(),
    };
    let vars = gateway_logging_vars(&user, "/work", "/state", &entries(&[("tenant", "acme")]));
    assert_eq!(vars.get("uid").map(String::as_str), Some("7"));
    assert_eq!(vars.get("context.tenant").map(String::as_str), Some("acme"));
    assert!(!agent_logging_vars(Some("/s")).is_empty());
}

// ---------------------------------------------------------------- processes

#[test]
fn hardening_fails_closed_when_core_suppression_fails() {
    let error = suppress_process_dumps_with(Err(libc::EPERM), Ok(())).unwrap_err();
    assert_eq!(error, libc::EPERM);
    // The second suppression does not run after the failure of the first.
    assert_eq!(
        suppress_process_dumps(DumpStep::LimitCore, Err(libc::EPERM)),
        Err(libc::EPERM)
    );
}

#[test]
fn hardening_fails_closed_when_dumpable_suppression_fails() {
    let error = suppress_process_dumps_with(Ok(()), Err(libc::EPERM)).unwrap_err();
    assert_eq!(error, libc::EPERM);
}

#[test]
fn hardening_takes_both_steps() {
    assert_eq!(
        suppress_process_dumps(DumpStep::LimitCore, Ok(())),
        Ok(DumpStep::RefuseDumps)
    );
    assert_eq!(
        suppress_process_dumps(DumpStep::RefuseDumps, Ok(())),
        Ok(DumpStep::Protected)
    );
    assert_eq!(suppress_process_dumps_with(Ok(()), Ok(())), Ok(()));
}

#[test]
fn random_tokens_are_lower_hex_and_differ() {
    let one = random_hex(16).unwrap();
    let two = random_hex(16).unwrap();
    assert_eq!(one.len(), 32);
    assert!(one
        .chars()
        .all(|c| c.is_ascii_digit() || ('a'..='f').contains(&c)));
    assert_ne!(one, two);
    assert_eq!(random_hex(0).unwrap(), "");
    assert_eq!(random_hex_token().unwrap().len(), 64);
}

// ---------------------------------------------------------------- paths

fn surroundings() -> ConfigSurroundings {
    ConfigSurroundings {
        env_path: None,
        named_exists: true,
        user: Ok(UserContext {
            uid: 2450,
            gid: 2450,
            user: "alice".into(),
            home: "/home/alice".into(),
        }),
        config_home: None,
        xdg_config_home: None,
        state_home: None,
        xdg_state_home: None,
        user_exists: false,
        system_exists: false,
    }
}

#[test]
fn configurations_are_looked_for_in_order() {
    let named = resolve_gateway_config(Some("/x.toml".into()), surroundings()).unwrap();
    assert_eq!(named.selected_source, GatewayConfigSource::ExplicitFlag);
    assert_eq!(named.selected_path().unwrap(), "/x.toml");

    let mut around = surroundings();
    around.env_path = Some("/env.toml".into());
    let by_env = resolve_gateway_config(None, around).unwrap();
    assert_eq!(by_env.selected_source, GatewayConfigSource::Environment);

    let mut around = surroundings();
    around.user_exists = true;
    around.system_exists = true;
    let own = resolve_gateway_config(None, around).unwrap();
    assert_eq!(own.selected_source, GatewayConfigSource::User);
    assert_eq!(
        own.selected_path().unwrap(),
        "/home/alice/.config/aw-gateway/gateway.toml"
    );

    let mut around = surroundings();
    around.system_exists = true;
    let system = resolve_gateway_config(None, around).unwrap();
    assert_eq!(system.selected_source, GatewayConfigSource::System);
    assert_eq!(system.selected_path().unwrap(), "/etc/aw-gateway/gateway.toml");

    let nowhere = resolve_gateway_config(None, surroundings()).unwrap();
    assert_eq!(nowhere.selected_source, GatewayConfigSource::Nowhere);
    assert!(nowhere.selected_path().is_err());
    assert_eq!(
        gateway_config_path(Some("/x.toml".into()), surroundings()),
        "/x.toml"
    );
}

#[test]
fn directories_of_a_user_follow_the_environment() {
    let user = surroundings().user.unwrap();
    assert_eq!(user.config_dir(Some("/own"), Some("/xdg")), "/own/aw-gateway");
    assert_eq!(user.config_dir(None, Some("/xdg")), "/xdg/aw-gateway");
    assert_eq!(user.config_dir(None, None), "/home/alice/.config/aw-gateway");
    assert_eq!(
        user.state_dir(None, None),
        "/home/alice/.local/state/aw-gateway"
    );
}

#[test]
fn homes_are_expanded_once() {
    assert_eq!(expand_home("/home/alice", "~"), "/home/alice");
    assert_eq!(expand_home("/home/alice", "~/x"), "/home/alice/x");
    assert_eq!(expand_home("/home/alice", "~bob/x"), "~bob/x");
    let once = expand_home("/home/alice", "~/x");
    assert_eq!(expand_home("/home/alice", &once), once);
    assert_eq!(resolve_workspace("/home/alice", "work"), "/home/alice/work");
    assert_eq!(resolve_workspace("/home/alice", "/work"), "/work");
    assert_eq!(resolve_workspace("/home/alice", "~/work"), "/home/alice/work");
}

#[test]
fn agents_find_their_configuration_by_flag_environment_or_default() {
    assert_eq!(agent_config_path(Some("/a".into()), Some("/b".into())), "/a");
    assert_eq!(agent_config_path(None, Some("/b".into())), "/b");
    assert!(agent_config_path(None, None).ends_with(".toml"));
    assert_eq!(bootstrap_config_path(None, Some("/b".into())), "/b");
}
