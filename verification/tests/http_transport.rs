//! Requests and answers of the HTTP transport.

use aw_gateway::failure::Failure;
use aw_gateway::gateway::failures::{AgentNotReady, ContainerNotFound};
use aw_gateway::failure::FailureKind;
use aw_gateway::gateway::http::auth::{
    authorize, authorize_action, constant_time_eq, same_secret, HttpAuthType, HttpRoute,
};
use aw_gateway::gateway::http::output_projection::{OutputFormat, OutputFormats};
use aw_gateway::gateway::http::request::{
    classify_body_error, context_from_json, execution_request_options, is_pty_mode,
    launch_args_from_json,
    launch_vars_from_json,
    parse_status_query, reject_pty_output, status_all_operation, status_operation,
    status_query_from_pairs, terminal_size, unknown_route_needs_authorization,
    validate_dimension, validate_run_command, ContainerPtySize, ExecutionPlan, JsonVar,
    LaunchRunRequest, RunRequest, TerminalRequest,
};
use aw_gateway::gateway::http::response::{
    execution_response, metadata_result_response, operation_error_response, ErrorCode,
    ExecutionReply, HttpError,
};
use aw_gateway::gateway::ops::request::{GatewayOperation, ResultKind};
use aw_gateway::gateway::ops::types::{
    CanonicalLaunchVarValue, ExecutionOutcome, LaunchPassthroughArgs, NumberReading,
    OperationError, OperationMode, OutputSelection, SuppliedLaunchVars,
};
use aw_gateway::text_map::TextMap;
use serde::de::{Deserialize, Deserializer, IgnoredAny, MapAccess, Visitor};
use serde_json::Value;

fn texts(parts: &[&str]) -> Vec<String> {
    parts.iter().map(|part| part.to_string()).collect()
}

fn entries(pairs: &[(&str, &str)]) -> TextMap<String> {
    let mut map = TextMap::new();
    for (key, value) in pairs {
        map.insert(key.to_string(), value.to_string());
    }
    map
}

// The entries of a JSON object in their order, repeated keys included.
struct Entries(Vec<(String, Value)>);

struct EntriesVisitor;

impl<'de> Visitor<'de> for EntriesVisitor {
    type Value = Entries;

    fn expecting(&self, formatter: &mut std::fmt::Formatter<'_>) -> std::fmt::Result {
        formatter.write_str("an object")
    }

    fn visit_map<A: MapAccess<'de>>(self, mut map: A) -> Result<Entries, A::Error> {
        let mut found = Vec::new();
        while let Some(entry) = map.next_entry::<String, Value>()? {
            found.push(entry);
        }
        Ok(Entries(found))
    }
}

impl<'de> Deserialize<'de> for Entries {
    fn deserialize<D: Deserializer<'de>>(deserializer: D) -> Result<Entries, D::Error> {
        deserializer.deserialize_map(EntriesVisitor)
    }
}

struct LaunchBody {
    vars: Option<Entries>,
    args: Option<Value>,
}

struct LaunchBodyVisitor;

impl<'de> Visitor<'de> for LaunchBodyVisitor {
    type Value = LaunchBody;

    fn expecting(&self, formatter: &mut std::fmt::Formatter<'_>) -> std::fmt::Result {
        formatter.write_str("a launch request")
    }

    fn visit_map<A: MapAccess<'de>>(self, mut map: A) -> Result<LaunchBody, A::Error> {
        let mut body = LaunchBody {
            vars: None,
            args: None,
        };
        while let Some(key) = map.next_key::<String>()? {
            match key.as_str() {
                "vars" => body.vars = Some(map.next_value()?),
                "args" => body.args = Some(map.next_value()?),
                _ => {
                    map.next_value::<IgnoredAny>()?;
                }
            }
        }
        Ok(body)
    }
}

impl<'de> Deserialize<'de> for LaunchBody {
    fn deserialize<D: Deserializer<'de>>(deserializer: D) -> Result<LaunchBody, D::Error> {
        deserializer.deserialize_map(LaunchBodyVisitor)
    }
}

fn json_var(value: &Value) -> JsonVar {
    match value {
        Value::String(text) => JsonVar::Text(text.clone()),
        Value::Bool(flag) => JsonVar::Flag(*flag),
        Value::Number(number) => JsonVar::Number {
            integer: number.as_i64(),
            float: match number.as_f64() {
                Some(value) if value.is_finite() => NumberReading::Finite(format!("{value}")),
                Some(_) => NumberReading::NotFinite,
                None => NumberReading::NotANumber,
            },
        },
        _ => JsonVar::Structured,
    }
}

fn launch_vars(body: &str) -> Result<SuppliedLaunchVars, String> {
    let body: LaunchBody = serde_json::from_str(body).unwrap();
    let entries = body.vars.unwrap().0;
    launch_vars_from_json(&Some(
        entries
            .iter()
            .map(|(key, value)| (key.clone(), json_var(value)))
            .collect(),
    ))
}

fn launch_args(body: &str) -> Result<LaunchPassthroughArgs, String> {
    let body: LaunchBody = serde_json::from_str(body).unwrap();
    let values = body.args.map(|args| {
        serde_json::from_value::<Vec<String>>(args).map_err(|error| error.to_string())
    });
    launch_args_from_json(values)
}

#[test]
fn bearer_auth_allows_matching_token_and_rejects_missing_or_wrong_header() {
    let expected = Some("secret-token");

    authorize(HttpAuthType::Bearer, Some("Bearer secret-token"), expected).unwrap();

    let missing = authorize(HttpAuthType::Bearer, None, expected).unwrap_err();
    assert_eq!(missing.status, 401);
    assert_eq!(missing.code, ErrorCode::Unauthorized);

    assert_eq!(
        authorize(HttpAuthType::Bearer, Some("Basic secret-token"), expected)
            .unwrap_err()
            .code,
        ErrorCode::Unauthorized
    );

    assert_eq!(
        authorize(HttpAuthType::Bearer, Some("Bearer other"), expected)
            .unwrap_err()
            .code,
        ErrorCode::Unauthorized
    );
}

#[test]
fn none_auth_allows_missing_authorization() {
    authorize(HttpAuthType::Open, None, None).unwrap();
}

#[test]
fn bearer_auth_without_a_token_lets_nobody_in() {
    for header in [None, Some("Bearer "), Some("Bearer x")] {
        assert!(authorize(HttpAuthType::Bearer, header, None).is_err());
    }
}

#[test]
fn unknown_clients_are_refused_before_the_action_is_looked_at() {
    let enabled = texts(&["status"]);
    let refused = |header: Option<&str>, action: &str| {
        authorize_action(HttpAuthType::Bearer, header, Some("t"), &enabled, action)
    };
    assert_eq!(
        refused(None, "run").unwrap_err(),
        refused(None, "status").unwrap_err()
    );
    let disabled = refused(Some("Bearer t"), "run").unwrap_err();
    assert_eq!(disabled.code, ErrorCode::DisabledAction);
    assert_eq!(disabled.status, 403);
    assert_eq!(disabled.message, "http action \"run\" is disabled");
    refused(Some("Bearer t"), "status").unwrap();
}

#[test]
fn launch_show_and_run_use_separate_http_actions() {
    let allowed = |enabled: &str, route: HttpRoute| {
        let actions = texts(&[enabled]);
        authorize_action(HttpAuthType::Open, None, None, &actions, route.action())
    };

    allowed("launch-show", HttpRoute::LaunchShow).unwrap();
    let refused = allowed("launch-show", HttpRoute::LaunchRun).unwrap_err();
    assert_eq!(refused.code, ErrorCode::DisabledAction);
    assert_eq!(refused.message, "http action \"launch\" is disabled");

    allowed("launch", HttpRoute::LaunchRun).unwrap();
    let refused = allowed("launch", HttpRoute::LaunchShow).unwrap_err();
    assert_eq!(refused.code, ErrorCode::DisabledAction);
    assert_eq!(refused.message, "http action \"launch-show\" is disabled");
}

#[test]
fn routes_name_the_action_that_must_be_enabled() {
    for (route, action) in [
        (HttpRoute::Status, "status"),
        (HttpRoute::StatusAll, "status"),
        (HttpRoute::Targets, "targets"),
        (HttpRoute::Up, "up"),
        (HttpRoute::Stop, "stop"),
        (HttpRoute::Remove, "remove"),
        (HttpRoute::Launches, "launches"),
        (HttpRoute::Run, "run"),
    ] {
        assert_eq!(route.action(), action);
    }
}

#[test]
fn secrets_are_the_same_only_when_every_byte_is() {
    assert!(constant_time_eq(b"abc", b"abc"));
    assert!(!constant_time_eq(b"abc", b"abd"));
    assert!(!constant_time_eq(b"abc", b"abcd"));
    assert!(constant_time_eq(b"", b""));
    assert!(same_secret("\u{e9}", "\u{e9}"));
    assert!(!same_secret("\u{e9}", "e"));
}

#[test]
fn mode_and_output_parsing_accepts_wait_detach_and_rejects_bad_values() {
    let wait = execution_request_options(None, None, None).unwrap();
    assert_eq!(wait.options.mode, OperationMode::Wait);
    assert_eq!(wait.options.output, OutputSelection::both());
    assert_eq!(wait.output_formats, OutputFormats::text());

    let output = vec!["stdout".to_string()];
    let wait_stdout = execution_request_options(Some("wait"), Some(&output), None).unwrap();
    assert_eq!(
        wait_stdout.options.output,
        OutputSelection {
            stdout: true,
            stderr: false,
        }
    );

    let detach = execution_request_options(Some("detach"), None, None).unwrap();
    assert_eq!(detach.options.mode, OperationMode::Detach);

    assert_eq!(
        execution_request_options(Some("stream"), None, None)
            .unwrap_err()
            .code,
        ErrorCode::InvalidMode
    );
    let duplicate = vec!["stdout".to_string(), "stdout".to_string()];
    assert_eq!(
        execution_request_options(Some("wait"), Some(&duplicate), None)
            .unwrap_err()
            .code,
        ErrorCode::InvalidOutput
    );
    let unknown = vec!["log".to_string()];
    assert_eq!(
        execution_request_options(Some("wait"), Some(&unknown), None)
            .unwrap_err()
            .code,
        ErrorCode::InvalidOutput
    );
    let empty: Vec<String> = Vec::new();
    assert_eq!(
        execution_request_options(Some("wait"), Some(&empty), None)
            .unwrap_err()
            .code,
        ErrorCode::InvalidOutput
    );
    assert_eq!(
        execution_request_options(Some("detach"), Some(&output), None)
            .unwrap_err()
            .code,
        ErrorCode::InvalidOutput
    );
}

#[test]
fn output_format_validation_uses_effective_output_selection() {
    let format = entries(&[("stdout", "json")]);
    let default_output = execution_request_options(Some("wait"), None, Some(&format)).unwrap();
    assert_eq!(default_output.output_formats.stdout, OutputFormat::Json);

    let output = vec!["stderr".to_string()];
    assert_eq!(
        execution_request_options(Some("wait"), Some(&output), Some(&format))
            .unwrap_err()
            .code,
        ErrorCode::InvalidOutput
    );

    let format = entries(&[("log", "json")]);
    assert_eq!(
        execution_request_options(Some("wait"), None, Some(&format))
            .unwrap_err()
            .code,
        ErrorCode::InvalidOutput
    );

    let format = entries(&[("stdout", "yaml")]);
    assert_eq!(
        execution_request_options(Some("wait"), None, Some(&format))
            .unwrap_err()
            .code,
        ErrorCode::InvalidOutput
    );

    assert_eq!(
        execution_request_options(Some("detach"), None, Some(&format))
            .unwrap_err()
            .code,
        ErrorCode::InvalidOutput
    );
}

#[test]
fn status_query_accepts_flattened_context_parameters() {
    let query = parse_status_query(Some(
        "target=default&session_id=s1&context.tenant=acme&context.workspace=web",
    ))
    .unwrap();

    assert_eq!(query.target.as_deref(), Some("default"));
    assert_eq!(query.session_id.as_deref(), Some("s1"));
    assert_eq!(
        query.context,
        entries(&[("tenant", "acme"), ("workspace", "web")])
    );
}

#[test]
fn status_query_rejects_nested_context_encoding() {
    let err = parse_status_query(Some("context%5Btenant%5D=acme")).unwrap_err();

    assert_eq!(err.code, ErrorCode::InvalidRequest);
    assert!(err.message.contains("unknown status query parameter"));
}

#[test]
fn status_query_rejects_duplicate_context_parameters() {
    let err = parse_status_query(Some("context.tenant=acme&context.tenant=other")).unwrap_err();

    assert_eq!(err.code, ErrorCode::InvalidRequest);
    assert!(err.message.contains("duplicate context key"));
}

#[test]
fn status_queries_are_decoded_before_they_are_read() {
    let query = parse_status_query(Some("target=a+b%26c&context.k=%C3%A9")).unwrap();
    assert_eq!(query.target.as_deref(), Some("a b&c"));
    assert_eq!(query.context.get("k").map(String::as_str), Some("\u{e9}"));
    let nothing = parse_status_query(None).unwrap();
    assert_eq!(nothing.target, None);
    assert!(nothing.context.is_empty());
}

#[test]
fn repeated_and_nameless_parameters_are_refused() {
    let pairs = |list: &[(&str, &str)]| {
        list.iter()
            .map(|(key, value)| (key.to_string(), value.to_string()))
            .collect::<Vec<_>>()
    };
    for (list, message) in [
        (
            vec![("target", "a"), ("target", "b")],
            "duplicate status query parameter \"target\"",
        ),
        (
            vec![("session_id", "a"), ("session_id", "b")],
            "duplicate status query parameter \"session_id\"",
        ),
        (
            vec![("context.", "a")],
            "context query parameters must use context.<key>=value",
        ),
        (vec![("x", "a")], "unknown status query parameter \"x\""),
    ] {
        let err = status_query_from_pairs(pairs(&list)).unwrap_err();
        assert_eq!(err.message, message);
        assert_eq!(err.status, 400);
    }
}

#[test]
fn status_requests_name_their_operation() {
    let query = parse_status_query(Some("target=dev&context.tenant=acme")).unwrap();
    let (operation, context) = status_operation(query.clone());
    assert_eq!(
        operation,
        GatewayOperation::Status {
            target: Some("dev".into()),
            session_id: None,
        }
    );
    assert_eq!(context, entries(&[("tenant", "acme")]));
    assert!(status_all_operation(query).is_err());
    let (operation, context) =
        status_all_operation(parse_status_query(Some("context.tenant=acme")).unwrap()).unwrap();
    assert_eq!(operation, GatewayOperation::StatusAll);
    assert_eq!(context, entries(&[("tenant", "acme")]));
}

#[test]
fn launch_vars_parse_typed_values_and_reject_duplicates_and_structured_values() {
    let vars = launch_vars(
        r#"{"vars":{"repo":"https://example.test/repo.git","debug":true,"count":3,"ratio":1.5}}"#,
    )
    .unwrap();
    assert!(matches!(
        vars.get("repo"),
        Some(CanonicalLaunchVarValue::String(value))
            if value == "https://example.test/repo.git"
    ));
    assert!(matches!(
        vars.get("debug"),
        Some(CanonicalLaunchVarValue::Boolean(true))
    ));
    assert!(matches!(
        vars.get("count"),
        Some(CanonicalLaunchVarValue::Number(value)) if value == "3"
    ));
    assert!(matches!(
        vars.get("ratio"),
        Some(CanonicalLaunchVarValue::Number(value)) if value == "1.5"
    ));

    let duplicate = launch_vars(r#"{"vars":{"repo":"a","repo":"b"}}"#).unwrap_err();
    assert!(
        duplicate.contains("duplicate launch variable"),
        "{duplicate}"
    );

    let object = launch_vars(r#"{"vars":{"repo":{"url":"x"}}}"#).unwrap_err();
    assert!(object.contains("invalid launch variable"), "{object}");
}

#[test]
fn launch_args_parse_string_arrays_and_reject_invalid_values() {
    let args = launch_args(r#"{"args":["--skill","fresh-eyes","review this"]}"#).unwrap();
    assert_eq!(args.as_slice(), ["--skill", "fresh-eyes", "review this"]);

    let number = launch_args(r#"{"args":[1]}"#).unwrap_err();
    assert!(number.contains("invalid launch args"), "{number}");

    let empty = launch_args(r#"{"args":[""]}"#).unwrap_err();
    assert!(
        empty.contains("launch args must not contain empty strings"),
        "{empty}"
    );
}

#[test]
fn null_is_neither_variables_nor_arguments() {
    assert_eq!(
        launch_vars_from_json(&None).unwrap_err(),
        "launch variables must be an object"
    );
    assert_eq!(
        launch_args_from_json(None).unwrap_err(),
        "invalid launch args: args must be an array"
    );
}

#[test]
fn execution_response_projects_wait_detach_and_invalid_utf8() {
    let response = execution_response(
        ExecutionOutcome::captured(7, Some(b"out".to_vec()), None),
        OutputFormats::text(),
    );
    assert!(matches!(
        response,
        ExecutionReply::Captured(ref payload)
            if payload.exit_code == 7
                && payload.stdout.as_ref().unwrap().text.as_deref() == Some("out")
                && payload.stderr.is_none()
    ));

    let response = execution_response(
        ExecutionOutcome::detached("abc123".into()),
        OutputFormats::text(),
    );
    assert!(matches!(
        response,
        ExecutionReply::Accepted { ref operation_id } if operation_id == "abc123"
    ));

    let response = execution_response(
        ExecutionOutcome::captured(0, Some(vec![0xff]), None),
        OutputFormats::text(),
    );
    let ExecutionReply::Captured(payload) = response else {
        panic!("captured output is answered with it");
    };
    assert_eq!(payload.exit_code, 0);
    let stdout = payload.stdout.unwrap();
    assert!(stdout.text.is_none());
    let error = stdout.error.unwrap();
    assert_eq!(error.format, "text");
    assert_eq!(error.code, "invalid_utf8");
    assert_eq!(error.message, "captured stdout is not valid UTF-8");
}

#[test]
fn operation_errors_map_launch_validation_to_invalid_launch_var() {
    for message in [
        "missing required launch variable \"repo\"",
        "unknown launch variable \"repo\"",
    ] {
        let answer = operation_error_response(OperationError::invalid_launch_variable(message));
        assert_eq!(answer.status, 400);
        assert_eq!(answer.code.as_str(), "invalid_launch_var");
    }
}

#[test]
fn operation_errors_map_all_typed_variants_to_http_codes() {
    let cases = vec![
        (
            OperationError::invalid_request("bad request"),
            400,
            "invalid_request",
            "bad request",
        ),
        (
            OperationError::disabled_action("http action \"run\" is disabled"),
            403,
            "disabled_action",
            "http action \"run\" is disabled",
        ),
        (
            OperationError::unknown_launch("unknown launch \"repo\""),
            404,
            "not_found",
            "unknown launch \"repo\"",
        ),
        (
            OperationError::invalid_launch_variable("invalid enum launch variable \"mode\""),
            400,
            "invalid_launch_var",
            "invalid enum launch variable \"mode\"",
        ),
        (
            OperationError::invalid_session("invalid session id \"../bad\""),
            400,
            "invalid_request",
            "invalid session id \"../bad\"",
        ),
        (
            OperationError::operation_failed(Failure::msg("runtime failed")),
            500,
            "operation_failed",
            "internal operation failed",
        ),
        (
            OperationError::operation_failed(AgentNotReady::failure()),
            500,
            "operation_failed",
            "internal operation failed",
        ),
        (
            OperationError::operation_failed(ContainerNotFound::after_start()),
            500,
            "operation_failed",
            "internal operation failed",
        ),
        (
            OperationError::operation_failed(Failure::typed(
                FailureKind::GatewayLabel,
                "container missing required label \"io.aw-gateway.target\"",
            )),
            500,
            "operation_failed",
            "internal operation failed",
        ),
    ];

    for (err, expected_status, expected_code, expected_message) in cases {
        let answer = operation_error_response(err);
        assert_eq!(answer.status, expected_status);
        assert_eq!(answer.code.as_str(), expected_code);
        assert_eq!(answer.message, expected_message);
    }
}

#[test]
fn operation_error_mapping_distinguishes_launch_var_from_unknown_launch() {
    let answer = operation_error_response(OperationError::invalid_launch_variable(
        "unknown launch variable \"repo\"",
    ));
    assert_eq!(answer.status, 400);
    assert_eq!(answer.code.as_str(), "invalid_launch_var");

    let answer =
        operation_error_response(OperationError::unknown_launch("unknown launch \"repo\""));
    assert_eq!(answer.status, 404);
    assert_eq!(answer.code.as_str(), "not_found");
}

#[test]
fn every_error_code_has_its_name() {
    for (code, name) in [
        (ErrorCode::Unauthorized, "unauthorized"),
        (ErrorCode::DisabledAction, "disabled_action"),
        (ErrorCode::NotFound, "not_found"),
        (ErrorCode::InvalidRequest, "invalid_request"),
        (ErrorCode::InvalidMode, "invalid_mode"),
        (ErrorCode::InvalidOutput, "invalid_output"),
        (ErrorCode::InvalidLaunchVar, "invalid_launch_var"),
        (ErrorCode::InvalidLaunchArgs, "invalid_launch_args"),
        (ErrorCode::OperationFailed, "operation_failed"),
    ] {
        assert_eq!(code.as_str(), name);
    }
    assert_eq!(HttpError::not_found("x").status, 404);
    assert_eq!(HttpError::invalid_mode("x").status, 400);
    assert_eq!(HttpError::operation_failed("x").status, 500);
}

#[test]
fn executions_are_not_answered_as_data() {
    assert!(metadata_result_response(ResultKind::Targets).is_ok());
    assert!(metadata_result_response(ResultKind::Status).is_ok());
    let err = metadata_result_response(ResultKind::Run).unwrap_err();
    assert_eq!(err.code, ErrorCode::OperationFailed);
}

fn run_request(mode: Option<&str>) -> RunRequest {
    RunRequest {
        target: Some("dev".into()),
        session_id: None,
        cwd: None,
        command: texts(&["sh"]),
        mode: mode.map(str::to_string),
        terminal: None,
        output: None,
        output_format: None,
    }
}

#[test]
fn interactive_runs_need_a_terminal_and_no_output_options() {
    assert!(is_pty_mode(Some("pty")));
    assert!(!is_pty_mode(Some("wait")));

    let err = run_request(Some("pty")).accept().unwrap_err();
    assert_eq!(err.code, ErrorCode::InvalidRequest);

    let mut request = run_request(Some("pty"));
    request.terminal = Some(TerminalRequest {
        cols: 80,
        rows: 24,
        cell_width_px: Some(8),
        cell_height_px: Some(16),
    });
    let ExecutionPlan::Interactive { operation, terminal } = request.accept().unwrap() else {
        panic!("a terminal is asked for");
    };
    assert!(matches!(operation, GatewayOperation::Run { .. }));
    assert_eq!(
        terminal,
        ContainerPtySize {
            cols: 80,
            rows: 24,
            pixel_width: 8,
            pixel_height: 16,
        }
    );

    let mut request = run_request(Some("pty"));
    request.output = Some(texts(&["stdout"]));
    assert_eq!(request.accept().unwrap_err().code, ErrorCode::InvalidOutput);
    assert!(reject_pty_output(None, None).is_ok());
}

#[test]
fn plain_runs_are_executed_as_asked() {
    let ExecutionPlan::Execute { operation, output_formats } =
        run_request(None).accept().unwrap()
    else {
        panic!("nothing interactive is asked for");
    };
    assert_eq!(output_formats, OutputFormats::text());
    let GatewayOperation::Run { target, command, options, .. } = operation else {
        panic!("a run is asked for");
    };
    assert_eq!(target.as_deref(), Some("dev"));
    assert_eq!(command, texts(&["sh"]));
    assert_eq!(options.mode, OperationMode::Wait);
}

#[test]
fn launches_are_executed_under_their_name() {
    let request = LaunchRunRequest {
        session_id: Some("abc".into()),
        vars: None,
        args: None,
        mode: Some("detach".into()),
        terminal: None,
        output: None,
        output_format: None,
    };
    let ExecutionPlan::Execute { operation, .. } = request.accept("agent".into()).unwrap() else {
        panic!("nothing interactive is asked for");
    };
    let GatewayOperation::Launch { name, session_id, vars, args, options } = operation else {
        panic!("a launch is asked for");
    };
    assert_eq!(name, "agent");
    assert_eq!(session_id.as_deref(), Some("abc"));
    assert!(vars.keys().is_empty());
    assert!(args.as_slice().is_empty());
    assert_eq!(options.mode, OperationMode::Detach);
}

#[test]
fn commands_and_terminals_have_limits() {
    assert!(validate_run_command(&texts(&["sh"])).is_ok());
    assert_eq!(
        validate_run_command(&Vec::new()).unwrap_err().code,
        ErrorCode::InvalidRequest
    );
    assert_eq!(validate_dimension("cols", 10, 10, 500).unwrap(), 10);
    assert!(validate_dimension("cols", 9, 10, 500).is_err());
    assert!(validate_dimension("cols", 501, 10, 500).is_err());
    assert!(terminal_size(None).is_err());
    let large = TerminalRequest {
        cols: 500,
        rows: 300,
        cell_width_px: None,
        cell_height_px: None,
    };
    assert_eq!(
        terminal_size(Some(large)).unwrap(),
        ContainerPtySize {
            cols: 500,
            rows: 300,
            pixel_width: 0,
            pixel_height: 0,
        }
    );
    let tall = TerminalRequest { rows: 301, ..large };
    assert_eq!(
        terminal_size(Some(tall)).unwrap_err().code,
        ErrorCode::InvalidRequest
    );
}

#[test]
fn body_complaints_are_classified_by_what_they_are_about() {
    let launch = classify_body_error(
        ErrorCode::InvalidLaunchVar,
        "duplicate launch variable \"repo\" at line 1",
    );
    assert_eq!(launch.code, ErrorCode::InvalidLaunchVar);
    let plain = classify_body_error(ErrorCode::InvalidRequest, "expected value at line 1");
    assert_eq!(plain.code, ErrorCode::InvalidRequest);
    assert_eq!(plain.status, 400);
    assert_eq!(plain.message, "expected value at line 1");
}

#[test]
fn only_routes_of_the_interface_ask_who_is_there() {
    assert!(unknown_route_needs_authorization("/api/v1/other"));
    assert!(!unknown_route_needs_authorization("/elsewhere"));
}

#[test]
fn http_body_context_rejects_duplicate_keys() {
    let complaint = context_from_json(&vec![
        ("tenant".to_string(), "acme".to_string()),
        ("tenant".to_string(), "other".to_string()),
    ])
    .unwrap_err();
    let err = classify_body_error(ErrorCode::InvalidRequest, &complaint);

    assert_eq!(err.code, ErrorCode::InvalidRequest);
    assert!(err.message.contains("duplicate context key"));
    assert_eq!(err.message, "duplicate context key \"tenant\"");
}

#[test]
fn accepted_body_contexts_keep_their_entries() {
    let context = context_from_json(&vec![
        ("tenant".to_string(), "acme".to_string()),
        ("region".to_string(), "".to_string()),
    ])
    .unwrap();

    assert_eq!(context.len(), 2);
    assert_eq!(context.get("tenant").map(String::as_str), Some("acme"));
    assert_eq!(context.get("region").map(String::as_str), Some(""));
    assert!(context_from_json(&Vec::new()).unwrap().is_empty());
}
