//! How captured output is answered, and what other answers look like.

use aw_gateway::gateway::http::body::{
    complaint_message, execution_body, farewell_message, ready_message, refusal_body, BodyValue,
};
use aw_gateway::gateway::http::output_projection::{
    project_stream, project_text, project_wait_payload, OutputFormat, OutputFormats,
    OutputProjectionErrorCode, WaitPayload,
};
use aw_gateway::gateway::http::pty::PtyFarewell;
use aw_gateway::gateway::http::response::{ExecutionReply, HttpError};
use aw_gateway::gateway::model::ReadyStatus;
use aw_gateway::text_map::TextMap;
use serde_json::Value;

fn texts(pairs: &[(&str, &str)]) -> Value {
    let mut object = serde_json::Map::new();
    for (key, value) in pairs {
        object.insert(key.to_string(), Value::from(*value));
    }
    Value::Object(object)
}

fn field(value: &BodyValue) -> Value {
    match value {
        BodyValue::Null => Value::Null,
        BodyValue::Flag(flag) => Value::from(*flag),
        BodyValue::Number(number) => Value::from(*number),
        BodyValue::Text(text) => Value::from(text.as_str()),
        BodyValue::Json(json) => serde_json::from_str(json).unwrap(),
        BodyValue::Fault { code, message } => texts(&[("code", code), ("message", message)]),
        BodyValue::OutputErrors(errors) => {
            let mut object = serde_json::Map::new();
            let mut i = 0;
            while i < errors.len() {
                let (stream, error) = errors.entry(i);
                let entry = texts(&[
                    ("format", &error.format),
                    ("code", &error.code),
                    ("message", &error.message),
                ]);
                object.insert(stream.clone(), entry);
                i += 1;
            }
            Value::Object(object)
        }
    }
}

/// The fields of an answer as the JSON object that a client is sent.
fn object(body: TextMap<BodyValue>) -> Value {
    let mut object = serde_json::Map::new();
    let mut i = 0;
    while i < body.len() {
        let (key, value) = body.entry(i);
        object.insert(key.clone(), field(value));
        i += 1;
    }
    Value::Object(object)
}

fn sent(payload: WaitPayload) -> Value {
    let (status, body) = execution_body(ExecutionReply::Captured(payload));
    assert_eq!(status, 200);
    object(body)
}

#[test]
fn projects_text_output_without_changing_fields() {
    let payload = sent(project_wait_payload(
        7,
        Some(b"out\n".to_vec()),
        Some(b"err\n".to_vec()),
        OutputFormats::text(),
    ));

    assert_eq!(payload["ok"], true);
    assert_eq!(payload["mode"], "wait");
    assert_eq!(payload["exit_code"], 7);
    assert_eq!(payload["stdout"], "out\n");
    assert_eq!(payload["stderr"], "err\n");
    assert!(payload.get("stdout_json").is_none());
    assert!(payload.get("output_errors").is_none());
}

#[test]
fn projects_json_output_to_json_fields() {
    let payload = sent(project_wait_payload(
        0,
        Some(br#"{"nested":{"value":42}}"#.to_vec()),
        None,
        OutputFormats {
            stdout: OutputFormat::Json,
            stderr: OutputFormat::Text,
        },
    ));

    assert_eq!(payload["stdout_json"]["nested"]["value"], 42);
    assert!(payload.get("stdout").is_none());
    assert!(payload.get("output_errors").is_none());
}

#[test]
fn projects_stderr_json_output_to_json_field() {
    let payload = sent(project_wait_payload(
        0,
        None,
        Some(br#"{"diagnostic":{"value":42}}"#.to_vec()),
        OutputFormats {
            stdout: OutputFormat::Text,
            stderr: OutputFormat::Json,
        },
    ));

    assert_eq!(payload["stderr_json"]["diagnostic"]["value"], 42);
    assert!(payload.get("stderr").is_none());
    assert!(payload.get("output_errors").is_none());
}

#[test]
fn invalid_json_falls_back_to_text_with_output_error() {
    let payload = sent(project_wait_payload(
        1,
        Some(b"not-json".to_vec()),
        Some(b"diagnostic".to_vec()),
        OutputFormats {
            stdout: OutputFormat::Json,
            stderr: OutputFormat::Text,
        },
    ));

    assert_eq!(payload["ok"], true);
    assert_eq!(payload["exit_code"], 1);
    assert_eq!(payload["stdout"], "not-json");
    assert_eq!(payload["stderr"], "diagnostic");
    assert!(payload.get("stdout_json").is_none());
    assert_eq!(payload["output_errors"]["stdout"]["format"], "json");
    assert_eq!(payload["output_errors"]["stdout"]["code"], "invalid_json");
}

#[test]
fn invalid_utf8_omits_stream_with_output_error() {
    let payload = sent(project_wait_payload(
        2,
        Some(vec![0xff]),
        Some(b"diagnostic".to_vec()),
        OutputFormats::text(),
    ));

    assert_eq!(payload["ok"], true);
    assert_eq!(payload["exit_code"], 2);
    assert!(payload.get("stdout").is_none());
    assert_eq!(payload["stderr"], "diagnostic");
    assert_eq!(payload["output_errors"]["stdout"]["format"], "text");
    assert_eq!(payload["output_errors"]["stdout"]["code"], "invalid_utf8");
}

#[test]
fn invalid_utf8_under_json_format_omits_stream_with_requested_format_error() {
    let payload = sent(project_wait_payload(
        2,
        None,
        Some(vec![0xff]),
        OutputFormats {
            stdout: OutputFormat::Text,
            stderr: OutputFormat::Json,
        },
    ));

    assert_eq!(payload["ok"], true);
    assert_eq!(payload["exit_code"], 2);
    assert!(payload.get("stderr").is_none());
    assert!(payload.get("stderr_json").is_none());
    assert_eq!(payload["output_errors"]["stderr"]["format"], "json");
    assert_eq!(payload["output_errors"]["stderr"]["code"], "invalid_utf8");
}

#[test]
fn json_streams_are_answered_in_compact_form() {
    let stream = project_stream("stdout", b"{ \"a\" : [1, 2] }\n".to_vec(), OutputFormat::Json);
    assert_eq!(stream.json.as_deref(), Some("{\"a\":[1,2]}"));
    assert_eq!(stream.text, None);
}

#[test]
fn texts_without_a_json_value_stay_texts() {
    let stream = project_text("stderr", "x".to_string(), OutputFormat::Json, None);
    assert_eq!(stream.text.as_deref(), Some("x"));
    assert_eq!(stream.json, None);
    assert_eq!(
        stream.error.unwrap().message,
        OutputProjectionErrorCode::InvalidJson.message("stderr")
    );
}

#[test]
fn detached_executions_are_answered_with_their_id() {
    let (status, body) = execution_body(ExecutionReply::Accepted {
        operation_id: "0123456789ab".to_string(),
    });
    assert_eq!(status, 202);
    let sent = object(body);
    assert_eq!(sent["ok"], true);
    assert_eq!(sent["mode"], "detach");
    assert_eq!(sent["status"], "accepted");
    assert_eq!(sent["operation_id"], "0123456789ab");
    assert_eq!(sent.as_object().unwrap().len(), 4);
}

#[test]
fn refused_requests_are_answered_with_code_and_message() {
    let error = HttpError::not_found("route not found");
    let sent = object(refusal_body(&error));
    assert_eq!(sent["ok"], false);
    assert_eq!(sent["error"]["code"], "not_found");
    assert_eq!(sent["error"]["message"], "route not found");

    let (status, body) = execution_body(ExecutionReply::Refused(error));
    assert_eq!(status, 404);
    assert_eq!(object(body), sent);
}

#[test]
fn terminal_clients_are_told_how_their_session_stands() {
    let ready = ReadyStatus {
        target: "dev".to_string(),
        session_id: None,
        mode: "fixed".to_string(),
        user: "u".to_string(),
        image: "i".to_string(),
        container: "c".to_string(),
        access: "ssh".to_string(),
        context: TextMap::new(),
        container_pid: None,
        ssh_socket: None,
        ssh_tcp: None,
        status: "ready".to_string(),
        local_ssh: None,
        client_config: None,
    };
    let sent = object(ready_message(&ready, Some("build")));
    assert_eq!(sent["type"], "ready");
    assert_eq!(sent["session_id"], Value::Null);
    assert_eq!(sent["target"], "dev");
    assert_eq!(sent["target_mode"], "fixed");
    assert_eq!(sent["launch"], "build");

    let exit = PtyFarewell::Exit {
        exit_code: 3,
        outcome: "failure".to_string(),
    };
    let sent = object(farewell_message(&exit).unwrap());
    assert_eq!(sent["type"], "exit");
    assert_eq!(sent["exit_code"], 3);
    assert_eq!(sent["outcome"], "failure");
    assert!(farewell_message(&PtyFarewell::Silent).is_none());

    let error = HttpError::invalid_request("pty input message is too large");
    let sent = object(complaint_message(&error));
    assert_eq!(sent["type"], "error");
    assert_eq!(sent["code"], "invalid_request");
    assert_eq!(sent["message"], "pty input message is too large");
    assert_eq!(object(farewell_message(&PtyFarewell::Error(error)).unwrap()), sent);
}
