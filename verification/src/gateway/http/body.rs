//! The objects that clients are answered with, field by field.

use crate::gateway::http::output_projection::{
    OutputError, OutputFormats, ProjectedStream, WaitPayload,
};
use crate::gateway::http::pty::PtyFarewell;
use crate::gateway::http::response::{reply_is, ExecutionReply, HttpError};
use crate::gateway::model::ReadyStatus;
use crate::gateway::ops::types::ExecutionOutcome;
use crate::text::{cat2, opt_str, opt_text};
use crate::text_map::TextMap;
use vstd::prelude::*;

verus! {

/// A field of an answer.
#[derive(Debug, PartialEq, Eq)]
pub enum BodyValue {
    Null,
    Flag(bool),
    Number(i32),
    Text(String),
    /// A JSON value, in compact form.
    Json(String),
    /// Why a request is refused.
    Fault { code: String, message: String },
    /// Why streams are not answered as was asked for.
    OutputErrors(TextMap<OutputError>),
}

pub enum FieldModel {
    Null,
    Flag(bool),
    Number(i32),
    Text(Seq<char>),
    Json(Seq<char>),
    Fault { code: Seq<char>, message: Seq<char> },
    OutputErrors(Map<Seq<char>, (Seq<char>, Seq<char>, Seq<char>)>),
}

pub type Fields = Map<Seq<char>, FieldModel>;

impl View for OutputError {
    type V = (Seq<char>, Seq<char>, Seq<char>);

    open spec fn view(&self) -> (Seq<char>, Seq<char>, Seq<char>) {
        (self.format@, self.code@, self.message@)
    }
}

impl View for BodyValue {
    type V = FieldModel;

    open spec fn view(&self) -> FieldModel {
        match self {
            BodyValue::Null => FieldModel::Null,
            BodyValue::Flag(b) => FieldModel::Flag(*b),
            BodyValue::Number(n) => FieldModel::Number(*n),
            BodyValue::Text(s) => FieldModel::Text(s@),
            BodyValue::Json(s) => FieldModel::Json(s@),
            BodyValue::Fault { code, message } => FieldModel::Fault {
                code: code@,
                message: message@,
            },
            BodyValue::OutputErrors(errors) => FieldModel::OutputErrors(errors@),
        }
    }
}

fn text(value: &str) -> (r: BodyValue)
    ensures
        r@ == FieldModel::Text(value@),
{
    BodyValue::Text(value.to_owned())
}

/// A text, or null.
pub open spec fn text_or_null(value: Option<Seq<char>>) -> FieldModel {
    match value {
        Some(text) => FieldModel::Text(text),
        None => FieldModel::Null,
    }
}

fn optional_text(value: Option<&str>) -> (r: BodyValue)
    ensures
        r@ == text_or_null(opt_str(value)),
{
    match value {
        Some(value) => text(value),
        None => BodyValue::Null,
    }
}

fn optional_string(value: &Option<String>) -> (r: BodyValue)
    ensures
        r@ == text_or_null(opt_text(*value)),
{
    match value {
        Some(value) => text(value.as_str()),
        None => BodyValue::Null,
    }
}

// ---------------------------------------------------------------- refusals

/// The answer to a request that is refused.
pub open spec fn refusal_fields(code: Seq<char>, message: Seq<char>) -> Fields {
    Map::empty().insert("ok"@, FieldModel::Flag(false)).insert(
        "error"@,
        FieldModel::Fault { code, message },
    )
}

pub fn refusal_body(error: &HttpError) -> (r: TextMap<BodyValue>)
    ensures
        r@ == refusal_fields(error.code.name(), error.message@),
{
    let mut body: TextMap<BodyValue> = TextMap::new();
    body.insert("ok".to_owned(), BodyValue::Flag(false));
    body.insert(
        "error".to_owned(),
        BodyValue::Fault { code: error.code.as_str().to_owned(), message: error.message.clone() },
    );
    body
}

// ---------------------------------------------------------------- executions

/// The answer to an execution that goes on in the background.
pub open spec fn accepted_fields(operation_id: Seq<char>) -> Fields {
    Map::empty().insert("ok"@, FieldModel::Flag(true)).insert(
        "mode"@,
        FieldModel::Text("detach"@),
    ).insert("status"@, FieldModel::Text("accepted"@)).insert(
        "operation_id"@,
        FieldModel::Text(operation_id),
    )
}

fn accepted_body(operation_id: &str) -> (r: TextMap<BodyValue>)
    ensures
        r@ == accepted_fields(operation_id@),
{
    let mut body: TextMap<BodyValue> = TextMap::new();
    body.insert("ok".to_owned(), BodyValue::Flag(true));
    body.insert("mode".to_owned(), text("detach"));
    body.insert("status".to_owned(), text("accepted"));
    body.insert("operation_id".to_owned(), text(operation_id));
    body
}

/// The fields with what one stream gives: its text under its name, or its JSON
/// value under its name followed by `_json`.
pub open spec fn with_stream(fields: Fields, name: Seq<char>, stream: Option<ProjectedStream>) -> Fields {
    match stream {
        None => fields,
        Some(s) => {
            let shown = match s.text {
                Some(text) => fields.insert(name, FieldModel::Text(text@)),
                None => fields,
            };
            match s.json {
                Some(json) => shown.insert(name + "_json"@, FieldModel::Json(json@)),
                None => shown,
            }
        },
    }
}

/// The errors with that of one stream.
pub open spec fn with_error(
    errors: Map<Seq<char>, (Seq<char>, Seq<char>, Seq<char>)>,
    name: Seq<char>,
    stream: Option<ProjectedStream>,
) -> Map<Seq<char>, (Seq<char>, Seq<char>, Seq<char>)> {
    match stream {
        Some(ProjectedStream { error: Some(error), .. }) => errors.insert(name, error@),
        _ => errors,
    }
}

pub open spec fn stream_errors(payload: WaitPayload) -> Map<
    Seq<char>,
    (Seq<char>, Seq<char>, Seq<char>),
> {
    with_error(with_error(Map::empty(), "stdout"@, payload.stdout), "stderr"@, payload.stderr)
}

/// Whether a stream has an error to explain.
pub open spec fn has_error(stream: Option<ProjectedStream>) -> bool {
    stream matches Some(s) && s.error is Some
}

/// The answer to an execution that was waited for.
pub open spec fn wait_fields(payload: WaitPayload) -> Fields {
    let head = Map::empty().insert("ok"@, FieldModel::Flag(true)).insert(
        "mode"@,
        FieldModel::Text("wait"@),
    ).insert("exit_code"@, FieldModel::Number(payload.exit_code));
    let fields = with_stream(
        with_stream(head, "stdout"@, payload.stdout),
        "stderr"@,
        payload.stderr,
    );
    if has_error(payload.stdout) || has_error(payload.stderr) {
        fields.insert("output_errors"@, FieldModel::OutputErrors(stream_errors(payload)))
    } else {
        fields
    }
}

fn put_stream(
    body: &mut TextMap<BodyValue>,
    errors: &mut TextMap<OutputError>,
    name: &str,
    stream: Option<ProjectedStream>,
) -> (explained: bool)
    ensures
        final(body)@ == with_stream(old(body)@, name@, stream),
        final(errors)@ == with_error(old(errors)@, name@, stream),
        explained == has_error(stream),
{
    match stream {
        None => false,
        Some(stream) => {
            if let Some(shown) = stream.text {
                body.insert(name.to_owned(), BodyValue::Text(shown));
            }
            if let Some(json) = stream.json {
                body.insert(cat2(name, "_json"), BodyValue::Json(json));
            }
            match stream.error {
                Some(error) => {
                    errors.insert(name.to_owned(), error);
                    true
                },
                None => false,
            }
        },
    }
}

fn wait_body(payload: WaitPayload) -> (r: TextMap<BodyValue>)
    ensures
        r@ == wait_fields(payload),
{
    let mut body: TextMap<BodyValue> = TextMap::new();
    body.insert("ok".to_owned(), BodyValue::Flag(true));
    body.insert("mode".to_owned(), text("wait"));
    body.insert("exit_code".to_owned(), BodyValue::Number(payload.exit_code));
    let mut errors: TextMap<OutputError> = TextMap::new();
    let out = put_stream(&mut body, &mut errors, "stdout", payload.stdout);
    let err = put_stream(&mut body, &mut errors, "stderr", payload.stderr);
    if out || err {
        body.insert("output_errors".to_owned(), BodyValue::OutputErrors(errors));
    }
    body
}

/// The status and the fields that an execution is answered with.
pub open spec fn reply_fields(reply: ExecutionReply) -> (u16, Fields) {
    match reply {
        ExecutionReply::Captured(payload) => (200, wait_fields(payload)),
        ExecutionReply::Accepted { operation_id } => (202, accepted_fields(operation_id@)),
        ExecutionReply::Refused(error) => (
            error.status,
            refusal_fields(error.code.name(), error.message@),
        ),
    }
}

/// Writes the answer to an execution down: its status and its fields.
pub fn execution_body(reply: ExecutionReply) -> (r: (u16, TextMap<BodyValue>))
    ensures
        (r.0, r.1@) == reply_fields(reply),
{
    match reply {
        ExecutionReply::Captured(payload) => (200, wait_body(payload)),
        ExecutionReply::Accepted { operation_id } => (202, accepted_body(operation_id.as_str())),
        ExecutionReply::Refused(error) => {
            let status: u16 = error.status;
            (status, refusal_body(&error))
        },
    }
}

// ---------------------------------------------------------------- terminals

/// What a client is told when its session begins.
pub open spec fn ready_fields(ready: ReadyStatus, launch: Option<Seq<char>>) -> Fields {
    Map::empty().insert("type"@, FieldModel::Text("ready"@)).insert(
        "session_id"@,
        text_or_null(opt_text(ready.session_id)),
    ).insert("target"@, FieldModel::Text(ready.target@)).insert(
        "target_mode"@,
        FieldModel::Text(ready.mode@),
    ).insert("launch"@, text_or_null(launch))
}

pub fn ready_message(ready: &ReadyStatus, launch: Option<&str>) -> (r: TextMap<BodyValue>)
    ensures
        r@ == ready_fields(*ready, opt_str(launch)),
{
    let mut body: TextMap<BodyValue> = TextMap::new();
    body.insert("type".to_owned(), text("ready"));
    body.insert("session_id".to_owned(), optional_string(&ready.session_id));
    body.insert("target".to_owned(), text(ready.target.as_str()));
    body.insert("target_mode".to_owned(), text(ready.mode.as_str()));
    body.insert("launch".to_owned(), optional_text(launch));
    body
}

/// What a terminal client is told of a message that is refused.
pub open spec fn complaint_fields(code: Seq<char>, message: Seq<char>) -> Fields {
    Map::empty().insert("type"@, FieldModel::Text("error"@)).insert(
        "code"@,
        FieldModel::Text(code),
    ).insert("message"@, FieldModel::Text(message))
}

pub fn complaint_message(error: &HttpError) -> (r: TextMap<BodyValue>)
    ensures
        r@ == complaint_fields(error.code.name(), error.message@),
{
    let mut body: TextMap<BodyValue> = TextMap::new();
    body.insert("type".to_owned(), text("error"));
    body.insert("code".to_owned(), text(error.code.as_str()));
    body.insert("message".to_owned(), text(error.message.as_str()));
    body
}

/// What a terminal client is told at the end of its session, if anything.
pub open spec fn farewell_fields(farewell: PtyFarewell) -> Option<Fields> {
    match farewell {
        PtyFarewell::Exit { exit_code, outcome } => Some(
            Map::empty().insert("type"@, FieldModel::Text("exit"@)).insert(
                "exit_code"@,
                FieldModel::Number(exit_code),
            ).insert("outcome"@, FieldModel::Text(outcome@)),
        ),
        PtyFarewell::Error(error) => Some(complaint_fields(error.code.name(), error.message@)),
        PtyFarewell::Silent => None,
    }
}

pub fn farewell_message(farewell: &PtyFarewell) -> (r: Option<TextMap<BodyValue>>)
    ensures
        match r {
            Some(body) => farewell_fields(*farewell) == Some(body@),
            None => farewell_fields(*farewell) is None,
        },
{
    match farewell {
        PtyFarewell::Exit { exit_code, outcome } => {
            let mut body: TextMap<BodyValue> = TextMap::new();
            body.insert("type".to_owned(), text("exit"));
            body.insert("exit_code".to_owned(), BodyValue::Number(*exit_code));
            body.insert("outcome".to_owned(), text(outcome.as_str()));
            Some(body)
        },
        PtyFarewell::Error(error) => Some(complaint_message(error)),
        PtyFarewell::Silent => None,
    }
}

/// The answer to an execution says that all is well exactly where its status is
/// one of success.
pub proof fn answers_agree_with_their_status(
    reply: ExecutionReply,
    outcome: ExecutionOutcome,
    formats: OutputFormats,
)
    requires
        reply_is(reply, outcome, formats),
    ensures
        reply_fields(reply).1.contains_key("ok"@),
        reply_fields(reply).1["ok"@] == FieldModel::Flag(reply_fields(reply).0 < 300),
{
    reveal_strlit("ok");
    reveal_strlit("mode");
    reveal_strlit("status");
    reveal_strlit("operation_id");
    reveal_strlit("exit_code");
    reveal_strlit("error");
    reveal_strlit("stdout");
    reveal_strlit("stderr");
    reveal_strlit("_json");
    reveal_strlit("output_errors");
    assert("ok"@.len() == 2);
    assert("mode"@.len() == 4);
    assert("status"@.len() == 6);
    assert("operation_id"@.len() == 12);
    assert("exit_code"@.len() == 9);
    assert("error"@.len() == 5);
    assert("stdout"@.len() == 6);
    assert("stderr"@.len() == 6);
    assert(("stdout"@ + "_json"@).len() == 11);
    assert(("stderr"@ + "_json"@).len() == 11);
    assert("output_errors"@.len() == 13);
}

/// A refusal is answered as one, with its code and its message and nothing else.
pub proof fn refusals_are_explained(code: Seq<char>, message: Seq<char>)
    ensures
        ({
            let fields = refusal_fields(code, message);
            &&& fields.contains_pair("ok"@, FieldModel::Flag(false))
            &&& fields.contains_pair("error"@, FieldModel::Fault { code, message })
            &&& forall|key: Seq<char>| #[trigger]
                fields.contains_key(key) ==> key == "ok"@ || key == "error"@
        }),
{
    reveal_strlit("ok");
    reveal_strlit("error");
    assert("ok"@.len() == 2 && "error"@.len() == 5);
}

/// A detached execution is answered as accepted, under its id.
pub proof fn detached_executions_are_accepted(operation_id: Seq<char>)
    ensures
        ({
            let fields = accepted_fields(operation_id);
            &&& fields.contains_pair("ok"@, FieldModel::Flag(true))
            &&& fields.contains_pair("mode"@, FieldModel::Text("detach"@))
            &&& fields.contains_pair("status"@, FieldModel::Text("accepted"@))
            &&& fields.contains_pair("operation_id"@, FieldModel::Text(operation_id))
        }),
{
    reveal_strlit("ok");
    reveal_strlit("mode");
    reveal_strlit("status");
    reveal_strlit("operation_id");
    assert("ok"@.len() == 2 && "mode"@.len() == 4 && "status"@.len() == 6 && "operation_id"@.len()
        == 12);
}

/// What a stream is answered with under its name: its text, its value, or neither.
pub open spec fn shows_stream(fields: Fields, name: Seq<char>, stream: Option<ProjectedStream>) -> bool {
    &&& fields.contains_key(name) <==> (stream matches Some(s) && s.text is Some)
    &&& stream matches Some(s) ==> (s.text matches Some(text) ==> fields[name] == FieldModel::Text(
        text@,
    ))
    &&& fields.contains_key(name + "_json"@) <==> (stream matches Some(s) && s.json is Some)
    &&& stream matches Some(s) ==> (s.json matches Some(json) ==> fields[name + "_json"@]
        == FieldModel::Json(json@))
}

/// An execution that was waited for is answered with its exit code and with each
/// stream under its own name; what could not be answered as asked is explained
/// under the stream's name, and nothing is explained that could.
pub proof fn captured_output_is_answered(payload: WaitPayload)
    ensures
        ({
            let fields = wait_fields(payload);
            &&& fields.contains_pair("ok"@, FieldModel::Flag(true))
            &&& fields.contains_pair("mode"@, FieldModel::Text("wait"@))
            &&& fields.contains_pair("exit_code"@, FieldModel::Number(payload.exit_code))
            &&& shows_stream(fields, "stdout"@, payload.stdout)
            &&& shows_stream(fields, "stderr"@, payload.stderr)
            &&& fields.contains_key("output_errors"@) <==> has_error(payload.stdout) || has_error(
                payload.stderr,
            )
            &&& fields.contains_key("output_errors"@) ==> fields["output_errors"@]
                == FieldModel::OutputErrors(stream_errors(payload))
            &&& stream_errors(payload).contains_key("stdout"@) <==> has_error(payload.stdout)
            &&& stream_errors(payload).contains_key("stderr"@) <==> has_error(payload.stderr)
            &&& has_error(payload.stdout) ==> stream_errors(payload)["stdout"@]
                == payload.stdout->0.error->0@
            &&& has_error(payload.stderr) ==> stream_errors(payload)["stderr"@]
                == payload.stderr->0.error->0@
        }),
{
    reveal_strlit("ok");
    reveal_strlit("mode");
    reveal_strlit("exit_code");
    reveal_strlit("stdout");
    reveal_strlit("stderr");
    reveal_strlit("_json");
    reveal_strlit("output_errors");
    assert("ok"@.len() == 2 && "mode"@.len() == 4 && "exit_code"@.len() == 9);
    assert("stdout"@.len() == 6 && "stderr"@.len() == 6 && "output_errors"@.len() == 13);
    assert("stdout"@[3] == 'o' && "stderr"@[3] == 'e');
    let (a, b) = ("stdout"@ + "_json"@, "stderr"@ + "_json"@);
    assert(a.len() == 11 && b.len() == 11);
    assert(a[3] == 'o' && b[3] == 'e');
}

/// Answers have the status of their kind: captured output that of success, a
/// detached execution that of acceptance, a refusal its own.
pub proof fn replies_have_their_status(reply: ExecutionReply)
    ensures
        match reply {
            ExecutionReply::Captured(payload) => reply_fields(reply).0 == 200 && reply_fields(
                reply,
            ).1 == wait_fields(payload),
            ExecutionReply::Accepted { operation_id } => reply_fields(reply).0 == 202
                && reply_fields(reply).1 == accepted_fields(operation_id@),
            ExecutionReply::Refused(error) => reply_fields(reply).0 == error.status
                && reply_fields(reply).1 == refusal_fields(error.code.name(), error.message@),
        },
{
}

/// A client is told of its session: what it runs in, and its id and its launch, or
/// null where it has none.
pub proof fn clients_are_told_of_their_session(ready: ReadyStatus, launch: Option<Seq<char>>)
    ensures
        ({
            let fields = ready_fields(ready, launch);
            &&& fields.contains_pair("type"@, FieldModel::Text("ready"@))
            &&& fields.contains_pair("target"@, FieldModel::Text(ready.target@))
            &&& fields.contains_pair("target_mode"@, FieldModel::Text(ready.mode@))
            &&& fields.contains_key("session_id"@) && fields.contains_key("launch"@)
            &&& ready.session_id matches Some(id) ==> fields["session_id"@] == FieldModel::Text(id@)
            &&& ready.session_id is None ==> fields["session_id"@] is Null
            &&& launch matches Some(name) ==> fields["launch"@] == FieldModel::Text(name)
            &&& launch is None ==> fields["launch"@] is Null
        }),
{
    reveal_strlit("type");
    reveal_strlit("session_id");
    reveal_strlit("target");
    reveal_strlit("target_mode");
    reveal_strlit("launch");
    assert("type"@.len() == 4 && "session_id"@.len() == 10 && "target_mode"@.len() == 11);
    assert("target"@.len() == 6 && "target"@[0] == 't' && "launch"@.len() == 6 && "launch"@[0]
        == 'l');
}

/// A client is told the exit code and the outcome of its session, or what went
/// wrong; one that is not there any more is told nothing.
pub proof fn clients_are_told_of_the_end(farewell: PtyFarewell)
    ensures
        farewell_fields(farewell) is None <==> farewell is Silent,
        farewell matches PtyFarewell::Exit { exit_code, outcome } ==> {
            let fields = farewell_fields(farewell)->0;
            &&& fields.contains_pair("type"@, FieldModel::Text("exit"@))
            &&& fields.contains_pair("exit_code"@, FieldModel::Number(exit_code))
            &&& fields.contains_pair("outcome"@, FieldModel::Text(outcome@))
        },
        farewell matches PtyFarewell::Error(error) ==> {
            let fields = farewell_fields(farewell)->0;
            &&& fields.contains_pair("type"@, FieldModel::Text("error"@))
            &&& fields.contains_pair("code"@, FieldModel::Text(error.code.name()))
            &&& fields.contains_pair("message"@, FieldModel::Text(error.message@))
        },
{
    reveal_strlit("type");
    reveal_strlit("exit_code");
    reveal_strlit("outcome");
    reveal_strlit("code");
    reveal_strlit("message");
    assert("exit_code"@.len() == 9);
    assert("type"@.len() == 4 && "type"@[0] == 't' && "code"@.len() == 4 && "code"@[0] == 'c');
    assert("outcome"@.len() == 7 && "message"@.len() == 7);
}

} // verus!
