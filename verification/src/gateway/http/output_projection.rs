//! Captured output as it is answered to HTTP clients.

use crate::json::{compact_json, json_compact, json_fault};
use crate::text::{cat3, opt_text, text_from_bytes};
use vstd::prelude::*;
use vstd::utf8::{decode_utf8, valid_utf8};

verus! {

#[derive(Debug, Clone, Copy, PartialEq, Eq, Structural)]
pub enum OutputFormat {
    Text,
    Json,
}

#[derive(Debug, Clone, Copy, PartialEq, Eq, Structural)]
pub struct OutputFormats {
    pub stdout: OutputFormat,
    pub stderr: OutputFormat,
}

impl OutputFormats {
    pub fn text() -> (r: OutputFormats)
        ensures
            r == (OutputFormats { stdout: OutputFormat::Text, stderr: OutputFormat::Text }),
    {
        OutputFormats { stdout: OutputFormat::Text, stderr: OutputFormat::Text }
    }
}

impl OutputFormat {
    pub open spec fn name(self) -> Seq<char> {
        match self {
            OutputFormat::Text => "text"@,
            OutputFormat::Json => "json"@,
        }
    }

    pub fn as_str(self) -> (r: &'static str)
        ensures
            r@ == self.name(),
    {
        match self {
            OutputFormat::Text => "text",
            OutputFormat::Json => "json",
        }
    }
}

#[derive(Debug, Clone, Copy, PartialEq, Eq, Structural)]
pub enum OutputProjectionErrorCode {
    InvalidJson,
    InvalidUtf8,
}

impl OutputProjectionErrorCode {
    pub open spec fn name(self) -> Seq<char> {
        match self {
            OutputProjectionErrorCode::InvalidJson => "invalid_json"@,
            OutputProjectionErrorCode::InvalidUtf8 => "invalid_utf8"@,
        }
    }

    pub fn as_str(self) -> (r: &'static str)
        ensures
            r@ == self.name(),
    {
        match self {
            OutputProjectionErrorCode::InvalidJson => "invalid_json",
            OutputProjectionErrorCode::InvalidUtf8 => "invalid_utf8",
        }
    }

    pub open spec fn explanation(self, stream: Seq<char>) -> Seq<char> {
        match self {
            OutputProjectionErrorCode::InvalidJson => "captured "@ + stream
                + " is not valid JSON"@,
            OutputProjectionErrorCode::InvalidUtf8 => "captured "@ + stream
                + " is not valid UTF-8"@,
        }
    }

    pub fn message(self, stream: &str) -> (r: String)
        ensures
            r@ == self.explanation(stream@),
    {
        match self {
            OutputProjectionErrorCode::InvalidJson => cat3(
                "captured ",
                stream,
                " is not valid JSON",
            ),
            OutputProjectionErrorCode::InvalidUtf8 => cat3(
                "captured ",
                stream,
                " is not valid UTF-8",
            ),
        }
    }
}

/// Why a stream is not answered in the format that was asked for.
#[derive(Debug, Clone, PartialEq, Eq)]
pub struct OutputError {
    pub format: String,
    pub code: String,
    pub message: String,
}

/// One stream as it is answered.
#[derive(Debug, Clone, PartialEq, Eq)]
pub struct ProjectedStream {
    pub text: Option<String>,
    /// The stream's JSON value, in compact form.
    pub json: Option<String>,
    pub error: Option<OutputError>,
}

/// The answer to an execution whose output was captured.
#[derive(Debug, Clone, PartialEq, Eq)]
pub struct WaitPayload {
    pub exit_code: i32,
    pub stdout: Option<ProjectedStream>,
    pub stderr: Option<ProjectedStream>,
}

pub open spec fn error_is(
    error: Option<OutputError>,
    stream: Seq<char>,
    format: OutputFormat,
    code: OutputProjectionErrorCode,
) -> bool {
    error matches Some(e) && e.format@ == format.name() && e.code@ == code.name() && e.message@
        == code.explanation(stream)
}

/// A stream is answered as text, or as the JSON value it holds. What is not
/// UTF-8 is left out, what is not JSON stays text, and either is explained.
pub open spec fn stream_is(
    r: ProjectedStream,
    stream: Seq<char>,
    bytes: Seq<u8>,
    format: OutputFormat,
) -> bool {
    if !valid_utf8(bytes) {
        &&& r.text is None && r.json is None
        &&& error_is(r.error, stream, format, OutputProjectionErrorCode::InvalidUtf8)
    } else {
        let text = decode_utf8(bytes);
        match format {
            OutputFormat::Text => {
                &&& opt_text(r.text) == Some(text)
                &&& r.json is None && r.error is None
            },
            OutputFormat::Json => if json_fault(text) is None {
                &&& opt_text(r.json) == Some(json_compact(text))
                &&& r.text is None && r.error is None
            } else {
                &&& opt_text(r.text) == Some(text) && r.json is None
                &&& error_is(r.error, stream, format, OutputProjectionErrorCode::InvalidJson)
            },
        }
    }
}

fn output_error(stream: &str, format: OutputFormat, code: OutputProjectionErrorCode) -> (r: Option<
    OutputError,
>)
    ensures
        error_is(r, stream@, format, code),
{
    Some(
        OutputError {
            format: format.as_str().to_owned(),
            code: code.as_str().to_owned(),
            message: code.message(stream),
        },
    )
}

/// Answers a stream whose text is known, given its JSON value where it has one.
pub fn project_text(stream: &str, text: String, format: OutputFormat, compact: Option<String>) -> (r:
    ProjectedStream)
    ensures
        match (format, compact) {
            (OutputFormat::Text, _) => r.text == Some(text) && r.json is None && r.error is None,
            (OutputFormat::Json, Some(value)) => r.json == Some(value) && r.text is None
                && r.error is None,
            (OutputFormat::Json, None) => r.text == Some(text) && r.json is None && error_is(
                r.error,
                stream@,
                format,
                OutputProjectionErrorCode::InvalidJson,
            ),
        },
{
    match format {
        OutputFormat::Text => ProjectedStream { text: Some(text), json: None, error: None },
        OutputFormat::Json => match compact {
            Some(value) => ProjectedStream { text: None, json: Some(value), error: None },
            None => ProjectedStream {
                text: Some(text),
                json: None,
                error: output_error(stream, format, OutputProjectionErrorCode::InvalidJson),
            },
        },
    }
}

pub fn project_stream(stream: &str, bytes: Vec<u8>, format: OutputFormat) -> (r: ProjectedStream)
    ensures
        stream_is(r, stream@, bytes@, format),
{
    match text_from_bytes(bytes) {
        Err(_) => ProjectedStream {
            text: None,
            json: None,
            error: output_error(stream, format, OutputProjectionErrorCode::InvalidUtf8),
        },
        Ok(text) => {
            let compact = match format {
                OutputFormat::Json => compact_json(text.as_str()),
                OutputFormat::Text => None,
            };
            project_text(stream, text, format, compact)
        },
    }
}

pub open spec fn payload_is(
    payload: WaitPayload,
    exit_code: i32,
    stdout: Option<Vec<u8>>,
    stderr: Option<Vec<u8>>,
    formats: OutputFormats,
) -> bool {
    &&& payload.exit_code == exit_code
    &&& match stdout {
        Some(bytes) => payload.stdout matches Some(s) && stream_is(
            s,
            "stdout"@,
            bytes@,
            formats.stdout,
        ),
        None => payload.stdout is None,
    }
    &&& match stderr {
        Some(bytes) => payload.stderr matches Some(s) && stream_is(
            s,
            "stderr"@,
            bytes@,
            formats.stderr,
        ),
        None => payload.stderr is None,
    }
}

pub fn project_wait_payload(
    exit_code: i32,
    stdout: Option<Vec<u8>>,
    stderr: Option<Vec<u8>>,
    formats: OutputFormats,
) -> (r: WaitPayload)
    ensures
        payload_is(r, exit_code, stdout, stderr, formats),
{
    let out = match stdout {
        Some(bytes) => Some(project_stream("stdout", bytes, formats.stdout)),
        None => None,
    };
    let err = match stderr {
        Some(bytes) => Some(project_stream("stderr", bytes, formats.stderr)),
        None => None,
    };
    WaitPayload { exit_code, stdout: out, stderr: err }
}

/// A stream is answered in the format that was asked for wherever it can be; it is
/// explained exactly where it cannot. What is text is never lost: it is answered as
/// its text or as the value it holds.
pub proof fn streams_are_answered_in_their_format(
    r: ProjectedStream,
    stream: Seq<char>,
    bytes: Seq<u8>,
    format: OutputFormat,
)
    requires
        stream_is(r, stream, bytes, format),
    ensures
        r.error is None <==> valid_utf8(bytes) && (format == OutputFormat::Text || json_fault(
            decode_utf8(bytes),
        ) is None),
        r.json is Some <==> valid_utf8(bytes) && format == OutputFormat::Json && json_fault(
            decode_utf8(bytes),
        ) is None,
        r.json matches Some(value) ==> value@ == json_compact(decode_utf8(bytes)),
        r.text is Some <==> valid_utf8(bytes) && r.json is None,
        r.text matches Some(text) ==> text@ == decode_utf8(bytes),
        r.error matches Some(error) ==> {
            &&& error.format@ == (if format == OutputFormat::Text {
                "text"@
            } else {
                "json"@
            })
            &&& !valid_utf8(bytes) ==> error.code@ == "invalid_utf8"@ && error.message@
                == "captured "@ + stream + " is not valid UTF-8"@
            &&& valid_utf8(bytes) ==> error.code@ == "invalid_json"@ && error.message@
                == "captured "@ + stream + " is not valid JSON"@
        },
{
}

/// An answer has the exit code of its execution, and those streams that were
/// captured, each under its own name and in its own format.
pub proof fn answers_hold_what_was_captured(
    payload: WaitPayload,
    exit_code: i32,
    stdout: Option<Vec<u8>>,
    stderr: Option<Vec<u8>>,
    formats: OutputFormats,
)
    requires
        payload_is(payload, exit_code, stdout, stderr, formats),
    ensures
        payload.exit_code == exit_code,
        payload.stdout is Some <==> stdout is Some,
        payload.stderr is Some <==> stderr is Some,
        stdout matches Some(bytes) ==> stream_is(
            payload.stdout->0,
            "stdout"@,
            bytes@,
            formats.stdout,
        ),
        stderr matches Some(bytes) ==> stream_is(
            payload.stderr->0,
            "stderr"@,
            bytes@,
            formats.stderr,
        ),
{
}

} // verus!
