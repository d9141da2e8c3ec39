//! Answers of the HTTP transport.

use crate::gateway::http::output_projection::{
    project_wait_payload, payload_is, OutputFormats, WaitPayload,
};
use crate::gateway::ops::request::ResultKind;
use crate::gateway::ops::types::{ExecutionOutcome, OperationError, OperationErrorKind, OperationFault};
use vstd::prelude::*;

verus! {

/// The codes by which clients tell errors apart.
#[derive(Debug, Clone, Copy, PartialEq, Eq, Structural)]
pub enum ErrorCode {
    Unauthorized,
    DisabledAction,
    NotFound,
    InvalidRequest,
    InvalidMode,
    InvalidOutput,
    InvalidLaunchVar,
    InvalidLaunchArgs,
    OperationFailed,
}

impl ErrorCode {
    pub open spec fn name(self) -> Seq<char> {
        match self {
            ErrorCode::Unauthorized => "unauthorized"@,
            ErrorCode::DisabledAction => "disabled_action"@,
            ErrorCode::NotFound => "not_found"@,
            ErrorCode::InvalidRequest => "invalid_request"@,
            ErrorCode::InvalidMode => "invalid_mode"@,
            ErrorCode::InvalidOutput => "invalid_output"@,
            ErrorCode::InvalidLaunchVar => "invalid_launch_var"@,
            ErrorCode::InvalidLaunchArgs => "invalid_launch_args"@,
            ErrorCode::OperationFailed => "operation_failed"@,
        }
    }

    pub fn as_str(self) -> (r: &'static str)
        ensures
            r@ == self.name(),
    {
        match self {
            ErrorCode::Unauthorized => "unauthorized",
            ErrorCode::DisabledAction => "disabled_action",
            ErrorCode::NotFound => "not_found",
            ErrorCode::InvalidRequest => "invalid_request",
            ErrorCode::InvalidMode => "invalid_mode",
            ErrorCode::InvalidOutput => "invalid_output",
            ErrorCode::InvalidLaunchVar => "invalid_launch_var",
            ErrorCode::InvalidLaunchArgs => "invalid_launch_args",
            ErrorCode::OperationFailed => "operation_failed",
        }
    }

    /// The status that goes with a code.
    pub open spec fn status(self) -> u16 {
        match self {
            ErrorCode::Unauthorized => 401,
            ErrorCode::DisabledAction => 403,
            ErrorCode::NotFound => 404,
            ErrorCode::OperationFailed => 500,
            _ => 400,
        }
    }
}

/// An error answer.
#[derive(Debug, Clone, PartialEq, Eq)]
pub struct HttpError {
    pub status: u16,
    pub code: ErrorCode,
    pub message: String,
}

/// The model of an error answer: status, code and message.
pub type HttpFault = (u16, ErrorCode, Seq<char>);

impl View for HttpError {
    type V = HttpFault;

    open spec fn view(&self) -> HttpFault {
        (self.status, self.code, self.message@)
    }
}

/// The error answer with the status that belongs to its code.
pub open spec fn fault(code: ErrorCode, message: Seq<char>) -> HttpFault {
    (code.status(), code, message)
}

/// A result seen through the models of its value and its error answer.
pub open spec fn http_outcome<T: View>(r: Result<T, HttpError>) -> Result<T::V, HttpFault> {
    match r {
        Ok(value) => Ok(value@),
        Err(error) => Err(error@),
    }
}

/// What a check says: nothing, or the error answer.
pub open spec fn http_refusal<T>(r: Result<T, HttpError>) -> Option<HttpFault> {
    match r {
        Ok(_) => None,
        Err(error) => Some(error@),
    }
}

impl HttpError {
    pub fn new(status: u16, code: ErrorCode, message: &str) -> (r: HttpError)
        ensures
            r@ == (status, code, message@),
    {
        HttpError { status, code, message: message.to_owned() }
    }

    pub fn unauthorized(message: &str) -> (r: HttpError)
        ensures
            r@ == fault(ErrorCode::Unauthorized, message@),
    {
        HttpError::new(401, ErrorCode::Unauthorized, message)
    }

    pub fn disabled_action(message: &str) -> (r: HttpError)
        ensures
            r@ == fault(ErrorCode::DisabledAction, message@),
    {
        HttpError::new(403, ErrorCode::DisabledAction, message)
    }

    pub fn not_found(message: &str) -> (r: HttpError)
        ensures
            r@ == fault(ErrorCode::NotFound, message@),
    {
        HttpError::new(404, ErrorCode::NotFound, message)
    }

    pub fn invalid_request(message: &str) -> (r: HttpError)
        ensures
            r@ == fault(ErrorCode::InvalidRequest, message@),
    {
        HttpError::new(400, ErrorCode::InvalidRequest, message)
    }

    pub fn invalid_mode(message: &str) -> (r: HttpError)
        ensures
            r@ == fault(ErrorCode::InvalidMode, message@),
    {
        HttpError::new(400, ErrorCode::InvalidMode, message)
    }

    pub fn invalid_output(message: &str) -> (r: HttpError)
        ensures
            r@ == fault(ErrorCode::InvalidOutput, message@),
    {
        HttpError::new(400, ErrorCode::InvalidOutput, message)
    }

    pub fn operation_failed(message: &str) -> (r: HttpError)
        ensures
            r@ == fault(ErrorCode::OperationFailed, message@),
    {
        HttpError::new(500, ErrorCode::OperationFailed, message)
    }
}

/// The answer to an operation that was not carried out. What failed inside the
/// gateway is not told to the client.
pub open spec fn error_answer(error: OperationFault) -> HttpFault {
    let message = error.1[0].1;
    match error.0 {
        OperationErrorKind::InvalidRequest => fault(ErrorCode::InvalidRequest, message),
        OperationErrorKind::InvalidSession => fault(ErrorCode::InvalidRequest, message),
        OperationErrorKind::DisabledAction => fault(ErrorCode::DisabledAction, message),
        OperationErrorKind::UnknownLaunch => fault(ErrorCode::NotFound, message),
        OperationErrorKind::InvalidLaunchVariable => fault(ErrorCode::InvalidLaunchVar, message),
        OperationErrorKind::InvalidLaunchArgs => fault(ErrorCode::InvalidLaunchArgs, message),
        _ => fault(ErrorCode::OperationFailed, "internal operation failed"@),
    }
}

pub fn operation_error_response(error: OperationError) -> (r: HttpError)
    ensures
        r@ == error_answer(error@),
{
    match error {
        OperationError::InvalidRequest { message } => HttpError::invalid_request(message.as_str()),
        OperationError::InvalidSession { message } => HttpError::invalid_request(message.as_str()),
        OperationError::DisabledAction { message } => HttpError::disabled_action(message.as_str()),
        OperationError::UnknownLaunch { message } => HttpError::not_found(message.as_str()),
        OperationError::InvalidLaunchVariable { message } => HttpError::new(
            400,
            ErrorCode::InvalidLaunchVar,
            message.as_str(),
        ),
        OperationError::InvalidLaunchArgs { message } => HttpError::new(
            400,
            ErrorCode::InvalidLaunchArgs,
            message.as_str(),
        ),
        OperationError::AgentNotReady { .. } => HttpError::operation_failed(
            "internal operation failed",
        ),
        OperationError::ContainerNotFound { .. } => HttpError::operation_failed(
            "internal operation failed",
        ),
        OperationError::ContainerLabelMismatch { .. } => HttpError::operation_failed(
            "internal operation failed",
        ),
        OperationError::OperationFailed { .. } => HttpError::operation_failed(
            "internal operation failed",
        ),
    }
}

/// Failures inside the gateway give answers that do not depend on the failure.
pub proof fn internal_failures_are_not_told(a: OperationFault, b: OperationFault)
    requires
        error_answer(a).1 == ErrorCode::OperationFailed,
        error_answer(b).1 == ErrorCode::OperationFailed,
    ensures
        error_answer(a) == error_answer(b),
{
}

/// Every error answer has the status that belongs to its code.
pub proof fn error_answers_have_their_status(error: OperationFault)
    ensures
        error_answer(error).0 == error_answer(error).1.status(),
        400 <= error_answer(error).0 < 600,
{
}

/// The results that are answered with data.
pub open spec fn is_metadata(kind: ResultKind) -> bool {
    match kind {
        ResultKind::Targets => true,
        ResultKind::Status => true,
        ResultKind::StatusAll => true,
        ResultKind::Up => true,
        ResultKind::Launches => true,
        ResultKind::LaunchShow => true,
        ResultKind::Stop => true,
        ResultKind::Remove => true,
        _ => false,
    }
}

/// Whether a result is answered with its data; other results are unexpected here.
pub fn metadata_result_response(kind: ResultKind) -> (r: Result<(), HttpError>)
    ensures
        http_refusal(r) == (if is_metadata(kind) {
            None
        } else {
            Some(fault(ErrorCode::OperationFailed, "operation returned an unexpected result"@))
        }),
{
    match kind {
        ResultKind::Targets => Ok(()),
        ResultKind::Status => Ok(()),
        ResultKind::StatusAll => Ok(()),
        ResultKind::Up => Ok(()),
        ResultKind::Launches => Ok(()),
        ResultKind::LaunchShow => Ok(()),
        ResultKind::Stop => Ok(()),
        ResultKind::Remove => Ok(()),
        _ => Err(HttpError::operation_failed("operation returned an unexpected result")),
    }
}

/// The answer to an execution.
#[derive(Debug)]
pub enum ExecutionReply {
    /// The captured output, with status 200.
    Captured(WaitPayload),
    /// The id of a detached execution, with status 202.
    Accepted { operation_id: String },
    Refused(HttpError),
}

pub open spec fn reply_is(reply: ExecutionReply, outcome: ExecutionOutcome, formats: OutputFormats) -> bool {
    match outcome {
        ExecutionOutcome::Captured { exit_code, stdout, stderr } => {
            reply matches ExecutionReply::Captured(payload) && payload_is(
                payload,
                exit_code,
                stdout,
                stderr,
                formats,
            )
        },
        ExecutionOutcome::Detached { operation_id } => {
            reply matches ExecutionReply::Accepted { operation_id: id } && id == operation_id
        },
        ExecutionOutcome::Streamed { .. } => reply matches ExecutionReply::Refused(error) && error@
            == fault(ErrorCode::OperationFailed, "http operations must use wait or detach mode"@),
        ExecutionOutcome::Canceled { .. } => reply matches ExecutionReply::Refused(error) && error@
            == fault(ErrorCode::OperationFailed, "operation canceled"@),
    }
}

pub fn execution_response(outcome: ExecutionOutcome, formats: OutputFormats) -> (r: ExecutionReply)
    ensures
        reply_is(r, outcome, formats),
{
    match outcome {
        ExecutionOutcome::Captured { exit_code, stdout, stderr } => ExecutionReply::Captured(
            project_wait_payload(exit_code, stdout, stderr, formats),
        ),
        ExecutionOutcome::Detached { operation_id } => ExecutionReply::Accepted { operation_id },
        ExecutionOutcome::Streamed { .. } => ExecutionReply::Refused(
            HttpError::operation_failed("http operations must use wait or detach mode"),
        ),
        ExecutionOutcome::Canceled { .. } => ExecutionReply::Refused(
            HttpError::operation_failed("operation canceled"),
        ),
    }
}

/// Each kind of error is answered with its own code and message: what the client
/// did wrong is told, an unknown launch is not found, and what failed inside is a
/// failure of the server.
pub proof fn errors_are_answered_by_kind(error: OperationFault)
    ensures
        ({
            let answer = error_answer(error);
            let told = error.1[0].1;
            let of_client = error.0 == OperationErrorKind::InvalidRequest || error.0
                == OperationErrorKind::InvalidSession || error.0
                == OperationErrorKind::InvalidLaunchVariable || error.0
                == OperationErrorKind::InvalidLaunchArgs;
            &&& answer.0 == 400 <==> of_client
            &&& answer.0 == 403 <==> error.0 == OperationErrorKind::DisabledAction
            &&& answer.0 == 404 <==> error.0 == OperationErrorKind::UnknownLaunch
            &&& answer.0 == 500 <==> !of_client && error.0 != OperationErrorKind::DisabledAction
                && error.0 != OperationErrorKind::UnknownLaunch
            &&& answer.0 != 500 ==> answer.2 == told
            &&& answer.0 == 500 ==> answer.2 == "internal operation failed"@
            &&& answer.1 == ErrorCode::InvalidLaunchVar <==> error.0
                == OperationErrorKind::InvalidLaunchVariable
            &&& answer.1 == ErrorCode::InvalidLaunchArgs <==> error.0
                == OperationErrorKind::InvalidLaunchArgs
            &&& answer.1 == ErrorCode::DisabledAction <==> answer.0 == 403
            &&& answer.1 == ErrorCode::NotFound <==> answer.0 == 404
            &&& answer.1 == ErrorCode::OperationFailed <==> answer.0 == 500
        }),
{
}

/// Codes go with their statuses, and clients read them by these names.
pub proof fn codes_have_their_names(code: ErrorCode, message: Seq<char>)
    ensures
        fault(code, message).1 == code && fault(code, message).2 == message,
        fault(code, message).0 == 401 <==> code == ErrorCode::Unauthorized,
        fault(code, message).0 == 403 <==> code == ErrorCode::DisabledAction,
        fault(code, message).0 == 404 <==> code == ErrorCode::NotFound,
        fault(code, message).0 == 500 <==> code == ErrorCode::OperationFailed,
        code != ErrorCode::Unauthorized && code != ErrorCode::DisabledAction && code
            != ErrorCode::NotFound && code != ErrorCode::OperationFailed ==> fault(code, message).0
            == 400,
        ErrorCode::Unauthorized.name() == "unauthorized"@,
        ErrorCode::DisabledAction.name() == "disabled_action"@,
        ErrorCode::NotFound.name() == "not_found"@,
        ErrorCode::InvalidRequest.name() == "invalid_request"@,
        ErrorCode::InvalidMode.name() == "invalid_mode"@,
        ErrorCode::InvalidOutput.name() == "invalid_output"@,
        ErrorCode::InvalidLaunchVar.name() == "invalid_launch_var"@,
        ErrorCode::InvalidLaunchArgs.name() == "invalid_launch_args"@,
        ErrorCode::OperationFailed.name() == "operation_failed"@,
{
}

/// Executions, default selections and client configurations are not answered as
/// data; all else is.
pub proof fn data_is_answered_as_data(kind: ResultKind)
    ensures
        !is_metadata(kind) <==> kind == ResultKind::Run || kind == ResultKind::Launch || kind
            == ResultKind::DefaultSelection || kind == ResultKind::ClientConfig,
{
}

/// An execution that was waited for is answered with its own exit code and output,
/// a detached one with its own id. What was streamed or canceled is no answer, and
/// is refused as a failure.
pub proof fn executions_are_answered_as_they_ended(
    reply: ExecutionReply,
    outcome: ExecutionOutcome,
    formats: OutputFormats,
)
    requires
        reply_is(reply, outcome, formats),
    ensures
        reply is Captured <==> outcome is Captured,
        reply is Accepted <==> outcome is Detached,
        reply is Refused <==> outcome is Streamed || outcome is Canceled,
        outcome matches ExecutionOutcome::Detached { operation_id } ==> reply
            == (ExecutionReply::Accepted { operation_id }),
        outcome matches ExecutionOutcome::Captured { exit_code, stdout, stderr } ==> payload_is(
            reply->Captured_0,
            exit_code,
            stdout,
            stderr,
            formats,
        ),
        reply matches ExecutionReply::Refused(error) ==> error.status == 500 && error.code
            == ErrorCode::OperationFailed,
{
}

} // verus!
