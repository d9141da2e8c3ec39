//! What operations take and give.

use crate::failure::{has_kind, plain, Chain, Failure, FailureKind};
use crate::text::{
    all_digits, cat2, cat3, cat4, has_char, is_digit, is_signed_number, join, joined, list_has,
    quote, quoted, signed_decimal, signed_decimal_text, signed_value, split_once, split_once_at,
    same, texts,
};
use crate::text_map::{listing, TextMap};
use vstd::prelude::*;

verus! {

// ---------------------------------------------------------------- errors

/// Why an operation was not carried out.
#[derive(Debug, PartialEq, Eq)]
pub enum OperationError {
    InvalidRequest { message: String },
    /// An action that the transport does not offer.
    DisabledAction { message: String },
    UnknownLaunch { message: String },
    InvalidLaunchVariable { message: String },
    InvalidLaunchArgs { message: String },
    InvalidSession { message: String },
    AgentNotReady { source: Failure },
    ContainerNotFound { source: Failure },
    ContainerLabelMismatch { source: Failure },
    OperationFailed { source: Failure },
}

#[derive(Debug, Clone, Copy, PartialEq, Eq, Structural)]
pub enum OperationErrorKind {
    InvalidRequest,
    DisabledAction,
    UnknownLaunch,
    InvalidLaunchVariable,
    InvalidLaunchArgs,
    InvalidSession,
    AgentNotReady,
    ContainerNotFound,
    ContainerLabelMismatch,
    OperationFailed,
}

/// The model of an operation's error: its kind and its chain of messages.
pub type OperationFault = (OperationErrorKind, Chain);

impl View for OperationError {
    type V = OperationFault;

    open spec fn view(&self) -> OperationFault {
        match self {
            OperationError::InvalidRequest { message } => (
                OperationErrorKind::InvalidRequest,
                plain(message@),
            ),
            OperationError::DisabledAction { message } => (
                OperationErrorKind::DisabledAction,
                plain(message@),
            ),
            OperationError::UnknownLaunch { message } => (
                OperationErrorKind::UnknownLaunch,
                plain(message@),
            ),
            OperationError::InvalidLaunchVariable { message } => (
                OperationErrorKind::InvalidLaunchVariable,
                plain(message@),
            ),
            OperationError::InvalidLaunchArgs { message } => (
                OperationErrorKind::InvalidLaunchArgs,
                plain(message@),
            ),
            OperationError::InvalidSession { message } => (
                OperationErrorKind::InvalidSession,
                plain(message@),
            ),
            OperationError::AgentNotReady { source } => (
                OperationErrorKind::AgentNotReady,
                source@,
            ),
            OperationError::ContainerNotFound { source } => (
                OperationErrorKind::ContainerNotFound,
                source@,
            ),
            OperationError::ContainerLabelMismatch { source } => (
                OperationErrorKind::ContainerLabelMismatch,
                source@,
            ),
            OperationError::OperationFailed { source } => (
                OperationErrorKind::OperationFailed,
                source@,
            ),
        }
    }
}

/// A result seen through the models of its value and its error.
pub open spec fn op_outcome<T: View>(r: Result<T, OperationError>) -> Result<T::V, OperationFault> {
    match r {
        Ok(value) => Ok(value@),
        Err(error) => Err(error@),
    }
}

/// The kind of a failure: the first of the known kinds that occurs anywhere in it.
pub open spec fn failure_class(chain: Chain) -> OperationErrorKind {
    if has_kind(chain, FailureKind::AgentNotReady) {
        OperationErrorKind::AgentNotReady
    } else if has_kind(chain, FailureKind::ContainerNotFound) {
        OperationErrorKind::ContainerNotFound
    } else if has_kind(chain, FailureKind::GatewayLabel) {
        OperationErrorKind::ContainerLabelMismatch
    } else {
        OperationErrorKind::OperationFailed
    }
}

impl OperationError {
    pub fn invalid_request(message: &str) -> (r: OperationError)
        ensures
            r@ == (OperationErrorKind::InvalidRequest, plain(message@)),
            r is InvalidRequest,
    {
        OperationError::InvalidRequest { message: message.to_owned() }
    }

    pub fn disabled_action(message: &str) -> (r: OperationError)
        ensures
            r@ == (OperationErrorKind::DisabledAction, plain(message@)),
            r is DisabledAction,
    {
        OperationError::DisabledAction { message: message.to_owned() }
    }

    pub fn unknown_launch(message: &str) -> (r: OperationError)
        ensures
            r@ == (OperationErrorKind::UnknownLaunch, plain(message@)),
            r is UnknownLaunch,
    {
        OperationError::UnknownLaunch { message: message.to_owned() }
    }

    pub fn invalid_launch_variable(message: &str) -> (r: OperationError)
        ensures
            r@ == (OperationErrorKind::InvalidLaunchVariable, plain(message@)),
            r is InvalidLaunchVariable,
    {
        OperationError::InvalidLaunchVariable { message: message.to_owned() }
    }

    pub fn invalid_launch_args(message: &str) -> (r: OperationError)
        ensures
            r@ == (OperationErrorKind::InvalidLaunchArgs, plain(message@)),
            r is InvalidLaunchArgs,
    {
        OperationError::InvalidLaunchArgs { message: message.to_owned() }
    }

    pub fn invalid_session(message: &str) -> (r: OperationError)
        ensures
            r@ == (OperationErrorKind::InvalidSession, plain(message@)),
            r is InvalidSession,
    {
        OperationError::InvalidSession { message: message.to_owned() }
    }

    /// Wraps a failure, and keeps visible what kind it is.
    pub fn operation_failed(source: Failure) -> (r: OperationError)
        ensures
            r@ == (failure_class(source@), source@),
    {
        if source.is_kind(FailureKind::AgentNotReady) {
            return OperationError::AgentNotReady { source };
        }
        if source.is_kind(FailureKind::ContainerNotFound) {
            return OperationError::ContainerNotFound { source };
        }
        if source.is_kind(FailureKind::GatewayLabel) {
            return OperationError::ContainerLabelMismatch { source };
        }
        OperationError::OperationFailed { source }
    }

    /// The message of the error: the outermost one.
    pub fn message(&self) -> (r: String)
        ensures
            r@ == self@.1[0].1,
    {
        match self {
            OperationError::InvalidRequest { message } => message.clone(),
            OperationError::DisabledAction { message } => message.clone(),
            OperationError::UnknownLaunch { message } => message.clone(),
            OperationError::InvalidLaunchVariable { message } => message.clone(),
            OperationError::InvalidLaunchArgs { message } => message.clone(),
            OperationError::InvalidSession { message } => message.clone(),
            OperationError::AgentNotReady { source } => source.message(),
            OperationError::ContainerNotFound { source } => source.message(),
            OperationError::ContainerLabelMismatch { source } => source.message(),
            OperationError::OperationFailed { source } => source.message(),
        }
    }

    /// The failure behind the error, where there is one.
    pub fn source(&self) -> (r: Option<&Failure>)
        ensures
            match r {
                Some(failure) => failure@ == self@.1 && (self is AgentNotReady
                    || self is ContainerNotFound || self is ContainerLabelMismatch
                    || self is OperationFailed),
                None => !(self is AgentNotReady || self is ContainerNotFound
                    || self is ContainerLabelMismatch || self is OperationFailed),
            },
    {
        match self {
            OperationError::AgentNotReady { source } => Some(source),
            OperationError::ContainerNotFound { source } => Some(source),
            OperationError::ContainerLabelMismatch { source } => Some(source),
            OperationError::OperationFailed { source } => Some(source),
            _ => None,
        }
    }
}

/// Messages that are put around a failure do not change its class.
pub proof fn context_keeps_class(message: Seq<char>, chain: Chain)
    ensures
        failure_class(crate::failure::under(message, chain)) == failure_class(chain),
{
    crate::failure::context_keeps_kinds(message, chain, FailureKind::AgentNotReady);
    crate::failure::context_keeps_kinds(message, chain, FailureKind::ContainerNotFound);
    crate::failure::context_keeps_kinds(message, chain, FailureKind::GatewayLabel);
}

// ---------------------------------------------------------------- options and outcomes

#[derive(Debug, Clone, Copy, PartialEq, Eq, Structural)]
pub enum OperationMode {
    Wait,
    Stream,
    /// Fire and forget: the operation's id serves to find it in logs only.
    Detach,
}

#[derive(Debug, Clone, Copy, PartialEq, Eq, Structural)]
pub struct OutputSelection {
    pub stdout: bool,
    pub stderr: bool,
}

impl OutputSelection {
    pub fn both() -> (r: OutputSelection)
        ensures
            r == (OutputSelection { stdout: true, stderr: true }),
    {
        OutputSelection { stdout: true, stderr: true }
    }
}

#[derive(Debug, Clone, Copy, PartialEq, Eq, Structural)]
pub struct OperationExecutionOptions {
    pub mode: OperationMode,
    pub output: OutputSelection,
}

impl OperationExecutionOptions {
    /// Both streams in the given mode.
    pub open spec fn in_mode(mode: OperationMode) -> OperationExecutionOptions {
        OperationExecutionOptions { mode, output: OutputSelection { stdout: true, stderr: true } }
    }

    pub fn stream() -> (r: OperationExecutionOptions)
        ensures
            r == Self::in_mode(OperationMode::Stream),
    {
        OperationExecutionOptions { mode: OperationMode::Stream, output: OutputSelection::both() }
    }

    pub fn wait() -> (r: OperationExecutionOptions)
        ensures
            r == Self::in_mode(OperationMode::Wait),
    {
        OperationExecutionOptions { mode: OperationMode::Wait, output: OutputSelection::both() }
    }

    pub fn detach() -> (r: OperationExecutionOptions)
        ensures
            r == Self::in_mode(OperationMode::Detach),
    {
        OperationExecutionOptions { mode: OperationMode::Detach, output: OutputSelection::both() }
    }
}

/// How an execution ended.
#[derive(Debug, Clone, PartialEq, Eq)]
pub enum ExecutionOutcome {
    Streamed { exit_code: i32 },
    Captured { exit_code: i32, stdout: Option<Vec<u8>>, stderr: Option<Vec<u8>> },
    Detached { operation_id: String },
    Canceled { exit_code: i32 },
}

impl ExecutionOutcome {
    pub fn new(exit_code: i32) -> (r: ExecutionOutcome)
        ensures
            r == (ExecutionOutcome::Streamed { exit_code }),
    {
        ExecutionOutcome::Streamed { exit_code }
    }

    pub fn captured(exit_code: i32, stdout: Option<Vec<u8>>, stderr: Option<Vec<u8>>) -> (r:
        ExecutionOutcome)
        ensures
            r == (ExecutionOutcome::Captured { exit_code, stdout, stderr }),
    {
        ExecutionOutcome::Captured { exit_code, stdout, stderr }
    }

    pub fn detached(operation_id: String) -> (r: ExecutionOutcome)
        ensures
            r == (ExecutionOutcome::Detached { operation_id }),
    {
        ExecutionOutcome::Detached { operation_id }
    }

    /// The exit code of an execution that ended.
    pub open spec fn code(self) -> Option<i32> {
        match self {
            ExecutionOutcome::Streamed { exit_code } => Some(exit_code),
            ExecutionOutcome::Captured { exit_code, .. } => Some(exit_code),
            ExecutionOutcome::Canceled { exit_code } => Some(exit_code),
            ExecutionOutcome::Detached { .. } => None,
        }
    }

    /// The exit code, which an execution that goes on elsewhere does not have.
    pub fn exit_code(&self) -> (r: Option<i32>)
        ensures
            r == self.code(),
    {
        match self {
            ExecutionOutcome::Streamed { exit_code } => Some(*exit_code),
            ExecutionOutcome::Captured { exit_code, .. } => Some(*exit_code),
            ExecutionOutcome::Canceled { exit_code } => Some(*exit_code),
            ExecutionOutcome::Detached { .. } => None,
        }
    }
}

#[derive(Debug, Clone, PartialEq, Eq)]
pub struct StopResult {
    pub container: String,
    pub stopped: bool,
}

#[derive(Debug, Clone, PartialEq, Eq)]
pub struct RemoveResult {
    pub container: String,
    pub removed: bool,
}

// ---------------------------------------------------------------- launch variables

/// The types that a launch variable can have.
#[derive(Debug, Clone, Copy, PartialEq, Eq, Structural)]
pub enum LaunchVarType {
    String,
    Enum,
    Boolean,
    Number,
}

/// A default value as the configuration holds it.
#[derive(Debug, Clone, PartialEq, Eq)]
pub enum LaunchVarValue {
    String(String),
    Boolean(bool),
    Integer(i64),
    /// A number with a fraction or an exponent, in its canonical text.
    Float(String),
}

#[derive(Debug, Clone, PartialEq, Eq)]
pub struct LaunchVarConfig {
    pub var_type: LaunchVarType,
    pub required: bool,
    pub default: Option<LaunchVarValue>,
    pub values: Option<Vec<String>>,
    pub description: Option<String>,
}

/// A value of a launch variable.
#[derive(Debug, Clone, PartialEq, Eq)]
pub enum CanonicalLaunchVarValue {
    String(String),
    Boolean(bool),
    Number(String),
}

pub enum LaunchValue {
    Text(Seq<char>),
    Flag(bool),
    Numeral(Seq<char>),
}

impl View for CanonicalLaunchVarValue {
    type V = LaunchValue;

    open spec fn view(&self) -> LaunchValue {
        match self {
            CanonicalLaunchVarValue::String(s) => LaunchValue::Text(s@),
            CanonicalLaunchVarValue::Boolean(b) => LaunchValue::Flag(*b),
            CanonicalLaunchVarValue::Number(s) => LaunchValue::Numeral(s@),
        }
    }
}

/// What reading a text as a floating-point number gives.
#[derive(Debug, Clone, PartialEq, Eq)]
pub enum NumberReading {
    NotANumber,
    NotFinite,
    /// A finite number, in its canonical text.
    Finite(String),
}

pub open spec fn variable_fault(message: Seq<char>) -> OperationFault {
    (OperationErrorKind::InvalidLaunchVariable, plain(message))
}

/// A text that cannot be handed to a process.
pub open spec fn has_control(s: Seq<char>) -> bool {
    s.contains('\0') || s.contains('\n') || s.contains('\r')
}

/// A text without the plus signs at its front.
pub open spec fn without_plus(s: Seq<char>) -> Seq<char>
    decreases s.len(),
{
    if s.len() > 0 && s[0] == '+' {
        without_plus(s.skip(1))
    } else {
        s
    }
}

pub open spec fn fits_signed(s: Seq<char>) -> bool {
    signed_value(s) is Some && i64::MIN <= signed_value(s)->0 <= i64::MAX
}

/// The text of a number that was given as text: an integer stays as it was
/// written but for plus signs, anything else takes its canonical form.
pub open spec fn cli_number(raw: Seq<char>, canonical: Seq<char>) -> Seq<char> {
    if fits_signed(raw) {
        without_plus(raw)
    } else {
        canonical
    }
}

fn canonical_cli_number(raw: &str, canonical: &str) -> (r: String)
    ensures
        r@ == cli_number(raw@, canonical@),
{
    if !is_signed_number(raw) {
        return canonical.to_owned();
    }
    let n: usize = raw.unicode_len();
    let mut i: usize = 0;
    assert(raw@.skip(0) =~= raw@);
    while i < n && raw.get_char(i) == '+'
        invariant
            i <= n == raw@.len(),
            without_plus(raw@) == without_plus(raw@.skip(i as int)),
        decreases n - i,
    {
        assert(raw@.skip(i as int).skip(1) =~= raw@.skip(i + 1));
        i += 1;
    }
    let rest = raw.substring_char(i, n);
    assert(rest@ =~= raw@.skip(i as int));
    rest.to_owned()
}

pub open spec fn choices(values: Option<Vec<String>>) -> Seq<Seq<char>> {
    match values {
        Some(values) => texts(values@),
        None => Seq::empty(),
    }
}

/// A value turned into what the variable's type asks for, or why it cannot be.
pub open spec fn coerced(
    value: LaunchValue,
    name: Seq<char>,
    var: LaunchVarConfig,
    reading: NumberReading,
) -> Result<LaunchValue, OperationFault> {
    let no_control = variable_fault(
        "invalid launch variable "@ + quoted(name) + "; must not contain NUL, LF, or CR"@,
    );
    match var.var_type {
        LaunchVarType::String => match value {
            LaunchValue::Text(s) => if has_control(s) {
                Err(no_control)
            } else {
                Ok(LaunchValue::Text(s))
            },
            _ => Err(
                variable_fault(
                    "invalid string launch variable "@ + quoted(name) + "; expected string"@,
                ),
            ),
        },
        LaunchVarType::Enum => match value {
            LaunchValue::Text(s) => if has_control(s) {
                Err(no_control)
            } else if choices(var.values).contains(s) {
                Ok(LaunchValue::Text(s))
            } else {
                Err(
                    variable_fault(
                        "invalid enum launch variable "@ + quoted(name) + "; expected one of "@
                            + joined(choices(var.values), ", "@),
                    ),
                )
            },
            _ => Err(
                variable_fault(
                    "invalid enum launch variable "@ + quoted(name) + "; expected string"@,
                ),
            ),
        },
        LaunchVarType::Boolean => match value {
            LaunchValue::Flag(b) => Ok(LaunchValue::Flag(b)),
            LaunchValue::Text(s) if s == "true"@ || s == "false"@ => Ok(
                LaunchValue::Flag(s == "true"@),
            ),
            _ => Err(
                variable_fault(
                    "invalid boolean launch variable "@ + quoted(name)
                        + "; expected true or false"@,
                ),
            ),
        },
        LaunchVarType::Number => match value {
            LaunchValue::Numeral(s) => Ok(LaunchValue::Numeral(s)),
            LaunchValue::Text(s) => match reading {
                NumberReading::NotANumber => Err(
                    variable_fault("invalid number launch variable "@ + quoted(name)),
                ),
                NumberReading::NotFinite => Err(
                    variable_fault(
                        "invalid number launch variable "@ + quoted(name)
                            + "; expected finite number"@,
                    ),
                ),
                NumberReading::Finite(canonical) => Ok(
                    LaunchValue::Numeral(cli_number(s, canonical@)),
                ),
            },
            LaunchValue::Flag(_) => Err(
                variable_fault("invalid number launch variable "@ + quoted(name)),
            ),
        },
    }
}

fn is_choice(values: &Option<Vec<String>>, value: &str) -> (r: bool)
    ensures
        r == choices(*values).contains(value@),
{
    match values {
        Some(values) => list_has(values, value),
        None => false,
    }
}

fn listed_choices(values: &Option<Vec<String>>) -> (r: String)
    ensures
        r@ == joined(choices(*values), ", "@),
{
    match values {
        Some(values) => join(values, ", "),
        None => String::new(),
    }
}

/// The value that a configured default stands for.
pub open spec fn default_value(value: LaunchVarValue) -> LaunchValue {
    match value {
        LaunchVarValue::String(s) => LaunchValue::Text(s@),
        LaunchVarValue::Boolean(b) => LaunchValue::Flag(b),
        LaunchVarValue::Integer(n) => LaunchValue::Numeral(signed_decimal(n as int)),
        LaunchVarValue::Float(s) => LaunchValue::Numeral(s@),
    }
}

impl CanonicalLaunchVarValue {
    pub fn from_config_default(value: &LaunchVarValue) -> (r: CanonicalLaunchVarValue)
        ensures
            r@ == default_value(*value),
    {
        match value {
            LaunchVarValue::String(s) => CanonicalLaunchVarValue::String(s.clone()),
            LaunchVarValue::Boolean(b) => CanonicalLaunchVarValue::Boolean(*b),
            LaunchVarValue::Integer(n) => CanonicalLaunchVarValue::Number(signed_decimal_text(*n)),
            LaunchVarValue::Float(s) => CanonicalLaunchVarValue::Number(s.clone()),
        }
    }

    pub fn from_json_string(value: String) -> (r: CanonicalLaunchVarValue)
        ensures
            r == CanonicalLaunchVarValue::String(value),
    {
        CanonicalLaunchVarValue::String(value)
    }

    pub fn from_json_bool(value: bool) -> (r: CanonicalLaunchVarValue)
        ensures
            r == CanonicalLaunchVarValue::Boolean(value),
    {
        CanonicalLaunchVarValue::Boolean(value)
    }

    /// A JSON number: an integer in decimal, else the canonical text of a finite
    /// number.
    pub fn from_json_number(key: &str, integer: Option<i64>, float: &NumberReading) -> (r: Result<
        CanonicalLaunchVarValue,
        String,
    >)
        ensures
            match r {
                Ok(value) => value@ == LaunchValue::Numeral(
                    match integer {
                        Some(n) => signed_decimal(n as int),
                        None => float->Finite_0@,
                    },
                ),
                Err(message) => message@ == "invalid launch variable "@ + quoted(key@)
                    + ": number must be finite"@,
            },
            r is Ok <==> integer is Some || float is Finite,
    {
        if let Some(n) = integer {
            return Ok(CanonicalLaunchVarValue::Number(signed_decimal_text(n)));
        }
        match float {
            NumberReading::Finite(text) => Ok(CanonicalLaunchVarValue::Number(text.clone())),
            _ => Err(
                cat3(
                    "invalid launch variable ",
                    quote(key).as_str(),
                    ": number must be finite",
                ),
            ),
        }
    }

    /// Turns a value into what the variable's type asks for. `reading` is what
    /// the value's text gives as a floating-point number.
    pub fn coerce_for_config(&self, name: &str, var: &LaunchVarConfig, reading: &NumberReading) -> (r:
        Result<CanonicalLaunchVarValue, OperationError>)
        ensures
            op_outcome(r) == coerced(self@, name@, *var, *reading),
    {
        let quoted_name = quote(name);
        match var.var_type {
            LaunchVarType::String => match self {
                CanonicalLaunchVarValue::String(value) => {
                    if has_char(value.as_str(), '\0') || has_char(value.as_str(), '\n') || has_char(
                        value.as_str(),
                        '\r',
                    ) {
                        return Err(control_error(quoted_name.as_str()));
                    }
                    Ok(CanonicalLaunchVarValue::String(value.clone()))
                },
                _ => Err(
                    OperationError::invalid_launch_variable(
                        cat3(
                            "invalid string launch variable ",
                            quoted_name.as_str(),
                            "; expected string",
                        ).as_str(),
                    ),
                ),
            },
            LaunchVarType::Enum => match self {
                CanonicalLaunchVarValue::String(value) => {
                    if has_char(value.as_str(), '\0') || has_char(value.as_str(), '\n') || has_char(
                        value.as_str(),
                        '\r',
                    ) {
                        return Err(control_error(quoted_name.as_str()));
                    }
                    if is_choice(&var.values, value.as_str()) {
                        return Ok(CanonicalLaunchVarValue::String(value.clone()));
                    }
                    Err(
                        OperationError::invalid_launch_variable(
                            cat4(
                                "invalid enum launch variable ",
                                quoted_name.as_str(),
                                "; expected one of ",
                                listed_choices(&var.values).as_str(),
                            ).as_str(),
                        ),
                    )
                },
                _ => Err(
                    OperationError::invalid_launch_variable(
                        cat3(
                            "invalid enum launch variable ",
                            quoted_name.as_str(),
                            "; expected string",
                        ).as_str(),
                    ),
                ),
            },
            LaunchVarType::Boolean => {
                match self {
                    CanonicalLaunchVarValue::Boolean(value) => {
                        return Ok(CanonicalLaunchVarValue::Boolean(*value));
                    },
                    CanonicalLaunchVarValue::String(value) => {
                        if same(value.as_str(), "true") {
                            return Ok(CanonicalLaunchVarValue::Boolean(true));
                        }
                        if same(value.as_str(), "false") {
                            return Ok(CanonicalLaunchVarValue::Boolean(false));
                        }
                    },
                    CanonicalLaunchVarValue::Number(_) => {},
                }
                Err(
                    OperationError::invalid_launch_variable(
                        cat3(
                            "invalid boolean launch variable ",
                            quoted_name.as_str(),
                            "; expected true or false",
                        ).as_str(),
                    ),
                )
            },
            LaunchVarType::Number => match self {
                CanonicalLaunchVarValue::Number(value) => Ok(
                    CanonicalLaunchVarValue::Number(value.clone()),
                ),
                CanonicalLaunchVarValue::String(value) => match reading {
                    NumberReading::NotANumber => Err(
                        OperationError::invalid_launch_variable(
                            cat2("invalid number launch variable ", quoted_name.as_str()).as_str(),
                        ),
                    ),
                    NumberReading::NotFinite => Err(
                        OperationError::invalid_launch_variable(
                            cat3(
                                "invalid number launch variable ",
                                quoted_name.as_str(),
                                "; expected finite number",
                            ).as_str(),
                        ),
                    ),
                    NumberReading::Finite(canonical) => Ok(
                        CanonicalLaunchVarValue::Number(
                            canonical_cli_number(value.as_str(), canonical.as_str()),
                        ),
                    ),
                },
                CanonicalLaunchVarValue::Boolean(_) => Err(
                    OperationError::invalid_launch_variable(
                        cat2("invalid number launch variable ", quoted_name.as_str()).as_str(),
                    ),
                ),
            },
        }
    }

    /// The text that stands for the value in a template.
    pub fn rendered(&self) -> (r: String)
        ensures
            r@ == rendered_value(self@),
    {
        match self {
            CanonicalLaunchVarValue::String(s) => s.clone(),
            CanonicalLaunchVarValue::Number(s) => s.clone(),
            CanonicalLaunchVarValue::Boolean(b) => if *b {
                "true".to_owned()
            } else {
                "false".to_owned()
            },
        }
    }
}

pub open spec fn rendered_value(value: LaunchValue) -> Seq<char> {
    match value {
        LaunchValue::Text(s) => s,
        LaunchValue::Numeral(s) => s,
        LaunchValue::Flag(b) => if b {
            "true"@
        } else {
            "false"@
        },
    }
}

fn control_error(quoted_name: &str) -> (r: OperationError)
    ensures
        r@ == variable_fault(
            "invalid launch variable "@ + quoted_name@ + "; must not contain NUL, LF, or CR"@,
        ),
{
    OperationError::invalid_launch_variable(
        cat3(
            "invalid launch variable ",
            quoted_name,
            "; must not contain NUL, LF, or CR",
        ).as_str(),
    )
}

/// A value that a variable accepts is of the variable's type. A text has nothing
/// that cannot be handed to a process, and one of a few is one of them.
pub proof fn accepted_values_fit_their_variable(
    value: LaunchValue,
    name: Seq<char>,
    var: LaunchVarConfig,
    reading: NumberReading,
)
    ensures
        coerced(value, name, var, reading) matches Ok(accepted) ==> match var.var_type {
            LaunchVarType::String => accepted matches LaunchValue::Text(s) && !has_control(s),
            LaunchVarType::Enum => accepted matches LaunchValue::Text(s) && !has_control(s)
                && choices(var.values).contains(s),
            LaunchVarType::Boolean => accepted is Flag,
            LaunchVarType::Number => accepted is Numeral,
        },
{
}

/// A value that was coerced is left as it is by coercing it again.
pub proof fn coercion_is_idempotent(
    value: LaunchValue,
    name: Seq<char>,
    var: LaunchVarConfig,
    reading: NumberReading,
    again: NumberReading,
)
    requires
        coerced(value, name, var, reading) is Ok,
    ensures
        coerced(coerced(value, name, var, reading)->Ok_0, name, var, again) == coerced(
            value,
            name,
            var,
            reading,
        ),
{
}

/// The values that were given for a launch.
#[derive(Debug, Clone, PartialEq, Eq)]
pub struct SuppliedLaunchVars {
    pub values: TextMap<CanonicalLaunchVarValue>,
}

impl View for SuppliedLaunchVars {
    type V = Map<Seq<char>, LaunchValue>;

    open spec fn view(&self) -> Map<Seq<char>, LaunchValue> {
        self.values@
    }
}

/// What a list of `key=value` texts stands for, or what is wrong with the first
/// bad one.
pub open spec fn cli_vars(pairs: Seq<Seq<char>>) -> Result<
    Map<Seq<char>, LaunchValue>,
    OperationFault,
>
    decreases pairs.len(),
{
    if pairs.len() == 0 {
        Ok(Map::empty())
    } else {
        match cli_vars(pairs.drop_last()) {
            Err(fault) => Err(fault),
            Ok(vars) => match split_once_at(pairs.last(), '=') {
                None => Err(variable_fault("--var must be key=value"@)),
                Some((key, value)) => if vars.contains_key(key) {
                    Err(variable_fault("duplicate launch variable "@ + quoted(key)))
                } else {
                    Ok(vars.insert(key, LaunchValue::Text(value)))
                },
            },
        }
    }
}

proof fn cli_vars_error_stays(pairs: Seq<Seq<char>>, k: int)
    requires
        0 <= k <= pairs.len(),
        cli_vars(pairs.take(k)) is Err,
    ensures
        cli_vars(pairs) == cli_vars(pairs.take(k)),
    decreases pairs.len() - k,
{
    if k == pairs.len() {
        assert(pairs.take(k) =~= pairs);
    } else {
        assert(pairs.take(k + 1).drop_last() =~= pairs.take(k));
        cli_vars_error_stays(pairs, k + 1);
    }
}

impl SuppliedLaunchVars {
    pub fn new() -> (r: SuppliedLaunchVars)
        ensures
            r@ == Map::<Seq<char>, LaunchValue>::empty(),
    {
        SuppliedLaunchVars { values: TextMap::new() }
    }

    /// The values of `key=value` texts, none of which may name a key twice.
    pub fn from_cli_pairs(supplied: &Vec<String>) -> (r: Result<SuppliedLaunchVars, OperationError>)
        ensures
            op_outcome(r) == cli_vars(texts(supplied@)),
    {
        let ghost all = texts(supplied@);
        let mut vars = SuppliedLaunchVars::new();
        let mut i: usize = 0;
        while i < supplied.len()
            invariant
                i <= supplied.len(),
                all == texts(supplied@),
                cli_vars(all.take(i as int)) == Ok::<Map<Seq<char>, LaunchValue>, OperationFault>(
                    vars@,
                ),
            decreases supplied.len() - i,
        {
            let ghost next = all.take(i + 1);
            proof {
                assert(next.drop_last() =~= all.take(i as int));
                assert(next.last() == supplied@[i as int]@);
                if cli_vars(next) is Err {
                    cli_vars_error_stays(all, i + 1);
                }
            }
            match split_once(supplied[i].as_str(), '=') {
                None => {
                    return Err(OperationError::invalid_launch_variable("--var must be key=value"));
                },
                Some((key, value)) => {
                    if let Err(error) = vars.insert(
                        key.to_owned(),
                        CanonicalLaunchVarValue::String(value.to_owned()),
                    ) {
                        return Err(error);
                    }
                },
            }
            i += 1;
        }
        assert(all.take(i as int) =~= all);
        Ok(vars)
    }

    /// Adds a value. A key that is already there is refused.
    pub fn insert(&mut self, key: String, value: CanonicalLaunchVarValue) -> (r: Result<
        (),
        OperationError,
    >)
        ensures
            final(self)@ == old(self)@.insert(key@, value@),
            r is Err <==> old(self)@.contains_key(key@),
            r matches Err(error) ==> error@ == variable_fault(
                "duplicate launch variable "@ + quoted(key@),
            ),
    {
        let name = key.clone();
        if self.values.insert(key, value).is_some() {
            return Err(
                OperationError::invalid_launch_variable(
                    cat2("duplicate launch variable ", quote(name.as_str()).as_str()).as_str(),
                ),
            );
        }
        Ok(())
    }

    pub fn get(&self, key: &str) -> (r: Option<&CanonicalLaunchVarValue>)
        ensures
            match r {
                Some(value) => self@.contains_key(key@) && value@ == self@[key@],
                None => !self@.contains_key(key@),
            },
    {
        self.values.get(key)
    }

    /// The keys in their order.
    pub fn keys(&self) -> (r: Vec<String>)
        ensures
            texts(r@) == Seq::new(listing(self@).len(), |i: int| listing(self@)[i].0),
    {
        let ghost want = Seq::new(listing(self@).len(), |i: int| listing(self@)[i].0);
        let mut out: Vec<String> = Vec::new();
        let n: usize = self.values.len();
        let mut i: usize = 0;
        while i < n
            invariant
                i <= n == listing(self@).len(),
                want == Seq::new(listing(self@).len(), |i: int| listing(self@)[i].0),
                texts(out@) == want.take(i as int),
            decreases n - i,
        {
            let ghost before = texts(out@);
            let (key, _) = self.values.entry(i);
            out.push(key.clone());
            assert(texts(out@) =~= before.push(key@));
            assert(texts(out@) =~= want.take(i + 1));
            i += 1;
        }
        assert(want.take(i as int) =~= want);
        out
    }
}

/// Giving back what was given: a list of `key=value` texts with different keys
/// is accepted, and every key then has the text after its first `=`.
pub proof fn cli_pairs_are_kept(pairs: Seq<Seq<char>>, i: int)
    requires
        cli_vars(pairs) is Ok,
        0 <= i < pairs.len(),
    ensures
        split_once_at(pairs[i], '=') is Some,
        ({
            let (key, value) = split_once_at(pairs[i], '=')->0;
            cli_vars(pairs)->Ok_0.contains_key(key) && cli_vars(pairs)->Ok_0[key]
                == LaunchValue::Text(value)
        }),
    decreases pairs.len(),
{
    if i < pairs.len() - 1 {
        cli_pairs_are_kept(pairs.drop_last(), i);
        assert(pairs.drop_last()[i] == pairs[i]);
    }
}

// ---------------------------------------------------------------- launch arguments

/// Arguments that are handed on to a launch's command.
#[derive(Debug, Clone, PartialEq, Eq)]
pub struct LaunchPassthroughArgs {
    pub args: Vec<String>,
}

impl View for LaunchPassthroughArgs {
    type V = Seq<Seq<char>>;

    open spec fn view(&self) -> Seq<Seq<char>> {
        texts(self.args@)
    }
}

/// The arguments that are passed on to a launch.
pub open spec fn passthrough(args: Seq<Seq<char>>) -> Result<Seq<Seq<char>>, OperationFault> {
    if exists|i: int| 0 <= i < args.len() && (#[trigger] args[i]).len() == 0 {
        Err(
            (
                OperationErrorKind::InvalidLaunchArgs,
                plain("launch args must not contain empty strings"@),
            ),
        )
    } else {
        Ok(args)
    }
}

impl LaunchPassthroughArgs {
    pub fn new() -> (r: LaunchPassthroughArgs)
        ensures
            r@ == Seq::<Seq<char>>::empty(),
    {
        let r = LaunchPassthroughArgs { args: Vec::new() };
        assert(r@ =~= Seq::<Seq<char>>::empty());
        r
    }

    /// Takes arguments, none of which may be empty.
    pub fn from_strings(args: Vec<String>) -> (r: Result<LaunchPassthroughArgs, OperationError>)
        ensures
            op_outcome(r) == (if exists|i: int|
                0 <= i < args@.len() && (#[trigger] args@[i])@.len() == 0 {
                Err::<Seq<Seq<char>>, OperationFault>(
                    (
                        OperationErrorKind::InvalidLaunchArgs,
                        plain("launch args must not contain empty strings"@),
                    ),
                )
            } else {
                Ok(texts(args@))
            }),
            op_outcome(r) == passthrough(texts(args@)),
    {
        let mut i: usize = 0;
        while i < args.len()
            invariant
                i <= args.len(),
                forall|j: int| 0 <= j < i ==> (#[trigger] args@[j])@.len() != 0,
            decreases args.len() - i,
        {
            if args[i].as_str().unicode_len() == 0 {
                assert(texts(args@)[i as int].len() == 0);
                return Err(
                    OperationError::invalid_launch_args(
                        "launch args must not contain empty strings",
                    ),
                );
            }
            i += 1;
        }
        Ok(LaunchPassthroughArgs { args })
    }

    pub fn as_slice(&self) -> (r: &[String])
        ensures
            texts(r@) == self@,
    {
        self.args.as_slice()
    }
}

// ---------------------------------------------------------------- laws

/// A value is accepted exactly where its variable can have it: a text without
/// control characters, one of the choices, a truth value or its name, a number or
/// the text of a finite one. What is refused is refused as a launch variable.
pub proof fn values_are_accepted_by_type(
    value: LaunchValue,
    name: Seq<char>,
    var: LaunchVarConfig,
    reading: NumberReading,
)
    ensures
        ({
            let r = coerced(value, name, var, reading);
            let clean = value matches LaunchValue::Text(s) && !s.contains('\0') && !s.contains('\n')
                && !s.contains('\r');
            &&& var.var_type == LaunchVarType::String ==> (r is Ok <==> clean)
            &&& var.var_type == LaunchVarType::Enum ==> (r is Ok <==> clean && (var.values matches
                Some(allowed) && texts(allowed@).contains(value->Text_0)))
            &&& var.var_type == LaunchVarType::Boolean ==> (r is Ok <==> value is Flag || value
                == LaunchValue::Text("true"@) || value == LaunchValue::Text("false"@))
            &&& var.var_type == LaunchVarType::Number ==> (r is Ok <==> value is Numeral || value
                is Text && reading is Finite)
            &&& r matches Err(fault) ==> fault.0 == OperationErrorKind::InvalidLaunchVariable
        }),
{
}

/// An accepted value stands for what was given: it is written as it was given, but
/// for a number that was given as text, which is then the same number.
pub proof fn accepted_values_are_as_given(
    value: LaunchValue,
    name: Seq<char>,
    var: LaunchVarConfig,
    reading: NumberReading,
)
    ensures
        coerced(value, name, var, reading) matches Ok(accepted) ==> {
            &&& var.var_type != LaunchVarType::Number || value is Numeral ==> rendered_value(accepted)
                == rendered_value(value)
            &&& var.var_type == LaunchVarType::Number ==> (value matches LaunchValue::Text(s) ==> (
            reading matches NumberReading::Finite(canonical) ==> {
                &&& fits_signed(s) ==> signed_value(rendered_value(accepted)) == signed_value(s)
                &&& !fits_signed(s) ==> rendered_value(accepted) == canonical@
            }))
        },
{
    reveal_strlit("true");
    reveal_strlit("false");
    assert("true"@.len() == 4 && "false"@.len() == 5);
    if let LaunchValue::Text(s) = value {
        if fits_signed(s) {
            let body = s.skip(1);
            if s[0] == '+' {
                assert(all_digits(body));
                assert(is_digit(body[0]));
                assert(without_plus(s) == without_plus(body));
                assert(without_plus(body) == body);
                assert(signed_value(body) == signed_value(s));
            } else {
                assert(without_plus(s) == s);
            }
        }
    }
}

/// Truth values are written by their names, defaults as the configuration has
/// them.
pub proof fn values_are_written_plainly(flag: bool, default: LaunchVarValue)
    ensures
        rendered_value(LaunchValue::Flag(true)) == "true"@,
        rendered_value(LaunchValue::Flag(false)) == "false"@,
        match default {
            LaunchVarValue::String(s) => default_value(default) == LaunchValue::Text(s@),
            LaunchVarValue::Boolean(b) => default_value(default) == LaunchValue::Flag(b),
            LaunchVarValue::Integer(n) => default_value(default) is Numeral && rendered_value(
                default_value(default),
            ) == signed_decimal(n as int),
            LaunchVarValue::Float(s) => default_value(default) is Numeral && rendered_value(
                default_value(default),
            ) == s@,
        },
{
}

/// The key of a `key=value` text.
pub open spec fn key_of(pair: Seq<char>) -> Option<Seq<char>> {
    match split_once_at(pair, '=') {
        Some((key, _)) => Some(key),
        None => None,
    }
}

/// Pairs are accepted exactly where each has a key and no two have the same; they
/// then give no other variable.
pub proof fn cli_pairs_are_all_there_is(pairs: Seq<Seq<char>>)
    ensures
        cli_vars(pairs) is Ok <==> {
            &&& forall|i: int|
                0 <= i < pairs.len() ==> key_of(#[trigger] pairs[i]) is Some
            &&& forall|i: int, j: int|
                0 <= i < j < pairs.len() ==> key_of(#[trigger] pairs[i])
                    != key_of(#[trigger] pairs[j])
        },
        cli_vars(pairs) matches Ok(vars) ==> forall|key: Seq<char>| #[trigger]
            vars.contains_key(key) ==> exists|i: int|
                0 <= i < pairs.len() && key_of(#[trigger] pairs[i]) == Some(key),
    decreases pairs.len(),
{
    if pairs.len() > 0 {
        let front = pairs.drop_last();
        let n = front.len() as int;
        cli_pairs_are_all_there_is(front);
        assert forall|i: int| 0 <= i < n implies #[trigger] front[i] == pairs[i] by {}
        assert(pairs[n] == pairs.last());
        let sound = forall|i: int|
            0 <= i < pairs.len() ==> key_of(#[trigger] pairs[i]) is Some;
        let apart = forall|i: int, j: int|
            0 <= i < j < pairs.len() ==> key_of(#[trigger] pairs[i])
                != key_of(#[trigger] pairs[j]);
        if cli_vars(pairs) is Ok {
            assert forall|i: int| 0 <= i < pairs.len() implies key_of(#[trigger] pairs[i]) is Some by {
                cli_pairs_are_kept(pairs, i);
            }
            assert forall|i: int, j: int| 0 <= i < j < pairs.len() implies key_of(#[trigger] pairs[i]) != key_of(#[trigger] pairs[j]) by {
                assert(front[i] == pairs[i]);
                if j < n {
                    assert(front[j] == pairs[j]);
                } else {
                    cli_pairs_are_kept(front, i);
                }
            }
            let vars = cli_vars(pairs)->Ok_0;
            assert forall|key: Seq<char>| #[trigger] vars.contains_key(key) implies exists|i: int|
                0 <= i < pairs.len() && key_of(#[trigger] pairs[i]) == Some(key) by {
                if cli_vars(front)->Ok_0.contains_key(key) {
                    let i = choose|i: int|
                        0 <= i < front.len() && key_of(#[trigger] front[i]) == Some(key);
                    assert(pairs[i] == front[i]);
                } else {
                    assert(key_of(pairs[n]) == Some(key));
                }
            }
        }
        if sound && apart {
            assert forall|i: int| 0 <= i < front.len() implies key_of(#[trigger] front[i]) is Some by {
                assert(key_of(pairs[i]) is Some);
            }
            assert forall|i: int, j: int| 0 <= i < j < front.len() implies key_of(#[trigger] front[i]) != key_of(#[trigger] front[j]) by {
                assert(key_of(pairs[i]) != key_of(pairs[j]));
            }
            assert(cli_vars(front) is Ok);
            let key = key_of(pairs[n])->0;
            if cli_vars(front)->Ok_0.contains_key(key) {
                let i = choose|i: int|
                    0 <= i < front.len() && key_of(#[trigger] front[i]) == Some(key);
                assert(pairs[i] == front[i]);
            }
        }
    }
}

/// What a failure is reported as: an agent that was not ready before a container
/// that was not found, and that before labels that did not match. What is none of
/// these is a failure of the operation.
pub proof fn failures_are_reported_by_kind(chain: Chain)
    ensures
        ({
            let agent = has_kind(chain, FailureKind::AgentNotReady);
            let missing = has_kind(chain, FailureKind::ContainerNotFound);
            let label = has_kind(chain, FailureKind::GatewayLabel);
            let class = failure_class(chain);
            &&& class == OperationErrorKind::AgentNotReady <==> agent
            &&& class == OperationErrorKind::ContainerNotFound <==> missing && !agent
            &&& class == OperationErrorKind::ContainerLabelMismatch <==> label && !missing && !agent
            &&& class == OperationErrorKind::OperationFailed <==> !label && !missing && !agent
        }),
{
}

/// Unless something else is asked for, both streams are answered.
pub proof fn modes_answer_both_streams(mode: OperationMode)
    ensures
        OperationExecutionOptions::in_mode(mode).mode == mode,
        OperationExecutionOptions::in_mode(mode).output.stdout,
        OperationExecutionOptions::in_mode(mode).output.stderr,
{
}

/// An execution has the exit code that it ended with; only one that goes on
/// elsewhere has none.
pub proof fn executions_have_their_exit_code(outcome: ExecutionOutcome)
    ensures
        outcome.code() is None <==> outcome is Detached,
        outcome matches ExecutionOutcome::Streamed { exit_code } ==> outcome.code() == Some(
            exit_code,
        ),
        outcome matches ExecutionOutcome::Captured { exit_code, .. } ==> outcome.code() == Some(
            exit_code,
        ),
        outcome matches ExecutionOutcome::Canceled { exit_code } ==> outcome.code() == Some(
            exit_code,
        ),
{
}

/// Arguments are passed on as they are, unless one of them is empty.
pub proof fn arguments_are_passed_on(args: Seq<Seq<char>>)
    ensures
        passthrough(args) is Ok <==> forall|i: int|
            0 <= i < args.len() ==> (#[trigger] args[i]).len() > 0,
        passthrough(args) matches Ok(kept) ==> kept == args,
        passthrough(args) matches Err(fault) ==> fault.0 == OperationErrorKind::InvalidLaunchArgs,
{
}

/// An error is seen as what it is: of its own kind, with its message, or with
/// everything that the failure behind it says.
pub proof fn errors_are_seen_as_they_are(error: OperationError)
    ensures
        error matches OperationError::InvalidRequest { message } ==> error@.0
            == OperationErrorKind::InvalidRequest && error@.1 == plain(message@),
        error matches OperationError::DisabledAction { message } ==> error@.0
            == OperationErrorKind::DisabledAction && error@.1 == plain(message@),
        error matches OperationError::UnknownLaunch { message } ==> error@.0
            == OperationErrorKind::UnknownLaunch && error@.1 == plain(message@),
        error matches OperationError::InvalidLaunchVariable { message } ==> error@.0
            == OperationErrorKind::InvalidLaunchVariable && error@.1 == plain(message@),
        error matches OperationError::InvalidLaunchArgs { message } ==> error@.0
            == OperationErrorKind::InvalidLaunchArgs && error@.1 == plain(message@),
        error matches OperationError::InvalidSession { message } ==> error@.0
            == OperationErrorKind::InvalidSession && error@.1 == plain(message@),
        error matches OperationError::AgentNotReady { source } ==> error@.0
            == OperationErrorKind::AgentNotReady && error@.1 == source@,
        error matches OperationError::ContainerNotFound { source } ==> error@.0
            == OperationErrorKind::ContainerNotFound && error@.1 == source@,
        error matches OperationError::ContainerLabelMismatch { source } ==> error@.0
            == OperationErrorKind::ContainerLabelMismatch && error@.1 == source@,
        error matches OperationError::OperationFailed { source } ==> error@.0
            == OperationErrorKind::OperationFailed && error@.1 == source@,
{
}

} // verus!
