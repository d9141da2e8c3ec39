//! Operations as they are asked for.

use crate::config::LocalSshMode;
use crate::failure::{plain, refusal, unless, Chain, Failure};
use crate::gateway::ops::types::{
    failure_class, op_outcome, LaunchPassthroughArgs, LaunchValue, OperationError,
    OperationErrorKind, OperationExecutionOptions, OperationFault, OperationMode,
    SuppliedLaunchVars,
};
use crate::text::{cat2, opt_text, quote, quoted, texts};
use vstd::prelude::*;

verus! {

/// Something that the gateway is asked to do.
#[derive(Debug, Clone, PartialEq, Eq)]
pub enum GatewayOperation {
    Targets,
    Status { target: Option<String>, session_id: Option<String> },
    StatusAll,
    Up { target: Option<String>, session_id: Option<String> },
    Run {
        target: Option<String>,
        session_id: Option<String>,
        cwd: Option<String>,
        command: Vec<String>,
        options: OperationExecutionOptions,
    },
    Launches,
    LaunchShow { name: String },
    Launch {
        name: String,
        session_id: Option<String>,
        vars: SuppliedLaunchVars,
        args: LaunchPassthroughArgs,
        options: OperationExecutionOptions,
    },
    Stop { target: Option<String>, session_id: Option<String> },
    Remove { target: Option<String>, session_id: Option<String> },
    SetDefault { target_or_image: String },
    ShowDefault,
    ResetDefault,
    ClientConfig { target: Option<String>, identity_file: Option<String> },
}

/// The model of an operation.
pub enum OperationModel {
    Targets,
    Status { target: Option<Seq<char>>, session_id: Option<Seq<char>> },
    StatusAll,
    Up { target: Option<Seq<char>>, session_id: Option<Seq<char>> },
    Run {
        target: Option<Seq<char>>,
        session_id: Option<Seq<char>>,
        cwd: Option<Seq<char>>,
        command: Seq<Seq<char>>,
        options: OperationExecutionOptions,
    },
    Launches,
    LaunchShow { name: Seq<char> },
    Launch {
        name: Seq<char>,
        session_id: Option<Seq<char>>,
        vars: Map<Seq<char>, LaunchValue>,
        args: Seq<Seq<char>>,
        options: OperationExecutionOptions,
    },
    Stop { target: Option<Seq<char>>, session_id: Option<Seq<char>> },
    Remove { target: Option<Seq<char>>, session_id: Option<Seq<char>> },
    SetDefault { target_or_image: Seq<char> },
    ShowDefault,
    ResetDefault,
    ClientConfig { target: Option<Seq<char>>, identity_file: Option<Seq<char>> },
}

impl View for GatewayOperation {
    type V = OperationModel;

    open spec fn view(&self) -> OperationModel {
        match self {
            GatewayOperation::Targets => OperationModel::Targets,
            GatewayOperation::Status { target, session_id } => OperationModel::Status {
                target: opt_text(*target),
                session_id: opt_text(*session_id),
            },
            GatewayOperation::StatusAll => OperationModel::StatusAll,
            GatewayOperation::Up { target, session_id } => OperationModel::Up {
                target: opt_text(*target),
                session_id: opt_text(*session_id),
            },
            GatewayOperation::Run { target, session_id, cwd, command, options } => {
                OperationModel::Run {
                    target: opt_text(*target),
                    session_id: opt_text(*session_id),
                    cwd: opt_text(*cwd),
                    command: texts(command@),
                    options: *options,
                }
            },
            GatewayOperation::Launches => OperationModel::Launches,
            GatewayOperation::LaunchShow { name } => OperationModel::LaunchShow { name: name@ },
            GatewayOperation::Launch { name, session_id, vars, args, options } => {
                OperationModel::Launch {
                    name: name@,
                    session_id: opt_text(*session_id),
                    vars: vars@,
                    args: args@,
                    options: *options,
                }
            },
            GatewayOperation::Stop { target, session_id } => OperationModel::Stop {
                target: opt_text(*target),
                session_id: opt_text(*session_id),
            },
            GatewayOperation::Remove { target, session_id } => OperationModel::Remove {
                target: opt_text(*target),
                session_id: opt_text(*session_id),
            },
            GatewayOperation::SetDefault { target_or_image } => OperationModel::SetDefault {
                target_or_image: target_or_image@,
            },
            GatewayOperation::ShowDefault => OperationModel::ShowDefault,
            GatewayOperation::ResetDefault => OperationModel::ResetDefault,
            GatewayOperation::ClientConfig { target, identity_file } => {
                OperationModel::ClientConfig {
                    target: opt_text(*target),
                    identity_file: opt_text(*identity_file),
                }
            },
        }
    }
}

// ---------------------------------------------------------------- command lines

#[derive(Debug, Clone)]
pub struct TargetsArgs {
    pub json: bool,
}

#[derive(Debug, Clone)]
pub struct StatusArg {
    pub target: Option<String>,
    pub all: bool,
    pub json: bool,
    pub session_id: Option<String>,
}

#[derive(Debug, Clone)]
pub struct RunArgs {
    pub target: Option<String>,
    pub session_id: Option<String>,
    pub cwd: Option<String>,
    pub command: Vec<String>,
}

#[derive(Debug, Clone)]
pub struct LaunchesArgs {
    pub json: bool,
}

#[derive(Debug, Clone)]
pub struct LaunchShowArgs {
    pub name: String,
    pub json: bool,
}

#[derive(Debug, Clone)]
pub struct StopArgs {
    pub target: Option<String>,
    pub session_id: Option<String>,
}

#[derive(Debug, Clone)]
pub struct RemoveArgs {
    pub target: Option<String>,
    pub session_id: Option<String>,
}

#[derive(Debug, Clone)]
pub struct SetDefaultArgs {
    pub target_or_image: Option<String>,
    pub reset: bool,
}

#[derive(Debug, Clone)]
pub struct ClientConfigArgs {
    pub target: Option<String>,
    pub identity_file: Option<String>,
}

impl StatusArg {
    /// What the command line asks for.
    pub open spec fn asked(self) -> OperationModel {
        if self.all {
            OperationModel::StatusAll
        } else {
            OperationModel::Status {
                target: opt_text(self.target),
                session_id: opt_text(self.session_id),
            }
        }
    }
}

impl RunArgs {
    /// What the command line asks for.
    pub open spec fn asked(self) -> Result<OperationModel, OperationFault> {
        if self.command@.len() == 0 {
            Err(
                (
                    OperationErrorKind::InvalidRequest,
                    plain(
                        "run requires -- followed by a command; use up to start or hold a target"@,
                    ),
                ),
            )
        } else {
            Ok(
                OperationModel::Run {
                    target: opt_text(self.target),
                    session_id: opt_text(self.session_id),
                    cwd: opt_text(self.cwd),
                    command: texts(self.command@),
                    options: OperationExecutionOptions::in_mode(OperationMode::Stream),
                },
            )
        }
    }
}

impl StopArgs {
    /// What the command line asks for.
    pub open spec fn asked(self) -> OperationModel {
        OperationModel::Stop {
            target: opt_text(self.target),
            session_id: opt_text(self.session_id),
        }
    }
}

impl RemoveArgs {
    /// What the command line asks for.
    pub open spec fn asked(self) -> OperationModel {
        OperationModel::Remove {
            target: opt_text(self.target),
            session_id: opt_text(self.session_id),
        }
    }
}

impl SetDefaultArgs {
    /// What the command line asks for.
    pub open spec fn asked(self) -> Result<OperationModel, OperationFault> {
        if self.reset {
            Ok(OperationModel::ResetDefault)
        } else {
            match self.target_or_image {
                Some(name) => Ok(OperationModel::SetDefault { target_or_image: name@ }),
                None => Err(
                    (
                        OperationErrorKind::InvalidRequest,
                        plain("target or image is required unless --reset is used"@),
                    ),
                ),
            }
        }
    }
}

impl ClientConfigArgs {
    /// What the command line asks for.
    pub open spec fn asked(self) -> OperationModel {
        OperationModel::ClientConfig {
            target: opt_text(self.target),
            identity_file: opt_text(self.identity_file),
        }
    }
}

impl GatewayOperation {
    pub fn from_targets_args(_args: TargetsArgs) -> (r: GatewayOperation)
        ensures
            r@ == OperationModel::Targets,
    {
        GatewayOperation::Targets
    }

    /// The status of one target, or of all containers.
    pub fn from_status_args(args: StatusArg) -> (r: GatewayOperation)
        ensures
            r@ == args.asked(),
    {
        if args.all {
            GatewayOperation::StatusAll
        } else {
            GatewayOperation::Status { target: args.target, session_id: args.session_id }
        }
    }

    /// A command in a target, which must not be empty.
    pub fn from_run_args(args: RunArgs) -> (r: Result<GatewayOperation, OperationError>)
        ensures
            op_outcome(r) == args.asked(),
    {
        if args.command.len() == 0 {
            return Err(
                OperationError::invalid_request(
                    "run requires -- followed by a command; use up to start or hold a target",
                ),
            );
        }
        Ok(
            GatewayOperation::Run {
                target: args.target,
                session_id: args.session_id,
                cwd: args.cwd,
                command: args.command,
                options: OperationExecutionOptions::stream(),
            },
        )
    }

    pub fn from_launches_args(_args: LaunchesArgs) -> (r: GatewayOperation)
        ensures
            r@ == OperationModel::Launches,
    {
        GatewayOperation::Launches
    }

    pub fn from_launch_show_args(args: LaunchShowArgs) -> (r: GatewayOperation)
        ensures
            r@ == (OperationModel::LaunchShow { name: args.name@ }),
    {
        GatewayOperation::LaunchShow { name: args.name }
    }

    pub fn launch_run(
        name: String,
        session_id: Option<String>,
        vars: SuppliedLaunchVars,
        args: LaunchPassthroughArgs,
    ) -> (r: GatewayOperation)
        ensures
            r@ == (OperationModel::Launch {
                name: name@,
                session_id: opt_text(session_id),
                vars: vars@,
                args: args@,
                options: OperationExecutionOptions::in_mode(OperationMode::Stream),
            }),
    {
        GatewayOperation::Launch {
            name,
            session_id,
            vars,
            args,
            options: OperationExecutionOptions::stream(),
        }
    }

    pub fn from_stop_args(args: StopArgs) -> (r: GatewayOperation)
        ensures
            r@ == args.asked(),
    {
        GatewayOperation::Stop { target: args.target, session_id: args.session_id }
    }

    pub fn from_remove_args(args: RemoveArgs) -> (r: GatewayOperation)
        ensures
            r@ == args.asked(),
    {
        GatewayOperation::Remove { target: args.target, session_id: args.session_id }
    }

    /// A new default, or none. Resetting wins over a name.
    pub fn from_set_default_args(args: SetDefaultArgs) -> (r: Result<
        GatewayOperation,
        OperationError,
    >)
        ensures
            op_outcome(r) == args.asked(),
    {
        if args.reset {
            return Ok(GatewayOperation::ResetDefault);
        }
        match args.target_or_image {
            Some(target_or_image) => Ok(GatewayOperation::SetDefault { target_or_image }),
            None => Err(
                OperationError::invalid_request(
                    "target or image is required unless --reset is used",
                ),
            ),
        }
    }

    pub fn from_client_config_args(args: ClientConfigArgs) -> (r: GatewayOperation)
        ensures
            r@ == args.asked(),
    {
        GatewayOperation::ClientConfig { target: args.target, identity_file: args.identity_file }
    }
}

// ---------------------------------------------------------------- dispatch

/// What an operation answers with.
#[derive(Debug, Clone, Copy, PartialEq, Eq, Structural)]
pub enum ResultKind {
    Targets,
    Status,
    StatusAll,
    Up,
    Run,
    Launches,
    LaunchShow,
    Launch,
    Stop,
    Remove,
    DefaultSelection,
    ClientConfig,
}

pub open spec fn answers_with(operation: OperationModel) -> ResultKind {
    match operation {
        OperationModel::Targets => ResultKind::Targets,
        OperationModel::Status { .. } => ResultKind::Status,
        OperationModel::StatusAll => ResultKind::StatusAll,
        OperationModel::Up { .. } => ResultKind::Up,
        OperationModel::Run { .. } => ResultKind::Run,
        OperationModel::Launches => ResultKind::Launches,
        OperationModel::LaunchShow { .. } => ResultKind::LaunchShow,
        OperationModel::Launch { .. } => ResultKind::Launch,
        OperationModel::Stop { .. } => ResultKind::Stop,
        OperationModel::Remove { .. } => ResultKind::Remove,
        OperationModel::SetDefault { .. } => ResultKind::DefaultSelection,
        OperationModel::ShowDefault => ResultKind::DefaultSelection,
        OperationModel::ResetDefault => ResultKind::DefaultSelection,
        OperationModel::ClientConfig { .. } => ResultKind::ClientConfig,
    }
}

impl GatewayOperation {
    pub fn result_kind(&self) -> (r: ResultKind)
        ensures
            r == answers_with(self@),
    {
        match self {
            GatewayOperation::Targets => ResultKind::Targets,
            GatewayOperation::Status { .. } => ResultKind::Status,
            GatewayOperation::StatusAll => ResultKind::StatusAll,
            GatewayOperation::Up { .. } => ResultKind::Up,
            GatewayOperation::Run { .. } => ResultKind::Run,
            GatewayOperation::Launches => ResultKind::Launches,
            GatewayOperation::LaunchShow { .. } => ResultKind::LaunchShow,
            GatewayOperation::Launch { .. } => ResultKind::Launch,
            GatewayOperation::Stop { .. } => ResultKind::Stop,
            GatewayOperation::Remove { .. } => ResultKind::Remove,
            GatewayOperation::SetDefault { .. } => ResultKind::DefaultSelection,
            GatewayOperation::ShowDefault => ResultKind::DefaultSelection,
            GatewayOperation::ResetDefault => ResultKind::DefaultSelection,
            GatewayOperation::ClientConfig { .. } => ResultKind::ClientConfig,
        }
    }

    /// Whether the operation can be canceled while it runs: only executions can.
    pub fn is_cancelable(&self) -> (r: bool)
        ensures
            r == (answers_with(self@) == ResultKind::Run || answers_with(self@)
                == ResultKind::Launch),
    {
        match self {
            GatewayOperation::Run { .. } => true,
            GatewayOperation::Launch { .. } => true,
            _ => false,
        }
    }
}

/// Looks a launch up: one that is not configured is unknown, and one whose
/// configuration does not hold together fails with what is wrong with it.
pub fn lookup_launch<T>(configured: bool, name: &str, effective: Result<T, Failure>) -> (r: Result<
    T,
    OperationError,
>)
    ensures
        match r {
            Ok(launch) => configured && effective == Ok::<T, Failure>(launch),
            Err(error) => if !configured {
                error@ == (
                    OperationErrorKind::UnknownLaunch,
                    plain("unknown launch "@ + quoted(name@)),
                )
            } else {
                effective is Err && error@ == (
                    failure_class(effective->Err_0@),
                    effective->Err_0@,
                )
            },
        },
        r is Ok <==> configured && effective is Ok,
{
    if !configured {
        return Err(
            OperationError::unknown_launch(
                cat2("unknown launch ", quote(name).as_str()).as_str(),
            ),
        );
    }
    match effective {
        Ok(launch) => Ok(launch),
        Err(failure) => Err(OperationError::operation_failed(failure)),
    }
}

/// Why a target is not brought up over SSH.
pub open spec fn listen_up_fault(local_ssh: Option<LocalSshMode>) -> Option<Chain> {
    unless(
        local_ssh != Some(LocalSshMode::Listen),
        "gateway action \"up\" over SSH is not supported for local_ssh.mode = \"listen\" targets; use connect or run aw-gateway up locally"@,
    )
}

/// Refuses to bring a target up over SSH that listens for local clients.
pub fn reject_listen_up(local_ssh: Option<LocalSshMode>) -> (r: Result<(), Failure>)
    ensures
        refusal(r) == listen_up_fault(local_ssh),
{
    if let Some(mode) = local_ssh {
        if mode == LocalSshMode::Listen {
            return Err(
                Failure::msg(
                    "gateway action \"up\" over SSH is not supported for local_ssh.mode = \"listen\" targets; use connect or run aw-gateway up locally",
                ),
            );
        }
    }
    Ok(())
}

/// A command line asks for the operation of its name, on the target and in the
/// session that it names. A command is run as it stands, with its output passed
/// on; without a command there is nothing to run. A new default needs a name,
/// unless the default is reset, which counts first.
pub proof fn command_lines_ask_for_their_operations(
    status: StatusArg,
    run: RunArgs,
    stop: StopArgs,
    remove: RemoveArgs,
    default: SetDefaultArgs,
    client: ClientConfigArgs,
)
    ensures
        status.all ==> status.asked() is StatusAll,
        !status.all ==> (status.asked() matches OperationModel::Status { target, session_id }
            && target == opt_text(status.target) && session_id == opt_text(status.session_id)),
        run.asked() is Ok <==> run.command@.len() > 0,
        run.asked() matches Ok(operation) ==> (operation matches OperationModel::Run {
            target,
            session_id,
            cwd,
            command,
            options,
        } && target == opt_text(run.target) && session_id == opt_text(run.session_id) && cwd
            == opt_text(run.cwd) && command == texts(run.command@) && options.mode
            == OperationMode::Stream),
        run.asked() matches Err(fault) ==> fault.0 == OperationErrorKind::InvalidRequest,
        stop.asked() matches OperationModel::Stop { target, session_id } && target == opt_text(
            stop.target,
        ) && session_id == opt_text(stop.session_id),
        remove.asked() matches OperationModel::Remove { target, session_id } && target == opt_text(
            remove.target,
        ) && session_id == opt_text(remove.session_id),
        default.reset ==> default.asked() == Ok::<OperationModel, OperationFault>(
            OperationModel::ResetDefault,
        ),
        !default.reset ==> (default.target_or_image matches Some(name) ==> (
        default.asked() matches Ok(OperationModel::SetDefault { target_or_image })
            && target_or_image == name@)),
        default.asked() is Err <==> !default.reset && default.target_or_image is None,
        default.asked() matches Err(fault) ==> fault.0 == OperationErrorKind::InvalidRequest,
        client.asked() matches OperationModel::ClientConfig { target, identity_file } && target
            == opt_text(client.target) && identity_file == opt_text(client.identity_file),
{
}

/// An operation is seen as what it is, with the target and the session that it
/// names and with everything else that was asked for.
pub proof fn operations_are_seen_as_they_are(operation: GatewayOperation)
    ensures
        operation is Targets <==> operation@ is Targets,
        operation is StatusAll <==> operation@ is StatusAll,
        operation is Launches <==> operation@ is Launches,
        operation is ShowDefault <==> operation@ is ShowDefault,
        operation is ResetDefault <==> operation@ is ResetDefault,
        operation matches GatewayOperation::Status { target, session_id } ==> operation@ == (
        OperationModel::Status { target: opt_text(target), session_id: opt_text(session_id) }),
        operation matches GatewayOperation::Up { target, session_id } ==> operation@ == (
        OperationModel::Up { target: opt_text(target), session_id: opt_text(session_id) }),
        operation matches GatewayOperation::Stop { target, session_id } ==> operation@ == (
        OperationModel::Stop { target: opt_text(target), session_id: opt_text(session_id) }),
        operation matches GatewayOperation::Remove { target, session_id } ==> operation@ == (
        OperationModel::Remove { target: opt_text(target), session_id: opt_text(session_id) }),
        operation matches GatewayOperation::Run { target, session_id, cwd, command, options }
            ==> operation@ == (OperationModel::Run {
            target: opt_text(target),
            session_id: opt_text(session_id),
            cwd: opt_text(cwd),
            command: texts(command@),
            options,
        }),
        operation matches GatewayOperation::LaunchShow { name } ==> operation@ == (
        OperationModel::LaunchShow { name: name@ }),
        operation matches GatewayOperation::Launch { name, session_id, vars, args, options }
            ==> operation@ == (OperationModel::Launch {
            name: name@,
            session_id: opt_text(session_id),
            vars: vars@,
            args: args@,
            options,
        }),
        operation matches GatewayOperation::SetDefault { target_or_image } ==> operation@ == (
        OperationModel::SetDefault { target_or_image: target_or_image@ }),
        operation matches GatewayOperation::ClientConfig { target, identity_file } ==> operation@
            == (OperationModel::ClientConfig {
            target: opt_text(target),
            identity_file: opt_text(identity_file),
        }),
{
}

/// Every operation is answered with what it asks for: two operations are answered
/// alike only where they are of one name, or both are about the default.
pub proof fn answers_are_to_the_question(operation: OperationModel)
    ensures
        answers_with(operation) == ResultKind::Targets <==> operation is Targets,
        answers_with(operation) == ResultKind::Status <==> operation is Status,
        answers_with(operation) == ResultKind::StatusAll <==> operation is StatusAll,
        answers_with(operation) == ResultKind::Up <==> operation is Up,
        answers_with(operation) == ResultKind::Run <==> operation is Run,
        answers_with(operation) == ResultKind::Launches <==> operation is Launches,
        answers_with(operation) == ResultKind::LaunchShow <==> operation is LaunchShow,
        answers_with(operation) == ResultKind::Launch <==> operation is Launch,
        answers_with(operation) == ResultKind::Stop <==> operation is Stop,
        answers_with(operation) == ResultKind::Remove <==> operation is Remove,
        answers_with(operation) == ResultKind::ClientConfig <==> operation is ClientConfig,
        answers_with(operation) == ResultKind::DefaultSelection <==> operation is SetDefault
            || operation is ShowDefault || operation is ResetDefault,
{
}

/// Over SSH a target is brought up unless it listens for local clients itself.
pub proof fn listening_targets_are_brought_up_locally(local_ssh: Option<LocalSshMode>)
    ensures
        listen_up_fault(local_ssh) is Some <==> (local_ssh matches Some(mode) && mode is Listen),
{
}

} // verus!
