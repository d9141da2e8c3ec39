//! Operations that come as actions of an SSH session.

use crate::gateway::ops::request::{GatewayOperation, OperationModel};
use crate::gateway::ops::types::{
    cli_vars, LaunchPassthroughArgs, LaunchValue, OperationError, OperationErrorKind, OperationExecutionOptions,
    OperationFault, OperationMode, SuppliedLaunchVars,
};
use crate::failure::plain;
use crate::text::{copy_list, copy_option, opt_text, texts};
use vstd::prelude::*;

verus! {

#[derive(Debug, Clone)]
pub struct RunAction {
    pub target: Option<String>,
    pub session_id: Option<String>,
    pub cwd: Option<String>,
    pub command: Vec<String>,
}

#[derive(Debug, Clone)]
pub struct StatusAction {
    pub target: Option<String>,
    pub all: bool,
}

#[derive(Debug, Clone)]
pub struct TargetSessionAction {
    pub target: Option<String>,
    pub session_id: Option<String>,
}

#[derive(Debug, Clone)]
pub struct ClientConfigAction {
    pub target: Option<String>,
    pub identity_file: Option<String>,
}

#[derive(Debug, Clone)]
pub struct ClientBundleAction {
    pub target: Option<String>,
    pub identity_file: Option<String>,
    pub rotate_key: bool,
}

#[derive(Debug, Clone)]
pub struct KeyAction {
    pub target: Option<String>,
    pub public_key: Option<String>,
}

#[derive(Debug, Clone)]
pub struct KeySourceAction {
    pub public_key: Option<String>,
}

/// What an SSH session asks for.
#[derive(Debug, Clone)]
pub enum GatewayAction {
    Up(Option<String>),
    Run(RunAction),
    Launches { json: bool },
    LaunchShow { name: String, json: bool },
    LaunchRun { name: String, session_id: Option<String>, vars: Vec<String>, args: Vec<String> },
    Status(StatusAction),
    Targets { json: bool },
    Stop(TargetSessionAction),
    Remove(TargetSessionAction),
    SetDefault(String),
    ShowDefault,
    ResetDefault,
    ClientConfig(ClientConfigAction),
    Connect(TargetSessionAction),
    AddKey(KeyAction),
    AddHostKey(KeySourceAction),
    AddContainerKey(KeyAction),
    ClientBundle(ClientBundleAction),
    Help,
}

/// How the answer is written.
#[derive(Debug, Clone, Copy, PartialEq, Eq, Structural)]
pub struct SshRenderOptions {
    pub json: bool,
}

impl SshRenderOptions {
    pub fn plain_text() -> (r: SshRenderOptions)
        ensures
            r == (SshRenderOptions { json: false }),
    {
        SshRenderOptions { json: false }
    }
}

/// An action that is an operation.
#[derive(Debug, Clone, PartialEq, Eq)]
pub struct SshGatewayOperation {
    pub operation: GatewayOperation,
    pub render: SshRenderOptions,
}

impl View for SshGatewayOperation {
    type V = (OperationModel, bool);

    open spec fn view(&self) -> (OperationModel, bool) {
        (self.operation@, self.render.json)
    }
}

pub open spec fn run_model(action: RunAction) -> OperationModel {
    OperationModel::Run {
        target: opt_text(action.target),
        session_id: opt_text(action.session_id),
        cwd: opt_text(action.cwd),
        command: texts(action.command@),
        options: OperationExecutionOptions::in_mode(OperationMode::Stream),
    }
}

pub open spec fn status_model(action: StatusAction) -> OperationModel {
    if action.all {
        OperationModel::StatusAll
    } else {
        OperationModel::Status { target: opt_text(action.target), session_id: None }
    }
}

pub open spec fn no_empty_text(args: Seq<String>) -> bool {
    forall|i: int| 0 <= i < args.len() ==> (#[trigger] args[i])@.len() != 0
}

/// The operation that an action stands for and whether its answer is JSON, or
/// nothing for an action that is handled elsewhere.
pub open spec fn operation_of(action: GatewayAction) -> Result<
    Option<(OperationModel, bool)>,
    OperationFault,
> {
    match action {
        GatewayAction::Up(target) => Ok(
            Some((OperationModel::Up { target: opt_text(target), session_id: None }, false)),
        ),
        GatewayAction::Run(action) => Ok(Some((run_model(action), false))),
        GatewayAction::Launches { json } => Ok(Some((OperationModel::Launches, json))),
        GatewayAction::LaunchShow { name, json } => Ok(
            Some((OperationModel::LaunchShow { name: name@ }, json)),
        ),
        GatewayAction::LaunchRun { name, session_id, vars, args } => match cli_vars(texts(vars@)) {
            Err(fault) => Err(fault),
            Ok(vars) => if no_empty_text(args@) {
                Ok(
                    Some(
                        (
                            OperationModel::Launch {
                                name: name@,
                                session_id: opt_text(session_id),
                                vars,
                                args: texts(args@),
                                options: OperationExecutionOptions::in_mode(OperationMode::Stream),
                            },
                            false,
                        ),
                    ),
                )
            } else {
                Err(
                    (
                        OperationErrorKind::InvalidLaunchArgs,
                        plain("launch args must not contain empty strings"@),
                    ),
                )
            },
        },
        GatewayAction::Status(action) => Ok(Some((status_model(action), false))),
        GatewayAction::Targets { json } => Ok(Some((OperationModel::Targets, json))),
        GatewayAction::Stop(action) => Ok(
            Some(
                (
                    OperationModel::Stop {
                        target: opt_text(action.target),
                        session_id: opt_text(action.session_id),
                    },
                    false,
                ),
            ),
        ),
        GatewayAction::Remove(action) => Ok(
            Some(
                (
                    OperationModel::Remove {
                        target: opt_text(action.target),
                        session_id: opt_text(action.session_id),
                    },
                    false,
                ),
            ),
        ),
        GatewayAction::SetDefault(name) => Ok(
            Some((OperationModel::SetDefault { target_or_image: name@ }, false)),
        ),
        GatewayAction::ShowDefault => Ok(Some((OperationModel::ShowDefault, false))),
        GatewayAction::ResetDefault => Ok(Some((OperationModel::ResetDefault, false))),
        GatewayAction::ClientConfig(action) => Ok(
            Some(
                (
                    OperationModel::ClientConfig {
                        target: opt_text(action.target),
                        identity_file: opt_text(action.identity_file),
                    },
                    false,
                ),
            ),
        ),
        GatewayAction::Connect(_) => Ok(None),
        GatewayAction::AddKey(_) => Ok(None),
        GatewayAction::AddHostKey(_) => Ok(None),
        GatewayAction::AddContainerKey(_) => Ok(None),
        GatewayAction::ClientBundle(_) => Ok(None),
        GatewayAction::Help => Ok(None),
    }
}

/// An action of an SSH session means the operation of its name, on the target and
/// in the session that it names, with everything else that it says; listings are
/// answered in JSON exactly where that was asked for. Only launches can be
/// refused: for their variables, or for an empty argument.
pub proof fn actions_mean_their_operations(action: GatewayAction)
    ensures
        operation_of(action) is Err ==> action is LaunchRun,
        operation_of(action) == Ok::<Option<(OperationModel, bool)>, OperationFault>(None)
            <==> action is Connect || action is AddKey || action is AddHostKey
            || action is AddContainerKey || action is ClientBundle || action is Help,
        operation_of(action) matches Ok(Some((operation, json))) ==> {
            &&& operation is Up <==> action is Up
            &&& operation is Run <==> action is Run
            &&& operation is Launches <==> action is Launches
            &&& operation is LaunchShow <==> action is LaunchShow
            &&& operation is Launch <==> action is LaunchRun
            &&& operation is Targets <==> action is Targets
            &&& operation is Stop <==> action is Stop
            &&& operation is Remove <==> action is Remove
            &&& operation is SetDefault <==> action is SetDefault
            &&& operation is ShowDefault <==> action is ShowDefault
            &&& operation is ResetDefault <==> action is ResetDefault
            &&& operation is ClientConfig <==> action is ClientConfig
            &&& operation is StatusAll <==> (action matches GatewayAction::Status(asked)
                && asked.all)
            &&& operation is Status <==> (action matches GatewayAction::Status(asked)
                && !asked.all)
            &&& json <==> (action == (GatewayAction::Launches { json: true }) || action == (
            GatewayAction::Targets { json: true }) || (action matches GatewayAction::LaunchShow {
                json: asked,
                ..
            } && asked))
            &&& action matches GatewayAction::Up(asked) ==> (operation matches OperationModel::Up {
                target,
                session_id,
            } && target == opt_text(asked) && session_id is None)
            &&& action matches GatewayAction::Status(asked) ==> asked.all || (
            operation matches OperationModel::Status { target, session_id } && target == opt_text(
                asked.target,
            ) && session_id is None)
            &&& action matches GatewayAction::Stop(asked) ==> (
            operation matches OperationModel::Stop { target, session_id } && target == opt_text(
                asked.target,
            ) && session_id == opt_text(asked.session_id))
            &&& action matches GatewayAction::Remove(asked) ==> (
            operation matches OperationModel::Remove { target, session_id } && target == opt_text(
                asked.target,
            ) && session_id == opt_text(asked.session_id))
            &&& action matches GatewayAction::SetDefault(asked) ==> (
            operation matches OperationModel::SetDefault { target_or_image } && target_or_image
                == asked@)
            &&& action matches GatewayAction::ClientConfig(asked) ==> (
            operation matches OperationModel::ClientConfig { target, identity_file } && target
                == opt_text(asked.target) && identity_file == opt_text(asked.identity_file))
            &&& action matches GatewayAction::LaunchShow { name: asked, .. } ==> (
            operation matches OperationModel::LaunchShow { name } && name == asked@)
            &&& action matches GatewayAction::Run(asked) ==> (
            operation matches OperationModel::Run { target, session_id, cwd, command, options }
                && target == opt_text(asked.target) && session_id == opt_text(asked.session_id)
                && cwd == opt_text(asked.cwd) && command == texts(asked.command@) && options.mode
                == OperationMode::Stream && options.output.stdout && options.output.stderr)
            &&& action matches GatewayAction::LaunchRun { name: n, session_id: s, vars: v, args: a }
                ==> (operation matches OperationModel::Launch {
                name,
                session_id,
                vars,
                args,
                options,
            } && name == n@ && session_id == opt_text(s) && cli_vars(texts(v@)) == Ok::<
                Map<Seq<char>, LaunchValue>,
                OperationFault,
            >(vars) && args == texts(a@) && options.mode == OperationMode::Stream)
        },
{
}

/// A result that may hold an operation, seen through its models.
pub open spec fn ssh_outcome(r: Result<Option<SshGatewayOperation>, OperationError>) -> Result<
    Option<(OperationModel, bool)>,
    OperationFault,
> {
    match r {
        Ok(Some(operation)) => Ok(Some(operation@)),
        Ok(None) => Ok(None),
        Err(error) => Err(error@),
    }
}

impl SshGatewayOperation {
    fn plain_text(operation: GatewayOperation) -> (r: Option<SshGatewayOperation>)
        ensures
            r matches Some(o) && o@ == (operation@, false),
    {
        Some(SshGatewayOperation { operation, render: SshRenderOptions::plain_text() })
    }

    /// The operation that an action stands for.
    pub fn from_action(action: &GatewayAction) -> (r: Result<
        Option<SshGatewayOperation>,
        OperationError,
    >)
        ensures
            ssh_outcome(r) == operation_of(*action),
    {
        Ok(
            match action {
                GatewayAction::Up(target) => Self::plain_text(
                    GatewayOperation::Up { target: copy_option(target), session_id: None },
                ),
                GatewayAction::Run(action) => Self::plain_text(
                    GatewayOperation::from_run_action(action),
                ),
                GatewayAction::Launches { json } => Some(
                    SshGatewayOperation {
                        operation: GatewayOperation::Launches,
                        render: SshRenderOptions { json: *json },
                    },
                ),
                GatewayAction::LaunchShow { name, json } => Some(
                    SshGatewayOperation {
                        operation: GatewayOperation::LaunchShow { name: name.clone() },
                        render: SshRenderOptions { json: *json },
                    },
                ),
                GatewayAction::LaunchRun { name, session_id, vars, args } => {
                    let vars = match SuppliedLaunchVars::from_cli_pairs(vars) {
                        Ok(vars) => vars,
                        Err(error) => return Err(error),
                    };
                    let args = match LaunchPassthroughArgs::from_strings(copy_list(args)) {
                        Ok(args) => args,
                        Err(error) => return Err(error),
                    };
                    Self::plain_text(
                        GatewayOperation::launch_run(
                            name.clone(),
                            copy_option(session_id),
                            vars,
                            args,
                        ),
                    )
                },
                GatewayAction::Status(action) => Self::plain_text(
                    GatewayOperation::from_status_action(action),
                ),
                GatewayAction::Targets { json } => Some(
                    SshGatewayOperation {
                        operation: GatewayOperation::Targets,
                        render: SshRenderOptions { json: *json },
                    },
                ),
                GatewayAction::Stop(action) => Self::plain_text(
                    GatewayOperation::Stop {
                        target: copy_option(&action.target),
                        session_id: copy_option(&action.session_id),
                    },
                ),
                GatewayAction::Remove(action) => Self::plain_text(
                    GatewayOperation::Remove {
                        target: copy_option(&action.target),
                        session_id: copy_option(&action.session_id),
                    },
                ),
                GatewayAction::SetDefault(target_or_image) => Self::plain_text(
                    GatewayOperation::SetDefault { target_or_image: target_or_image.clone() },
                ),
                GatewayAction::ShowDefault => Self::plain_text(GatewayOperation::ShowDefault),
                GatewayAction::ResetDefault => Self::plain_text(GatewayOperation::ResetDefault),
                GatewayAction::ClientConfig(action) => Self::plain_text(
                    GatewayOperation::ClientConfig {
                        target: copy_option(&action.target),
                        identity_file: copy_option(&action.identity_file),
                    },
                ),
                GatewayAction::Connect(_) => None,
                GatewayAction::AddKey(_) => None,
                GatewayAction::AddHostKey(_) => None,
                GatewayAction::AddContainerKey(_) => None,
                GatewayAction::ClientBundle(_) => None,
                GatewayAction::Help => None,
            },
        )
    }
}

impl GatewayOperation {
    pub fn from_run_action(action: &RunAction) -> (r: GatewayOperation)
        ensures
            r@ == run_model(*action),
    {
        GatewayOperation::Run {
            target: copy_option(&action.target),
            session_id: copy_option(&action.session_id),
            cwd: copy_option(&action.cwd),
            command: copy_list(&action.command),
            options: OperationExecutionOptions::stream(),
        }
    }

    pub fn from_status_action(action: &StatusAction) -> (r: GatewayOperation)
        ensures
            r@ == status_model(*action),
    {
        if action.all {
            GatewayOperation::StatusAll
        } else {
            GatewayOperation::Status { target: copy_option(&action.target), session_id: None }
        }
    }
}

} // verus!
