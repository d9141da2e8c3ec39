//! What carrying an operation out takes.

use crate::gateway::ops::request::{answers_with, GatewayOperation, OperationModel, ResultKind};
use crate::gateway::ops::types::{
    LaunchPassthroughArgs, LaunchValue, OperationExecutionOptions, SuppliedLaunchVars,
};
use crate::text::{opt_text, texts};
use vstd::prelude::*;

verus! {

/// What is done with the runtime of a target.
#[derive(Debug, Clone, PartialEq, Eq)]
pub enum RuntimeTask {
    Report,
    BringUp,
    Run { cwd: Option<String>, command: Vec<String>, options: OperationExecutionOptions },
    Stop,
    Remove,
    WriteClientConfig { identity_file: Option<String> },
}

pub enum TaskModel {
    Report,
    BringUp,
    Run { cwd: Option<Seq<char>>, command: Seq<Seq<char>>, options: OperationExecutionOptions },
    Stop,
    Remove,
    WriteClientConfig { identity_file: Option<Seq<char>> },
}

impl View for RuntimeTask {
    type V = TaskModel;

    open spec fn view(&self) -> TaskModel {
        match self {
            RuntimeTask::Report => TaskModel::Report,
            RuntimeTask::BringUp => TaskModel::BringUp,
            RuntimeTask::Run { cwd, command, options } => TaskModel::Run {
                cwd: opt_text(*cwd),
                command: texts(command@),
                options: *options,
            },
            RuntimeTask::Stop => TaskModel::Stop,
            RuntimeTask::Remove => TaskModel::Remove,
            RuntimeTask::WriteClientConfig { identity_file } => TaskModel::WriteClientConfig {
                identity_file: opt_text(*identity_file),
            },
        }
    }
}

/// The work that carries an operation out.
#[derive(Debug, Clone, PartialEq, Eq)]
pub enum OperationWork {
    ListTargets,
    /// Every container of the user is listed, whatever its target.
    ListContainers,
    ListLaunches,
    ShowLaunch { name: String },
    Launch {
        name: String,
        session_id: Option<String>,
        vars: SuppliedLaunchVars,
        args: LaunchPassthroughArgs,
        options: OperationExecutionOptions,
    },
    /// The runtime of a target is loaded, then used. Only where
    /// `may_begin_session` holds may a target that needs a session get a new one.
    OnTarget {
        target: Option<String>,
        session_id: Option<String>,
        may_begin_session: bool,
        task: RuntimeTask,
    },
    StoreDefault { target_or_image: String },
    ReadDefault,
    ForgetDefault,
}

pub enum WorkModel {
    ListTargets,
    ListContainers,
    ListLaunches,
    ShowLaunch { name: Seq<char> },
    Launch {
        name: Seq<char>,
        session_id: Option<Seq<char>>,
        vars: Map<Seq<char>, LaunchValue>,
        args: Seq<Seq<char>>,
        options: OperationExecutionOptions,
    },
    OnTarget {
        target: Option<Seq<char>>,
        session_id: Option<Seq<char>>,
        may_begin_session: bool,
        task: TaskModel,
    },
    StoreDefault { target_or_image: Seq<char> },
    ReadDefault,
    ForgetDefault,
}

impl View for OperationWork {
    type V = WorkModel;

    open spec fn view(&self) -> WorkModel {
        match self {
            OperationWork::ListTargets => WorkModel::ListTargets,
            OperationWork::ListContainers => WorkModel::ListContainers,
            OperationWork::ListLaunches => WorkModel::ListLaunches,
            OperationWork::ShowLaunch { name } => WorkModel::ShowLaunch { name: name@ },
            OperationWork::Launch { name, session_id, vars, args, options } => WorkModel::Launch {
                name: name@,
                session_id: opt_text(*session_id),
                vars: vars@,
                args: args@,
                options: *options,
            },
            OperationWork::OnTarget { target, session_id, may_begin_session, task } => {
                WorkModel::OnTarget {
                    target: opt_text(*target),
                    session_id: opt_text(*session_id),
                    may_begin_session: *may_begin_session,
                    task: task@,
                }
            },
            OperationWork::StoreDefault { target_or_image } => WorkModel::StoreDefault {
                target_or_image: target_or_image@,
            },
            OperationWork::ReadDefault => WorkModel::ReadDefault,
            OperationWork::ForgetDefault => WorkModel::ForgetDefault,
        }
    }
}

/// What an operation takes.
pub open spec fn work_for(operation: OperationModel) -> WorkModel {
    match operation {
        OperationModel::Targets => WorkModel::ListTargets,
        OperationModel::StatusAll => WorkModel::ListContainers,
        OperationModel::Launches => WorkModel::ListLaunches,
        OperationModel::LaunchShow { name } => WorkModel::ShowLaunch { name },
        OperationModel::Launch { name, session_id, vars, args, options } => WorkModel::Launch {
            name,
            session_id,
            vars,
            args,
            options,
        },
        OperationModel::Status { target, session_id } => WorkModel::OnTarget {
            target,
            session_id,
            may_begin_session: false,
            task: TaskModel::Report,
        },
        OperationModel::Up { target, session_id } => WorkModel::OnTarget {
            target,
            session_id,
            may_begin_session: true,
            task: TaskModel::BringUp,
        },
        OperationModel::Run { target, session_id, cwd, command, options } => WorkModel::OnTarget {
            target,
            session_id,
            may_begin_session: true,
            task: TaskModel::Run { cwd, command, options },
        },
        OperationModel::Stop { target, session_id } => WorkModel::OnTarget {
            target,
            session_id,
            may_begin_session: false,
            task: TaskModel::Stop,
        },
        OperationModel::Remove { target, session_id } => WorkModel::OnTarget {
            target,
            session_id,
            may_begin_session: false,
            task: TaskModel::Remove,
        },
        OperationModel::ClientConfig { target, identity_file } => WorkModel::OnTarget {
            target,
            session_id: None,
            may_begin_session: false,
            task: TaskModel::WriteClientConfig { identity_file },
        },
        OperationModel::SetDefault { target_or_image } => WorkModel::StoreDefault {
            target_or_image,
        },
        OperationModel::ShowDefault => WorkModel::ReadDefault,
        OperationModel::ResetDefault => WorkModel::ForgetDefault,
    }
}

fn on_target(
    target: Option<String>,
    session_id: Option<String>,
    may_begin_session: bool,
    task: RuntimeTask,
) -> (r: OperationWork)
    ensures
        r@ == (WorkModel::OnTarget {
            target: opt_text(target),
            session_id: opt_text(session_id),
            may_begin_session,
            task: task@,
        }),
{
    OperationWork::OnTarget { target, session_id, may_begin_session, task }
}

/// Tells what an operation takes.
pub fn execute_gateway_operation(operation: GatewayOperation) -> (r: OperationWork)
    ensures
        r@ == work_for(operation@),
{
    match operation {
        GatewayOperation::Targets => OperationWork::ListTargets,
        GatewayOperation::Status { target, session_id } => on_target(
            target,
            session_id,
            false,
            RuntimeTask::Report,
        ),
        GatewayOperation::StatusAll => OperationWork::ListContainers,
        GatewayOperation::Up { target, session_id } => on_target(
            target,
            session_id,
            true,
            RuntimeTask::BringUp,
        ),
        GatewayOperation::Run { target, session_id, cwd, command, options } => on_target(
            target,
            session_id,
            true,
            RuntimeTask::Run { cwd, command, options },
        ),
        GatewayOperation::Launches => OperationWork::ListLaunches,
        GatewayOperation::LaunchShow { name } => OperationWork::ShowLaunch { name },
        GatewayOperation::Launch { name, session_id, vars, args, options } => {
            OperationWork::Launch { name, session_id, vars, args, options }
        },
        GatewayOperation::Stop { target, session_id } => on_target(
            target,
            session_id,
            false,
            RuntimeTask::Stop,
        ),
        GatewayOperation::Remove { target, session_id } => on_target(
            target,
            session_id,
            false,
            RuntimeTask::Remove,
        ),
        GatewayOperation::SetDefault { target_or_image } => OperationWork::StoreDefault {
            target_or_image,
        },
        GatewayOperation::ShowDefault => OperationWork::ReadDefault,
        GatewayOperation::ResetDefault => OperationWork::ForgetDefault,
        GatewayOperation::ClientConfig { target, identity_file } => on_target(
            target,
            None,
            false,
            RuntimeTask::WriteClientConfig { identity_file },
        ),
    }
}

/// Whether work can be canceled while it goes on: only executions can.
pub open spec fn can_be_canceled(work: WorkModel) -> bool {
    work is Launch || (work matches WorkModel::OnTarget { task, .. } && task is Run)
}

/// What an operation takes, where it may be canceled: the work, and whether a
/// cancellation reaches it.
pub fn execute_gateway_operation_cancelable(operation: GatewayOperation) -> (r: (
    OperationWork,
    bool,
))
    ensures
        r.0@ == work_for(operation@),
        r.1 == can_be_canceled(work_for(operation@)),
{
    let cancelable = operation.is_cancelable();
    (execute_gateway_operation(operation), cancelable)
}

/// Operations that take the same work are the same: nothing that was asked for
/// is lost.
pub proof fn work_tells_operations_apart(a: OperationModel, b: OperationModel)
    requires
        work_for(a) == work_for(b),
    ensures
        a == b,
{
}

/// The task of work on a target.
pub open spec fn task_of(work: WorkModel) -> Option<TaskModel> {
    match work {
        WorkModel::OnTarget { task, .. } => Some(task),
        _ => None,
    }
}

/// The work of an operation agrees with what it answers with: a container is
/// stopped, removed or brought up exactly where that is reported, and an operation
/// that answers with a status does nothing but report.
pub proof fn work_agrees_with_the_answer(operation: OperationModel)
    ensures
        ({
            let kind = answers_with(operation);
            let work = work_for(operation);
            let task = task_of(work);
            &&& task == Some(TaskModel::Stop) <==> kind == ResultKind::Stop
            &&& task == Some(TaskModel::Report) <==> kind == ResultKind::Status
            &&& task == Some(TaskModel::Remove) <==> kind == ResultKind::Remove
            &&& task == Some(TaskModel::BringUp) <==> kind == ResultKind::Up
            &&& task is Some && task->0 is Run <==> kind == ResultKind::Run
            &&& task is Some && task->0 is WriteClientConfig <==> kind == ResultKind::ClientConfig
            &&& work is ListTargets <==> kind == ResultKind::Targets
            &&& work is ListContainers <==> kind == ResultKind::StatusAll
            &&& work is ListLaunches <==> kind == ResultKind::Launches
            &&& work is ShowLaunch <==> kind == ResultKind::LaunchShow
            &&& work is Launch <==> kind == ResultKind::Launch
            &&& work is StoreDefault || work is ReadDefault || work is ForgetDefault <==> kind
                == ResultKind::DefaultSelection
        }),
{
}

/// Every operation answers with the result of its own kind, and nothing that it
/// names is lost on the way to its work: its target, its session, its command and
/// what else it says.
pub proof fn operations_are_carried_out_as_asked(operation: OperationModel)
    ensures
        operation is Stop <==> answers_with(operation) == ResultKind::Stop,
        operation is Status <==> answers_with(operation) == ResultKind::Status,
        operation is StatusAll <==> answers_with(operation) == ResultKind::StatusAll,
        operation is Remove <==> answers_with(operation) == ResultKind::Remove,
        operation is Up <==> answers_with(operation) == ResultKind::Up,
        operation is Run <==> answers_with(operation) == ResultKind::Run,
        operation is Launch <==> answers_with(operation) == ResultKind::Launch,
        operation is LaunchShow <==> answers_with(operation) == ResultKind::LaunchShow,
        operation is Launches <==> answers_with(operation) == ResultKind::Launches,
        operation is Targets <==> answers_with(operation) == ResultKind::Targets,
        operation is ClientConfig <==> answers_with(operation) == ResultKind::ClientConfig,
        operation is SetDefault <==> work_for(operation) is StoreDefault,
        operation is ShowDefault <==> work_for(operation) is ReadDefault,
        operation is ResetDefault <==> work_for(operation) is ForgetDefault,
        work_for(operation) matches WorkModel::OnTarget { target, session_id, task, .. } ==> {
            &&& operation matches OperationModel::Status { target: t, session_id: s } ==> target
                == t && session_id == s
            &&& operation matches OperationModel::Stop { target: t, session_id: s } ==> target == t
                && session_id == s
            &&& operation matches OperationModel::Remove { target: t, session_id: s } ==> target
                == t && session_id == s
            &&& operation matches OperationModel::Up { target: t, session_id: s } ==> target == t
                && session_id == s
            &&& operation matches OperationModel::ClientConfig { target: t, identity_file: f }
                ==> target == t && session_id is None && (task
                matches TaskModel::WriteClientConfig { identity_file } && identity_file == f)
            &&& operation matches OperationModel::Run {
                target: t,
                session_id: s,
                cwd: d,
                command: c,
                options: o,
            } ==> target == t && session_id == s && (task matches TaskModel::Run {
                cwd,
                command,
                options,
            } && cwd == d && command == c && options == o)
        },
        operation matches OperationModel::Launch { name: n, session_id: s, vars: v, args: a, options: o }
            ==> (work_for(operation) matches WorkModel::Launch {
            name,
            session_id,
            vars,
            args,
            options,
        } && name == n && session_id == s && vars == v && args == a && options == o),
        operation matches OperationModel::LaunchShow { name: n } ==> (work_for(
            operation,
        ) matches WorkModel::ShowLaunch { name } && name == n),
        operation matches OperationModel::SetDefault { target_or_image: n } ==> (work_for(
            operation,
        ) matches WorkModel::StoreDefault { target_or_image } && target_or_image == n),
{
}

/// Only bringing a target up and running a command in it may begin a session.
pub proof fn sessions_begin_with_work(operation: OperationModel)
    ensures
        work_for(operation) matches WorkModel::OnTarget { may_begin_session, task, .. } ==> (
        may_begin_session <==> task is BringUp || task is Run),
{
}

/// A cancellation reaches exactly the operations that answer with an execution.
pub proof fn executions_can_be_canceled(operation: OperationModel)
    ensures
        can_be_canceled(work_for(operation)) <==> answers_with(operation) == ResultKind::Run
            || answers_with(operation) == ResultKind::Launch,
{
}

/// Work is seen as what it is: on the target and in the session that it names,
/// with the task that it holds.
pub proof fn work_is_seen_as_it_is(work: OperationWork, task: RuntimeTask)
    ensures
        work is ListTargets <==> work@ is ListTargets,
        work is ListContainers <==> work@ is ListContainers,
        work is ListLaunches <==> work@ is ListLaunches,
        work is ReadDefault <==> work@ is ReadDefault,
        work is ForgetDefault <==> work@ is ForgetDefault,
        work matches OperationWork::ShowLaunch { name } ==> work@ == (WorkModel::ShowLaunch {
            name: name@,
        }),
        work matches OperationWork::StoreDefault { target_or_image } ==> work@ == (
        WorkModel::StoreDefault { target_or_image: target_or_image@ }),
        work matches OperationWork::Launch { name, session_id, vars, args, options } ==> work@ == (
        WorkModel::Launch {
            name: name@,
            session_id: opt_text(session_id),
            vars: vars@,
            args: args@,
            options,
        }),
        work matches OperationWork::OnTarget { target, session_id, may_begin_session, task }
            ==> work@ == (WorkModel::OnTarget {
            target: opt_text(target),
            session_id: opt_text(session_id),
            may_begin_session,
            task: task@,
        }),
        task is Report <==> task@ is Report,
        task is BringUp <==> task@ is BringUp,
        task is Stop <==> task@ is Stop,
        task is Remove <==> task@ is Remove,
        task matches RuntimeTask::Run { cwd, command, options } ==> task@ == (TaskModel::Run {
            cwd: opt_text(cwd),
            command: texts(command@),
            options,
        }),
        task matches RuntimeTask::WriteClientConfig { identity_file } ==> task@ == (
        TaskModel::WriteClientConfig { identity_file: opt_text(identity_file) }),
{
}

} // verus!
