//! Running commands in a target's container.

use crate::config::ContainerRuntimeType;
use crate::failure::{either, failed, outcome, refusal, Chain, Failure};
use crate::gateway::container_spec::Labels;
use crate::gateway::model::SessionOutcome;
use crate::gateway::ops::types::{
    ExecutionOutcome, OperationExecutionOptions, OperationMode, OutputSelection,
};
use crate::gateway::state::Runtime;
use crate::paths::{expand_home, with_home};
use crate::runtime::{ContainerExecSpec, ExecModel};
use crate::text::{decimal, opt_text, texts};
use crate::text_map::TextMap;
use vstd::prelude::*;

verus! {

/// What a session is for.
#[derive(Debug, Clone, Copy, PartialEq, Eq, Structural)]
pub enum OperationSessionSpec {
    RunCommand,
    Launch,
}

impl OperationSessionSpec {
    pub open spec fn word(self) -> Seq<char> {
        match self {
            OperationSessionSpec::RunCommand => "run-command"@,
            OperationSessionSpec::Launch => "launch"@,
        }
    }

    pub open spec fn is_marked(self) -> bool {
        self == OperationSessionSpec::Launch
    }

    /// The kind that the record of the session names.
    pub fn kind(self) -> (r: &'static str)
        ensures
            r@ == self.word(),
    {
        match self {
            OperationSessionSpec::RunCommand => "run-command",
            OperationSessionSpec::Launch => "launch",
        }
    }

    /// Whether the record of the session names the launch.
    pub fn uses_launch_marker(self) -> (r: bool)
        ensures
            r == self.is_marked(),
    {
        match self {
            OperationSessionSpec::RunCommand => false,
            OperationSessionSpec::Launch => true,
        }
    }
}

/// The options of an execution that goes on in the background: nobody sees its
/// output.
pub fn detach_discard_options() -> (r: OperationExecutionOptions)
    ensures
        r == discarding(),
{
    OperationExecutionOptions {
        mode: OperationMode::Detach,
        output: OutputSelection { stdout: false, stderr: false },
    }
}

// ---------------------------------------------------------------- a session, step by step

/// The steps of a session.
#[derive(Debug, Clone, Copy, PartialEq, Eq, Structural)]
pub enum SessionStep {
    /// The record of the session is written.
    Begin,
    EnsureReady,
    /// The session is held with the agent.
    HoldWithAgent,
    PrepareCommand,
    Execute,
    /// The agent is let go, the record is removed, and the workspace is cleaned
    /// up.
    Finish,
}

/// What follows a step.
#[derive(Debug, Clone, Copy, PartialEq, Eq, Structural)]
pub enum SessionNext {
    Continue(SessionStep),
    /// The session is over.
    Over,
}

/// The order of the steps. A session that has begun is finished whatever fails;
/// one whose record could not be written leaves nothing to finish.
pub open spec fn next_step(step: SessionStep, succeeded: bool) -> SessionNext {
    match step {
        SessionStep::Begin => if succeeded {
            SessionNext::Continue(SessionStep::EnsureReady)
        } else {
            SessionNext::Over
        },
        SessionStep::EnsureReady => if succeeded {
            SessionNext::Continue(SessionStep::HoldWithAgent)
        } else {
            SessionNext::Continue(SessionStep::Finish)
        },
        SessionStep::HoldWithAgent => if succeeded {
            SessionNext::Continue(SessionStep::PrepareCommand)
        } else {
            SessionNext::Continue(SessionStep::Finish)
        },
        SessionStep::PrepareCommand => if succeeded {
            SessionNext::Continue(SessionStep::Execute)
        } else {
            SessionNext::Continue(SessionStep::Finish)
        },
        SessionStep::Execute => SessionNext::Continue(SessionStep::Finish),
        SessionStep::Finish => SessionNext::Over,
    }
}

impl SessionStep {
    pub fn next(self, succeeded: bool) -> (r: SessionNext)
        ensures
            r == next_step(self, succeeded),
    {
        match self {
            SessionStep::Begin => if succeeded {
                SessionNext::Continue(SessionStep::EnsureReady)
            } else {
                SessionNext::Over
            },
            SessionStep::EnsureReady => if succeeded {
                SessionNext::Continue(SessionStep::HoldWithAgent)
            } else {
                SessionNext::Continue(SessionStep::Finish)
            },
            SessionStep::HoldWithAgent => if succeeded {
                SessionNext::Continue(SessionStep::PrepareCommand)
            } else {
                SessionNext::Continue(SessionStep::Finish)
            },
            SessionStep::PrepareCommand => if succeeded {
                SessionNext::Continue(SessionStep::Execute)
            } else {
                SessionNext::Continue(SessionStep::Finish)
            },
            SessionStep::Execute => SessionNext::Continue(SessionStep::Finish),
            SessionStep::Finish => SessionNext::Over,
        }
    }
}

/// A session that has begun is over only after it was finished.
pub proof fn begun_sessions_are_finished(step: SessionStep, succeeded: bool)
    requires
        step != SessionStep::Begin,
        next_step(step, succeeded) == SessionNext::Over,
    ensures
        step == SessionStep::Finish,
{
}

/// The steps that a session takes from a step on, where `succeeds` tells how each
/// of them ends. A session takes at most six.
pub open spec fn steps_taken(
    step: SessionStep,
    succeeds: spec_fn(SessionStep) -> bool,
    left: nat,
) -> Seq<SessionStep>
    decreases left,
{
    if left == 0 {
        Seq::empty()
    } else {
        match next_step(step, succeeds(step)) {
            SessionNext::Over => seq![step],
            SessionNext::Continue(next) => seq![step] + steps_taken(
                next,
                succeeds,
                (left - 1) as nat,
            ),
        }
    }
}

/// The steps of a session that are taken only when those before them succeeded.
pub open spec fn steps_in_turn() -> Seq<SessionStep> {
    seq![
        SessionStep::Begin,
        SessionStep::EnsureReady,
        SessionStep::HoldWithAgent,
        SessionStep::PrepareCommand,
        SessionStep::Execute,
    ]
}

/// A session takes its steps in turn until one fails, and is then finished: its
/// command is executed exactly where the session was recorded, the container was
/// made ready and held, and the command was prepared. A session that could not be
/// recorded takes no other step.
pub proof fn sessions_take_their_steps(succeeds: spec_fn(SessionStep) -> bool, left: nat)
    requires
        left >= 6,
    ensures
        ({
            let taken = steps_taken(SessionStep::Begin, succeeds, left);
            &&& taken.contains(SessionStep::Execute) <==> succeeds(SessionStep::Begin) && succeeds(
                SessionStep::EnsureReady,
            ) && succeeds(SessionStep::HoldWithAgent) && succeeds(SessionStep::PrepareCommand)
            &&& taken.contains(SessionStep::Finish) <==> succeeds(SessionStep::Begin)
            &&& !succeeds(SessionStep::Begin) ==> taken == seq![SessionStep::Begin]
            &&& forall|k: int|
                1 <= k < 5 && (forall|j: int|
                    0 <= j < k ==> succeeds(#[trigger] steps_in_turn()[j])) && (k == 4
                    || !succeeds(#[trigger] steps_in_turn()[k])) ==> taken == steps_in_turn().take(
                    k + 1,
                ).push(SessionStep::Finish)
        }),
{
    reveal_with_fuel(steps_taken, 7);
    let taken = steps_taken(SessionStep::Begin, succeeds, left);
    let turn = steps_in_turn();
    assert(turn[0] == SessionStep::Begin && turn[1] == SessionStep::EnsureReady && turn[2]
        == SessionStep::HoldWithAgent && turn[3] == SessionStep::PrepareCommand && turn[4]
        == SessionStep::Execute);
    if !succeeds(turn[0]) {
        assert(taken =~= seq![SessionStep::Begin]);
        assert(taken[0] == SessionStep::Begin);
    } else if !succeeds(turn[1]) {
        assert(taken =~= turn.take(2).push(SessionStep::Finish));
        assert(taken[2] == SessionStep::Finish);
    } else if !succeeds(turn[2]) {
        assert(taken =~= turn.take(3).push(SessionStep::Finish));
        assert(taken[3] == SessionStep::Finish);
    } else if !succeeds(turn[3]) {
        assert(taken =~= turn.take(4).push(SessionStep::Finish));
        assert(taken[4] == SessionStep::Finish);
    } else {
        assert(taken =~= turn.take(5).push(SessionStep::Finish));
        assert(taken[4] == SessionStep::Execute && taken[5] == SessionStep::Finish);
    }
}

pub open spec fn goes_on(mode: OperationMode) -> bool {
    mode == OperationMode::Detach
}

pub open spec fn heeds_signals(mode: OperationMode) -> bool {
    mode == OperationMode::Stream
}

/// The exit code of what a signal ended.
pub open spec fn signaled(number: int) -> int {
    128 + number
}

/// The options of an execution whose output nobody reads.
pub open spec fn discarding() -> OperationExecutionOptions {
    OperationExecutionOptions {
        mode: OperationMode::Detach,
        output: OutputSelection { stdout: false, stderr: false },
    }
}

/// The variables of a session with those of a launch.
pub open spec fn launch_env_of(session: Labels, launch: Labels) -> Labels {
    session.union_prefer_right(launch)
}

/// Whether an operation runs in the background, after its session has begun.
pub fn runs_in_background(options: OperationExecutionOptions) -> (r: bool)
    ensures
        r == goes_on(options.mode),
{
    match options.mode {
        OperationMode::Detach => true,
        _ => false,
    }
}

/// Whether signals to the gateway cancel an operation.
pub fn listens_for_signals(options: OperationExecutionOptions) -> (r: bool)
    ensures
        r == heeds_signals(options.mode),
{
    match options.mode {
        OperationMode::Stream => true,
        _ => false,
    }
}

// ---------------------------------------------------------------- signals

/// A signal that cancels what runs in the foreground.
#[derive(Debug, Clone, PartialEq, Eq)]
pub struct ForegroundCancelSignal {
    pub name: String,
    pub number: i32,
}

impl ForegroundCancelSignal {
    /// The exit code of a process that such a signal ended.
    pub fn exit_code(&self) -> (r: i32)
        requires
            self.number <= i32::MAX - 128,
        ensures
            r == signaled(self.number as int),
    {
        128 + self.number
    }
}

/// How a session in the foreground ended.
#[derive(Debug)]
pub struct ForegroundOperationResult {
    pub result: Result<ExecutionOutcome, Failure>,
    pub outcome: SessionOutcome,
    /// Whether a second signal ends the gateway while it cleans up.
    pub interrupted: bool,
}

/// A session whose execution ended by itself.
pub fn foreground_finished(result: Result<ExecutionOutcome, Failure>) -> (r:
    ForegroundOperationResult)
    ensures
        r.result == result,
        !r.interrupted,
        r.outcome == SessionOutcome::of_execution(result),
{
    let outcome = SessionOutcome::from_execution_result(&result);
    ForegroundOperationResult { result, outcome, interrupted: false }
}

/// A session that a signal canceled.
pub fn foreground_canceled(signal: &ForegroundCancelSignal) -> (r: ForegroundOperationResult)
    requires
        signal.number <= i32::MAX - 128,
    ensures
        r.interrupted,
        r.outcome == SessionOutcome::Canceled,
        r.result == Ok::<ExecutionOutcome, Failure>(
            ExecutionOutcome::Streamed { exit_code: signaled(signal.number as int) as i32 },
        ),
{
    ForegroundOperationResult {
        result: Ok(ExecutionOutcome::new(signal.exit_code())),
        outcome: SessionOutcome::Canceled,
        interrupted: true,
    }
}

// ---------------------------------------------------------------- commands

impl Runtime {
    pub open spec fn exec_user(self) -> Seq<char> {
        if self.kind == ContainerRuntimeType::Podman {
            decimal(self.identity.session_uid as nat) + ":"@ + decimal(
                self.identity.session_gid as nat,
            )
        } else {
            self.identity.container_user@
        }
    }

    /// A command in the container, run as the session's user.
    pub open spec fn exec_of(
        self,
        command: Seq<Seq<char>>,
        cwd: Option<Seq<char>>,
        env: Labels,
        tty: (bool, bool),
    ) -> ExecModel {
        ExecModel {
            stdin_tty: tty.0,
            stdout_tty: tty.1,
            user: self.exec_user(),
            cwd,
            env,
            container_name: self.identity.container_name@,
            command,
        }
    }

    /// A command that is run in the container as the session's user.
    pub fn final_container_exec_spec(
        &self,
        command: Vec<String>,
        cwd: Option<String>,
        env: TextMap<String>,
        stdin_tty: bool,
        stdout_tty: bool,
    ) -> (r: ContainerExecSpec)
        ensures
            r@ == self.exec_of(texts(command@), opt_text(cwd), env@, (stdin_tty, stdout_tty)),
    {
        ContainerExecSpec {
            stdin_tty,
            stdout_tty,
            user: self.exec_identity(),
            cwd,
            env,
            container_name: self.identity.container_name.clone(),
            command,
        }
    }

    /// The directory that a command runs in.
    pub fn run_cwd(&self, cwd: Option<&str>) -> (r: Option<String>)
        ensures
            opt_text(r) == match cwd {
                Some(dir) => Some(with_home(self.identity.container_home@, dir@)),
                None => None,
            },
    {
        match cwd {
            Some(dir) => Some(expand_home(self.identity.container_home.as_str(), dir)),
            None => None,
        }
    }
}

/// The directory that a launch or one of its steps runs in, from its text as it
/// was filled in.
pub fn render_launch_cwd(rendered: Option<Result<String, Failure>>, container_home: &str) -> (r:
    Result<Option<String>, Failure>)
    ensures
        match rendered {
            None => r == Ok::<Option<String>, Failure>(None),
            Some(Ok(dir)) => r matches Ok(Some(path)) && path@ == with_home(
                container_home@,
                dir@,
            ),
            Some(Err(failure)) => r == Err::<Option<String>, Failure>(failure),
        },
{
    match rendered {
        None => Ok(None),
        Some(Ok(dir)) => Ok(Some(expand_home(container_home, dir.as_str()))),
        Some(Err(failure)) => Err(failure),
    }
}

/// The environment of a launch's command: what the launch sets counts before
/// what the session sets.
pub fn launch_final_env(session_env: &TextMap<String>, launch_env: &TextMap<String>) -> (r: TextMap<
    String,
>)
    ensures
        r@ == launch_env_of(session_env@, launch_env@),
{
    let mut env = session_env.duplicate();
    env.extend(launch_env);
    env
}

/// The environment of a step of a launch in the container: what the step sets
/// counts first.
pub fn launch_container_step_env(
    session_env: &TextMap<String>,
    launch_env: &TextMap<String>,
    step_env: Result<TextMap<String>, Failure>,
) -> (r: Result<TextMap<String>, Failure>)
    ensures
        outcome(r) == match step_env {
            Ok(set) => Ok::<Labels, Chain>(
                launch_env_of(launch_env_of(session_env@, launch_env@), set@),
            ),
            Err(failure) => Err(failure@),
        },
{
    let mut env = launch_final_env(session_env, launch_env);
    match step_env {
        Ok(set) => {
            env.extend(&set);
            Ok(env)
        },
        Err(failure) => Err(failure),
    }
}

// ---------------------------------------------------------------- prepared commands

/// A launch with its texts filled in, and what its steps came to.
#[derive(Debug)]
pub struct RenderedLaunch {
    pub env: Result<TextMap<String>, Failure>,
    pub steps: Result<(), Failure>,
    pub session_env: Result<TextMap<String>, Failure>,
    pub cwd: Option<Result<String, Failure>>,
    pub command: Result<Vec<String>, Failure>,
}

/// Why a launch has no command to run: its environment, its steps, the session's
/// environment, its directory and its command are looked at in this order.
pub open spec fn launch_refused(launch: RenderedLaunch) -> Option<Chain> {
    either(
        failed(launch.env),
        either(
            refusal(launch.steps),
            either(
                failed(launch.session_env),
                either(
                    match launch.cwd {
                        Some(cwd) => failed(cwd),
                        None => None,
                    },
                    failed(launch.command),
                ),
            ),
        ),
    )
}

impl Runtime {
    /// The command of a run, in the session's environment.
    pub fn prepare_run_command(
        &self,
        command: Vec<String>,
        cwd: Option<&str>,
        session_env: Result<TextMap<String>, Failure>,
        stdin_tty: bool,
        stdout_tty: bool,
    ) -> (r: Result<ContainerExecSpec, Failure>)
        ensures
            outcome(r) == match session_env {
                Err(failure) => Err::<ExecModel, Chain>(failure@),
                Ok(env) => Ok(
                    self.exec_of(
                        texts(command@),
                        match cwd {
                            Some(dir) => Some(with_home(self.identity.container_home@, dir@)),
                            None => None,
                        },
                        env@,
                        (stdin_tty, stdout_tty),
                    ),
                ),
            },
    {
        let cwd = self.run_cwd(cwd);
        match session_env {
            Err(failure) => Err(failure),
            Ok(env) => Ok(
                self.final_container_exec_spec(command, cwd, env, stdin_tty, stdout_tty),
            ),
        }
    }

    pub open spec fn launch_exec(self, launch: RenderedLaunch, tty: (bool, bool)) -> ExecModel {
        self.exec_of(
            texts(launch.command->Ok_0@),
            match launch.cwd {
                Some(cwd) => Some(with_home(self.identity.container_home@, cwd->Ok_0@)),
                None => None,
            },
            launch.session_env->Ok_0@.union_prefer_right(launch.env->Ok_0@),
            tty,
        )
    }

    /// The command of a launch, once its steps were taken.
    pub fn prepare_launch_command(
        &self,
        launch: RenderedLaunch,
        stdin_tty: bool,
        stdout_tty: bool,
    ) -> (r: Result<ContainerExecSpec, Failure>)
        ensures
            outcome(r) == match launch_refused(launch) {
                Some(chain) => Err::<ExecModel, Chain>(chain),
                None => Ok(self.launch_exec(launch, (stdin_tty, stdout_tty))),
            },
    {
        let launch_env = match launch.env {
            Ok(env) => env,
            Err(failure) => return Err(failure),
        };
        if let Err(failure) = launch.steps {
            return Err(failure);
        }
        let session_env = match launch.session_env {
            Ok(env) => env,
            Err(failure) => return Err(failure),
        };
        let env = launch_final_env(&session_env, &launch_env);
        let cwd = match render_launch_cwd(launch.cwd, self.identity.container_home.as_str()) {
            Ok(cwd) => cwd,
            Err(failure) => return Err(failure),
        };
        match launch.command {
            Ok(command) => Ok(
                self.final_container_exec_spec(command, cwd, env, stdin_tty, stdout_tty),
            ),
            Err(failure) => Err(failure),
        }
    }
}

/// What a launch sets is not changed by the session, and what a step sets is not
/// changed by either.
pub proof fn inner_settings_win(session: Labels, launch: Labels, step: Labels, key: Seq<char>)
    ensures
        ({
            let all = session.union_prefer_right(launch).union_prefer_right(step);
            &&& step.contains_key(key) ==> all.contains_key(key) && all[key] == step[key]
            &&& !step.contains_key(key) && launch.contains_key(key) ==> all.contains_key(key)
                && all[key] == launch[key]
            &&& !step.contains_key(key) && !launch.contains_key(key) && session.contains_key(key)
                ==> all.contains_key(key) && all[key] == session[key]
        }),
{
}

/// A command is run in the target's container as the session's user, who goes by
/// number on Podman and by name elsewhere. What it runs, where, with which
/// variables and on which terminal is as it was given.
pub proof fn commands_run_as_given(
    runtime: Runtime,
    command: Seq<Seq<char>>,
    cwd: Option<Seq<char>>,
    env: Labels,
    tty: (bool, bool),
)
    ensures
        ({
            let exec = runtime.exec_of(command, cwd, env, tty);
            &&& exec.container_name == runtime.identity.container_name@
            &&& exec.command == command
            &&& exec.cwd == cwd
            &&& exec.env == env
            &&& exec.stdin_tty == tty.0
            &&& exec.stdout_tty == tty.1
            &&& runtime.kind == ContainerRuntimeType::Podman ==> exec.user == decimal(
                runtime.identity.session_uid as nat,
            ) + ":"@ + decimal(runtime.identity.session_gid as nat)
            &&& runtime.kind != ContainerRuntimeType::Podman ==> exec.user
                == runtime.identity.container_user@
        }),
{
}

/// A launch is run exactly when its variables, its steps, the session's variables,
/// its directory and its command all came to something. It runs its own command in
/// its own directory; what it sets counts before what the session sets, and it
/// gets all that either sets.
pub proof fn launches_run_their_command(
    runtime: Runtime,
    launch: RenderedLaunch,
    tty: (bool, bool),
    key: Seq<char>,
)
    ensures
        launch_refused(launch) is None <==> {
            &&& launch.env is Ok
            &&& launch.steps is Ok
            &&& launch.session_env is Ok
            &&& launch.cwd is Some ==> launch.cwd->0 is Ok
            &&& launch.command is Ok
        },
        launch_refused(launch) is None ==> {
            let exec = runtime.launch_exec(launch, tty);
            let own = launch.env->Ok_0@;
            let session = launch.session_env->Ok_0@;
            &&& exec.container_name == runtime.identity.container_name@
            &&& exec.command == texts(launch.command->Ok_0@)
            &&& exec.cwd is Some <==> launch.cwd is Some
            &&& launch.cwd matches Some(cwd) ==> exec.cwd == Some(
                with_home(runtime.identity.container_home@, cwd->Ok_0@),
            )
            &&& (exec.stdin_tty, exec.stdout_tty) == tty
            &&& exec.env.contains_key(key) <==> own.contains_key(key) || session.contains_key(key)
            &&& own.contains_key(key) ==> exec.env[key] == own[key]
            &&& !own.contains_key(key) && session.contains_key(key) ==> exec.env[key]
                == session[key]
        },
{
}

/// Runs and launches are recorded under words of their own, and only launches are
/// marked as such. Detached executions go on in the background without output;
/// signals reach only those whose output is passed on, and what a signal ends has
/// the exit code that shells give it.
pub proof fn sessions_are_told_apart(spec: OperationSessionSpec, mode: OperationMode, number: int)
    ensures
        spec is RunCommand ==> spec.word() == "run-command"@ && !spec.is_marked(),
        spec is Launch ==> spec.word() == "launch"@ && spec.is_marked(),
        goes_on(mode) <==> mode is Detach,
        heeds_signals(mode) <==> mode is Stream,
        !(goes_on(mode) && heeds_signals(mode)),
        discarding().mode is Detach && !discarding().output.stdout && !discarding().output.stderr,
        signaled(number) - number == 128,
{
}

/// The variables of a launch count before those of the session, and those of a
/// step before both; every other variable stays.
pub proof fn launches_set_their_variables(
    session: Labels,
    launch: Labels,
    step: Labels,
    key: Seq<char>,
)
    ensures
        ({
            let env = launch_env_of(session, launch);
            let inner = launch_env_of(env, step);
            &&& env.contains_key(key) <==> session.contains_key(key) || launch.contains_key(key)
            &&& launch.contains_key(key) ==> env[key] == launch[key]
            &&& session.contains_key(key) && !launch.contains_key(key) ==> env[key] == session[key]
            &&& step.contains_key(key) ==> inner.contains_key(key) && inner[key] == step[key]
            &&& env.contains_key(key) && !step.contains_key(key) ==> inner.contains_key(key)
                && inner[key] == env[key]
        }),
{
}

} // verus!
