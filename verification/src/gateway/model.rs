//! What the gateway reports.

use crate::failure::{outcome, plain, Chain, Failure};
use crate::gateway::host_socket_exposures::HostSocketExposureStatus;
use crate::gateway::ops::types::{ExecutionOutcome, LaunchVarValue};
use crate::text::{cat5, quote, quoted};
use crate::text_map::TextMap;
use vstd::prelude::*;

verus! {

/// How a session ended.
#[derive(Debug, Clone, Copy, PartialEq, Eq, Structural)]
pub enum SessionOutcome {
    Success,
    Failure,
    Canceled,
}

impl SessionOutcome {
    /// How a session ended whose command ended so.
    pub open spec fn of_code(result: Result<i32, Failure>) -> SessionOutcome {
        match result {
            Ok(code) if code == 0 => SessionOutcome::Success,
            _ => SessionOutcome::Failure,
        }
    }

    /// How a session ended whose execution ended so.
    pub open spec fn of_execution(result: Result<ExecutionOutcome, Failure>) -> SessionOutcome {
        match result {
            Ok(ExecutionOutcome::Canceled { .. }) => SessionOutcome::Canceled,
            Ok(ExecutionOutcome::Streamed { exit_code }) if exit_code
                == 0 => SessionOutcome::Success,
            Ok(ExecutionOutcome::Captured { exit_code, .. }) if exit_code
                == 0 => SessionOutcome::Success,
            _ => SessionOutcome::Failure,
        }
    }

    /// A session succeeds when its command exits with 0.
    pub fn from_exit_code_result(result: &Result<i32, Failure>) -> (r: SessionOutcome)
        ensures
            r == Self::of_code(*result),
    {
        match result {
            Ok(code) => if *code == 0 {
                SessionOutcome::Success
            } else {
                SessionOutcome::Failure
            },
            Err(_) => SessionOutcome::Failure,
        }
    }

    /// How a session ended whose execution ended in this way.
    pub fn from_execution_result(result: &Result<ExecutionOutcome, Failure>) -> (r: SessionOutcome)
        ensures
            r == Self::of_execution(*result),
    {
        match result {
            Ok(ExecutionOutcome::Canceled { .. }) => SessionOutcome::Canceled,
            Ok(outcome) => match outcome.exit_code() {
                Some(code) => if code == 0 {
                    SessionOutcome::Success
                } else {
                    SessionOutcome::Failure
                },
                None => SessionOutcome::Failure,
            },
            Err(_) => SessionOutcome::Failure,
        }
    }
}

// ---------------------------------------------------------------- endpoints

#[derive(Debug, Clone, PartialEq, Eq)]
pub struct TcpEndpoint {
    pub host: String,
    pub port: u16,
}

impl View for TcpEndpoint {
    type V = (Seq<char>, u16);

    open spec fn view(&self) -> (Seq<char>, u16) {
        (self.host@, self.port)
    }
}

impl TcpEndpoint {
    /// An endpoint on the loopback interface.
    pub fn loopback(port: u16) -> (r: TcpEndpoint)
        ensures
            r@ == ("127.0.0.1"@, port),
    {
        TcpEndpoint { host: "127.0.0.1".to_owned(), port }
    }

    /// A copy with the same values.
    pub fn duplicate(&self) -> (r: TcpEndpoint)
        ensures
            r@ == self@,
    {
        TcpEndpoint { host: self.host.clone(), port: self.port }
    }
}

/// Where SSH traffic goes.
#[derive(Debug, Clone, PartialEq, Eq)]
pub enum SshTarget {
    Unix(String),
    Tcp(TcpEndpoint),
}

pub enum SshRoute {
    Unix(Seq<char>),
    Tcp((Seq<char>, u16)),
}

impl View for SshTarget {
    type V = SshRoute;

    open spec fn view(&self) -> SshRoute {
        match self {
            SshTarget::Unix(socket) => SshRoute::Unix(socket@),
            SshTarget::Tcp(endpoint) => SshRoute::Tcp(endpoint@),
        }
    }
}

#[derive(Debug, Clone, PartialEq, Eq)]
pub struct LocalSshReady {
    pub host: String,
    pub port: u16,
}

/// A target that is ready to be used.
#[derive(Debug, Clone)]
pub struct ReadyStatus {
    pub target: String,
    pub session_id: Option<String>,
    pub mode: String,
    pub user: String,
    pub image: String,
    pub container: String,
    pub access: String,
    pub context: TextMap<String>,
    pub container_pid: Option<i64>,
    pub ssh_socket: Option<String>,
    pub ssh_tcp: Option<TcpEndpoint>,
    pub status: String,
    pub local_ssh: Option<LocalSshReady>,
    pub client_config: Option<String>,
}

impl ReadyStatus {
    /// Where SSH traffic for the target goes: a TCP endpoint before a socket.
    pub open spec fn ssh_route(self) -> Result<SshRoute, Chain> {
        match (self.ssh_tcp, self.ssh_socket) {
            (Some(endpoint), _) => Ok(SshRoute::Tcp(endpoint@)),
            (None, Some(socket)) => Ok(SshRoute::Unix(socket@)),
            (None, None) => Err(
                plain(
                    "target "@ + quoted(self.target@) + " uses access.method = "@ + quoted(
                        self.access@,
                    ) + " and does not expose an SSH endpoint"@,
                ),
            ),
        }
    }

    pub fn ssh_target(&self) -> (r: Result<SshTarget, Failure>)
        ensures
            outcome(r) == self.ssh_route(),
    {
        if let Some(endpoint) = &self.ssh_tcp {
            return Ok(SshTarget::Tcp(endpoint.duplicate()));
        }
        if let Some(socket) = &self.ssh_socket {
            return Ok(SshTarget::Unix(socket.clone()));
        }
        let message = cat5(
            "target ",
            quote(self.target.as_str()).as_str(),
            " uses access.method = ",
            quote(self.access.as_str()).as_str(),
            " and does not expose an SSH endpoint",
        );
        Err(Failure::msg(message.as_str()))
    }
}

// ---------------------------------------------------------------- sessions

/// The record that a session is under way.
#[derive(Debug, Clone)]
pub struct SessionMarker {
    pub id: String,
    pub kind: String,
    pub gateway_pid: u32,
    pub gateway_start_time: String,
    pub container: String,
    pub target: String,
    pub launch: Option<String>,
    pub context: TextMap<String>,
    pub created_at_ms: u128,
}

/// What is reported of a session.
#[derive(Debug, Clone)]
pub struct SessionStatus {
    pub id: String,
    pub kind: String,
    pub gateway_pid: u32,
    pub container: String,
    pub target: String,
    pub launch: Option<String>,
    pub context: TextMap<String>,
    pub created_at_ms: u128,
}

/// The record that a local listener is under way.
#[derive(Debug, Clone, PartialEq, Eq)]
pub struct LocalListenerStatus {
    pub gateway_pid: u32,
    pub gateway_start_time: String,
    pub host: String,
    pub port: u16,
    pub created_at_ms: u128,
}

impl SessionStatus {
    /// What is reported of a session with this record.
    pub open spec fn of_marker(marker: SessionMarker) -> SessionStatus {
        SessionStatus {
            id: marker.id,
            kind: marker.kind,
            gateway_pid: marker.gateway_pid,
            container: marker.container,
            target: marker.target,
            launch: marker.launch,
            context: marker.context,
            created_at_ms: marker.created_at_ms,
        }
    }

    pub fn from_marker(marker: SessionMarker) -> (r: SessionStatus)
        ensures
            r == Self::of_marker(marker),
    {
        SessionStatus {
            id: marker.id,
            kind: marker.kind,
            gateway_pid: marker.gateway_pid,
            container: marker.container,
            target: marker.target,
            launch: marker.launch,
            context: marker.context,
            created_at_ms: marker.created_at_ms,
        }
    }
}

// ---------------------------------------------------------------- targets and launches

/// What the agent inside a container says of itself.
#[derive(Debug, Clone, PartialEq, Eq)]
pub struct AgentStatus {
    pub ready: bool,
    pub version: String,
    pub services: Vec<AgentServiceStatus>,
    pub ssh_bridge: AgentBridgeStatus,
    pub idle_cleanup: Option<AgentIdleStatus>,
    pub shutting_down: bool,
}

/// A service that the agent supervises.
#[derive(Debug, Clone, PartialEq, Eq)]
pub struct AgentServiceStatus {
    pub name: String,
    pub required: bool,
    pub state: String,
    pub pid: Option<u32>,
    pub healthy: Option<bool>,
    pub restart_count: u64,
    pub last_error: Option<String>,
}

/// The agent's way from its socket to the container's SSH daemon.
#[derive(Debug, Clone, Copy, PartialEq, Eq)]
pub struct AgentBridgeStatus {
    pub enabled: bool,
    pub ready: bool,
    pub active_streams: u64,
    pub active_sessions: u64,
}

/// How far an idle container is from being stopped. The processes that were
/// matched and the last result are kept as the JSON texts that the agent sent.
#[derive(Debug, Clone, PartialEq, Eq)]
pub struct AgentIdleStatus {
    pub owner: String,
    pub action: String,
    pub state: String,
    pub idle_for_ms: Option<u64>,
    pub preserve: bool,
    pub preserve_reason: Option<String>,
    pub matched_processes: Vec<String>,
    pub last_reap_result: Option<String>,
}

/// What is reported of a target.
#[derive(Debug, Clone)]
pub struct GatewayStatus {
    pub host_socket_exposures: Vec<HostSocketExposureStatus>,
    pub target: String,
    pub session_id: Option<String>,
    pub launch: Option<String>,
    pub mode: String,
    pub user: String,
    pub image: String,
    pub access: String,
    pub container: Option<String>,
    pub context: TextMap<String>,
    pub container_pid: Option<i64>,
    pub active_sessions: usize,
    pub sessions: Vec<SessionStatus>,
    pub agent_ready: bool,
    pub ssh_socket: Option<String>,
    pub ssh_tcp: Option<TcpEndpoint>,
    pub local_ssh: Option<LocalSshReady>,
    pub status: String,
    pub agent: Option<AgentStatus>,
}

/// A target in the list of targets.
#[derive(Debug, Clone, PartialEq, Eq)]
pub struct TargetEntry {
    pub target: String,
    pub image: String,
    pub access: String,
    pub mode: String,
    pub container: String,
    pub default: bool,
}

/// A launch in the list of launches.
#[derive(Debug, Clone)]
pub struct LaunchSummary {
    pub name: String,
    pub target: String,
    pub allow_args: bool,
    pub description: Option<String>,
    pub vars: TextMap<LaunchVarMetadata>,
}

/// All that is told of a launch.
#[derive(Debug, Clone)]
pub struct LaunchDetail {
    pub name: String,
    pub target: String,
    pub target_mode: String,
    pub allow_args: bool,
    pub target_container: Option<String>,
    pub description: Option<String>,
    pub vars: TextMap<LaunchVarMetadata>,
    pub steps: Vec<LaunchStepDetail>,
    pub cwd: Option<String>,
    pub env: TextMap<String>,
    pub command: Vec<String>,
}

#[derive(Debug, Clone)]
pub struct LaunchStepDetail {
    pub name: String,
    pub phase: String,
    pub location: String,
    pub required: bool,
    pub timeout: Option<String>,
    pub cwd: Option<String>,
    pub env: TextMap<String>,
    pub command: Vec<String>,
}

#[derive(Debug, Clone, PartialEq, Eq)]
pub struct LaunchVarMetadata {
    pub var_type: String,
    pub required: bool,
    pub default: Option<LaunchVarValue>,
    pub values: Option<Vec<String>>,
    pub description: Option<String>,
}

impl View for LaunchVarMetadata {
    type V = LaunchVarMetadata;

    open spec fn view(&self) -> LaunchVarMetadata {
        *self
    }
}

/// A container in the list of all managed containers.
#[derive(Debug, Clone, PartialEq, Eq)]
pub struct AllStatusEntry {
    pub target: String,
    pub session_id: Option<String>,
    pub launch: Option<String>,
    pub mode: String,
    pub user: String,
    pub uid: String,
    pub image: String,
    pub container: String,
    pub context: TextMap<String>,
    pub status: String,
}

/// The one word for what a target is doing.
pub open spec fn status_word(
    container_running: bool,
    agent_expected: bool,
    agent_seen: bool,
    agent_ready: bool,
) -> Seq<char> {
    if !container_running {
        "not-running"@
    } else if !agent_expected {
        "container-running"@
    } else if agent_ready {
        "ready"@
    } else if agent_seen {
        "container-running-agent-not-ready"@
    } else {
        "container-running-agent-unavailable"@
    }
}

pub fn gateway_status_name(
    container_running: bool,
    agent_expected: bool,
    agent_seen: bool,
    agent_ready: bool,
) -> (r: &'static str)
    ensures
        r@ == status_word(container_running, agent_expected, agent_seen, agent_ready),
{
    if !container_running {
        "not-running"
    } else if !agent_expected {
        "container-running"
    } else if agent_ready {
        "ready"
    } else if agent_seen {
        "container-running-agent-not-ready"
    } else {
        "container-running-agent-unavailable"
    }
}

/// A target is called ready only while its container runs and its agent is
/// ready.
pub proof fn ready_means_running(
    container_running: bool,
    agent_expected: bool,
    agent_seen: bool,
    agent_ready: bool,
)
    ensures
        status_word(container_running, agent_expected, agent_seen, agent_ready) == "ready"@
            <==> container_running && agent_expected && agent_ready,
{
    reveal_strlit("ready");
    reveal_strlit("not-running");
    reveal_strlit("container-running");
    reveal_strlit("container-running-agent-not-ready");
    reveal_strlit("container-running-agent-unavailable");
    assert("ready"@.len() == 5);
    assert("not-running"@.len() == 11);
}

/// Each state has its own word. Without a container nothing of an agent counts;
/// where no agent is expected, a running container is all there is to say.
pub proof fn states_have_their_words(
    container_running: bool,
    agent_expected: bool,
    agent_seen: bool,
    agent_ready: bool,
)
    ensures
        ({
            let word = status_word(container_running, agent_expected, agent_seen, agent_ready);
            &&& word == "not-running"@ <==> !container_running
            &&& word == "container-running"@ <==> container_running && !agent_expected
            &&& word == "container-running-agent-not-ready"@ <==> container_running
                && agent_expected && agent_seen && !agent_ready
            &&& word == "container-running-agent-unavailable"@ <==> container_running
                && agent_expected && !agent_seen && !agent_ready
        }),
{
    reveal_strlit("ready");
    reveal_strlit("not-running");
    reveal_strlit("container-running");
    reveal_strlit("container-running-agent-not-ready");
    reveal_strlit("container-running-agent-unavailable");
    assert("ready"@.len() == 5);
    assert("not-running"@.len() == 11);
    assert("container-running"@.len() == 17);
    assert("container-running-agent-not-ready"@.len() == 33);
    assert("container-running-agent-unavailable"@.len() == 35);
}

/// A session succeeded exactly where its command ran to its end and exited with
/// 0, and was canceled exactly where its execution was.
pub proof fn sessions_succeed_by_exit_code(
    code: Result<i32, Failure>,
    result: Result<ExecutionOutcome, Failure>,
)
    ensures
        SessionOutcome::of_code(code) == SessionOutcome::Success <==> code == Ok::<i32, Failure>(0),
        SessionOutcome::of_code(code) != SessionOutcome::Canceled,
        SessionOutcome::of_execution(result) == SessionOutcome::Canceled <==> (result matches Ok(
            outcome,
        ) && outcome is Canceled),
        SessionOutcome::of_execution(result) == SessionOutcome::Success <==> (result matches Ok(
            outcome,
        ) && match outcome {
            ExecutionOutcome::Streamed { exit_code } => exit_code == 0,
            ExecutionOutcome::Captured { exit_code, .. } => exit_code == 0,
            _ => false,
        }),
        result is Err ==> SessionOutcome::of_execution(result) == SessionOutcome::Failure,
{
}

/// SSH traffic goes to the TCP endpoint that a target shows; else to the socket
/// that it shows; a target that shows neither is refused.
pub proof fn ssh_goes_where_it_is_shown(status: ReadyStatus)
    ensures
        status.ssh_route() is Err <==> status.ssh_tcp is None && status.ssh_socket is None,
        status.ssh_tcp matches Some(endpoint) ==> status.ssh_route() == Ok::<SshRoute, Chain>(
            SshRoute::Tcp((endpoint.host@, endpoint.port)),
        ),
        status.ssh_tcp is None ==> (status.ssh_socket matches Some(socket) ==> status.ssh_route()
            == Ok::<SshRoute, Chain>(SshRoute::Unix(socket@))),
{
}

/// What is reported of a session is what was recorded of it.
pub proof fn sessions_are_reported_as_recorded(marker: SessionMarker)
    ensures
        ({
            let status = SessionStatus::of_marker(marker);
            &&& status.id == marker.id && status.kind == marker.kind
            &&& status.gateway_pid == marker.gateway_pid
            &&& status.container == marker.container && status.target == marker.target
            &&& status.launch == marker.launch && status.context == marker.context
            &&& status.created_at_ms == marker.created_at_ms
        }),
{
}

} // verus!
