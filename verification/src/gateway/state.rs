//! What the gateway knows of one target on behalf of one user.

use crate::config::{
    ContainerRuntimeType, IdleCleanupAction, IdleCleanupOwner, LocalSshBackend, LocalSshMode,
    TargetAccessMethod, TargetMode, WorkspaceCleanup,
};
use crate::paths::UserContext;
use crate::text_map::TextMap;
use vstd::prelude::*;

verus! {

/// Who and what a runtime is for.
#[derive(Debug, Clone)]
pub struct RuntimeIdentity {
    pub user: UserContext,
    pub target_name: String,
    pub launch_name: Option<String>,
    pub session_id: Option<String>,
    pub bootstrap_user: String,
    pub session_uid: u32,
    pub session_gid: u32,
    pub session_shell: String,
    pub container_user: String,
    pub container_home: String,
    pub container_name: String,
}

/// The sockets between the gateway and its container.
#[derive(Debug, Clone, PartialEq, Eq)]
pub struct ControlSocketPaths {
    pub host_dir: String,
    pub container_dir: String,
    pub host_agent_socket: String,
    pub host_ssh_socket: String,
    pub container_agent_socket: String,
    pub container_ssh_socket: String,
    pub default_host_dir: bool,
}

#[derive(Debug, Clone)]
pub struct RuntimePaths {
    pub workspace: String,
    pub workspace_container_path: String,
    pub workspace_state_dir: String,
    pub workspace_state_dir_in_container: String,
    pub container_state_dir: String,
    pub container_state_dir_in_container: String,
    pub control_sockets: ControlSocketPaths,
}

#[derive(Debug, Clone, Copy, PartialEq, Eq, Structural)]
pub struct IdleCleanup {
    pub owner: IdleCleanupOwner,
    pub action: IdleCleanupAction,
}

/// The parts of a target's effective configuration that decisions read.
#[derive(Debug, Clone)]
pub struct TargetConfig {
    pub image: String,
    pub mode: TargetMode,
    pub access_method: TargetAccessMethod,
    pub agent_enabled: bool,
    pub agent_control_enabled: bool,
    pub ssh_bridge_enabled: bool,
    pub ssh_endpoint_configured: bool,
    pub ssh_backend: LocalSshBackend,
    pub ssh_mode: LocalSshMode,
    pub ssh_port: Option<u16>,
    pub requires_control_socket_dir: bool,
    pub bootstrap_enabled: bool,
    pub session_env_inherit: Vec<String>,
    pub workspace_cleanup: WorkspaceCleanup,
    pub idle_cleanup: Option<IdleCleanup>,
    pub host_socket_exposures: bool,
}

/// The gateway's view of one target.
#[derive(Debug, Clone)]
pub struct Runtime {
    pub context: TextMap<String>,
    pub target: TargetConfig,
    pub identity: RuntimeIdentity,
    pub paths: RuntimePaths,
    pub kind: ContainerRuntimeType,
}

} // verus!
