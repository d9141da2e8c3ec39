//! The parts of the gateway's configuration that its decisions read.

use vstd::prelude::*;

verus! {

/// The container runtimes that a target can run on.
#[derive(Debug, Clone, Copy, PartialEq, Eq, Structural)]
pub enum ContainerRuntimeType {
    Podman,
    Docker,
    Colima,
    AppleContainer,
}

/// Whether a target has one container or one for each session.
#[derive(Debug, Clone, Copy, PartialEq, Eq, Structural)]
pub enum TargetMode {
    Fixed,
    Ephemeral,
}

/// How a session enters its container.
#[derive(Debug, Clone, Copy, PartialEq, Eq, Structural)]
pub enum TargetAccessMethod {
    Ssh,
    RuntimeExec,
}

/// When the workspace of a session is deleted.
#[derive(Debug, Clone, Copy, PartialEq, Eq, Structural)]
pub enum WorkspaceCleanup {
    Never,
    Success,
    Always,
}

/// How local SSH clients reach a target.
#[derive(Debug, Clone, Copy, PartialEq, Eq, Structural)]
pub enum LocalSshMode {
    Listen,
    ProxyCommand,
    Direct,
}

/// What carries SSH traffic into the container.
#[derive(Debug, Clone, Copy, PartialEq, Eq, Structural)]
pub enum LocalSshBackend {
    Socket,
    PublishedPort,
}

#[derive(Debug, Clone, Copy, PartialEq, Eq, Structural)]
pub enum IdleCleanupOwner {
    Gateway,
    Agent,
}

#[derive(Debug, Clone, Copy, PartialEq, Eq, Structural)]
pub enum IdleCleanupAction {
    Nothing,
    ExitContainer,
}

#[derive(Debug, Clone, Copy, PartialEq, Eq, Structural)]
pub enum ContainerMountMode {
    Ro,
    Rw,
}

impl TargetAccessMethod {
    pub open spec fn name(self) -> Seq<char> {
        match self {
            TargetAccessMethod::Ssh => "ssh"@,
            TargetAccessMethod::RuntimeExec => "runtime_exec"@,
        }
    }

    pub fn as_str(&self) -> (r: &'static str)
        ensures
            r@ == self.name(),
    {
        match self {
            TargetAccessMethod::Ssh => "ssh",
            TargetAccessMethod::RuntimeExec => "runtime_exec",
        }
    }
}

} // verus!
