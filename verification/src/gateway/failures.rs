//! Failures that the gateway tells apart.

use crate::failure::{Failure, FailureKind};
use vstd::prelude::*;

verus! {

/// The agent inside the container did not become ready.
pub struct AgentNotReady;

impl AgentNotReady {
    pub fn failure() -> (r: Failure)
        ensures
            r@ == seq![(FailureKind::AgentNotReady, "container agent did not become ready"@)],
    {
        Failure::typed(FailureKind::AgentNotReady, "container agent did not become ready")
    }
}

/// The container is not there.
pub struct ContainerNotFound;

impl ContainerNotFound {
    pub fn after_start() -> (r: Failure)
        ensures
            r@ == seq![(FailureKind::ContainerNotFound, "container did not exist after start"@)],
    {
        Failure::typed(FailureKind::ContainerNotFound, "container did not exist after start")
    }
}

} // verus!
