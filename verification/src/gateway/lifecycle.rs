//! Getting a container to run.

use crate::failure::{plain, Chain, Failure};
use crate::gateway::state::Runtime;
use crate::runtime::ContainerInspect;
use vstd::prelude::*;

verus! {

/// How a container is brought up, by what was found of it.
#[derive(Debug)]
pub enum ContainerReadinessPlan {
    ReuseRunning(ContainerInspect),
    StartStopped(ContainerInspect),
    CreateMissing,
}

/// A running container is used as it is, a stopped one is started, and one that
/// is missing is created.
pub open spec fn plan_for(inspect: Option<ContainerInspect>) -> ContainerReadinessPlan {
    match inspect {
        Some(found) => if found.state.running {
            ContainerReadinessPlan::ReuseRunning(found)
        } else {
            ContainerReadinessPlan::StartStopped(found)
        },
        None => ContainerReadinessPlan::CreateMissing,
    }
}

/// How a container is brought up.
pub fn readiness_plan(inspect: Option<ContainerInspect>) -> (r: ContainerReadinessPlan)
    ensures
        r == plan_for(inspect),
{
    match inspect {
        Some(found) => if found.state.running {
            ContainerReadinessPlan::ReuseRunning(found)
        } else {
            ContainerReadinessPlan::StartStopped(found)
        },
        None => ContainerReadinessPlan::CreateMissing,
    }
}

/// One step of bringing up a container.
#[derive(Debug, Clone, Copy, PartialEq, Eq, Structural)]
pub enum ReadinessStep {
    RunPreStartHooks,
    RemoveStaleSockets,
    StartContainer,
    CreateContainer,
    InspectContainer,
}

/// A container that is being brought up: the step that is next, and whether the
/// runtime was asked to start it.
#[derive(Debug, Clone, Copy, PartialEq, Eq, Structural)]
pub struct BringUp {
    pub create: bool,
    pub next: ReadinessStep,
    pub start_attempted: bool,
}

/// What a plan leads to: a container that can be used, or steps.
#[derive(Debug)]
pub enum ReadinessDecision {
    Use(ContainerInspect),
    Proceed(BringUp),
}

impl ContainerReadinessPlan {
    /// The container that a plan found.
    pub open spec fn found(self) -> Option<ContainerInspect> {
        match self {
            ContainerReadinessPlan::ReuseRunning(inspect) => Some(inspect),
            ContainerReadinessPlan::StartStopped(inspect) => Some(inspect),
            ContainerReadinessPlan::CreateMissing => None,
        }
    }
}

impl BringUp {
    pub open spec fn begun(create: bool) -> BringUp {
        BringUp { create, next: ReadinessStep::RunPreStartHooks, start_attempted: false }
    }

    /// The order of the steps. Hooks and stale sockets come before the runtime
    /// is asked.
    pub open spec fn following(self) -> Option<BringUp> {
        match self.next {
            ReadinessStep::RunPreStartHooks => Some(
                BringUp { next: ReadinessStep::RemoveStaleSockets, ..self },
            ),
            ReadinessStep::RemoveStaleSockets => Some(
                BringUp {
                    next: if self.create {
                        ReadinessStep::CreateContainer
                    } else {
                        ReadinessStep::StartContainer
                    },
                    start_attempted: true,
                    ..self
                },
            ),
            ReadinessStep::StartContainer => Some(
                BringUp { next: ReadinessStep::InspectContainer, ..self },
            ),
            ReadinessStep::CreateContainer => Some(
                BringUp { next: ReadinessStep::InspectContainer, ..self },
            ),
            ReadinessStep::InspectContainer => None,
        }
    }

    /// What comes after a step that succeeded; nothing after the last.
    pub fn advance(self) -> (r: Option<BringUp>)
        ensures
            r == self.following(),
    {
        match self.next {
            ReadinessStep::RunPreStartHooks => Some(
                BringUp {
                    create: self.create,
                    next: ReadinessStep::RemoveStaleSockets,
                    start_attempted: self.start_attempted,
                },
            ),
            ReadinessStep::RemoveStaleSockets => Some(
                BringUp {
                    create: self.create,
                    next: if self.create {
                        ReadinessStep::CreateContainer
                    } else {
                        ReadinessStep::StartContainer
                    },
                    start_attempted: true,
                },
            ),
            ReadinessStep::StartContainer => Some(
                BringUp {
                    create: self.create,
                    next: ReadinessStep::InspectContainer,
                    start_attempted: self.start_attempted,
                },
            ),
            ReadinessStep::CreateContainer => Some(
                BringUp {
                    create: self.create,
                    next: ReadinessStep::InspectContainer,
                    start_attempted: self.start_attempted,
                },
            ),
            ReadinessStep::InspectContainer => None,
        }
    }

    /// Whether a failure is followed by cleaning up: only once the runtime was
    /// asked to start the container.
    pub fn needs_cleanup(&self) -> (r: bool)
        ensures
            r == self.start_attempted,
    {
        self.start_attempted
    }
}

impl Runtime {
    /// What a plan leads to.
    pub open spec fn decision(self, plan: ContainerReadinessPlan) -> Result<
        ReadinessDecision,
        Chain,
    > {
        match plan.found() {
            Some(inspect) => match self.label_refusal(inspect.labels()) {
                Some(chain) => Err(chain),
                None => Ok(
                    if plan is ReuseRunning {
                        ReadinessDecision::Use(inspect)
                    } else {
                        ReadinessDecision::Proceed(BringUp::begun(false))
                    },
                ),
            },
            None => Ok(ReadinessDecision::Proceed(BringUp::begun(true))),
        }
    }

    /// A container that was found must be this target's, before anything is
    /// done to it.
    pub fn begin_readiness(&self, plan: ContainerReadinessPlan) -> (r: Result<
        ReadinessDecision,
        Failure,
    >)
        ensures
            match self.decision(plan) {
                Ok(decision) => r == Ok::<ReadinessDecision, Failure>(decision),
                Err(chain) => r matches Err(failure) && failure@ == chain,
            },
    {
        match plan {
            ContainerReadinessPlan::ReuseRunning(existing) => {
                if let Err(failure) = self.validate_labels(&existing) {
                    return Err(failure);
                }
                Ok(ReadinessDecision::Use(existing))
            },
            ContainerReadinessPlan::StartStopped(existing) => {
                if let Err(failure) = self.validate_labels(&existing) {
                    return Err(failure);
                }
                Ok(
                    ReadinessDecision::Proceed(
                        BringUp {
                            create: false,
                            next: ReadinessStep::RunPreStartHooks,
                            start_attempted: false,
                        },
                    ),
                )
            },
            ContainerReadinessPlan::CreateMissing => Ok(
                ReadinessDecision::Proceed(
                    BringUp {
                        create: true,
                        next: ReadinessStep::RunPreStartHooks,
                        start_attempted: false,
                    },
                ),
            ),
        }
    }
}

/// The container after it was started, which must exist.
pub fn container_after_start(inspect: Option<ContainerInspect>) -> (r: Result<
    ContainerInspect,
    Failure,
>)
    ensures
        match inspect {
            Some(found) => r == Ok::<ContainerInspect, Failure>(found),
            None => r matches Err(failure) && failure@ == plain(
                "container did not exist after start"@,
            ),
        },
{
    match inspect {
        Some(found) => Ok(found),
        None => Err(Failure::msg("container did not exist after start")),
    }
}

/// The state after so many steps.
pub open spec fn after_steps(start: BringUp, n: nat) -> Option<BringUp>
    decreases n,
{
    if n == 0 {
        Some(start)
    } else {
        match after_steps(start, (n - 1) as nat) {
            Some(state) => state.following(),
            None => None,
        }
    }
}

/// Bringing up a container takes four steps, in this order; the runtime counts
/// as asked from the third on, and not before.
pub proof fn readiness_steps_in_order(create: bool)
    ensures
        ({
            let start = BringUp::begun(create);
            &&& start.next == ReadinessStep::RunPreStartHooks && !start.start_attempted
            &&& after_steps(start, 1) matches Some(s) && s.next
                == ReadinessStep::RemoveStaleSockets && !s.start_attempted
            &&& after_steps(start, 2) matches Some(s) && s.start_attempted && s.next == (
            if create {
                ReadinessStep::CreateContainer
            } else {
                ReadinessStep::StartContainer
            })
            &&& after_steps(start, 3) matches Some(s) && s.start_attempted && s.next
                == ReadinessStep::InspectContainer
            &&& after_steps(start, 4) is None
        }),
{
    reveal_with_fuel(after_steps, 6);
}

/// A container that runs is used as it is, and nothing is done to it. One that
/// stopped is started, and one that is missing is created; either way the hooks
/// come first and the runtime was not asked yet. A container that is not this
/// target's is refused, running or not.
pub proof fn containers_are_brought_up_by_need(runtime: Runtime, seen: Option<ContainerInspect>)
    ensures
        ({
            let decision = runtime.decision(plan_for(seen));
            let accepted = seen matches Some(found) ==> runtime.label_refusal(found.labels())
                is None;
            &&& decision is Ok <==> accepted
            &&& decision matches Err(chain) ==> runtime.label_refusal(seen->0.labels()) == Some(
                chain,
            )
            &&& decision matches Ok(ReadinessDecision::Use(used)) ==> seen == Some(used)
                && used.state.running
            &&& decision matches Ok(ReadinessDecision::Proceed(up)) ==> {
                &&& up.create <==> seen is None
                &&& up.next == ReadinessStep::RunPreStartHooks
                &&& !up.start_attempted
                &&& seen matches Some(found) ==> !found.state.running
            }
        }),
{
}

} // verus!
