//! Stopping and removing a container, step by step.
//!
//! The steps that touch the container are taken outside; what was seen comes
//! back here, and the next step is decided.

use crate::failure::{outcome, Chain, Failure};
use crate::gateway::host_socket_exposures::deref_inspect;
use crate::gateway::ops::types::{RemoveResult, StopResult};
use crate::gateway::ownership::{accepted_containers_are_ones_own, names_owner};
use crate::gateway::state::Runtime;
use crate::runtime::ContainerInspect;
use vstd::prelude::*;

verus! {

/// What stopping does after the container was looked up.
#[derive(Debug)]
pub enum StopStep {
    StopContainer,
    Finished(StopResult),
}

/// What is reported of a container that need not be stopped.
pub open spec fn stopped_without(container: Seq<char>, exists: bool) -> Option<(Seq<char>, bool)> {
    if exists {
        None
    } else {
        Some((container, false))
    }
}

/// Stops a container that exists; one that does not is reported as not stopped.
pub fn stop_after_inspect(container: &str, exists: bool) -> (r: StopStep)
    ensures
        match stopped_without(container@, exists) {
            None => r is StopContainer,
            Some((name, stopped)) => r matches StopStep::Finished(result) && result.container@
                == name && result.stopped == stopped,
        },
{
    if exists {
        StopStep::StopContainer
    } else {
        StopStep::Finished(StopResult { container: container.to_owned(), stopped: false })
    }
}

/// The answer once the container was stopped.
pub fn stop_result(container: &str) -> (r: StopResult)
    ensures
        r.container@ == container@,
        r.stopped,
{
    StopResult { container: container.to_owned(), stopped: true }
}

/// A removal that is under way.
#[derive(Debug, Clone, Copy, PartialEq, Eq, Structural)]
pub enum Removal {
    /// The container is to be stopped, then looked up again.
    StopFirst,
    /// The container was not running; it is to be looked up again.
    LookAgain { was_running: bool },
    /// The container is to be removed.
    RemoveContainer { was_running: bool },
    /// What is left is to be cleaned up.
    CleanUp { sockets: bool, removed: bool },
}

impl View for Removal {
    type V = Removal;

    open spec fn view(&self) -> Removal {
        *self
    }
}

/// What the first look at the container leads to.
pub open spec fn first_look(runtime: Runtime, seen: Option<ContainerInspect>) -> Result<
    Removal,
    Chain,
> {
    match seen {
        None => Ok(Removal::CleanUp { sockets: true, removed: false }),
        Some(inspect) => match runtime.label_refusal(inspect.labels()) {
            Some(chain) => Err(chain),
            None => Ok(
                if inspect.state.running {
                    Removal::StopFirst
                } else {
                    Removal::LookAgain { was_running: false }
                },
            ),
        },
    }
}

/// What the second look leads to. Stopping a running container has already
/// cleaned up its sockets.
pub open spec fn second_look(
    runtime: Runtime,
    was_running: bool,
    seen: Option<ContainerInspect>,
) -> Result<Removal, Chain> {
    match seen {
        None => Ok(Removal::CleanUp { sockets: !was_running, removed: true }),
        Some(inspect) => match runtime.label_refusal(inspect.labels()) {
            Some(chain) => Err(chain),
            None => Ok(Removal::RemoveContainer { was_running }),
        },
    }
}

/// The first look at the container: one that is not there leaves only cleaning
/// up, and one that is there must be this target's.
pub fn removal_after_first_look(runtime: &Runtime, seen: Option<&ContainerInspect>) -> (r: Result<
    Removal,
    Failure,
>)
    ensures
        outcome(r) == first_look(*runtime, deref_inspect(seen)),
{
    match seen {
        None => Ok(Removal::CleanUp { sockets: true, removed: false }),
        Some(inspect) => {
            if let Err(failure) = runtime.validate_labels(inspect) {
                return Err(failure);
            }
            if inspect.state.running {
                Ok(Removal::StopFirst)
            } else {
                Ok(Removal::LookAgain { was_running: false })
            }
        },
    }
}

/// What follows once the container was stopped.
pub open spec fn behind_stop() -> Removal {
    Removal::LookAgain { was_running: true }
}

/// What follows once the container was removed.
pub open spec fn behind_removal(was_running: bool) -> Removal {
    Removal::CleanUp { sockets: !was_running, removed: true }
}

/// The removal goes on once its container was stopped.
pub fn removal_after_stop() -> (r: Removal)
    ensures
        r == behind_stop(),
{
    Removal::LookAgain { was_running: true }
}

/// The second look: a container that is still there must still be this
/// target's, and is then removed.
pub fn removal_after_second_look(
    runtime: &Runtime,
    was_running: bool,
    seen: Option<&ContainerInspect>,
) -> (r: Result<Removal, Failure>)
    ensures
        outcome(r) == second_look(*runtime, was_running, deref_inspect(seen)),
{
    match seen {
        None => Ok(Removal::CleanUp { sockets: !was_running, removed: true }),
        Some(inspect) => {
            if let Err(failure) = runtime.validate_labels(inspect) {
                return Err(failure);
            }
            Ok(Removal::RemoveContainer { was_running })
        },
    }
}

/// The removal goes on once its container was removed.
pub fn removal_after_removed(was_running: bool) -> (r: Removal)
    ensures
        r == behind_removal(was_running),
{
    Removal::CleanUp { sockets: !was_running, removed: true }
}

/// The answer of a removal.
pub fn removal_result(container: &str, existed: bool) -> (r: RemoveResult)
    ensures
        r.container@ == container@,
        r.removed == existed,
{
    RemoveResult { container: container.to_owned(), removed: existed }
}

/// A removal takes its course by what is seen: a container that runs is stopped
/// first, one that is there is removed, and one that is not there is not. Sockets
/// are cleaned up once: here, unless stopping the container has done so. Removing
/// is reported exactly where there was a container.
pub proof fn removals_take_their_course(
    runtime: Runtime,
    was_running: bool,
    seen: Option<ContainerInspect>,
)
    ensures
        first_look(runtime, seen) is Err <==> (seen matches Some(inspect)
            && runtime.label_refusal(inspect.labels()) is Some),
        first_look(runtime, seen) matches Ok(next) ==> {
            &&& next is StopFirst <==> (seen matches Some(inspect) && inspect.state.running)
            &&& next is LookAgain <==> (seen matches Some(inspect) && !inspect.state.running)
            &&& next is CleanUp <==> seen is None
            &&& next matches Removal::LookAgain { was_running: ran } ==> !ran
            &&& next matches Removal::CleanUp { sockets, removed } ==> sockets && !removed
        },
        second_look(runtime, was_running, seen) is Err <==> (seen matches Some(inspect)
            && runtime.label_refusal(inspect.labels()) is Some),
        second_look(runtime, was_running, seen) matches Ok(next) ==> {
            &&& next is RemoveContainer <==> seen is Some
            &&& next is CleanUp <==> seen is None
            &&& next matches Removal::RemoveContainer { was_running: ran } ==> ran == was_running
            &&& next matches Removal::CleanUp { sockets, removed } ==> removed && sockets
                != was_running
        },
{
}

/// Only a container that names this user and this target as its owner is stopped
/// or removed, however often it is looked at.
pub proof fn only_own_containers_are_removed(
    runtime: Runtime,
    was_running: bool,
    seen: Option<ContainerInspect>,
)
    requires
        runtime.context@.dom().finite(),
    ensures
        first_look(runtime, seen) == Ok::<Removal, Chain>(Removal::StopFirst) ==> seen is Some
            && names_owner(runtime, seen->0.labels()),
        second_look(runtime, was_running, seen) == Ok::<Removal, Chain>(
            Removal::RemoveContainer { was_running },
        ) ==> seen is Some && names_owner(runtime, seen->0.labels()),
{
    if let Some(inspect) = seen {
        if runtime.label_refusal(inspect.labels()) is None {
            accepted_containers_are_ones_own(runtime, inspect.labels());
        }
    }
}

/// A container that is there is stopped, and reported as stopped only after that;
/// one that is not there is reported as not stopped. A removal that stopped its
/// container looks again before anything goes, and cleans up the sockets only
/// where stopping has not.
pub proof fn stopping_is_reported_as_it_was(container: Seq<char>, exists: bool, was_running: bool)
    ensures
        stopped_without(container, exists) is None <==> exists,
        stopped_without(container, exists) matches Some((name, stopped)) ==> name == container
            && !stopped,
        behind_stop() matches Removal::LookAgain { was_running: ran } && ran,
        behind_removal(was_running) matches Removal::CleanUp { sockets, removed } && removed && (
        sockets <==> !was_running),
{
}

} // verus!
