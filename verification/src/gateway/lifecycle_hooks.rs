//! Commands that a target runs on the host around its container's life.

use crate::failure::{either, refusal, under, Chain, Failure};
use crate::gateway::state::Runtime;
use crate::text::{cat2, cat3, opt_str, quote, quoted, same};
use vstd::prelude::*;

verus! {

pub const DEFAULT_HOST_HOOK_MS: u64 = 60000;

/// A command that runs in one phase of the container's life.
#[derive(Debug, Clone, PartialEq, Eq)]
pub struct LifecycleStep {
    pub name: String,
    pub phase: String,
    pub required: bool,
}

/// A command that runs once the container is up.
#[derive(Debug, Clone, PartialEq, Eq)]
pub struct HostStep {
    pub name: String,
    pub required: bool,
    pub has_health_check: bool,
}

/// Whether a list holds, in ascending order, exactly the positions of the steps
/// of a phase.
pub open spec fn selects_phase(
    steps: Seq<LifecycleStep>,
    phase: Seq<char>,
    chosen: Seq<usize>,
) -> bool {
    &&& forall|i: int, j: int| 0 <= i < j < chosen.len() ==> chosen[i] < chosen[j]
    &&& forall|k: usize|
        #[trigger] chosen.contains(k) <==> k < steps.len() && steps[k as int].phase@ == phase
}

/// The steps of a phase, in the order in which they are configured.
pub fn steps_in_phase(steps: &Vec<LifecycleStep>, phase: &str) -> (r: Vec<usize>)
    ensures
        selects_phase(steps@, phase@, r@),
{
    let mut chosen: Vec<usize> = Vec::new();
    let mut i: usize = 0;
    while i < steps.len()
        invariant
            i <= steps.len(),
            forall|a: int, b: int| 0 <= a < b < chosen@.len() ==> chosen@[a] < chosen@[b],
            forall|a: int| 0 <= a < chosen@.len() ==> #[trigger] chosen@[a] < i,
            forall|k: usize| #[trigger]
                chosen@.contains(k) <==> k < i && steps@[k as int].phase@ == phase@,
        decreases steps.len() - i,
    {
        if same(steps[i].phase.as_str(), phase) {
            let ghost before = chosen@;
            chosen.push(i);
            proof {
                assert forall|k: usize| #[trigger] chosen@.contains(k) <==> k < i + 1
                    && steps@[k as int].phase@ == phase@ by {
                    if before.contains(k) {
                        let a = choose|a: int| 0 <= a < before.len() && before[a] == k;
                        assert(chosen@[a] == k);
                    }
                    if k == i {
                        assert(chosen@[before.len() as int] == k);
                    }
                    if chosen@.contains(k) && k != i {
                        let a = choose|a: int| 0 <= a < chosen@.len() && chosen@[a] == k;
                        assert(before[a] == k);
                    }
                }
            }
        }
        i += 1;
    }
    chosen
}

/// Why a lifecycle step ends the others.
pub open spec fn hook_fault(step: LifecycleStep, result: Result<(), Failure>) -> Option<Chain> {
    match result {
        Err(failure) if step.required => Some(
            under("run lifecycle step "@ + quoted(step.name@), failure@),
        ),
        _ => None,
    }
}

/// What the outcome of a lifecycle step means: only a required one can fail.
pub fn after_lifecycle_step(step: &LifecycleStep, result: Result<(), Failure>) -> (r: Result<
    (),
    Failure,
>)
    ensures
        refusal(r) == hook_fault(*step, result),
{
    match result {
        Ok(()) => Ok(()),
        Err(failure) => if step.required {
            Err(
                failure.context(
                    cat2("run lifecycle step ", quote(step.name.as_str()).as_str()).as_str(),
                ),
            )
        } else {
            Ok(())
        },
    }
}

/// What follows the command of a host step.
#[derive(Debug, Clone, Copy, PartialEq, Eq, Structural)]
pub enum HostStepNext {
    NextStep,
    CheckHealth,
}

/// What follows the command of a host step, or why nothing does.
pub open spec fn host_next(step: HostStep, result: Result<(), Failure>) -> Result<
    HostStepNext,
    Chain,
> {
    match result {
        Ok(_) => Ok(
            if step.has_health_check {
                HostStepNext::CheckHealth
            } else {
                HostStepNext::NextStep
            },
        ),
        Err(failure) => if step.required {
            Err(under("host step "@ + quoted(step.name@), failure@))
        } else {
            Ok(HostStepNext::NextStep)
        },
    }
}

/// Why a health check ends the steps.
pub open spec fn health_fault(step: HostStep, result: Result<(), Failure>) -> Option<Chain> {
    match result {
        Err(failure) if step.required => Some(
            under("host step "@ + quoted(step.name@) + " health check"@, failure@),
        ),
        _ => None,
    }
}

/// A required command that fails ends the steps; an optional one that fails is
/// passed over, with its health check.
pub fn after_host_command(step: &HostStep, result: Result<(), Failure>) -> (r: Result<
    HostStepNext,
    Failure,
>)
    ensures
        match host_next(*step, result) {
            Ok(next) => r == Ok::<HostStepNext, Failure>(next),
            Err(chain) => r matches Err(failure) && failure@ == chain,
        },
{
    match result {
        Ok(()) => if step.has_health_check {
            Ok(HostStepNext::CheckHealth)
        } else {
            Ok(HostStepNext::NextStep)
        },
        Err(failure) => if step.required {
            Err(failure.context(cat2("host step ", quote(step.name.as_str()).as_str()).as_str()))
        } else {
            Ok(HostStepNext::NextStep)
        },
    }
}

/// A required step whose health check fails ends the steps.
pub fn after_host_health_check(step: &HostStep, result: Result<(), Failure>) -> (r: Result<
    (),
    Failure,
>)
    ensures
        refusal(r) == health_fault(*step, result),
{
    match result {
        Ok(()) => Ok(()),
        Err(failure) => if step.required {
            Err(
                failure.context(
                    cat3(
                        "host step ",
                        quote(step.name.as_str()).as_str(),
                        " health check",
                    ).as_str(),
                ),
            )
        } else {
            Ok(())
        },
    }
}

/// The time a host command may take, in milliseconds: what is configured, or a
/// minute.
pub fn host_hook_timeout(configured: Option<Result<u64, Failure>>) -> (r: Result<u64, Failure>)
    ensures
        r == match configured {
            Some(parsed) => parsed,
            None => Ok::<u64, Failure>(60000u64),
        },
{
    match configured {
        Some(parsed) => parsed,
        None => Ok(DEFAULT_HOST_HOOK_MS),
    }
}

impl Runtime {
    /// The first of several texts that cannot be filled in. For each text it is
    /// given whether it mentions the container's process.
    pub open spec fn pids_refused(
        self,
        container_pid: Option<Seq<char>>,
        mentions: Seq<Result<bool, Failure>>,
    ) -> Option<Chain>
        decreases mentions.len(),
    {
        if mentions.len() == 0 {
            None
        } else {
            either(
                self.pid_refused(container_pid, mentions[0]),
                self.pids_refused(container_pid, mentions.skip(1)),
            )
        }
    }

    /// Refuses texts that mention the container's process where the runtime did
    /// not report it.
    pub fn ensure_runtime_template_values_supported(
        &self,
        container_pid: Option<&str>,
        mentions: Vec<Result<bool, Failure>>,
    ) -> (r: Result<(), Failure>)
        ensures
            refusal(r) == self.pids_refused(opt_str(container_pid), mentions@),
    {
        let ghost pid = opt_str(container_pid);
        let mut rest = mentions;
        while rest.len() > 0
            invariant
                pid == opt_str(container_pid),
                self.pids_refused(pid, mentions@) == self.pids_refused(pid, rest@),
            decreases rest@.len(),
        {
            let ghost before = rest@;
            let first = rest.remove(0);
            assert(rest@ =~= before.skip(1));
            if let Err(failure) = self.ensure_runtime_template_value_supported(
                container_pid,
                first,
            ) {
                return Err(failure);
            }
        }
        Ok(())
    }
}

/// The texts of a health check that are filled in.
#[derive(Debug)]
pub enum HealthCheckTexts {
    Process,
    Tcp,
    Command(Vec<Result<bool, Failure>>),
    Http(Result<bool, Failure>),
}

impl Runtime {
    /// Refuses a health check whose texts cannot be filled in.
    pub fn ensure_host_health_check_templates_supported(
        &self,
        check: HealthCheckTexts,
        container_pid: Option<&str>,
    ) -> (r: Result<(), Failure>)
        ensures
            refusal(r) == match check {
                HealthCheckTexts::Command(mentions) => self.pids_refused(
                    opt_str(container_pid),
                    mentions@,
                ),
                HealthCheckTexts::Http(mentions) => self.pid_refused(
                    opt_str(container_pid),
                    mentions,
                ),
                _ => None,
            },
    {
        match check {
            HealthCheckTexts::Command(
                mentions,
            ) => self.ensure_runtime_template_values_supported(container_pid, mentions),
            HealthCheckTexts::Http(
                mentions,
            ) => self.ensure_runtime_template_value_supported(container_pid, mentions),
            HealthCheckTexts::Process => Ok(()),
            HealthCheckTexts::Tcp => Ok(()),
        }
    }
}

/// A step ends the others exactly where it is required and failed; what failed is
/// then told, under the step's name. An optional step that failed, or whose health
/// check failed, is passed over. Health is checked exactly where the command
/// succeeded and a check is configured.
pub proof fn only_required_steps_can_fail(
    hook: LifecycleStep,
    step: HostStep,
    result: Result<(), Failure>,
)
    ensures
        hook_fault(hook, result) is Some <==> hook.required && result is Err,
        hook_fault(hook, result) matches Some(chain) ==> chain == under(
            "run lifecycle step "@ + quoted(hook.name@),
            result->Err_0@,
        ),
        health_fault(step, result) is Some <==> step.required && result is Err,
        health_fault(step, result) matches Some(chain) ==> chain == under(
            "host step "@ + quoted(step.name@) + " health check"@,
            result->Err_0@,
        ),
        host_next(step, result) is Err <==> step.required && result is Err,
        host_next(step, result) matches Err(chain) ==> chain == under(
            "host step "@ + quoted(step.name@),
            result->Err_0@,
        ),
        host_next(step, result) == Ok::<HostStepNext, Chain>(HostStepNext::CheckHealth) <==> result
            is Ok && step.has_health_check,
{
}

/// Texts are refused exactly where one of them is.
pub proof fn every_text_is_looked_at(
    runtime: Runtime,
    pid: Option<Seq<char>>,
    mentions: Seq<Result<bool, Failure>>,
)
    ensures
        runtime.pids_refused(pid, mentions) is Some <==> exists|i: int|
            0 <= i < mentions.len() && runtime.pid_refused(pid, #[trigger] mentions[i]) is Some,
    decreases mentions.len(),
{
    if mentions.len() > 0 {
        let rest = mentions.skip(1);
        every_text_is_looked_at(runtime, pid, rest);
        if runtime.pids_refused(pid, rest) is Some {
            let i = choose|i: int|
                0 <= i < rest.len() && runtime.pid_refused(pid, #[trigger] rest[i]) is Some;
            assert(mentions[i + 1] == rest[i]);
        }
        assert forall|i: int|
            0 < i < mentions.len() && runtime.pid_refused(pid, #[trigger] mentions[i])
                is Some implies runtime.pids_refused(pid, rest) is Some by {
            assert(rest[i - 1] == mentions[i]);
        }
    }
}

/// The steps of a phase are taken in the order in which they are configured: every
/// one that names the phase, and no other.
pub proof fn steps_are_those_of_their_phase(
    steps: Seq<LifecycleStep>,
    phase: Seq<char>,
    chosen: Seq<usize>,
    k: usize,
)
    requires
        selects_phase(steps, phase, chosen),
    ensures
        k < steps.len() && steps[k as int].phase@ == phase ==> chosen.contains(k),
        chosen.contains(k) ==> k < steps.len() && steps[k as int].phase@ == phase,
        forall|i: int, j: int| 0 <= i < j < chosen.len() ==> chosen[i] < chosen[j],
{
}

} // verus!
