//! Keeping secrets out of process dumps.

use vstd::prelude::*;

verus! {

/// The steps that keep a process from being dumped. Processes take them before
/// they read arguments or configuration, because they may inherit secrets.
#[derive(Debug, Clone, Copy, PartialEq, Eq, Structural)]
pub enum DumpStep {
    /// The size of core files is limited to nothing.
    LimitCore,
    /// Dumps and debuggers are refused.
    RefuseDumps,
    Protected,
}

/// What follows a step.
pub open spec fn step_behind(step: DumpStep, result: Result<(), i32>) -> Result<DumpStep, i32> {
    match result {
        Err(number) => Err(number),
        Ok(_) => Ok(
            match step {
                DumpStep::LimitCore => DumpStep::RefuseDumps,
                DumpStep::RefuseDumps => DumpStep::Protected,
                DumpStep::Protected => DumpStep::Protected,
            },
        ),
    }
}

/// What both steps come to.
pub open spec fn protection(core: Result<(), i32>, dumps: Result<(), i32>) -> Result<(), i32> {
    match (core, dumps) {
        (Err(number), _) => Err(number),
        (Ok(_), Err(number)) => Err(number),
        (Ok(_), Ok(_)) => Ok(()),
    }
}

/// What follows a step, or the number of the system's error. A failure is final:
/// nothing else is tried, and the process must not go on.
pub fn suppress_process_dumps(step: DumpStep, result: Result<(), i32>) -> (r: Result<DumpStep, i32>)
    ensures
        r == step_behind(step, result),
{
    match result {
        Err(number) => Err(number),
        Ok(()) => match step {
            DumpStep::LimitCore => Ok(DumpStep::RefuseDumps),
            DumpStep::RefuseDumps => Ok(DumpStep::Protected),
            DumpStep::Protected => Ok(DumpStep::Protected),
        },
    }
}

/// What the steps come to, given the result of each.
pub fn suppress_process_dumps_with(core: Result<(), i32>, dumps: Result<(), i32>) -> (r: Result<
    (),
    i32,
>)
    ensures
        r == protection(core, dumps),
{
    match suppress_process_dumps(DumpStep::LimitCore, core) {
        Err(number) => Err(number),
        Ok(step) => match suppress_process_dumps(step, dumps) {
            Err(number) => Err(number),
            Ok(_) => Ok(()),
        },
    }
}

/// A process is protected exactly when both steps were taken, in their order; the
/// first error ends it and is what is told.
pub proof fn processes_are_protected_by_both_steps(
    core: Result<(), i32>,
    dumps: Result<(), i32>,
    step: DumpStep,
)
    ensures
        protection(core, dumps) is Ok <==> core is Ok && dumps is Ok,
        core matches Err(number) ==> protection(core, dumps) == Err::<(), i32>(number),
        core is Ok ==> (dumps matches Err(number) ==> protection(core, dumps) == Err::<(), i32>(
            number,
        )),
        step_behind(DumpStep::LimitCore, core) != Ok::<DumpStep, i32>(DumpStep::Protected),
        core is Ok && dumps is Ok ==> step_behind(
            step_behind(DumpStep::LimitCore, core)->Ok_0,
            dumps,
        ) == Ok::<DumpStep, i32>(DumpStep::Protected),
        core matches Err(number) ==> step_behind(step, core) == Err::<DumpStep, i32>(number),
        core is Ok ==> step_behind(DumpStep::Protected, core) == Ok::<DumpStep, i32>(
            DumpStep::Protected,
        ),
{
}

} // verus!
