//! What the command line prints.

use crate::gateway::model::{
    AllStatusEntry, GatewayStatus, LaunchDetail, LaunchStepDetail, LaunchSummary,
    LaunchVarMetadata, TargetEntry,
};
use crate::gateway::ops::types::{
    default_value, rendered_value, CanonicalLaunchVarValue, RemoveResult, StopResult,
};
use crate::text::{
    cat2, cat3, cat4, cat5, cat7, decimal, decimal_text, join, joined, opt_text, same, stands_at,
    texts,
};
use crate::text_map::{listing, TextMap};
use crate::text_parts::{pad, padded};
use vstd::prelude::*;

verus! {

// ---------------------------------------------------------------- stop and remove

pub fn stop_result_text(result: &StopResult) -> (r: String)
    ensures
        r@ == "stopped "@ + result.container@,
{
    cat2("stopped ", result.container.as_str())
}

pub fn remove_result_text(result: &RemoveResult) -> (r: String)
    ensures
        r@ == "removed "@ + result.container@,
{
    cat2("removed ", result.container.as_str())
}

/// The line on a target that was to be stopped.
pub open spec fn stop_line(result: StopResult) -> Seq<char> {
    if result.stopped {
        "stopped "@ + result.container@
    } else {
        "not running"@
    }
}

/// The line on a target that was to be removed.
pub open spec fn remove_line(result: RemoveResult) -> Seq<char> {
    if result.removed {
        "removed "@ + result.container@
    } else {
        "not found"@
    }
}

pub fn render_stop_result(result: &StopResult) -> (r: String)
    ensures
        r@ == stop_line(*result),
{
    if result.stopped {
        stop_result_text(result)
    } else {
        "not running".to_owned()
    }
}

pub fn render_remove_result(result: &RemoveResult) -> (r: String)
    ensures
        r@ == remove_line(*result),
{
    if result.removed {
        remove_result_text(result)
    } else {
        "not found".to_owned()
    }
}

// ---------------------------------------------------------------- status

pub open spec fn or_dash(text: Option<Seq<char>>) -> Seq<char> {
    match text {
        Some(text) => text,
        None => "-"@,
    }
}

fn text_or_dash(text: &Option<String>) -> (r: String)
    ensures
        r@ == or_dash(opt_text(*text)),
{
    match text {
        Some(text) => text.clone(),
        None => "-".to_owned(),
    }
}

/// The lines of a target's status.
pub open spec fn status_lines(status: GatewayStatus) -> Seq<Seq<char>> {
    let first = status.target@ + ": "@ + status.status@ + " ("@ + (match status.container {
        Some(name) => name@,
        None => "not-created"@,
    }) + ")"@;
    match status.launch {
        Some(launch) => seq![first, "launch: "@ + launch@],
        None => seq![first],
    }
}

pub fn render_status_result(status: &GatewayStatus) -> (r: Vec<String>)
    ensures
        texts(r@) == status_lines(*status),
{
    let container = match &status.container {
        Some(name) => name.clone(),
        None => "not-created".to_owned(),
    };
    let head = cat5(
        status.target.as_str(),
        ": ",
        status.status.as_str(),
        " (",
        container.as_str(),
    );
    let mut out: Vec<String> = Vec::new();
    out.push(cat2(head.as_str(), ")"));
    if let Some(launch) = &status.launch {
        out.push(cat2("launch: ", launch.as_str()));
    }
    assert(texts(out@) =~= status_lines(*status));
    out
}

/// The columns of the list of containers.
pub open spec fn container_row(
    target: Seq<char>,
    session: Seq<char>,
    launch: Seq<char>,
    mode: Seq<char>,
    container: Seq<char>,
    status: Seq<char>,
) -> Seq<char> {
    padded(target, 15) + " "@ + padded(session, 11) + " "@ + padded(launch, 16) + " "@ + padded(
        mode,
        11,
    ) + " "@ + padded(container, 22) + " "@ + status
}

fn container_line(
    target: &str,
    session: &str,
    launch: &str,
    mode: &str,
    container: &str,
    status: &str,
) -> (r: String)
    ensures
        r@ == container_row(target@, session@, launch@, mode@, container@, status@),
{
    let head = cat5(
        pad(target, 15).as_str(),
        " ",
        pad(session, 11).as_str(),
        " ",
        pad(launch, 16).as_str(),
    );
    let middle = cat5(head.as_str(), " ", pad(mode, 11).as_str(), " ", pad(container, 22).as_str());
    cat3(middle.as_str(), " ", status)
}

pub open spec fn entry_row(entry: AllStatusEntry) -> Seq<char> {
    container_row(
        entry.target@,
        or_dash(opt_text(entry.session_id)),
        or_dash(opt_text(entry.launch)),
        entry.mode@,
        entry.container@,
        entry.status@,
    )
}

/// The lines of the list of all managed containers.
pub open spec fn status_all_lines(entries: Seq<AllStatusEntry>) -> Seq<Seq<char>> {
    if entries.len() == 0 {
        seq!["No aw-gateway-managed containers found for this user."@]
    } else {
        seq![
            container_row(
                "TARGET"@,
                "SESSION"@,
                "LAUNCH"@,
                "MODE"@,
                "CONTAINER"@,
                "STATUS"@,
            ),
        ] + Seq::new(entries.len(), |i: int| entry_row(entries[i]))
    }
}

pub fn render_status_all(entries: &Vec<AllStatusEntry>) -> (r: Vec<String>)
    ensures
        texts(r@) == status_all_lines(entries@),
{
    let mut out: Vec<String> = Vec::new();
    if entries.len() == 0 {
        out.push("No aw-gateway-managed containers found for this user.".to_owned());
        assert(texts(out@) =~= status_all_lines(entries@));
        return out;
    }
    out.push(container_line("TARGET", "SESSION", "LAUNCH", "MODE", "CONTAINER", "STATUS"));
    let mut i: usize = 0;
    while i < entries.len()
        invariant
            i <= entries.len(),
            out@.len() == i + 1,
            out@[0]@ == container_row(
                "TARGET"@,
                "SESSION"@,
                "LAUNCH"@,
                "MODE"@,
                "CONTAINER"@,
                "STATUS"@,
            ),
            forall|j: int| 0 <= j < i ==> (#[trigger] out@[j + 1])@ == entry_row(entries@[j]),
        decreases entries.len() - i,
    {
        let entry = &entries[i];
        let ghost before = out@;
        out.push(
            container_line(
                entry.target.as_str(),
                text_or_dash(&entry.session_id).as_str(),
                text_or_dash(&entry.launch).as_str(),
                entry.mode.as_str(),
                entry.container.as_str(),
                entry.status.as_str(),
            ),
        );
        assert(forall|j: int| 0 <= j < i ==> out@[j + 1] == #[trigger] before[j + 1]);
        i += 1;
    }
    proof {
        let all = texts(out@);
        let expected = status_all_lines(entries@);
        assert forall|k: int| 0 <= k < all.len() implies all[k] == expected[k] by {
            if k > 0 {
                assert(out@[(k - 1) + 1]@ == entry_row(entries@[k - 1]));
            }
        }
        assert(all =~= expected);
    }
    out
}

// ---------------------------------------------------------------- targets

pub open spec fn target_row(entry: TargetEntry) -> Seq<char> {
    padded(entry.target@, 24) + " "@ + padded(entry.image@, 24) + " "@ + padded(entry.mode@, 10)
        + " "@ + entry.container@ + (if entry.default {
        " *"@
    } else {
        ""@
    })
}

/// The lines of the list of targets; the default one is marked.
pub open spec fn target_lines(entries: Seq<TargetEntry>) -> Seq<Seq<char>> {
    seq![
        padded("TARGET"@, 24) + " "@ + padded("IMAGE"@, 24) + " "@ + padded("MODE"@, 10)
            + " CONTAINER"@,
    ] + Seq::new(entries.len(), |i: int| target_row(entries[i]))
}

fn target_line(entry: &TargetEntry) -> (r: String)
    ensures
        r@ == target_row(*entry),
{
    let mark = if entry.default {
        " *"
    } else {
        ""
    };
    let head = cat5(
        pad(entry.target.as_str(), 24).as_str(),
        " ",
        pad(entry.image.as_str(), 24).as_str(),
        " ",
        pad(entry.mode.as_str(), 10).as_str(),
    );
    cat4(head.as_str(), " ", entry.container.as_str(), mark)
}

pub fn render_targets(entries: &Vec<TargetEntry>) -> (r: Vec<String>)
    ensures
        texts(r@) == target_lines(entries@),
{
    let mut out: Vec<String> = Vec::new();
    let head = cat5(
        pad("TARGET", 24).as_str(),
        " ",
        pad("IMAGE", 24).as_str(),
        " ",
        pad("MODE", 10).as_str(),
    );
    out.push(cat2(head.as_str(), " CONTAINER"));
    let ghost first = out@[0]@;
    let mut i: usize = 0;
    while i < entries.len()
        invariant
            i <= entries.len(),
            out@.len() == i + 1,
            out@[0]@ == first,
            forall|j: int| 0 <= j < i ==> (#[trigger] out@[j + 1])@ == target_row(entries@[j]),
        decreases entries.len() - i,
    {
        let ghost before = out@;
        out.push(target_line(&entries[i]));
        assert(forall|j: int| 0 <= j < i ==> out@[j + 1] == #[trigger] before[j + 1]);
        i += 1;
    }
    proof {
        let all = texts(out@);
        let expected = target_lines(entries@);
        assert forall|k: int| 0 <= k < all.len() implies all[k] == expected[k] by {
            if k > 0 {
                assert(out@[(k - 1) + 1]@ == target_row(entries@[k - 1]));
            }
        }
        assert(all =~= expected);
    }
    out
}

// ---------------------------------------------------------------- launches

/// The names of the variables that must be given, in their order.
pub open spec fn required_names(vars: Seq<(Seq<char>, LaunchVarMetadata)>) -> Seq<Seq<char>>
    decreases vars.len(),
{
    if vars.len() == 0 {
        Seq::empty()
    } else {
        let before = required_names(vars.drop_last());
        if vars.last().1.required {
            before.push(vars.last().0)
        } else {
            before
        }
    }
}

fn required_variables(vars: &TextMap<LaunchVarMetadata>) -> (r: Vec<String>)
    ensures
        texts(r@) == required_names(listing(vars@)),
{
    let mut out: Vec<String> = Vec::new();
    let n: usize = vars.len();
    let ghost all = listing(vars@);
    let mut i: usize = 0;
    assert(texts(out@) =~= required_names(all.take(0)));
    while i < n
        invariant
            i <= n == all.len(),
            all == listing(vars@),
            texts(out@) == required_names(all.take(i as int)),
        decreases n - i,
    {
        proof {
            assert(all.take(i + 1).drop_last() =~= all.take(i as int));
            assert(all.take(i + 1).last() == all[i as int]);
        }
        let (name, var) = vars.entry(i);
        if var.required {
            let ghost before = texts(out@);
            out.push(name.clone());
            assert(texts(out@) =~= before.push(all[i as int].0));
        }
        i += 1;
    }
    assert(all.take(i as int) =~= all);
    out
}

pub open spec fn launch_row(
    name: Seq<char>,
    target: Seq<char>,
    required: Seq<char>,
    description: Seq<char>,
) -> Seq<char> {
    padded(name, 24) + " "@ + padded(target, 24) + " "@ + padded(required, 25) + " "@ + description
}

fn launch_line(name: &str, target: &str, required: &str, description: &str) -> (r: String)
    ensures
        r@ == launch_row(name@, target@, required@, description@),
{
    let head = cat5(
        pad(name, 24).as_str(),
        " ",
        pad(target, 24).as_str(),
        " ",
        pad(required, 25).as_str(),
    );
    cat3(head.as_str(), " ", description)
}

pub open spec fn summary_row(entry: LaunchSummary) -> Seq<char> {
    launch_row(
        entry.name@,
        entry.target@,
        joined(required_names(listing(entry.vars@)), ", "@),
        match entry.description {
            Some(text) => text@,
            None => ""@,
        },
    )
}

/// The lines of the list of launches.
pub open spec fn launch_lines(entries: Seq<LaunchSummary>) -> Seq<Seq<char>> {
    if entries.len() == 0 {
        seq!["No launches configured."@]
    } else {
        seq![launch_row("LAUNCH"@, "TARGET"@, "REQUIRED VARS"@, "DESCRIPTION"@)] + Seq::new(
            entries.len(),
            |i: int| summary_row(entries[i]),
        )
    }
}

pub fn render_launches(entries: &Vec<LaunchSummary>) -> (r: Vec<String>)
    ensures
        texts(r@) == launch_lines(entries@),
{
    let mut out: Vec<String> = Vec::new();
    if entries.len() == 0 {
        out.push("No launches configured.".to_owned());
        assert(texts(out@) =~= launch_lines(entries@));
        return out;
    }
    out.push(launch_line("LAUNCH", "TARGET", "REQUIRED VARS", "DESCRIPTION"));
    let ghost first = out@[0]@;
    let mut i: usize = 0;
    while i < entries.len()
        invariant
            i <= entries.len(),
            out@.len() == i + 1,
            out@[0]@ == first,
            forall|j: int| 0 <= j < i ==> (#[trigger] out@[j + 1])@ == summary_row(entries@[j]),
        decreases entries.len() - i,
    {
        let entry = &entries[i];
        let required = join(&required_variables(&entry.vars), ", ");
        let description = match &entry.description {
            Some(text) => text.clone(),
            None => "".to_owned(),
        };
        let ghost before = out@;
        out.push(
            launch_line(
                entry.name.as_str(),
                entry.target.as_str(),
                required.as_str(),
                description.as_str(),
            ),
        );
        assert(forall|j: int| 0 <= j < i ==> out@[j + 1] == #[trigger] before[j + 1]);
        i += 1;
    }
    proof {
        let all = texts(out@);
        let expected = launch_lines(entries@);
        assert forall|k: int| 0 <= k < all.len() implies all[k] == expected[k] by {
            if k > 0 {
                assert(out@[(k - 1) + 1]@ == summary_row(entries@[k - 1]));
            }
        }
        assert(all =~= expected);
    }
    out
}

// ---------------------------------------------------------------- one launch

/// A variable's type, and whether it must be given or what it is by default.
pub open spec fn var_text(var: LaunchVarMetadata) -> Seq<char> {
    let kind = match var.values {
        Some(values) if var.var_type@ == "enum"@ => "enum: "@ + joined(texts(values@), ", "@),
        _ => var.var_type@,
    };
    if var.required {
        kind + ", "@ + "required"@
    } else {
        match var.default {
            Some(value) => kind + ", "@ + ("default: "@ + rendered_value(default_value(value))),
            None => kind,
        }
    }
}

pub fn launch_var_text(var: &LaunchVarMetadata) -> (r: String)
    ensures
        r@ == var_text(*var),
{
    let mut kind = var.var_type.clone();
    if let Some(values) = &var.values {
        if same(var.var_type.as_str(), "enum") {
            kind = cat2("enum: ", join(values, ", ").as_str());
        }
    }
    if var.required {
        return cat3(kind.as_str(), ", ", "required");
    }
    match &var.default {
        Some(value) => {
            let shown = CanonicalLaunchVarValue::from_config_default(value).rendered();
            cat3(kind.as_str(), ", ", cat2("default: ", shown.as_str()).as_str())
        },
        None => kind,
    }
}

pub fn launch_var_description(var: &LaunchVarMetadata) -> (r: String)
    ensures
        r@ == (match var.description {
            Some(text) => " - "@ + text@,
            None => ""@,
        }),
{
    match &var.description {
        Some(text) => cat2(" - ", text.as_str()),
        None => "".to_owned(),
    }
}

/// Settings as assignments.
pub open spec fn assignments(pairs: Seq<(Seq<char>, Seq<char>)>) -> Seq<Seq<char>> {
    Seq::new(pairs.len(), |i: int| pairs[i].0 + "="@ + pairs[i].1)
}

pub fn env_summary(env: &TextMap<String>) -> (r: String)
    ensures
        r@ == joined(assignments(listing(env@)), ", "@),
{
    let mut out: Vec<String> = Vec::new();
    let n: usize = env.len();
    let ghost all = listing(env@);
    let mut i: usize = 0;
    while i < n
        invariant
            i <= n == all.len(),
            all == listing(env@),
            out@.len() == i,
            forall|j: int| 0 <= j < i ==> (#[trigger] out@[j])@ == all[j].0 + "="@ + all[j].1,
        decreases n - i,
    {
        let (key, value) = env.entry(i);
        out.push(cat3(key.as_str(), "=", value.as_str()));
        i += 1;
    }
    assert(texts(out@) =~= assignments(all));
    join(&out, ", ")
}

/// A line that is there where there is something to say.
pub open spec fn maybe_line(head: Seq<char>, text: Option<Seq<char>>) -> Seq<Seq<char>> {
    match text {
        Some(text) => seq![head + text],
        None => Seq::empty(),
    }
}

fn push_maybe(out: &mut Vec<String>, head: &str, text: &Option<String>)
    ensures
        texts(final(out)@) == texts(old(out)@) + maybe_line(head@, opt_text(*text)),
{
    let ghost before = texts(out@);
    if let Some(text) = text {
        out.push(cat2(head, text.as_str()));
        assert(texts(out@) =~= before + seq![head@ + text@]);
    } else {
        assert(texts(out@) =~= before + Seq::<Seq<char>>::empty());
    }
}

fn push_text(out: &mut Vec<String>, text: String)
    ensures
        texts(final(out)@) == texts(old(out)@) + seq![text@],
{
    let ghost before = texts(out@);
    out.push(text);
    assert(texts(out@) =~= before + seq![text@]);
}

pub open spec fn env_line(head: Seq<char>, env: Map<Seq<char>, Seq<char>>) -> Seq<Seq<char>> {
    if listing(env).len() == 0 {
        Seq::empty()
    } else {
        seq![head + joined(assignments(listing(env)), ", "@)]
    }
}

fn push_env(out: &mut Vec<String>, head: &str, env: &TextMap<String>)
    ensures
        texts(final(out)@) == texts(old(out)@) + env_line(head@, env@),
{
    if env.is_empty() {
        assert(texts(out@) =~= texts(out@) + Seq::<Seq<char>>::empty());
    } else {
        push_text(out, cat2(head, env_summary(env).as_str()));
    }
}

pub open spec fn variable_line(var: (Seq<char>, LaunchVarMetadata)) -> Seq<char> {
    "  "@ + var.0 + " ("@ + var_text(var.1) + ")"@ + (match var.1.description {
        Some(text) => " - "@ + text@,
        None => ""@,
    })
}

/// The lines on the variables of a launch.
pub open spec fn variable_lines(vars: Seq<(Seq<char>, LaunchVarMetadata)>) -> Seq<Seq<char>> {
    if vars.len() == 0 {
        Seq::empty()
    } else {
        seq!["\nVariables:"@] + Seq::new(vars.len(), |i: int| variable_line(vars[i]))
    }
}

fn push_variables(out: &mut Vec<String>, vars: &TextMap<LaunchVarMetadata>)
    ensures
        texts(final(out)@) == texts(old(out)@) + variable_lines(listing(vars@)),
{
    let ghost before = texts(out@);
    let n: usize = vars.len();
    let ghost all = listing(vars@);
    if n == 0 {
        assert(before + Seq::<Seq<char>>::empty() =~= before);
        return;
    }
    push_text(out, "\nVariables:".to_owned());
    let ghost head = texts(out@);
    let mut i: usize = 0;
    assert(head =~= head + Seq::new(0, |j: int| variable_line(all[j])));
    while i < n
        invariant
            i <= n == all.len(),
            all == listing(vars@),
            texts(out@) == head + Seq::new(i as nat, |j: int| variable_line(all[j])),
        decreases n - i,
    {
        let (name, var) = vars.entry(i);
        let line = cat5("  ", name.as_str(), " (", launch_var_text(var).as_str(), ")");
        push_text(out, cat2(line.as_str(), launch_var_description(var).as_str()));
        assert(texts(out@) =~= head + Seq::new((i + 1) as nat, |j: int| variable_line(all[j])));
        i += 1;
    }
    assert(texts(out@) =~= before + variable_lines(all));
}

/// The lines on one step, with its number.
pub open spec fn step_lines(number: int, step: LaunchStepDetail) -> Seq<Seq<char>> {
    let required = if step.required {
        "required"@
    } else {
        "optional"@
    };
    let timeout = match step.timeout {
        Some(value) => ", timeout: "@ + value@,
        None => ""@,
    };
    seq![
        "  "@ + decimal(number as nat) + ". "@ + step.name@ + " ["@ + step.phase@ + "/"@
            + step.location@ + ", "@ + required + timeout + "]"@,
    ] + maybe_line("     cwd: "@, opt_text(step.cwd)) + env_line("     env: "@, step.env@) + seq![
        "     argv: "@ + joined(texts(step.command@), " "@),
    ]
}

fn push_step(out: &mut Vec<String>, number: usize, step: &LaunchStepDetail)
    ensures
        texts(final(out)@) == texts(old(out)@) + step_lines(number as int, *step),
{
    let ghost before = texts(out@);
    let required = if step.required {
        "required"
    } else {
        "optional"
    };
    let timeout = match &step.timeout {
        Some(value) => cat2(", timeout: ", value.as_str()),
        None => "".to_owned(),
    };
    let head = cat7(
        "  ",
        decimal_text(number as u64).as_str(),
        ". ",
        step.name.as_str(),
        " [",
        step.phase.as_str(),
        "/",
    );
    let tail = cat5(step.location.as_str(), ", ", required, timeout.as_str(), "]");
    let line = cat2(head.as_str(), tail.as_str());
    proof {
        assert(line@ =~= "  "@ + decimal(number as nat) + ". "@ + step.name@ + " ["@ + step.phase@
            + "/"@ + step.location@ + ", "@ + required@ + timeout@ + "]"@);
    }
    push_text(out, line);
    push_maybe(out, "     cwd: ", &step.cwd);
    push_env(out, "     env: ", &step.env);
    push_text(out, cat2("     argv: ", join(&step.command, " ").as_str()));
    assert(texts(out@) =~= before + step_lines(number as int, *step));
}

/// The lines on steps, which are counted on from `number`.
pub open spec fn all_step_lines(number: int, steps: Seq<LaunchStepDetail>) -> Seq<Seq<char>>
    decreases steps.len(),
{
    if steps.len() == 0 {
        Seq::empty()
    } else {
        step_lines(number, steps[0]) + all_step_lines(number + 1, steps.skip(1))
    }
}

fn push_steps(out: &mut Vec<String>, steps: &Vec<LaunchStepDetail>)
    ensures
        texts(final(out)@) == texts(old(out)@) + (if steps@.len() == 0 {
            Seq::empty()
        } else {
            seq!["\nSteps:"@] + all_step_lines(1, steps@)
        }),
{
    let ghost before = texts(out@);
    if steps.len() == 0 {
        assert(before + Seq::<Seq<char>>::empty() =~= before);
        return;
    }
    push_text(out, "\nSteps:".to_owned());
    let ghost goal = before + (seq!["\nSteps:"@] + all_step_lines(1, steps@));
    let mut i: usize = 0;
    assert(steps@.skip(0) =~= steps@);
    assert(texts(out@) + all_step_lines(1, steps@.skip(0)) =~= goal);
    while i < steps.len()
        invariant
            i <= steps.len(),
            texts(out@) + all_step_lines(i + 1, steps@.skip(i as int)) == goal,
        decreases steps.len() - i,
    {
        let ghost now = texts(out@);
        push_step(out, i + 1, &steps[i]);
        proof {
            assert(steps@.skip(i as int).skip(1) =~= steps@.skip(i + 1));
            assert(steps@.skip(i as int)[0] == steps@[i as int]);
            assert(now + (step_lines(i + 1, steps@[i as int]) + all_step_lines(
                i + 2,
                steps@.skip(i + 1),
            )) =~= texts(out@) + all_step_lines(i + 2, steps@.skip(i + 1)));
        }
        i += 1;
    }
    assert(texts(out@) + Seq::<Seq<char>>::empty() =~= texts(out@));
}

/// The lines on a launch.
pub open spec fn detail_lines(detail: LaunchDetail) -> Seq<Seq<char>> {
    seq![
        "Launch: "@ + detail.name@,
        "Target: "@ + detail.target@,
        "Target mode: "@ + detail.target_mode@,
        "Passthrough args: "@ + (if detail.allow_args {
            "yes"@
        } else {
            "no"@
        }),
    ] + maybe_line("Target container: "@, opt_text(detail.target_container)) + maybe_line(
        "Description: "@,
        opt_text(detail.description),
    ) + variable_lines(listing(detail.vars@)) + (if detail.steps@.len() == 0 {
        Seq::empty()
    } else {
        seq!["\nSteps:"@] + all_step_lines(1, detail.steps@)
    }) + seq!["\nCommand:"@] + maybe_line("  cwd: "@, opt_text(detail.cwd)) + env_line(
        "  env: "@,
        detail.env@,
    ) + seq!["  argv: "@ + joined(texts(detail.command@), " "@)]
}

pub fn render_launch_detail(detail: &LaunchDetail) -> (r: Vec<String>)
    ensures
        texts(r@) == detail_lines(*detail),
{
    let mut out: Vec<String> = Vec::new();
    let passes = if detail.allow_args {
        "yes"
    } else {
        "no"
    };
    out.push(cat2("Launch: ", detail.name.as_str()));
    out.push(cat2("Target: ", detail.target.as_str()));
    out.push(cat2("Target mode: ", detail.target_mode.as_str()));
    out.push(cat2("Passthrough args: ", passes));
    assert(texts(out@) =~= seq![
        "Launch: "@ + detail.name@,
        "Target: "@ + detail.target@,
        "Target mode: "@ + detail.target_mode@,
        "Passthrough args: "@ + passes@,
    ]);
    push_maybe(&mut out, "Target container: ", &detail.target_container);
    push_maybe(&mut out, "Description: ", &detail.description);
    push_variables(&mut out, &detail.vars);
    push_steps(&mut out, &detail.steps);
    push_text(&mut out, "\nCommand:".to_owned());
    push_maybe(&mut out, "  cwd: ", &detail.cwd);
    push_env(&mut out, "  env: ", &detail.env);
    push_text(&mut out, cat2("  argv: ", join(&detail.command, " ").as_str()));
    out
}

// ---------------------------------------------------------------- laws

/// What is printed names the container exactly where something was done to it.
pub proof fn results_are_printed_as_they_are(stop: StopResult, remove: RemoveResult)
    ensures
        stop.stopped ==> stop_line(stop) == "stopped "@ + stop.container@,
        remove.removed ==> remove_line(remove) == "removed "@ + remove.container@,
        !stop.stopped ==> stop_line(stop) == "not running"@,
        !remove.removed ==> remove_line(remove) == "not found"@,
{
}

/// The status of a target is one line with its name, what it does and its
/// container, and a second one exactly where a launch is known.
pub proof fn statuses_are_printed(status: GatewayStatus)
    ensures
        ({
            let lines = status_lines(status);
            &&& (status.target@ + ": "@ + status.status@ + " ("@).is_prefix_of(lines[0])
            &&& status.container matches Some(name) ==> (name@ + ")"@).is_suffix_of(lines[0])
            &&& status.container is None ==> ("not-created"@ + ")"@).is_suffix_of(lines[0])
            &&& status.launch is None ==> lines.len() == 1
            &&& status.launch matches Some(launch) ==> lines.len() == 2 && lines[1] == "launch: "@
                + launch@
        }),
{
    let lines = status_lines(status);
    let head = status.target@ + ": "@ + status.status@ + " ("@;
    let first = lines[0];
    assert(first.subrange(0, head.len() as int) =~= head);
    let name = match status.container {
        Some(name) => name@,
        None => "not-created"@,
    };
    let end = name + ")"@;
    assert(first.subrange(first.len() - end.len(), first.len() as int) =~= end);
}

/// How much of a line a column takes.
pub open spec fn column(text: Seq<char>, width: int) -> int {
    if text.len() > width {
        text.len() as int
    } else {
        width
    }
}

proof fn padded_is_as_wide(text: Seq<char>, width: nat)
    ensures
        padded(text, width).len() == column(text, width as int),
        text.is_prefix_of(padded(text, width)),
{
    assert(padded(text, width).subrange(0, text.len() as int) =~= text);
}

/// Columns come in the order of their headings: target, session, launch, mode,
/// container and status, each behind the width of those before it.
pub proof fn containers_are_printed_in_columns(
    target: Seq<char>,
    session: Seq<char>,
    launch: Seq<char>,
    mode: Seq<char>,
    container: Seq<char>,
    status: Seq<char>,
)
    ensures
        ({
            let row = container_row(target, session, launch, mode, container, status);
            let a = column(target, 15) + 1;
            let b = a + column(session, 11) + 1;
            let c = b + column(launch, 16) + 1;
            let d = c + column(mode, 11) + 1;
            let e = d + column(container, 22) + 1;
            &&& row.len() == e + status.len()
            &&& stands_at(row, target, 0)
            &&& stands_at(row, session, a)
            &&& stands_at(row, launch, b)
            &&& stands_at(row, mode, c)
            &&& stands_at(row, container, d)
            &&& stands_at(row, status, e)
        }),
{
    reveal_strlit(" ");
    padded_is_as_wide(target, 15);
    padded_is_as_wide(session, 11);
    padded_is_as_wide(launch, 16);
    padded_is_as_wide(mode, 11);
    padded_is_as_wide(container, 22);
    let row = container_row(target, session, launch, mode, container, status);
    let a = column(target, 15) + 1;
    let b = a + column(session, 11) + 1;
    let c = b + column(launch, 16) + 1;
    let d = c + column(mode, 11) + 1;
    let e = d + column(container, 22) + 1;
    assert(row.subrange(0, target.len() as int) =~= target);
    assert(row.subrange(a, a + session.len()) =~= session);
    assert(row.subrange(b, b + launch.len()) =~= launch);
    assert(row.subrange(c, c + mode.len()) =~= mode);
    assert(row.subrange(d, d + container.len()) =~= container);
    assert(row.subrange(e, e + status.len()) =~= status);
}

/// Every container, target and launch has a line of its own, in the order in which
/// they are listed, below the headings. What is not known of a container is a dash.
pub proof fn lists_have_a_line_for_each(
    containers: Seq<AllStatusEntry>,
    targets: Seq<TargetEntry>,
    launches: Seq<LaunchSummary>,
    i: int,
)
    ensures
        containers.len() == 0 ==> status_all_lines(containers)
            == seq!["No aw-gateway-managed containers found for this user."@],
        containers.len() > 0 ==> status_all_lines(containers).len() == containers.len() + 1,
        0 <= i < containers.len() ==> status_all_lines(containers)[i + 1] == container_row(
            containers[i].target@,
            match containers[i].session_id {
                Some(id) => id@,
                None => "-"@,
            },
            match containers[i].launch {
                Some(name) => name@,
                None => "-"@,
            },
            containers[i].mode@,
            containers[i].container@,
            containers[i].status@,
        ),
        target_lines(targets).len() == targets.len() + 1,
        0 <= i < targets.len() ==> target_lines(targets)[i + 1] == target_row(targets[i]),
        launches.len() == 0 ==> launch_lines(launches) == seq!["No launches configured."@],
        launches.len() > 0 ==> launch_lines(launches).len() == launches.len() + 1,
        0 <= i < launches.len() ==> launch_lines(launches)[i + 1] == summary_row(launches[i]),
{
}

/// A target is printed with its name, its image, its mode and its container; a star
/// stands at the end exactly where it is the default.
pub proof fn default_targets_are_marked(entry: TargetEntry)
    ensures
        ({
            let row = target_row(entry);
            let a = column(entry.target@, 24) + 1;
            let b = a + column(entry.image@, 24) + 1;
            let c = b + column(entry.mode@, 10) + 1;
            &&& stands_at(row, entry.target@, 0)
            &&& stands_at(row, entry.image@, a)
            &&& stands_at(row, entry.mode@, b)
            &&& stands_at(row, entry.container@, c)
            &&& row.len() == c + entry.container@.len() + if entry.default {
                2int
            } else {
                0
            }
            &&& entry.default ==> stands_at(row, " *"@, c + entry.container@.len())
        }),
{
    reveal_strlit(" ");
    reveal_strlit(" *");
    reveal_strlit("");
    padded_is_as_wide(entry.target@, 24);
    padded_is_as_wide(entry.image@, 24);
    padded_is_as_wide(entry.mode@, 10);
    let row = target_row(entry);
    let a = column(entry.target@, 24) + 1;
    let b = a + column(entry.image@, 24) + 1;
    let c = b + column(entry.mode@, 10) + 1;
    let d = c + entry.container@.len();
    assert(row.subrange(0, entry.target@.len() as int) =~= entry.target@);
    assert(row.subrange(a, a + entry.image@.len()) =~= entry.image@);
    assert(row.subrange(b, b + entry.mode@.len()) =~= entry.mode@);
    assert(row.subrange(c, d) =~= entry.container@);
    if entry.default {
        assert(row.subrange(d, d + 2) =~= " *"@);
    }
}

/// The names that are listed as required are exactly those of the variables that
/// are.
pub proof fn required_variables_are_named(
    vars: Seq<(Seq<char>, LaunchVarMetadata)>,
    name: Seq<char>,
)
    ensures
        required_names(vars).contains(name) <==> exists|i: int|
            0 <= i < vars.len() && (#[trigger] vars[i]).0 == name && vars[i].1.required,
    decreases vars.len(),
{
    if vars.len() > 0 {
        let front = vars.drop_last();
        let n = front.len() as int;
        required_variables_are_named(front, name);
        let before = required_names(front);
        let now = required_names(vars);
        assert forall|i: int| 0 <= i < n implies #[trigger] front[i] == vars[i] by {}
        assert(vars[n] == vars.last());
        if before.contains(name) {
            let k = choose|k: int| 0 <= k < before.len() && before[k] == name;
            assert(now[k] == name);
            let i = choose|i: int|
                0 <= i < front.len() && (#[trigger] front[i]).0 == name && front[i].1.required;
            assert(vars[i].0 == name && vars[i].1.required);
        } else {
            if vars.last().1.required && vars.last().0 == name {
                assert(now[before.len() as int] == name);
                assert(vars[n].0 == name && vars[n].1.required);
            } else {
                assert forall|k: int| 0 <= k < now.len() implies now[k] != name by {
                    if k < before.len() {
                        assert(now[k] == before[k]);
                    }
                }
                assert forall|i: int| 0 <= i < vars.len() implies !((#[trigger] vars[i]).0 == name
                    && vars[i].1.required) by {
                    if i < n {
                        assert(front[i] == vars[i]);
                    }
                }
            }
        }
    }
}

/// A variable is printed with its type, or its choices; that it is required exactly
/// where it is, and its default exactly where it has one and is not.
pub proof fn variables_are_printed(var: LaunchVarMetadata)
    ensures
        ({
            let text = var_text(var);
            let kind = if var.values is Some && var.var_type@ == "enum"@ {
                "enum: "@ + joined(texts(var.values->0@), ", "@)
            } else {
                var.var_type@
            };
            &&& var.required ==> text == kind + ", required"@
            &&& !var.required ==> (var.default matches Some(value) ==> text == kind + ", default: "@
                + rendered_value(default_value(value)))
            &&& !var.required && var.default is None ==> text == kind
        }),
{
    reveal_strlit(", ");
    reveal_strlit("required");
    reveal_strlit("default: ");
    reveal_strlit(", required");
    reveal_strlit(", default: ");
    assert(", "@ + "required"@ =~= ", required"@);
    assert(", "@ + "default: "@ =~= ", default: "@);
    let kind = if var.values is Some && var.var_type@ == "enum"@ {
        "enum: "@ + joined(texts(var.values->0@), ", "@)
    } else {
        var.var_type@
    };
    assert(kind + ", "@ + "required"@ =~= kind + (", "@ + "required"@));
    if let Some(value) = var.default {
        let shown = rendered_value(default_value(value));
        assert(kind + ", "@ + ("default: "@ + shown) =~= kind + (", "@ + "default: "@) + shown);
    }
}

/// A launch is printed with its name, its target, that target's mode and whether it
/// takes arguments, and last of all with its command. A step ends with its own.
pub proof fn launches_are_printed(detail: LaunchDetail, number: int, step: LaunchStepDetail)
    ensures
        ({
            let lines = detail_lines(detail);
            &&& lines[0] == "Launch: "@ + detail.name@
            &&& lines[1] == "Target: "@ + detail.target@
            &&& lines[2] == "Target mode: "@ + detail.target_mode@
            &&& detail.allow_args ==> lines[3] == "Passthrough args: "@ + "yes"@
            &&& !detail.allow_args ==> lines[3] == "Passthrough args: "@ + "no"@
            &&& lines.last() == "  argv: "@ + joined(texts(detail.command@), " "@)
            &&& detail.target_container matches Some(name) ==> lines[4] == "Target container: "@
                + name@
            &&& detail.cwd matches Some(dir) ==> lines.contains("  cwd: "@ + dir@)
            &&& detail.description matches Some(text) ==> lines.contains("Description: "@ + text@)
        }),
        ({
            let lines = step_lines(number, step);
            &&& ("  "@ + decimal(number as nat) + ". "@ + step.name@ + " ["@ + step.phase@ + "/"@
                + step.location@ + ", "@ + if step.required {
                "required"@
            } else {
                "optional"@
            }).is_prefix_of(lines[0])
            &&& lines.last() == "     argv: "@ + joined(texts(step.command@), " "@)
            &&& step.cwd matches Some(dir) ==> lines[1] == "     cwd: "@ + dir@
        }),
{
    let lines = detail_lines(detail);
    let a = seq![
        "Launch: "@ + detail.name@,
        "Target: "@ + detail.target@,
        "Target mode: "@ + detail.target_mode@,
        "Passthrough args: "@ + (if detail.allow_args {
            "yes"@
        } else {
            "no"@
        }),
    ] + maybe_line("Target container: "@, opt_text(detail.target_container));
    let b = maybe_line("Description: "@, opt_text(detail.description));
    let c = variable_lines(listing(detail.vars@)) + (if detail.steps@.len() == 0 {
        Seq::empty()
    } else {
        seq!["\nSteps:"@] + all_step_lines(1, detail.steps@)
    }) + seq!["\nCommand:"@];
    let d = maybe_line("  cwd: "@, opt_text(detail.cwd));
    let e = env_line("  env: "@, detail.env@);
    let f = seq!["  argv: "@ + joined(texts(detail.command@), " "@)];
    assert(lines =~= a + b + c + d + e + f);
    if let Some(text) = detail.description {
        assert(lines[a.len() as int] == b[0]);
    }
    if let Some(dir) = detail.cwd {
        assert(lines[(a.len() + b.len() + c.len()) as int] == d[0]);
    }
    assert(lines.last() == f[0]);
    let shown = step_lines(number, step);
    let head = "  "@ + decimal(number as nat) + ". "@ + step.name@ + " ["@ + step.phase@ + "/"@
        + step.location@ + ", "@ + if step.required {
        "required"@
    } else {
        "optional"@
    };
    assert(shown[0].subrange(0, head.len() as int) =~= head);
}

/// Settings are printed as assignments, each key with its own value.
pub proof fn settings_are_printed(pairs: Seq<(Seq<char>, Seq<char>)>, i: int)
    requires
        0 <= i < pairs.len(),
    ensures
        assignments(pairs).len() == pairs.len(),
        assignments(pairs)[i] == pairs[i].0 + "="@ + pairs[i].1,
{
}

} // verus!
