//! Commands on the host and health checks.

use crate::failure::{plain, refusal, under, Chain, Failure};
use crate::health_probe::{
    all_fields, check_json_fields, fields_match_one_by_one, first_line, has_status, FieldVerdict,
    HttpHealthResponse, JsonFieldCheck,
};
use crate::json::{json_fault, json_string_at};
use crate::text::{
    cat2, cat3, cat4, cat5, decimal, decimal_text, quote, quoted, texts, trim, trimmed,
};
use crate::text_map::{finite_maps_are_listed, has_pair, listing, TextMap};
use crate::text_parts::{quote_list, quoted_list};
use vstd::prelude::*;

verus! {

pub const DEFAULT_HEALTH_CHECK_MS: u64 = 5000;

/// How a command ended. The texts are the system's own words.
#[derive(Debug, Clone, PartialEq, Eq)]
pub enum CommandEnd {
    Exited { success: bool, status: String, stderr: String },
    NotStarted { complaint: String },
    NotAwaited { complaint: String },
    TimedOut { after: String, stderr: String },
}

/// What is wrong with the way a command ended.
pub open spec fn command_fault(command: Seq<Seq<char>>, end: CommandEnd) -> Option<Chain> {
    let shown = quoted_list(command);
    match end {
        CommandEnd::Exited { success, status, stderr } => if success {
            None
        } else {
            Some(
                plain(
                    "command "@ + shown + " failed with "@ + status@ + ": "@ + trimmed(stderr@),
                ),
            )
        },
        CommandEnd::NotStarted { complaint } => Some(under("run "@ + shown, plain(complaint@))),
        CommandEnd::NotAwaited { complaint } => Some(
            under("wait for "@ + shown, plain(complaint@)),
        ),
        CommandEnd::TimedOut { after, stderr } => Some(
            plain(
                "command "@ + shown + " timed out after "@ + after@ + (if trimmed(stderr@).len()
                    == 0 {
                    ""@
                } else {
                    ": "@ + trimmed(stderr@)
                }),
            ),
        ),
    }
}

/// The outcome of a command.
pub fn command_result(command: &Vec<String>, end: CommandEnd) -> (r: Result<(), Failure>)
    ensures
        refusal(r) == command_fault(texts(command@), end),
{
    let shown = quote_list(command);
    match end {
        CommandEnd::Exited { success, status, stderr } => {
            if success {
                return Ok(());
            }
            let detail = trim(stderr.as_str());
            let head = cat5("command ", shown.as_str(), " failed with ", status.as_str(), ": ");
            Err(Failure::msg(cat2(head.as_str(), detail).as_str()))
        },
        CommandEnd::NotStarted { complaint } => Err(
            Failure::msg(complaint.as_str()).context(cat2("run ", shown.as_str()).as_str()),
        ),
        CommandEnd::NotAwaited { complaint } => Err(
            Failure::msg(complaint.as_str()).context(cat2("wait for ", shown.as_str()).as_str()),
        ),
        CommandEnd::TimedOut { after, stderr } => {
            let detail = trim(stderr.as_str());
            let head = cat4("command ", shown.as_str(), " timed out after ", after.as_str());
            if detail.unicode_len() == 0 {
                proof {
                    reveal_strlit("");
                    assert(head@ + ""@ =~= head@);
                }
                return Err(Failure::msg(head.as_str()));
            }
            let message = cat3(head.as_str(), ": ", detail);
            assert(message@ =~= head@ + (": "@ + detail@));
            Err(Failure::msg(message.as_str()))
        },
    }
}

/// How waiting for a command that was started ended.
#[derive(Debug, Clone, PartialEq, Eq)]
pub enum WaitEnd {
    Exited { success: bool, status: String },
    Failed { complaint: String },
    TimedOut { after: String },
}

/// What is still to be done with a command.
#[derive(Debug, Clone, Copy, PartialEq, Eq, Structural)]
pub enum CommandStep {
    /// Its process group is killed.
    KillGroup,
    /// Its process is waited for once more.
    Reap,
    /// What it said is read, for a while.
    DrainErrors,
}

/// A command that took too long is killed, with the processes it started, and
/// waited for before what it said is read.
pub open spec fn steps_after(end: WaitEnd) -> Seq<CommandStep> {
    match end {
        WaitEnd::TimedOut { .. } => seq![
            CommandStep::KillGroup,
            CommandStep::Reap,
            CommandStep::DrainErrors,
        ],
        _ => seq![CommandStep::DrainErrors],
    }
}

pub fn steps_after_wait(end: &WaitEnd) -> (r: Vec<CommandStep>)
    ensures
        r@ == steps_after(*end),
{
    let mut out: Vec<CommandStep> = Vec::new();
    if let WaitEnd::TimedOut { after: _ } = end {
        out.push(CommandStep::KillGroup);
        out.push(CommandStep::Reap);
    }
    out.push(CommandStep::DrainErrors);
    assert(out@ =~= steps_after(*end));
    out
}

/// How a command ended, once all steps are done. Of a command that could not be
/// waited for, what it said is dropped.
pub open spec fn ended(end: WaitEnd, stderr: String) -> CommandEnd {
    match end {
        WaitEnd::Exited { success, status } => CommandEnd::Exited { success, status, stderr },
        WaitEnd::Failed { complaint } => CommandEnd::NotAwaited { complaint },
        WaitEnd::TimedOut { after } => CommandEnd::TimedOut { after, stderr },
    }
}

pub fn command_end(end: WaitEnd, stderr: String) -> (r: CommandEnd)
    ensures
        r == ended(end, stderr),
{
    match end {
        WaitEnd::Exited { success, status } => CommandEnd::Exited { success, status, stderr },
        WaitEnd::Failed { complaint } => CommandEnd::NotAwaited { complaint },
        WaitEnd::TimedOut { after } => CommandEnd::TimedOut { after, stderr },
    }
}

/// A command succeeds only if it exited with success in time, and its process
/// group is killed exactly when it did not end in time.
pub proof fn only_commands_in_time_succeed(command: Seq<Seq<char>>, end: WaitEnd, stderr: String)
    ensures
        command_fault(command, ended(end, stderr)) is None <==> (end matches WaitEnd::Exited {
            success,
            ..
        } && success),
        steps_after(end).contains(CommandStep::KillGroup) <==> end is TimedOut,
{
    assert(steps_after(end)[0] == CommandStep::KillGroup || steps_after(end).len() == 1);
}

/// The process group that a process leads.
pub open spec fn group_of(child_pid: Option<u32>) -> Result<Option<i32>, ()> {
    match child_pid {
        None => Ok(None),
        Some(pid) => if pid <= i32::MAX {
            Ok(Some(pid as i32))
        } else {
            Err(())
        },
    }
}

/// Whether a group that was signalled is gone.
pub open spec fn is_gone(error: Option<i32>, no_such_process: i32) -> bool {
    error is None || error == Some(no_such_process)
}

/// The time that a health check has, in milliseconds.
pub open spec fn time_for(configured: Option<Result<u64, Failure>>) -> u64 {
    match configured {
        Some(Ok(ms)) => ms,
        _ => 5000u64,
    }
}

/// The process group of a child, as far as its number is one.
pub fn process_group(child_pid: Option<u32>) -> (r: Result<Option<i32>, ()>)
    ensures
        r == group_of(child_pid),
{
    match child_pid {
        None => Ok(None),
        Some(pid) => if pid <= 0x7fff_ffff {
            Ok(Some(pid as i32))
        } else {
            Err(())
        },
    }
}

/// Whether ending a process group succeeded: it may have ended by itself, which
/// the system reports with the error number `no_such_process`.
pub fn group_is_gone(error: Option<i32>, no_such_process: i32) -> (r: bool)
    ensures
        r == is_gone(error, no_such_process),
{
    match error {
        None => true,
        Some(number) => number == no_such_process,
    }
}

/// The time a health check may take, in milliseconds. One that is not set, or
/// that cannot be read, is five seconds.
pub fn health_check_timeout(configured: Option<Result<u64, Failure>>) -> (r: u64)
    ensures
        r == time_for(configured),
{
    match configured {
        Some(Ok(ms)) => ms,
        _ => DEFAULT_HEALTH_CHECK_MS,
    }
}

/// A status line as Rust's `Debug` form shows it.
pub open spec fn shown_line(line: Option<Seq<char>>) -> Seq<char> {
    match line {
        Some(text) => "Some("@ + quoted(text) + ")"@,
        None => "None"@,
    }
}

pub open spec fn field_fault(verdict: FieldVerdict) -> Option<Chain> {
    match verdict {
        FieldVerdict::Match => None,
        FieldVerdict::Missing { key } => Some(
            plain("HTTP health check JSON field "@ + quoted(key) + " missing"@),
        ),
        FieldVerdict::Mismatch { key, expected, actual } => Some(
            plain(
                "HTTP health check JSON field "@ + quoted(key) + " expected "@ + quoted(expected)
                    + ", got "@ + quoted(actual),
            ),
        ),
    }
}

/// What is said of one field.
pub fn field_result(check: JsonFieldCheck) -> (r: Result<(), Failure>)
    ensures
        refusal(r) == field_fault(check@),
{
    match check {
        JsonFieldCheck::Match => Ok(()),
        JsonFieldCheck::Missing { key } => Err(
            Failure::msg(
                cat3(
                    "HTTP health check JSON field ",
                    quote(key.as_str()).as_str(),
                    " missing",
                ).as_str(),
            ),
        ),
        JsonFieldCheck::Mismatch { key, expected, actual } => {
            let head = cat5(
                "HTTP health check JSON field ",
                quote(key.as_str()).as_str(),
                " expected ",
                quote(expected.as_str()).as_str(),
                ", got ",
            );
            Err(Failure::msg(cat2(head.as_str(), quote(actual.as_str()).as_str()).as_str()))
        },
    }
}

/// What is wrong with the answer to a health check.
pub open spec fn answer_fault(
    response: Seq<char>,
    body: Option<Seq<char>>,
    expect_status: int,
    expect_json: Map<Seq<char>, Seq<char>>,
) -> Option<Chain> {
    if !has_status(response, expect_status) {
        Some(
            plain(
                "HTTP health check expected "@ + decimal(expect_status as nat) + ", got "@
                    + shown_line(first_line(response)),
            ),
        )
    } else if listing(expect_json).len() == 0 {
        None
    } else {
        match body {
            None => Some(plain("HTTP health check response did not include a body"@)),
            Some(text) => match json_fault(text) {
                Some(fault) => Some(plain(fault)),
                None => field_fault(all_fields(text, listing(expect_json))),
            },
        }
    }
}

/// Whether the answer to a health check is a healthy one.
pub fn http_health(
    response: &HttpHealthResponse,
    expect_status: u16,
    expect_json: &TextMap<String>,
) -> (r: Result<(), Failure>)
    ensures
        exists|body: Option<Seq<char>>|
            {
                &&& #[trigger] crate::health_probe::is_body(response.response@, body)
                &&& refusal(r) == answer_fault(
                    response.response@,
                    body,
                    expect_status as int,
                    expect_json@,
                )
            },
{
    let body = response.body();
    let ghost seen = crate::text::opt_str(body);
    assert(crate::health_probe::is_body(response.response@, seen));
    if !response.status_matches(expect_status) {
        let shown = match response.status_line() {
            Some(line) => cat3("Some(", quote(line.as_str()).as_str(), ")"),
            None => "None".to_owned(),
        };
        return Err(
            Failure::msg(
                cat4(
                    "HTTP health check expected ",
                    decimal_text(expect_status as u64).as_str(),
                    ", got ",
                    shown.as_str(),
                ).as_str(),
            ),
        );
    }
    if expect_json.is_empty() {
        return Ok(());
    }
    let text = match body {
        Some(text) => text,
        None => return Err(
            Failure::msg("HTTP health check response did not include a body"),
        ),
    };
    match check_json_fields(text, expect_json) {
        Err(failure) => Err(failure),
        Ok(check) => field_result(check),
    }
}

/// How waiting for a health check ended.
#[derive(Debug)]
pub enum CheckEnd {
    Finished(Result<(), Failure>),
    TimedOut,
}

/// The kinds of health checks that ask the network.
#[derive(Debug, Clone, Copy, PartialEq, Eq, Structural)]
pub enum NetworkCheck {
    Tcp,
    Http,
}

/// Why a health check over the network is refused.
pub open spec fn network_fault(kind: NetworkCheck, elapsed: Seq<char>, end: CheckEnd) -> Option<
    Chain,
> {
    match end {
        CheckEnd::Finished(result) => refusal(result),
        CheckEnd::TimedOut => Some(
            under(
                match kind {
                    NetworkCheck::Tcp => "tcp health check timed out"@,
                    NetworkCheck::Http => "http health check timed out"@,
                },
                plain(elapsed),
            ),
        ),
    }
}

/// The outcome of a health check over the network. `elapsed` is what the clock
/// says of one that took too long.
pub fn network_check_result(kind: NetworkCheck, elapsed: &str, end: CheckEnd) -> (r: Result<
    (),
    Failure,
>)
    ensures
        end matches CheckEnd::Finished(result) ==> r == result,
        refusal(r) == network_fault(kind, elapsed@, end),
{
    match end {
        CheckEnd::Finished(result) => result,
        CheckEnd::TimedOut => {
            let message = match kind {
                NetworkCheck::Tcp => "tcp health check timed out",
                NetworkCheck::Http => "http health check timed out",
            };
            Err(Failure::msg(elapsed).context(message))
        },
    }
}

/// There is one body at most: what a check says of an answer is settled.
pub proof fn bodies_are_unique(
    response: Seq<char>,
    a: Option<Seq<char>>,
    b: Option<Seq<char>>,
)
    requires
        crate::health_probe::is_body(response, a),
        crate::health_probe::is_body(response, b),
    ensures
        a == b,
{
    let gap = "\r\n\r\n"@;
    if a is Some && b is Some {
        let i = choose|at: int|
            {
                &&& #[trigger] crate::text::stands_at(response, gap, at)
                &&& forall|j: int| 0 <= j < at ==> !crate::text::stands_at(response, gap, j)
                &&& a->0 == response.skip(at + 4)
            };
        let k = choose|at: int|
            {
                &&& #[trigger] crate::text::stands_at(response, gap, at)
                &&& forall|j: int| 0 <= j < at ==> !crate::text::stands_at(response, gap, j)
                &&& b->0 == response.skip(at + 4)
            };
        assert(i == k);
    }
}

/// An answer is healthy exactly when it has the expected status and, where fields
/// are expected, a body of JSON in which each of them holds what is expected.
pub proof fn healthy_answers_are_as_expected(
    response: Seq<char>,
    body: Option<Seq<char>>,
    status: int,
    expected: Map<Seq<char>, Seq<char>>,
)
    requires
        expected.dom().finite(),
    ensures
        answer_fault(response, body, status, expected) is None <==> has_status(response, status)
            && (expected == Map::<Seq<char>, Seq<char>>::empty() || (body matches Some(text)
            && json_fault(text) is None && forall|key: Seq<char>| #[trigger]
            expected.contains_key(key) ==> json_string_at(text, key) == Some(expected[key]))),
{
    finite_maps_are_listed(expected);
    let all = listing(expected);
    if all.len() == 0 {
        assert forall|key: Seq<char>| !#[trigger] expected.contains_key(key) by {
            if expected.contains_key(key) {
                assert(has_pair(all, key, expected[key]));
            }
        }
        assert(expected =~= Map::<Seq<char>, Seq<char>>::empty());
    } else {
        assert(expected.contains_key(all[0].0));
    }
    if let Some(text) = body {
        fields_match_one_by_one(text, all);
        if all_fields(text, all) is Match {
            assert forall|key: Seq<char>| #[trigger] expected.contains_key(
                key,
            ) implies json_string_at(text, key) == Some(expected[key]) by {
                assert(has_pair(all, key, expected[key]));
                let i = choose|i: int| 0 <= i < all.len() && #[trigger] all[i] == (key, expected[key]);
            }
        }
        if forall|key: Seq<char>| #[trigger]
            expected.contains_key(key) ==> json_string_at(text, key) == Some(expected[key]) {
            assert forall|i: int| 0 <= i < all.len() implies json_string_at(
                text,
                (#[trigger] all[i]).0,
            ) == Some(all[i].1) by {
                assert(expected.contains_key(all[i].0));
            }
        }
    }
}

/// What a command said is read last, whatever happened. One that took too long is
/// killed first and waited for next. How it ended is kept as it was seen.
pub proof fn commands_are_left_behind_in_order(end: WaitEnd, stderr: String)
    ensures
        steps_after(end).last() == CommandStep::DrainErrors,
        end is TimedOut ==> steps_after(end).len() == 3 && steps_after(end)[0]
            == CommandStep::KillGroup && steps_after(end)[1] == CommandStep::Reap,
        !(end is TimedOut) ==> steps_after(end).len() == 1,
        end matches WaitEnd::Exited { success, status } ==> ended(end, stderr)
            == (CommandEnd::Exited { success, status, stderr }),
        end matches WaitEnd::TimedOut { after } ==> ended(end, stderr) == (CommandEnd::TimedOut {
            after,
            stderr,
        }),
        end is Failed ==> ended(end, stderr) is NotAwaited,
{
}

/// A check over the network comes out as it finished; one that took too long is
/// refused, and told by its kind and by what the clock says.
pub proof fn checks_come_out_as_they_finished(
    kind: NetworkCheck,
    elapsed: Seq<char>,
    end: CheckEnd,
)
    ensures
        end matches CheckEnd::Finished(result) ==> network_fault(kind, elapsed, end) == refusal(
            result,
        ),
        end is TimedOut ==> (network_fault(kind, elapsed, end) matches Some(chain) && chain.len()
            == 2 && chain[0].1 == (if kind is Tcp {
            "tcp health check timed out"@
        } else {
            "http health check timed out"@
        }) && chain[1].1 == elapsed),
{
}

/// A process leads the group of its own number, where that is one that the system
/// takes; without a process there is no group. A group is gone exactly where it
/// was signalled without an error, or there was no such process.
pub proof fn groups_are_those_of_their_process(pid: u32, error: Option<i32>, no_such_process: i32)
    ensures
        group_of(None) == Ok::<Option<i32>, ()>(None),
        group_of(Some(pid)) matches Ok(found) ==> found matches Some(group) && group == pid,
        group_of(Some(pid)) is Err <==> pid > i32::MAX,
        is_gone(None, no_such_process),
        error matches Some(number) ==> (is_gone(error, no_such_process) <==> number
            == no_such_process),
{
}

/// A health check has the time that is configured for it, and five seconds where
/// none is or what is cannot be read.
pub proof fn checks_have_their_time(ms: u64, failure: Failure)
    ensures
        time_for(Some(Ok(ms))) == ms,
        time_for(None) == 5000,
        time_for(Some(Err(failure))) == 5000,
{
}

/// A status line is shown in quotes, and its absence without.
pub proof fn status_lines_are_shown(text: Seq<char>)
    ensures
        shown_line(Some(text)) == "Some("@ + quoted(text) + ")"@,
        shown_line(None) == "None"@,
{
}

} // verus!
