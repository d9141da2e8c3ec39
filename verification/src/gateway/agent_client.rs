//! Talking to the agent inside the container.

use crate::config::{IdleCleanupAction, IdleCleanupOwner};
use crate::failure::{has_kind, plain, refusal, under, Chain, Failure, FailureKind};
use crate::gateway::failures::AgentNotReady;
use crate::gateway::state::Runtime;
use crate::json::{
    json_bool_at, json_bool_field, json_complaint, json_fault, json_has_field, json_has_key,
    json_shown_at, json_shown_field,
};
use crate::text::{cat2, cat4, text_from_bytes, utf8_fault};
use vstd::prelude::*;
use vstd::utf8::{decode_utf8, valid_utf8};

verus! {

pub const MAX_AGENT_RESPONSE_BYTES: usize = 65536;

// ---------------------------------------------------------------- replies

/// Why the agent refused a request.
#[derive(Debug, Clone, PartialEq, Eq)]
pub struct ControlFault {
    pub code: String,
    pub message: String,
}

/// Why a reply is no success, given what it holds under `ok`, whether it has an
/// `error`, and its `id` as it is shown. `fault` is the error as far as it can
/// be read.
pub open spec fn reply_fault(
    ok: Option<bool>,
    has_error: bool,
    shown_id: Seq<char>,
    fault: Result<ControlFault, String>,
) -> Option<Chain> {
    if ok != Some(false) {
        None
    } else if has_error {
        Some(
            match fault {
                Ok(fault) => plain(
                    "agent control request failed: "@ + fault.code@ + ": "@ + fault.message@,
                ),
                Err(complaint) => plain(complaint@),
            },
        )
    } else {
        Some(plain("agent control request returned ok=false without error: "@ + shown_id))
    }
}

/// Why a reply is no success.
pub fn judge_reply(
    ok: Option<bool>,
    has_error: bool,
    shown_id: &str,
    fault: Result<ControlFault, String>,
) -> (r: Result<(), Failure>)
    ensures
        refusal(r) == reply_fault(ok, has_error, shown_id@, fault),
{
    let refused = match ok {
        Some(accepted) => !accepted,
        None => false,
    };
    if !refused {
        return Ok(());
    }
    if has_error {
        return match fault {
            Ok(fault) => Err(
                Failure::msg(
                    cat4(
                        "agent control request failed: ",
                        fault.code.as_str(),
                        ": ",
                        fault.message.as_str(),
                    ).as_str(),
                ),
            ),
            Err(complaint) => Err(Failure::msg(complaint.as_str())),
        };
    }
    Err(
        Failure::msg(
            cat2("agent control request returned ok=false without error: ", shown_id).as_str(),
        ),
    )
}

/// Reads the reply of the agent. `success` and `fault` are the reply read as a
/// success and as a refusal, or what is said against reading it so.
pub fn parse_agent_control_success<T>(
    line: &str,
    success: Result<T, String>,
    fault: Result<ControlFault, String>,
) -> (r: Result<T, Failure>)
    ensures
        match json_fault(line@) {
            Some(said) => r matches Err(failure) && failure@ == plain(said),
            None => match reply_fault(
                json_bool_at(line@, "ok"@),
                json_has_key(line@, "error"@),
                json_shown_at(line@, "id"@),
                fault,
            ) {
                Some(chain) => r matches Err(failure) && failure@ == chain,
                None => match success {
                    Ok(value) => r == Ok::<T, Failure>(value),
                    Err(complaint) => r matches Err(failure) && failure@ == plain(complaint@),
                },
            },
        },
{
    if let Some(complaint) = json_complaint(line) {
        return Err(Failure::msg(complaint.as_str()));
    }
    let shown = json_shown_field(line, "id");
    if let Err(failure) = judge_reply(
        json_bool_field(line, "ok"),
        json_has_field(line, "error"),
        shown.as_str(),
        fault,
    ) {
        return Err(failure);
    }
    match success {
        Ok(value) => Ok(value),
        Err(complaint) => Err(Failure::msg(complaint.as_str())),
    }
}

// ---------------------------------------------------------------- reading a line

/// The bytes of a reply that came so far.
#[derive(Debug, Clone, PartialEq, Eq)]
pub struct AgentLine {
    pub bytes: Vec<u8>,
}

/// The position behind the first line feed, or the length.
pub open spec fn line_end(chunk: Seq<u8>, from: int) -> int
    decreases chunk.len() - from,
{
    if from >= chunk.len() {
        chunk.len() as int
    } else if chunk[from] == 10 {
        from + 1
    } else {
        line_end(chunk, from + 1)
    }
}

/// What one more chunk of a reply leads to.
#[derive(Debug, Clone, PartialEq, Eq)]
pub enum AgentLineStep {
    /// So many bytes were taken in; more are needed.
    More(usize),
    /// So many bytes were taken in, and the line is complete.
    Line(usize, String),
}

fn end_of_line(chunk: &[u8]) -> (r: usize)
    ensures
        r == line_end(chunk@, 0),
        r <= chunk@.len(),
{
    let mut i: usize = 0;
    while i < chunk.len()
        invariant
            i <= chunk@.len(),
            line_end(chunk@, 0) == line_end(chunk@, i as int),
        decreases chunk@.len() - i,
    {
        if chunk[i] == 10 {
            return i + 1;
        }
        i += 1;
    }
    i
}

impl AgentLine {
    pub fn new() -> (r: AgentLine)
        ensures
            r.bytes@ == Seq::<u8>::empty(),
    {
        AgentLine { bytes: Vec::new() }
    }

    /// Takes in what is available, up to the end of the line. Nothing available
    /// means that the agent closed the connection.
    pub fn feed(&mut self, chunk: &[u8]) -> (r: Result<AgentLineStep, Failure>)
        requires
            old(self).bytes@.len() <= MAX_AGENT_RESPONSE_BYTES,
        ensures
            final(self).bytes@.len() <= MAX_AGENT_RESPONSE_BYTES,
            ({
                let end = line_end(chunk@, 0);
                let line = old(self).bytes@ + chunk@.take(end);
                if chunk@.len() == 0 {
                    &&& r matches Err(failure)
                    &&& failure@ == plain("empty agent control response"@)
                    &&& final(self).bytes@ == old(self).bytes@
                } else if line.len() > MAX_AGENT_RESPONSE_BYTES {
                    &&& r matches Err(failure)
                    &&& failure@ == plain("agent control response exceeds 65536 bytes"@)
                    &&& final(self).bytes@ == old(self).bytes@
                } else {
                    &&& final(self).bytes@ == line
                    &&& if line.last() != 10 {
                        r == Ok::<AgentLineStep, Failure>(AgentLineStep::More(end as usize))
                    } else {
                        if valid_utf8(line) {
                            &&& r matches Ok(AgentLineStep::Line(taken, text))
                            &&& taken == end
                            &&& text@ == decode_utf8(line)
                        } else {
                            &&& r matches Err(failure)
                            &&& failure@ == under(
                                "agent control response is not UTF-8"@,
                                plain(utf8_fault(line)),
                            )
                        }
                    }
                }
            }),
    {
        if chunk.len() == 0 {
            return Err(Failure::msg("empty agent control response"));
        }
        let end: usize = end_of_line(chunk);
        if end > MAX_AGENT_RESPONSE_BYTES - self.bytes.len() {
            return Err(Failure::msg("agent control response exceeds 65536 bytes"));
        }
        let ghost before = self.bytes@;
        let mut i: usize = 0;
        while i < end
            invariant
                i <= end <= chunk@.len(),
                before.len() <= MAX_AGENT_RESPONSE_BYTES,
                self.bytes@ == before + chunk@.take(i as int),
            decreases end - i,
        {
            self.bytes.push(chunk[i]);
            assert(self.bytes@ =~= before + chunk@.take(i + 1));
            i += 1;
        }
        let ghost line = before + chunk@.take(end as int);
        proof {
            line_end_moves(chunk@, 0);
            assert(line.len() > 0);
        }
        let last: u8 = self.bytes[self.bytes.len() - 1];
        if last != 10 {
            return Ok(AgentLineStep::More(end));
        }
        match text_from_bytes(self.bytes.clone()) {
            Ok(text) => Ok(AgentLineStep::Line(end, text)),
            Err(complaint) => Err(
                Failure::msg(complaint.as_str()).context("agent control response is not UTF-8"),
            ),
        }
    }
}

proof fn line_end_moves(chunk: Seq<u8>, from: int)
    requires
        0 <= from < chunk.len(),
    ensures
        from < line_end(chunk, from) <= chunk.len(),
    decreases chunk.len() - from,
{
    reveal_with_fuel(line_end, 2);
    if chunk[from] != 10 && from + 1 < chunk.len() {
        line_end_moves(chunk, from + 1);
    }
}

// ---------------------------------------------------------------- waiting and holding

/// What follows one question whether the agent is ready.
#[derive(Debug)]
pub enum AgentWait {
    Ready,
    AskAgain,
    Failed(Failure),
}

/// Whether the agent is ready, or that it did not become so in time.
pub open spec fn agent_waited(ready: Option<bool>, expired: bool) -> Result<bool, Chain> {
    if ready == Some(true) {
        Ok(true)
    } else if expired {
        Err(seq![(FailureKind::AgentNotReady, "container agent did not become ready"@)])
    } else {
        Ok(false)
    }
}

/// Asks until the agent is ready or time is up. `ready` is what the agent said,
/// if it answered.
pub fn after_agent_status(ready: Option<bool>, expired: bool) -> (r: AgentWait)
    ensures
        match agent_waited(ready, expired) {
            Ok(is_ready) => if is_ready {
                r is Ready
            } else {
                r is AskAgain
            },
            Err(chain) => r matches AgentWait::Failed(failure) && failure@ == chain,
        },
{
    let is_ready = match ready {
        Some(ready) => ready,
        None => false,
    };
    if is_ready {
        AgentWait::Ready
    } else if expired {
        AgentWait::Failed(AgentNotReady::failure())
    } else {
        AgentWait::AskAgain
    }
}

/// What the agent must say when it is asked to hold a session.
pub fn confirm_session_hold(held: bool) -> (r: Result<(), Failure>)
    ensures
        refusal(r) == crate::failure::unless(
            held,
            "agent session hold response did not confirm hold"@,
        ),
{
    if held {
        Ok(())
    } else {
        Err(Failure::msg("agent session hold response did not confirm hold"))
    }
}

/// What a request is asked for, and so what is said when it takes too long.
#[derive(Debug, Clone, Copy, PartialEq, Eq, Structural)]
pub enum AgentRequest {
    Control,
    SessionHold,
}

/// What is told of a request that took too long.
pub open spec fn late(request: AgentRequest, elapsed: Seq<char>) -> Chain {
    under(
        match request {
            AgentRequest::Control => "timed out waiting for container agent control response"@,
            AgentRequest::SessionHold => "timed out opening container agent session hold"@,
        },
        plain(elapsed),
    )
}

/// The failure of a request that took too long. `elapsed` is what the clock
/// says.
pub fn request_timed_out(request: AgentRequest, elapsed: &str) -> (r: Failure)
    ensures
        r@ == late(request, elapsed@),
{
    let message = match request {
        AgentRequest::Control => "timed out waiting for container agent control response",
        AgentRequest::SessionHold => "timed out opening container agent session hold",
    };
    Failure::msg(elapsed).context(message)
}

impl Runtime {
    /// Whether the agent ends the container when it is idle.
    pub open spec fn holds_sessions(self) -> bool {
        self.target.agent_control_enabled && match self.target.idle_cleanup {
            Some(cleanup) => cleanup.owner == IdleCleanupOwner::Agent && cleanup.action
                != IdleCleanupAction::Nothing,
            None => false,
        }
    }

    /// Whether the agent ends the container when it is idle, so that sessions
    /// have to be held with it.
    pub fn uses_agent_idle_cleanup(&self) -> (r: bool)
        ensures
            r == self.holds_sessions(),
    {
        self.target.agent_control_enabled && match &self.target.idle_cleanup {
            Some(cleanup) => cleanup.owner == IdleCleanupOwner::Agent && cleanup.action
                != IdleCleanupAction::Nothing,
            None => false,
        }
    }
}

/// A reply is a success unless it says that it is none; then it tells the agent's
/// error, where it has one.
pub proof fn replies_are_taken_at_their_word(
    ok: Option<bool>,
    has_error: bool,
    shown_id: Seq<char>,
    fault: Result<ControlFault, String>,
)
    ensures
        reply_fault(ok, has_error, shown_id, fault) is Some <==> ok == Some(false),
        ok == Some(false) && has_error ==> (fault matches Ok(error) ==> reply_fault(
            ok,
            has_error,
            shown_id,
            fault,
        ) == Some(plain("agent control request failed: "@ + error.code@ + ": "@ + error.message@))),
        ok == Some(false) && has_error ==> (fault matches Err(complaint) ==> reply_fault(
            ok,
            has_error,
            shown_id,
            fault,
        ) == Some(plain(complaint@))),
{
}

/// A line ends behind its first line feed: none stands before that, and where
/// there is none all of it is taken.
pub proof fn lines_end_at_their_line_feed(chunk: Seq<u8>)
    ensures
        ({
            let end = line_end(chunk, 0);
            &&& 0 <= end <= chunk.len()
            &&& forall|i: int| 0 <= i < end - 1 ==> chunk[i] != 10
            &&& end < chunk.len() ==> end > 0 && chunk[end - 1] == 10
            &&& chunk.contains(10u8) ==> end > 0 && chunk[end - 1] == 10
        }),
{
    line_end_from(chunk, 0);
    let end = line_end(chunk, 0);
    if chunk.contains(10u8) {
        let i = choose|i: int| 0 <= i < chunk.len() && chunk[i] == 10u8;
        assert(i >= end - 1);
    }
}

proof fn line_end_from(chunk: Seq<u8>, from: int)
    requires
        0 <= from <= chunk.len(),
    ensures
        from <= line_end(chunk, from) <= chunk.len(),
        forall|i: int| from <= i < line_end(chunk, from) - 1 ==> chunk[i] != 10,
        line_end(chunk, from) < chunk.len() ==> line_end(chunk, from) > from && chunk[line_end(
            chunk,
            from,
        ) - 1] == 10,
        from < chunk.len() ==> line_end(chunk, from) > from,
    decreases chunk.len() - from,
{
    if from < chunk.len() && chunk[from] != 10 {
        line_end_from(chunk, from + 1);
    }
}

/// An agent is waited for until it says that it is ready, and it is given up as
/// not ready only once time is up.
pub proof fn agents_are_waited_for(ready: Option<bool>, expired: bool)
    ensures
        agent_waited(ready, expired) == Ok::<bool, Chain>(true) <==> ready == Some(true),
        agent_waited(ready, expired) is Err <==> expired && ready != Some(true),
        agent_waited(ready, expired) == Ok::<bool, Chain>(false) <==> !expired && ready != Some(
            true,
        ),
        agent_waited(ready, expired) matches Err(chain) ==> has_kind(
            chain,
            FailureKind::AgentNotReady,
        ),
{
    if let Err(chain) = agent_waited(ready, expired) {
        assert(chain[0].0 == FailureKind::AgentNotReady);
    }
}

/// Sessions are held with the agent exactly where it can be asked and is the one
/// that ends an idle container.
pub proof fn sessions_are_held_where_the_agent_cleans_up(runtime: Runtime)
    ensures
        runtime.holds_sessions() ==> runtime.target.agent_control_enabled
            && runtime.target.idle_cleanup is Some,
        runtime.target.agent_control_enabled ==> (runtime.target.idle_cleanup matches Some(
            cleanup,
        ) ==> (runtime.holds_sessions() <==> cleanup.owner is Agent && !(
        cleanup.action is Nothing))),
{
}

/// What took too long is told by what was asked for, before what the clock says.
pub proof fn requests_that_take_too_long_are_told_apart(elapsed: Seq<char>)
    ensures
        late(AgentRequest::Control, elapsed)[0].1
            == "timed out waiting for container agent control response"@,
        late(AgentRequest::SessionHold, elapsed)[0].1
            == "timed out opening container agent session hold"@,
        forall|request: AgentRequest|
            #![trigger late(request, elapsed)]
            late(request, elapsed).len() == 2 && late(request, elapsed)[1].1 == elapsed,
{
}

} // verus!
