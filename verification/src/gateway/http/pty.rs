//! Interactive sessions over the HTTP transport.
//!
//! A session is prepared first; its lease names a token, and whoever attaches
//! with that token gets the session, once. The socket, the terminal and the
//! clock are driven outside; each thing that happens comes here as an event,
//! and what is to be done comes back.

use crate::failure::{plain, under, Failure};
use crate::gateway::http::auth::same_secret;
use crate::gateway::http::request::{
    resized_terminal, size_of, ContainerPtySize, TerminalRequest,
};
use crate::gateway::http::response::{fault, http_outcome, http_refusal, ErrorCode, HttpError, HttpFault};
use crate::gateway::model::SessionOutcome;
use crate::gateway::ops::request::ResultKind;
use crate::gateway::ops::types::ExecutionOutcome;
use crate::random::{is_lower_hex, random_hex_token};
use crate::text::{byte_len, cat2};
use crate::text_map::TextMap;
use vstd::prelude::*;
use vstd::utf8::encode_utf8;

verus! {

pub const MAX_WS_TEXT_BYTES: usize = 65536;

pub const MAX_WS_BINARY_BYTES: usize = 262144;

// ---------------------------------------------------------------- leases

/// A prepared session that waits to be attached to. `execution` is the number
/// under which the prepared execution is kept.
#[derive(Debug, Clone, PartialEq, Eq)]
pub struct PreparedPtyLease {
    pub attach_token: String,
    pub terminal: ContainerPtySize,
    pub execution: u64,
}

pub struct LeaseModel {
    pub attach_token: Seq<char>,
    pub terminal: ContainerPtySize,
    pub execution: u64,
}

impl View for PreparedPtyLease {
    type V = LeaseModel;

    open spec fn view(&self) -> LeaseModel {
        LeaseModel {
            attach_token: self.attach_token@,
            terminal: self.terminal,
            execution: self.execution,
        }
    }
}

/// What the client is told of its new lease.
#[derive(Debug, Clone, PartialEq, Eq)]
pub struct PtyLeaseCreated {
    pub ok: bool,
    pub mode: String,
    pub status: String,
    pub pty_id: String,
    pub attach_token: String,
    pub session_id: Option<String>,
    pub attach_url: String,
}

pub type Leases = Map<Seq<char>, LeaseModel>;

/// The leases that were not attached to yet.
#[derive(Debug)]
pub struct PtyLeaseManager {
    pub leases: TextMap<PreparedPtyLease>,
}

impl View for PtyLeaseManager {
    type V = Leases;

    open spec fn view(&self) -> Leases {
        self.leases@
    }
}

pub open spec fn opens(leases: Leases, pty_id: Seq<char>, token: Seq<char>) -> bool {
    leases.contains_key(pty_id) && leases[pty_id].attach_token == token
}

/// The random digits of a lease: those of its id and those of its token.
fn draw_id_and_token() -> (r: Result<(String, String), Failure>)
    ensures
        match r {
            Ok((id, token)) => {
                &&& is_lower_hex(id@) && id@.len() == 64
                &&& is_lower_hex(token@) && token@.len() == 64
            },
            Err(failure) => exists|complaint: Seq<char>|
                failure@ == #[trigger] under("get random bytes"@, plain(complaint)),
        },
{
    let id = match random_hex_token() {
        Ok(id) => id,
        Err(failure) => return Err(failure),
    };
    match random_hex_token() {
        Ok(token) => Ok((id, token)),
        Err(failure) => Err(failure),
    }
}

impl PtyLeaseManager {
    pub fn new() -> (r: PtyLeaseManager)
        ensures
            r@ == Map::<Seq<char>, LeaseModel>::empty(),
    {
        PtyLeaseManager { leases: TextMap::new() }
    }

    /// Keeps a lease under an id and a token made from random digits.
    pub fn insert_with(
        &mut self,
        id_digits: &str,
        token_digits: &str,
        session_id: Option<String>,
        terminal: ContainerPtySize,
        execution: u64,
    ) -> (r: PtyLeaseCreated)
        ensures
            r.ok,
            r.mode@ == "pty"@,
            r.status@ == "prepared"@,
            r.pty_id@ == "pty_"@ + id_digits@,
            r.attach_token@ == "awpt_"@ + token_digits@,
            r.session_id == session_id,
            r.attach_url@ == "/api/v1/pty/"@ + r.pty_id@,
            final(self)@ == old(self)@.insert(
                r.pty_id@,
                (LeaseModel { attach_token: r.attach_token@, terminal, execution }),
            ),
    {
        let pty_id = cat2("pty_", id_digits);
        let attach_token = cat2("awpt_", token_digits);
        let lease = PreparedPtyLease { attach_token: attach_token.clone(), terminal, execution };
        self.leases.insert(pty_id.clone(), lease);
        let attach_url = cat2("/api/v1/pty/", pty_id.as_str());
        PtyLeaseCreated {
            ok: true,
            mode: "pty".to_owned(),
            status: "prepared".to_owned(),
            pty_id,
            attach_token,
            session_id,
            attach_url,
        }
    }

    /// Keeps a lease under digits that were drawn for its id and its token. Where
    /// none could be drawn, no lease is kept and the failure is handed on.
    pub fn insert_drawn(
        &mut self,
        drawn: Result<(String, String), Failure>,
        session_id: Option<String>,
        terminal: ContainerPtySize,
        execution: u64,
    ) -> (r: Result<PtyLeaseCreated, Failure>)
        ensures
            match drawn {
                Ok((id, token)) => {
                    &&& r matches Ok(created)
                    &&& created.ok
                    &&& created.mode@ == "pty"@
                    &&& created.status@ == "prepared"@
                    &&& created.pty_id@ == "pty_"@ + id@
                    &&& created.attach_token@ == "awpt_"@ + token@
                    &&& created.session_id == session_id
                    &&& created.attach_url@ == "/api/v1/pty/"@ + created.pty_id@
                    &&& final(self)@ == old(self)@.insert(
                        created.pty_id@,
                        (LeaseModel { attach_token: created.attach_token@, terminal, execution }),
                    )
                },
                Err(failure) => r == Err::<PtyLeaseCreated, Failure>(failure) && final(self)@
                    == old(self)@,
            },
    {
        match drawn {
            Ok((id, token)) => Ok(
                self.insert_with(id.as_str(), token.as_str(), session_id, terminal, execution),
            ),
            Err(failure) => Err(failure),
        }
    }

    /// Keeps a lease under a random id and a random token. Where the system gives
    /// no random bytes, its complaint is told and no lease is kept.
    pub fn insert(&mut self, session_id: Option<String>, terminal: ContainerPtySize, execution: u64)
        -> (r: Result<PtyLeaseCreated, Failure>)
        ensures
            match r {
                Ok(created) => {
                    &&& created.ok
                    &&& created.mode@ == "pty"@
                    &&& created.status@ == "prepared"@
                    &&& created.session_id == session_id
                    &&& created.attach_url@ == "/api/v1/pty/"@ + created.pty_id@
                    &&& final(self)@ == old(self)@.insert(
                        created.pty_id@,
                        (LeaseModel { attach_token: created.attach_token@, terminal, execution }),
                    )
                    &&& exists|id: Seq<char>| #[trigger]
                        is_lower_hex(id) && id.len() == 64 && created.pty_id@ == "pty_"@ + id
                    &&& exists|token: Seq<char>| #[trigger]
                        is_lower_hex(token) && token.len() == 64 && created.attach_token@
                            == "awpt_"@ + token
                },
                Err(failure) => {
                    &&& final(self)@ == old(self)@
                    &&& exists|complaint: Seq<char>|
                        failure@ == #[trigger] under("get random bytes"@, plain(complaint))
                },
            },
    {
        let drawn = draw_id_and_token();
        self.insert_drawn(drawn, session_id, terminal, execution)
    }

    pub fn contains(&self, pty_id: &str) -> (r: bool)
        ensures
            r == self@.contains_key(pty_id@),
    {
        self.leases.contains_key(pty_id)
    }

    /// Hands out a lease to whoever has its token, and to nobody else.
    pub fn consume_if_token(&mut self, pty_id: &str, attach_token: &str) -> (r: Option<
        PreparedPtyLease,
    >)
        ensures
            match r {
                Some(lease) => opens(old(self)@, pty_id@, attach_token@) && lease@
                    == old(self)@[pty_id@] && final(self)@ == old(self)@.remove(pty_id@),
                None => !opens(old(self)@, pty_id@, attach_token@) && final(self)@ == old(self)@,
            },
    {
        let matches_token = match self.leases.get(pty_id) {
            Some(lease) => same_secret(lease.attach_token.as_str(), attach_token),
            None => false,
        };
        if matches_token {
            self.leases.remove(pty_id)
        } else {
            None
        }
    }

    /// Whether a client may open a socket for a lease.
    pub fn may_attach(&self, pty_id: &str) -> (r: Result<(), HttpError>)
        ensures
            http_refusal(r) == (if self@.contains_key(pty_id@) {
                None
            } else {
                Some(fault(ErrorCode::NotFound, "pty lease not found"@))
            }),
    {
        if self.contains(pty_id) {
            Ok(())
        } else {
            Err(HttpError::not_found("pty lease not found"))
        }
    }

    /// What a client gets for its first message: the lease it has the token of.
    /// Why a token is not accepted is not told.
    pub fn attach(&mut self, pty_id: &str, auth: Result<String, HttpError>) -> (r: Result<
        PreparedPtyLease,
        HttpError,
    >)
        ensures
            match auth {
                Err(refused) => final(self)@ == old(self)@ && (r matches Err(error) && error@
                    == refused@),
                Ok(token) => if opens(old(self)@, pty_id@, token@) {
                    &&& r matches Ok(lease)
                    &&& lease@ == old(self)@[pty_id@]
                    &&& final(self)@ == old(self)@.remove(pty_id@)
                } else {
                    &&& r matches Err(error)
                    &&& error@ == fault(ErrorCode::Unauthorized, "unauthorized"@)
                    &&& final(self)@ == old(self)@
                },
            },
    {
        let token = match auth {
            Ok(token) => token,
            Err(error) => return Err(error),
        };
        match self.consume_if_token(pty_id, token.as_str()) {
            Some(lease) => Ok(lease),
            None => Err(HttpError::unauthorized("unauthorized")),
        }
    }

    /// Gives up a lease that was not attached to in time.
    pub fn expire(&mut self, pty_id: &str) -> (r: Option<PreparedPtyLease>)
        ensures
            final(self)@ == old(self)@.remove(pty_id@),
            match r {
                Some(lease) => old(self)@.contains_key(pty_id@) && lease@ == old(self)@[pty_id@],
                None => !old(self)@.contains_key(pty_id@),
            },
    {
        self.leases.remove(pty_id)
    }

    /// Gives up all leases.
    pub fn cancel_all(&mut self) -> (r: TextMap<PreparedPtyLease>)
        ensures
            r@ == old(self)@,
            final(self)@ == Map::<Seq<char>, LeaseModel>::empty(),
    {
        let mut taken: TextMap<PreparedPtyLease> = TextMap::new();
        std::mem::swap(&mut taken, &mut self.leases);
        taken
    }
}

/// A lease is handed out at most once: after it was consumed or given up, no
/// token opens it.
pub proof fn leases_are_consumed_once(leases: Leases, pty_id: Seq<char>, token: Seq<char>)
    ensures
        !opens(leases.remove(pty_id), pty_id, token),
{
}

/// A new lease is opened by its own token and by no other.
pub proof fn new_leases_open_with_their_token(
    leases: Leases,
    pty_id: Seq<char>,
    lease: LeaseModel,
    token: Seq<char>,
)
    ensures
        opens(leases.insert(pty_id, lease), pty_id, token) <==> token == lease.attach_token,
{
}

/// Consuming one lease leaves every other one as it was.
pub proof fn other_leases_stay(
    leases: Leases,
    pty_id: Seq<char>,
    other: Seq<char>,
    token: Seq<char>,
)
    requires
        other != pty_id,
    ensures
        opens(leases.remove(pty_id), other, token) == opens(leases, other, token),
{
}

// ---------------------------------------------------------------- control messages

/// A message of the client that is not input.
#[derive(Debug, Clone, PartialEq, Eq)]
pub enum PtyClientControl {
    Auth { token: String },
    Resize { size: TerminalRequest },
    Close,
}

/// Bounds a control message: one that is too large is refused, whatever it
/// holds, and so is one that could not be read.
pub fn parse_pty_control(text: &str, parsed: Result<PtyClientControl, String>) -> (r: Result<
    PtyClientControl,
    HttpError,
>)
    ensures
        match r {
            Ok(control) => encode_utf8(text@).len() <= MAX_WS_TEXT_BYTES && parsed == Ok::<
                PtyClientControl,
                String,
            >(control),
            Err(error) => error@ == (if encode_utf8(text@).len() > MAX_WS_TEXT_BYTES {
                fault(ErrorCode::InvalidRequest, "pty control message is too large"@)
            } else {
                fault(
                    ErrorCode::InvalidRequest,
                    "invalid pty control message: "@ + parsed->Err_0@,
                )
            }),
        },
        r is Ok <==> encode_utf8(text@).len() <= MAX_WS_TEXT_BYTES && parsed is Ok,
{
    if byte_len(text) > MAX_WS_TEXT_BYTES {
        return Err(HttpError::invalid_request("pty control message is too large"));
    }
    match parsed {
        Ok(control) => Ok(control),
        Err(complaint) => Err(
            HttpError::invalid_request(
                cat2("invalid pty control message: ", complaint.as_str()).as_str(),
            ),
        ),
    }
}

/// The token of a first message.
pub open spec fn token_of(control: Result<PtyClientControl, HttpError>) -> Result<
    Seq<char>,
    HttpFault,
> {
    match control {
        Err(error) => Err(error@),
        Ok(PtyClientControl::Auth { token }) => if token@.len() > 0 {
            Ok(token@)
        } else {
            Err(fault(ErrorCode::Unauthorized, "attach token is required"@))
        },
        Ok(_) => Err(fault(ErrorCode::Unauthorized, "first pty message must be auth"@)),
    }
}

/// The token of the first message, which must be an authentication.
pub fn parse_pty_auth(control: Result<PtyClientControl, HttpError>) -> (r: Result<
    String,
    HttpError,
>)
    ensures
        http_outcome(r) == token_of(control),
{
    match control {
        Err(error) => Err(error),
        Ok(PtyClientControl::Auth { token }) => {
            if token.as_str().unicode_len() == 0 {
                return Err(HttpError::unauthorized("attach token is required"));
            }
            Ok(token)
        },
        Ok(_) => Err(HttpError::unauthorized("first pty message must be auth")),
    }
}

impl PtyClientControl {
    /// The size that a resize asks for; other messages ask for none.
    pub fn resize_size(&self) -> (r: Result<Option<ContainerPtySize>, HttpError>)
        ensures
            match *self {
                PtyClientControl::Resize { size } => match size_of("cols"@, "rows"@, size) {
                    Ok(accepted) => r == Ok::<Option<ContainerPtySize>, HttpError>(Some(accepted)),
                    Err(e) => r matches Err(error) && error@ == e,
                },
                _ => r == Ok::<Option<ContainerPtySize>, HttpError>(None),
            },
    {
        match self {
            PtyClientControl::Resize { size } => match resized_terminal(*size) {
                Ok(accepted) => Ok(Some(accepted)),
                Err(error) => Err(error),
            },
            _ => Ok(None),
        }
    }
}

/// What happens while a client that attached has yet to authenticate.
#[derive(Debug)]
pub enum AuthEvent {
    Text(Result<PtyClientControl, HttpError>),
    KeepAlive,
    OtherMessage,
    SocketFailed(String),
    SocketClosed,
    ShutdownSignal { shutting_down: bool },
    TimedOut,
}

pub open spec fn auth_answer(event: AuthEvent) -> Option<Result<Seq<char>, HttpFault>> {
    match event {
        AuthEvent::Text(control) => Some(token_of(control)),
        AuthEvent::KeepAlive => None,
        AuthEvent::OtherMessage => Some(
            Err(fault(ErrorCode::Unauthorized, "first pty message must be auth"@)),
        ),
        AuthEvent::SocketFailed(complaint) => Some(
            Err(fault(ErrorCode::Unauthorized, complaint@)),
        ),
        AuthEvent::SocketClosed => Some(
            Err(fault(ErrorCode::Unauthorized, "pty attach closed before auth"@)),
        ),
        AuthEvent::ShutdownSignal { shutting_down } => if shutting_down {
            Some(Err(fault(ErrorCode::Unauthorized, "pty attach canceled by shutdown"@)))
        } else {
            None
        },
        AuthEvent::TimedOut => Some(
            Err(fault(ErrorCode::Unauthorized, "pty attach auth timed out"@)),
        ),
    }
}

/// The token, the refusal, or nothing as long as neither is known.
pub fn auth_step(event: AuthEvent) -> (r: Option<Result<String, HttpError>>)
    ensures
        match r {
            None => auth_answer(event) is None,
            Some(answer) => auth_answer(event) == Some(http_outcome(answer)),
        },
{
    match event {
        AuthEvent::Text(control) => Some(parse_pty_auth(control)),
        AuthEvent::KeepAlive => None,
        AuthEvent::OtherMessage => Some(
            Err(HttpError::unauthorized("first pty message must be auth")),
        ),
        AuthEvent::SocketFailed(complaint) => Some(
            Err(HttpError::unauthorized(complaint.as_str())),
        ),
        AuthEvent::SocketClosed => Some(
            Err(HttpError::unauthorized("pty attach closed before auth")),
        ),
        AuthEvent::ShutdownSignal { shutting_down } => if shutting_down {
            Some(Err(HttpError::unauthorized("pty attach canceled by shutdown")))
        } else {
            None
        },
        AuthEvent::TimedOut => Some(Err(HttpError::unauthorized("pty attach auth timed out"))),
    }
}

/// A token comes from a text message that carries it, and from nothing else.
pub proof fn only_auth_messages_give_tokens(event: AuthEvent)
    ensures
        auth_answer(event) matches Some(Ok(token)) ==> (event matches AuthEvent::Text(
            Ok(PtyClientControl::Auth { token: given }),
        ) && given@ == token && token.len() > 0),
{
}

/// Whoever is let into a session sent the token of its lease, in a message of
/// their own.
pub proof fn attached_clients_gave_the_token(
    leases: Leases,
    pty_id: Seq<char>,
    event: AuthEvent,
    token: Seq<char>,
)
    requires
        auth_answer(event) == Some(Ok::<Seq<char>, HttpFault>(token)),
        opens(leases, pty_id, token),
    ensures
        event matches AuthEvent::Text(Ok(PtyClientControl::Auth { token: given })) && given@
            == leases[pty_id].attach_token,
{
}

// ---------------------------------------------------------------- attached sessions

/// How waiting for the terminal's process ended.
#[derive(Debug)]
pub enum PtyExit {
    Exited(i32),
    WaitFailed(Failure),
    TaskFailed(Failure),
}

/// What happens while a session runs.
#[derive(Debug)]
pub enum PtyEvent {
    OutputArrived,
    OutputClosed,
    /// Output could not be handed to the client.
    OutputLost,
    ShutdownSignal { shutting_down: bool },
    InputArrived { bytes: usize },
    /// Input could not be handed to the terminal.
    InputLost,
    Control(Result<PtyClientControl, HttpError>),
    KeepAlive,
    SocketClosed,
    SocketFailed,
    ProcessEnded(PtyExit),
}

/// What is to be done.
#[derive(Debug)]
pub enum PtyAction {
    Nothing,
    ForwardOutput,
    ForwardInput,
    Resize(ContainerPtySize),
    Complain(HttpError),
    /// The process is terminated and the session ends as canceled.
    Cancel,
    /// The process is terminated and the session ends as it ends.
    TerminateAndWait,
    /// The process has ended; what output is left is handed over, and the
    /// session ends with it.
    Finish(PtyExit),
}

/// A session that a client is attached to.
#[derive(Debug, Clone, Copy, PartialEq, Eq, Structural)]
pub struct AttachedPty {
    /// Whether the terminal may still give output.
    pub output_open: bool,
    /// Whether the session goes on.
    pub running: bool,
}

/// What one event leads to.
pub open spec fn reaction(event: PtyEvent, action: PtyAction) -> bool {
    match event {
        PtyEvent::OutputArrived => action is ForwardOutput,
        PtyEvent::OutputClosed => action is Nothing,
        PtyEvent::OutputLost => action is Cancel,
        PtyEvent::ShutdownSignal { shutting_down } => if shutting_down {
            action is Cancel
        } else {
            action is Nothing
        },
        PtyEvent::InputArrived { bytes } => if bytes > MAX_WS_BINARY_BYTES {
            action matches PtyAction::Complain(error) && error@ == fault(
                ErrorCode::InvalidRequest,
                "pty input message is too large"@,
            )
        } else {
            action is ForwardInput
        },
        PtyEvent::InputLost => action is TerminateAndWait,
        PtyEvent::Control(Err(refused)) => action matches PtyAction::Complain(error) && error@
            == refused@,
        PtyEvent::Control(Ok(PtyClientControl::Resize { size })) => match size_of(
            "cols"@,
            "rows"@,
            size,
        ) {
            Ok(accepted) => action == PtyAction::Resize(accepted),
            Err(e) => action matches PtyAction::Complain(error) && error@ == e,
        },
        PtyEvent::Control(Ok(PtyClientControl::Close)) => action is Cancel,
        PtyEvent::Control(Ok(PtyClientControl::Auth { .. })) => {
            action matches PtyAction::Complain(error) && error@ == fault(
                ErrorCode::InvalidRequest,
                "auth is only valid as the first pty message"@,
            )
        },
        PtyEvent::KeepAlive => action is Nothing,
        PtyEvent::SocketClosed => action is Cancel,
        PtyEvent::SocketFailed => action is Cancel,
        PtyEvent::ProcessEnded(exit) => action == PtyAction::Finish(exit),
    }
}

/// Whether an action ends the session.
pub open spec fn ends_session(action: PtyAction) -> bool {
    action is Cancel || action is TerminateAndWait || action is Finish
}

/// Whether a session whose process was just started may run.
pub open spec fn may_run(client_told: bool, shutting_down: bool) -> bool {
    client_told && !shutting_down
}

impl AttachedPty {
    /// A session whose process was just started. One whose client could not be
    /// told, or that begins during a shutdown, is canceled at once.
    pub fn begin(client_told: bool, shutting_down: bool) -> (r: (AttachedPty, PtyAction))
        ensures
            r.0.output_open,
            r.0.running == may_run(client_told, shutting_down),
            r.0.running ==> r.1 is Nothing,
            !r.0.running ==> r.1 is Cancel,
    {
        let running = client_told && !shutting_down;
        let action = if running {
            PtyAction::Nothing
        } else {
            PtyAction::Cancel
        };
        (AttachedPty { output_open: true, running }, action)
    }

    /// Takes in one event of a running session.
    pub fn step(&mut self, event: PtyEvent) -> (action: PtyAction)
        requires
            old(self).running,
        ensures
            reaction(event, action),
            final(self).output_open == (old(self).output_open && !(event is OutputClosed)),
            final(self).running == !ends_session(action),
    {
        let action = match event {
            PtyEvent::OutputArrived => PtyAction::ForwardOutput,
            PtyEvent::OutputClosed => {
                self.output_open = false;
                PtyAction::Nothing
            },
            PtyEvent::OutputLost => PtyAction::Cancel,
            PtyEvent::ShutdownSignal { shutting_down } => if shutting_down {
                PtyAction::Cancel
            } else {
                PtyAction::Nothing
            },
            PtyEvent::InputArrived { bytes } => if bytes > MAX_WS_BINARY_BYTES {
                PtyAction::Complain(HttpError::invalid_request("pty input message is too large"))
            } else {
                PtyAction::ForwardInput
            },
            PtyEvent::InputLost => PtyAction::TerminateAndWait,
            PtyEvent::Control(Err(error)) => PtyAction::Complain(error),
            PtyEvent::Control(Ok(PtyClientControl::Resize { size })) => match resized_terminal(
                size,
            ) {
                Ok(accepted) => PtyAction::Resize(accepted),
                Err(error) => PtyAction::Complain(error),
            },
            PtyEvent::Control(Ok(PtyClientControl::Close)) => PtyAction::Cancel,
            PtyEvent::Control(Ok(PtyClientControl::Auth { .. })) => PtyAction::Complain(
                HttpError::invalid_request("auth is only valid as the first pty message"),
            ),
            PtyEvent::KeepAlive => PtyAction::Nothing,
            PtyEvent::SocketClosed => PtyAction::Cancel,
            PtyEvent::SocketFailed => PtyAction::Cancel,
            PtyEvent::ProcessEnded(exit) => PtyAction::Finish(exit),
        };
        self.running =
        match action {
            PtyAction::Cancel => false,
            PtyAction::TerminateAndWait => false,
            PtyAction::Finish(_) => false,
            _ => true,
        };
        action
    }
}

/// What the client is told at the end of a session.
#[derive(Debug)]
pub enum PtyFarewell {
    Exit { exit_code: i32, outcome: String },
    Error(HttpError),
    Silent,
}

/// How a session ended, for the client and for what is cleaned up after it.
#[derive(Debug)]
pub struct PtyConclusion {
    pub farewell: PtyFarewell,
    pub result: Result<ExecutionOutcome, Failure>,
    pub outcome: SessionOutcome,
}

pub open spec fn concludes(exit: PtyExit, c: PtyConclusion) -> bool {
    match exit {
        PtyExit::Exited(code) => {
            &&& c.farewell matches PtyFarewell::Exit { exit_code, outcome }
            &&& exit_code == code
            &&& outcome@ == (if code == 0 {
                "success"@
            } else {
                "failure"@
            })
            &&& c.result == Ok::<ExecutionOutcome, Failure>(
                ExecutionOutcome::Streamed { exit_code: code },
            )
            &&& c.outcome == (if code == 0 {
                SessionOutcome::Success
            } else {
                SessionOutcome::Failure
            })
        },
        PtyExit::WaitFailed(failure) => {
            &&& c.farewell matches PtyFarewell::Error(error)
            &&& error@ == fault(ErrorCode::OperationFailed, "interactive session failed"@)
            &&& c.result == Err::<ExecutionOutcome, Failure>(failure)
            &&& c.outcome == SessionOutcome::Failure
        },
        PtyExit::TaskFailed(failure) => {
            &&& c.farewell matches PtyFarewell::Error(error)
            &&& error@ == fault(ErrorCode::OperationFailed, "pty wait task failed"@)
            &&& c.result == Err::<ExecutionOutcome, Failure>(failure)
            &&& c.outcome == SessionOutcome::Failure
        },
    }
}

/// The end of a session whose process ended.
pub fn handle_pty_exit(exit: PtyExit) -> (r: PtyConclusion)
    ensures
        concludes(exit, r),
{
    match exit {
        PtyExit::Exited(code) => {
            if code == 0 {
                PtyConclusion {
                    farewell: PtyFarewell::Exit { exit_code: code, outcome: "success".to_owned() },
                    result: Ok(ExecutionOutcome::new(code)),
                    outcome: SessionOutcome::Success,
                }
            } else {
                PtyConclusion {
                    farewell: PtyFarewell::Exit { exit_code: code, outcome: "failure".to_owned() },
                    result: Ok(ExecutionOutcome::new(code)),
                    outcome: SessionOutcome::Failure,
                }
            }
        },
        PtyExit::WaitFailed(failure) => PtyConclusion {
            farewell: PtyFarewell::Error(HttpError::operation_failed("interactive session failed")),
            result: Err(failure),
            outcome: SessionOutcome::Failure,
        },
        PtyExit::TaskFailed(failure) => PtyConclusion {
            farewell: PtyFarewell::Error(HttpError::operation_failed("pty wait task failed")),
            result: Err(failure),
            outcome: SessionOutcome::Failure,
        },
    }
}

/// The end of a session that was canceled, or whose lease was given up.
pub fn canceled_pty() -> (r: PtyConclusion)
    ensures
        r.farewell is Silent,
        r.result == Ok::<ExecutionOutcome, Failure>(ExecutionOutcome::Streamed { exit_code: 130 }),
        r.outcome == SessionOutcome::Canceled,
{
    PtyConclusion {
        farewell: PtyFarewell::Silent,
        result: Ok(ExecutionOutcome::new(130)),
        outcome: SessionOutcome::Canceled,
    }
}

/// The end of a session whose process could not be started.
pub fn unstarted_pty(failure: Failure) -> (r: PtyConclusion)
    ensures
        r.farewell matches PtyFarewell::Error(error) && error@ == fault(
            ErrorCode::OperationFailed,
            "failed to start interactive session"@,
        ),
        r.result matches Err(f) && f@ == under("failed to spawn pty child"@, failure@),
        r.outcome == SessionOutcome::Failure,
{
    PtyConclusion {
        farewell: PtyFarewell::Error(
            HttpError::operation_failed("failed to start interactive session"),
        ),
        result: Err(failure.context("failed to spawn pty child")),
        outcome: SessionOutcome::Failure,
    }
}

/// Only a process that exited with 0 makes a session a success.
pub proof fn only_exit_zero_succeeds(exit: PtyExit, c: PtyConclusion)
    requires
        concludes(exit, c),
    ensures
        c.outcome == SessionOutcome::Success <==> exit == PtyExit::Exited(0),
{
}

/// Whether an event ends a session: its process ended, one side was lost, the
/// client closed it, or the server shuts down.
pub open spec fn is_an_end(event: PtyEvent) -> bool {
    match event {
        PtyEvent::OutputLost => true,
        PtyEvent::ShutdownSignal { shutting_down } => shutting_down,
        PtyEvent::InputLost => true,
        PtyEvent::Control(Ok(PtyClientControl::Close)) => true,
        PtyEvent::SocketClosed => true,
        PtyEvent::SocketFailed => true,
        PtyEvent::ProcessEnded(_) => true,
        _ => false,
    }
}

/// Nothing else ends a session.
pub proof fn sessions_end_with_their_cause(event: PtyEvent, action: PtyAction)
    requires
        reaction(event, action),
    ensures
        ends_session(action) <==> is_an_end(event),
        action is Finish <==> event is ProcessEnded,
{
}

/// Messages that are refused are answered, and the session goes on.
pub proof fn refused_messages_do_not_end_sessions(event: PtyEvent, action: PtyAction)
    requires
        reaction(event, action),
        action is Complain,
    ensures
        !ends_session(action),
        event is Control || event is InputArrived,
{
}

// ---------------------------------------------------------------- shutting down

/// What a shutdown does next while it waits for what is still active.
#[derive(Debug, Clone, Copy, PartialEq, Eq, Structural)]
pub enum ShutdownStep {
    Finished,
    Wait,
    GiveUp,
}

/// What follows from what is still active.
pub open spec fn shutdown_state(active: usize, expired: bool) -> ShutdownStep {
    if active == 0 {
        ShutdownStep::Finished
    } else if expired {
        ShutdownStep::GiveUp
    } else {
        ShutdownStep::Wait
    }
}

/// Waits until nothing is active or time is up.
pub fn shutdown_step(active: usize, expired: bool) -> (r: ShutdownStep)
    ensures
        r == shutdown_state(active, expired),
{
    if active == 0 {
        ShutdownStep::Finished
    } else if expired {
        ShutdownStep::GiveUp
    } else {
        ShutdownStep::Wait
    }
}

/// The phases of shutting down executions that clients wait for.
#[derive(Debug, Clone, Copy, PartialEq, Eq, Structural)]
pub enum WaitShutdown {
    /// Executions may end by themselves.
    Grace,
    /// Executions were canceled and are waited for.
    Canceled,
    Done,
}

#[derive(Debug, Clone, Copy, PartialEq, Eq, Structural)]
pub enum WaitShutdownAction {
    Sleep,
    CancelAll,
    Return,
}

impl WaitShutdown {
    /// What follows a look at what is still active.
    pub open spec fn following(self, active: usize, expired: bool) -> (
        WaitShutdown,
        WaitShutdownAction,
    ) {
        if self == WaitShutdown::Done || active == 0 {
            (WaitShutdown::Done, WaitShutdownAction::Return)
        } else if !expired {
            (self, WaitShutdownAction::Sleep)
        } else if self == WaitShutdown::Grace {
            (WaitShutdown::Canceled, WaitShutdownAction::CancelAll)
        } else {
            (WaitShutdown::Done, WaitShutdownAction::Return)
        }
    }

    /// Goes on: executions get their grace, are then canceled, and are waited
    /// for a limited time.
    pub fn step(self, active: usize, expired: bool) -> (r: (WaitShutdown, WaitShutdownAction))
        ensures
            r == self.following(active, expired),
    {
        match self {
            WaitShutdown::Done => (WaitShutdown::Done, WaitShutdownAction::Return),
            WaitShutdown::Grace => match shutdown_step(active, expired) {
                ShutdownStep::Finished => (WaitShutdown::Done, WaitShutdownAction::Return),
                ShutdownStep::Wait => (WaitShutdown::Grace, WaitShutdownAction::Sleep),
                ShutdownStep::GiveUp => (WaitShutdown::Canceled, WaitShutdownAction::CancelAll),
            },
            WaitShutdown::Canceled => match shutdown_step(active, expired) {
                ShutdownStep::Finished => (WaitShutdown::Done, WaitShutdownAction::Return),
                ShutdownStep::Wait => (WaitShutdown::Canceled, WaitShutdownAction::Sleep),
                ShutdownStep::GiveUp => (WaitShutdown::Done, WaitShutdownAction::Return),
            },
        }
    }
}

/// Whether the result of an execution request is an execution's; any other
/// result is unexpected.
pub fn expect_execution(kind: ResultKind) -> (r: Result<(), HttpError>)
    ensures
        http_refusal(r) == (if kind == ResultKind::Run || kind == ResultKind::Launch {
            None
        } else {
            Some(fault(ErrorCode::OperationFailed, "operation returned an unexpected result"@))
        }),
{
    match kind {
        ResultKind::Run => Ok(()),
        ResultKind::Launch => Ok(()),
        _ => Err(HttpError::operation_failed("operation returned an unexpected result")),
    }
}

/// The answer where an operation ended without one.
pub fn lost_operation() -> (r: HttpError)
    ensures
        r@ == fault(ErrorCode::OperationFailed, "operation task ended without a response"@),
{
    HttpError::operation_failed("operation task ended without a response")
}

/// Whether the HTTP listener is started.
pub fn listener_enabled(enabled: bool) -> (r: Result<(), Failure>)
    ensures
        crate::failure::refusal(r) == crate::failure::unless(
            enabled,
            "http listener is disabled in config"@,
        ),
{
    if enabled {
        Ok(())
    } else {
        Err(Failure::msg("http listener is disabled in config"))
    }
}

// ---------------------------------------------------------------- laws

/// A client that has yet to authenticate is waited for only while nothing but
/// signs of life come; everything else settles whether it is let in. What is no
/// token is answered as unauthorized, but for a message that could not be read,
/// which is answered as such.
pub proof fn attaching_is_settled(event: AuthEvent)
    ensures
        auth_answer(event) is None <==> event is KeepAlive || event
            == (AuthEvent::ShutdownSignal { shutting_down: false }),
        auth_answer(event) matches Some(Err(refused)) ==> (refused.1 == ErrorCode::Unauthorized && (
        refused.0 == 401)) || (event matches AuthEvent::Text(Err(error)) && refused == error@),
        event matches AuthEvent::Text(Ok(PtyClientControl::Auth { token })) ==> (token@.len() > 0
            ==> auth_answer(event) == Some(Ok::<Seq<char>, HttpFault>(token@))),
{
}

/// What a session does with what happens: output goes to the client and input to
/// the terminal, unless it is too large; a size that is acceptable is taken over; a
/// process that ended ends the session with its own exit; and whoever closes the
/// session or is lost cancels it, but for lost input, after which the process is
/// waited for.
pub proof fn sessions_react_to_events(event: PtyEvent, action: PtyAction)
    requires
        reaction(event, action),
    ensures
        action is ForwardOutput <==> event is OutputArrived,
        action is ForwardInput <==> (event matches PtyEvent::InputArrived { bytes } && bytes
            <= 262144),
        action is TerminateAndWait <==> event is InputLost,
        action is Cancel <==> event is OutputLost || event is SocketClosed || event is SocketFailed
            || event == (PtyEvent::ShutdownSignal { shutting_down: true }) || event
            == PtyEvent::Control(Ok(PtyClientControl::Close)),
        action matches PtyAction::Resize(size) ==> (event matches PtyEvent::Control(
            Ok(PtyClientControl::Resize { size: asked }),
        ) && size_of("cols"@, "rows"@, asked) == Ok::<ContainerPtySize, HttpFault>(size)),
        event matches PtyEvent::Control(Ok(PtyClientControl::Resize { size })) ==> (size_of(
            "cols"@,
            "rows"@,
            size,
        ) is Ok ==> action is Resize),
        event matches PtyEvent::ProcessEnded(exit) ==> action == PtyAction::Finish(exit),
        event is KeepAlive || event is OutputClosed ==> action is Nothing,
{
}

/// The client is told the exit code of its process, and whether that is a success;
/// where waiting for it failed, the client is told of a failure and the gateway
/// keeps the reason.
pub proof fn ends_are_told_as_they_are(exit: PtyExit, c: PtyConclusion)
    requires
        concludes(exit, c),
    ensures
        exit matches PtyExit::Exited(code) ==> {
            &&& c.farewell matches PtyFarewell::Exit { exit_code, outcome } && exit_code == code && (
            code == 0 ==> outcome@ == "success"@) && (code != 0 ==> outcome@ == "failure"@)
            &&& c.result == Ok::<ExecutionOutcome, Failure>(
                ExecutionOutcome::Streamed { exit_code: code },
            )
        },
        !(exit is Exited) ==> c.result is Err && c.outcome == SessionOutcome::Failure && (
        c.farewell matches PtyFarewell::Error(error) && error.status == 500),
        exit matches PtyExit::WaitFailed(failure) ==> c.result == Err::<ExecutionOutcome, Failure>(
            failure,
        ),
        exit matches PtyExit::TaskFailed(failure) ==> c.result == Err::<ExecutionOutcome, Failure>(
            failure,
        ),
{
}

/// Shutting down ends as soon as nothing is active. Executions are canceled once,
/// after their grace; those that do not end even then are left behind. Until its
/// time is up, each phase is waited out.
pub proof fn shutdowns_take_their_course(phase: WaitShutdown, active: usize, expired: bool)
    ensures
        ({
            let (next, action) = phase.following(active, expired);
            &&& action == WaitShutdownAction::Return <==> next == WaitShutdown::Done
            &&& action == WaitShutdownAction::CancelAll <==> phase == WaitShutdown::Grace && active
                > 0 && expired
            &&& action == WaitShutdownAction::CancelAll ==> next == WaitShutdown::Canceled
            &&& action == WaitShutdownAction::Sleep <==> phase != WaitShutdown::Done && active > 0
                && !expired
            &&& action == WaitShutdownAction::Sleep ==> next == phase
            &&& phase != WaitShutdown::Grace ==> next != WaitShutdown::Grace
        }),
{
}

/// A session begins to run exactly where its client was told of it and no
/// shutdown is under way; any other is canceled at once.
pub proof fn sessions_begin_with_their_client(client_told: bool, shutting_down: bool)
    ensures
        may_run(client_told, shutting_down) ==> client_told && !shutting_down,
        client_told && !shutting_down ==> may_run(client_told, shutting_down),
{
}

/// A shutdown is finished exactly when nothing is active any more; as long as
/// something is, it is waited for until time is up.
pub proof fn shutdowns_wait_for_what_is_active(active: usize, expired: bool)
    ensures
        shutdown_state(active, expired) is Finished <==> active == 0,
        shutdown_state(active, expired) is GiveUp <==> active > 0 && expired,
        shutdown_state(active, expired) is Wait <==> active > 0 && !expired,
{
}

/// What a client asks for in vain is explained: input that is too much at once, a
/// second proof of who it is, a size that is not accepted, and a message that
/// cannot be read.
pub proof fn refusals_are_explained_to_the_client(event: PtyEvent, action: PtyAction)
    requires
        reaction(event, action),
    ensures
        event matches PtyEvent::InputArrived { bytes } ==> bytes > 262144 ==> (
        action matches PtyAction::Complain(error) && error@ == fault(
            ErrorCode::InvalidRequest,
            "pty input message is too large"@,
        )),
        event matches PtyEvent::Control(Ok(PtyClientControl::Auth { .. })) ==> (
        action matches PtyAction::Complain(error) && error@ == fault(
            ErrorCode::InvalidRequest,
            "auth is only valid as the first pty message"@,
        )),
        event matches PtyEvent::Control(Err(refused)) ==> (action matches PtyAction::Complain(error)
            && error@ == refused@),
        event matches PtyEvent::Control(Ok(PtyClientControl::Resize { size })) ==> (size_of(
            "cols"@,
            "rows"@,
            size,
        ) matches Err(why) ==> (action matches PtyAction::Complain(error) && error@ == why)),
{
}

} // verus!
