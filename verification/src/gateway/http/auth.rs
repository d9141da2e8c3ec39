//! Who may use the HTTP transport, and for what.

use crate::gateway::http::response::{
    fault, http_refusal, operation_error_response, ErrorCode, HttpError, HttpFault,
};
use crate::gateway::ops::types::OperationError;
use crate::text::{cat3, list_has, opt_str, quote, quoted, strip_prefix, texts};
use vstd::prelude::*;
use vstd::utf8::encode_utf8_decode_utf8;

verus! {

/// How clients prove who they are.
#[derive(Debug, Clone, Copy, PartialEq, Eq, Structural)]
pub enum HttpAuthType {
    Open,
    Bearer,
}

proof fn accumulate(acc: u8, x: u8, y: u8)
    ensures
        (acc | (x ^ y)) == 0 <==> acc == 0 && x == y,
{
    assert((acc | (x ^ y)) == 0 <==> acc == 0 && x == y) by (bit_vector);
}

/// Whether two runs of bytes are the same. Equal lengths are compared to the
/// end whatever they hold.
pub fn constant_time_eq(a: &[u8], b: &[u8]) -> (r: bool)
    ensures
        r == (a@ == b@),
{
    if a.len() != b.len() {
        return false;
    }
    let mut acc: u8 = 0;
    let mut i: usize = 0;
    assert(a@.take(0) =~= b@.take(0));
    while i < a.len()
        invariant
            i <= a.len() == b.len(),
            acc == 0 <==> a@.take(i as int) == b@.take(i as int),
        decreases a.len() - i,
    {
        proof {
            accumulate(acc, a@[i as int], b@[i as int]);
            let (p, q) = (a@.take(i + 1), b@.take(i + 1));
            assert(p =~= a@.take(i as int).push(a@[i as int]));
            assert(q =~= b@.take(i as int).push(b@[i as int]));
            if p == q {
                assert(p.drop_last() =~= a@.take(i as int));
                assert(q.drop_last() =~= b@.take(i as int));
                assert(p.last() == a@[i as int] && q.last() == b@[i as int]);
            }
        }
        acc = acc | (a[i] ^ b[i]);
        i += 1;
    }
    assert(a@.take(i as int) =~= a@);
    assert(b@.take(i as int) =~= b@);
    acc == 0
}

/// Whether two texts are the same, compared as `constant_time_eq` does.
pub fn same_secret(a: &str, b: &str) -> (r: bool)
    ensures
        r == (a@ == b@),
{
    proof {
        encode_utf8_decode_utf8(a@);
        encode_utf8_decode_utf8(b@);
    }
    constant_time_eq(a.as_bytes(), b.as_bytes())
}

/// The token that an `Authorization` header carries.
pub open spec fn bearer_token(header: Option<Seq<char>>) -> Option<Seq<char>> {
    match header {
        Some(value) => if "Bearer "@.is_prefix_of(value) && value.len() > "Bearer "@.len() {
            Some(value.skip("Bearer "@.len() as int))
        } else {
            None
        },
        None => None,
    }
}

/// Whether a client may use the transport: anyone where it is open, else who
/// carries the expected token.
pub open spec fn is_authorized(
    auth_type: HttpAuthType,
    header: Option<Seq<char>>,
    expected: Option<Seq<char>>,
) -> bool {
    auth_type == HttpAuthType::Open || (bearer_token(header) is Some && bearer_token(header)
        == expected)
}

/// Refuses a client that is not known.
pub fn authorize(auth_type: HttpAuthType, header: Option<&str>, expected: Option<&str>) -> (r: Result<
    (),
    HttpError,
>)
    ensures
        http_refusal(r) == (if is_authorized(auth_type, opt_str(header), opt_str(expected)) {
            None
        } else {
            Some(fault(ErrorCode::Unauthorized, "unauthorized"@))
        }),
{
    match auth_type {
        HttpAuthType::Open => Ok(()),
        HttpAuthType::Bearer => authorize_bearer(header, expected),
    }
}

fn authorize_bearer(header: Option<&str>, expected: Option<&str>) -> (r: Result<(), HttpError>)
    ensures
        http_refusal(r) == (if is_authorized(
            HttpAuthType::Bearer,
            opt_str(header),
            opt_str(expected),
        ) {
            None
        } else {
            Some(fault(ErrorCode::Unauthorized, "unauthorized"@))
        }),
{
    let supplied = match header {
        Some(value) => match strip_prefix(value, "Bearer ") {
            Some(token) => token,
            None => return Err(HttpError::unauthorized("unauthorized")),
        },
        None => return Err(HttpError::unauthorized("unauthorized")),
    };
    if supplied.unicode_len() == 0 {
        return Err(HttpError::unauthorized("unauthorized"));
    }
    match expected {
        Some(expected) => {
            if !same_secret(supplied, expected) {
                return Err(HttpError::unauthorized("unauthorized"));
            }
            Ok(())
        },
        None => Err(HttpError::unauthorized("unauthorized")),
    }
}

/// The answer to a client that is not known or asks for a disabled action.
pub open spec fn action_refused(
    auth_type: HttpAuthType,
    header: Option<Seq<char>>,
    expected: Option<Seq<char>>,
    enabled: Seq<Seq<char>>,
    action: Seq<char>,
) -> Option<HttpFault> {
    if !is_authorized(auth_type, header, expected) {
        Some(fault(ErrorCode::Unauthorized, "unauthorized"@))
    } else if !enabled.contains(action) {
        Some(
            fault(
                ErrorCode::DisabledAction,
                "http action "@ + quoted(action) + " is disabled"@,
            ),
        )
    } else {
        None
    }
}

/// Refuses a client that is not known, then an action that is not enabled.
pub fn authorize_action(
    auth_type: HttpAuthType,
    header: Option<&str>,
    expected: Option<&str>,
    enabled_actions: &Vec<String>,
    action: &str,
) -> (r: Result<(), HttpError>)
    ensures
        http_refusal(r) == action_refused(
            auth_type,
            opt_str(header),
            opt_str(expected),
            texts(enabled_actions@),
            action@,
        ),
{
    if let Err(error) = authorize(auth_type, header, expected) {
        return Err(error);
    }
    if !list_has(enabled_actions, action) {
        let message = cat3("http action ", quote(action).as_str(), " is disabled");
        let error = OperationError::disabled_action(message.as_str());
        return Err(operation_error_response(error));
    }
    Ok(())
}

/// What a request of the transport asks for.
#[derive(Debug, Clone, Copy, PartialEq, Eq, Structural)]
pub enum HttpRoute {
    Status,
    StatusAll,
    Targets,
    Up,
    Stop,
    Remove,
    Launches,
    LaunchShow,
    LaunchRun,
    Run,
}

impl HttpRoute {
    pub open spec fn action_name(self) -> Seq<char> {
        match self {
            HttpRoute::Status | HttpRoute::StatusAll => "status"@,
            HttpRoute::Targets => "targets"@,
            HttpRoute::Up => "up"@,
            HttpRoute::Stop => "stop"@,
            HttpRoute::Remove => "remove"@,
            HttpRoute::Launches => "launches"@,
            HttpRoute::LaunchShow => "launch-show"@,
            HttpRoute::LaunchRun => "launch"@,
            HttpRoute::Run => "run"@,
        }
    }

    /// The action that must be enabled for a request.
    pub fn action(&self) -> (r: &'static str)
        ensures
            r@ == self.action_name(),
    {
        match self {
            HttpRoute::Status | HttpRoute::StatusAll => "status",
            HttpRoute::Targets => "targets",
            HttpRoute::Up => "up",
            HttpRoute::Stop => "stop",
            HttpRoute::Remove => "remove",
            HttpRoute::Launches => "launches",
            HttpRoute::LaunchShow => "launch-show",
            HttpRoute::LaunchRun => "launch",
            HttpRoute::Run => "run",
        }
    }
}

/// Where only one of showing and running launches is enabled, a known client is
/// refused the other.
pub proof fn showing_and_running_are_enabled_apart(
    auth_type: HttpAuthType,
    header: Option<Seq<char>>,
    expected: Option<Seq<char>>,
    enabled: HttpRoute,
    asked: HttpRoute,
)
    requires
        is_authorized(auth_type, header, expected),
        enabled is LaunchShow || enabled is LaunchRun,
        asked is LaunchShow || asked is LaunchRun,
    ensures
        action_refused(
            auth_type,
            header,
            expected,
            seq![enabled.action_name()],
            asked.action_name(),
        ) is None <==> enabled == asked,
{
    reveal_strlit("launch");
    reveal_strlit("launch-show");
    let names = seq![enabled.action_name()];
    assert(names[0] == enabled.action_name());
    assert("launch"@.len() == 6 && "launch-show"@.len() == 11);
}

/// A client that is not known is answered the same whatever it asks for, so the
/// answer tells nothing of which actions are enabled.
pub proof fn unknown_clients_learn_nothing(
    header: Option<Seq<char>>,
    expected: Option<Seq<char>>,
    enabled: Seq<Seq<char>>,
    action: Seq<char>,
    other_enabled: Seq<Seq<char>>,
    other_action: Seq<char>,
)
    requires
        !is_authorized(HttpAuthType::Bearer, header, expected),
    ensures
        action_refused(HttpAuthType::Bearer, header, expected, enabled, action) == action_refused(
            HttpAuthType::Bearer,
            header,
            expected,
            other_enabled,
            other_action,
        ),
        action_refused(HttpAuthType::Bearer, header, expected, enabled, action) == Some(
            fault(ErrorCode::Unauthorized, "unauthorized"@),
        ),
{
}

/// Without a configured token no client of a bearer transport is let in.
pub proof fn no_token_lets_nobody_in(header: Option<Seq<char>>)
    ensures
        !is_authorized(HttpAuthType::Bearer, header, None),
{
}

/// Anyone may use an open transport. A bearer transport lets in exactly the client
/// whose header carries the expected token, which is not empty.
pub proof fn clients_are_known_by_their_token(
    header: Option<Seq<char>>,
    expected: Option<Seq<char>>,
)
    ensures
        is_authorized(HttpAuthType::Open, header, expected),
        is_authorized(HttpAuthType::Bearer, header, expected) <==> (expected matches Some(token)
            && token.len() > 0 && header == Some("Bearer "@ + token)),
{
    reveal_strlit("Bearer ");
    let head = "Bearer "@;
    if let Some(token) = expected {
        let full = head + token;
        assert(full.subrange(0, 7) =~= head);
        assert(full.skip(7) =~= token);
        if is_authorized(HttpAuthType::Bearer, header, expected) {
            let value = header->0;
            assert(value =~= head + value.skip(7));
        }
    }
}

/// A known client is refused exactly the actions that are not enabled.
pub proof fn known_clients_may_do_what_is_enabled(
    auth_type: HttpAuthType,
    header: Option<Seq<char>>,
    expected: Option<Seq<char>>,
    enabled: Seq<Seq<char>>,
    action: Seq<char>,
)
    requires
        is_authorized(auth_type, header, expected),
    ensures
        ({
            let refused = action_refused(auth_type, header, expected, enabled, action);
            &&& refused is None <==> enabled.contains(action)
            &&& refused matches Some(answer) ==> answer.0 == 403 && answer.1
                == ErrorCode::DisabledAction
        }),
{
}

/// Every request is enabled under the name of what it asks for; both ways of asking
/// for the status go by one name, and no other two requests share one.
pub proof fn requests_are_enabled_by_name(one: HttpRoute, other: HttpRoute)
    ensures
        HttpRoute::Status.action_name() == "status"@,
        HttpRoute::StatusAll.action_name() == "status"@,
        HttpRoute::Targets.action_name() == "targets"@,
        HttpRoute::Up.action_name() == "up"@,
        HttpRoute::Stop.action_name() == "stop"@,
        HttpRoute::Remove.action_name() == "remove"@,
        HttpRoute::Launches.action_name() == "launches"@,
        HttpRoute::LaunchShow.action_name() == "launch-show"@,
        HttpRoute::LaunchRun.action_name() == "launch"@,
        HttpRoute::Run.action_name() == "run"@,
        one.action_name() == other.action_name() <==> one == other || (one is Status || one
            is StatusAll) && (other is Status || other is StatusAll),
{
    reveal_strlit("status");
    reveal_strlit("targets");
    reveal_strlit("up");
    reveal_strlit("stop");
    reveal_strlit("remove");
    reveal_strlit("launches");
    reveal_strlit("launch-show");
    reveal_strlit("launch");
    reveal_strlit("run");
    assert("status"@.len() == 6 && "status"@[0] == 's');
    assert("remove"@.len() == 6 && "remove"@[0] == 'r');
    assert("launch"@.len() == 6 && "launch"@[0] == 'l');
    assert("targets"@.len() == 7 && "up"@.len() == 2 && "stop"@.len() == 4 && "run"@.len() == 3);
    assert("launches"@.len() == 8 && "launch-show"@.len() == 11);
}

} // verus!
