//! Probing a service over HTTP.

use crate::failure::{outcome, plain, Chain, Failure};
use crate::json::{json_complaint, json_fault, json_string_at, json_text_field};
use crate::gateway::published_port::decimal_has_digits;
use crate::rotating_log::decimal_has_its_value;
use crate::text::{
    cat3, cat5, decimal, decimal_text, find_from, find_from_bounds, find_text, has_text, is_digit,
    opt_str, opt_text, parse_port, port_complaint, port_fault, same, split_once, split_once_at,
    stands_at, starts_with, strip_prefix, unsigned_value,
};
use crate::text_map::{listing, TextMap};
use crate::text_parts::{lines, lines_of};
use vstd::prelude::*;

verus! {

// ---------------------------------------------------------------- asking

/// Where a probe goes and what it sends.
#[derive(Debug, Clone, PartialEq, Eq)]
pub struct HttpProbe {
    pub host: String,
    pub port: u16,
    pub request: String,
}

pub struct ProbeModel {
    pub host: Seq<char>,
    pub port: int,
    pub request: Seq<char>,
}

impl View for HttpProbe {
    type V = ProbeModel;

    open spec fn view(&self) -> ProbeModel {
        ProbeModel { host: self.host@, port: self.port as int, request: self.request@ }
    }
}

/// The request line and headers of a probe.
pub open spec fn probe_request(host: Seq<char>, path: Seq<char>) -> Seq<char> {
    "GET /"@ + path + " HTTP/1.1\r\nHost: "@ + host + "\r\nConnection: close\r\n\r\n"@
}

/// The host and the port of an authority, which defaults to port 80.
pub open spec fn authority(host_port: Seq<char>) -> Result<(Seq<char>, int), Chain> {
    match split_once_at(host_port, ':') {
        None => Ok((host_port, 80)),
        Some((host, port)) => match unsigned_value(port) {
            Some(n) if n <= u16::MAX => Ok((host, n)),
            _ => Err(plain(port_fault(port))),
        },
    }
}

/// What probing an address means.
pub open spec fn probe_of(url: Seq<char>) -> Result<ProbeModel, Chain> {
    if !"http://"@.is_prefix_of(url) {
        Err(plain("only http:// health checks are currently supported"@))
    } else {
        let rest = url.skip("http://"@.len() as int);
        let (host_port, path) = match split_once_at(rest, '/') {
            Some((a, b)) => (a, b),
            None => (rest, ""@),
        };
        match authority(host_port) {
            Ok((host, port)) => Ok(
                ProbeModel { host, port, request: probe_request(host, path) },
            ),
            Err(chain) => Err(chain),
        }
    }
}

/// What probing an address means.
pub fn http_probe(url: &str) -> (r: Result<HttpProbe, Failure>)
    ensures
        outcome(r) == probe_of(url@),
{
    let rest = match strip_prefix(url, "http://") {
        Some(rest) => rest,
        None => return Err(
            Failure::msg("only http:// health checks are currently supported"),
        ),
    };
    let (host_port, path) = match split_once(rest, '/') {
        Some(parts) => parts,
        None => (rest, ""),
    };
    let mut host = host_port;
    let mut port: u16 = 80;
    if let Some((name, number)) = split_once(host_port, ':') {
        match parse_port(number) {
            Some(n) => {
                host = name;
                port = n;
            },
            None => return Err(Failure::msg(port_complaint(number).as_str())),
        }
    }
    let request = cat5(
        "GET /",
        path,
        " HTTP/1.1\r\nHost: ",
        host,
        "\r\nConnection: close\r\n\r\n",
    );
    Ok(HttpProbe { host: host.to_owned(), port, request })
}

// ---------------------------------------------------------------- the answer

/// What a service answered.
#[derive(Debug, Clone, PartialEq, Eq)]
pub struct HttpHealthResponse {
    pub response: String,
}

/// Whether an answer of HTTP 1.0 or 1.1 has a status.
pub open spec fn has_status(response: Seq<char>, status: int) -> bool {
    ||| ("HTTP/1.1 "@ + decimal(status as nat) + " "@).is_prefix_of(response)
    ||| ("HTTP/1.0 "@ + decimal(status as nat) + " "@).is_prefix_of(response)
}

pub open spec fn first_line(response: Seq<char>) -> Option<Seq<char>> {
    if lines(response).len() > 0 {
        Some(lines(response)[0])
    } else {
        None
    }
}

/// The body of an answer stands behind the first empty line.
pub open spec fn is_body(response: Seq<char>, body: Option<Seq<char>>) -> bool {
    match body {
        Some(text) => exists|at: int|
            {
                &&& #[trigger] stands_at(response, "\r\n\r\n"@, at)
                &&& forall|j: int| 0 <= j < at ==> !stands_at(response, "\r\n\r\n"@, j)
                &&& text == response.skip(at + 4)
            },
        None => !has_text(response, "\r\n\r\n"@),
    }
}

impl HttpHealthResponse {
    pub fn status_matches(&self, expect_status: u16) -> (r: bool)
        ensures
            r == has_status(self.response@, expect_status as int),
    {
        let status = decimal_text(expect_status as u64);
        starts_with(self.response.as_str(), cat3("HTTP/1.1 ", status.as_str(), " ").as_str())
            || starts_with(self.response.as_str(), cat3("HTTP/1.0 ", status.as_str(), " ").as_str())
    }

    pub fn status_line(&self) -> (r: Option<String>)
        ensures
            opt_text(r) == first_line(self.response@),
    {
        let all = lines_of(self.response.as_str());
        if all.len() == 0 {
            None
        } else {
            Some(all[0].clone())
        }
    }

    pub fn body(&self) -> (r: Option<&str>)
        ensures
            is_body(self.response@, opt_str(r)),
    {
        let text = self.response.as_str();
        match find_text(text, "\r\n\r\n") {
            None => None,
            Some(at) => {
                proof {
                    reveal_strlit("\r\n\r\n");
                }
                let n: usize = text.unicode_len();
                let body = text.substring_char(at + 4, n);
                proof {
                    assert(body@ =~= text@.skip(at + 4));
                    assert(stands_at(text@, "\r\n\r\n"@, at as int));
                }
                Some(body)
            },
        }
    }
}

// ---------------------------------------------------------------- JSON fields

/// How the string fields of a body compare with what is expected.
#[derive(Debug, Clone, PartialEq, Eq)]
pub enum JsonFieldCheck {
    Match,
    Missing { key: String },
    Mismatch { key: String, expected: String, actual: String },
}

pub enum FieldVerdict {
    Match,
    Missing { key: Seq<char> },
    Mismatch { key: Seq<char>, expected: Seq<char>, actual: Seq<char> },
}

impl View for JsonFieldCheck {
    type V = FieldVerdict;

    open spec fn view(&self) -> FieldVerdict {
        match self {
            JsonFieldCheck::Match => FieldVerdict::Match,
            JsonFieldCheck::Missing { key } => FieldVerdict::Missing { key: key@ },
            JsonFieldCheck::Mismatch { key, expected, actual } => FieldVerdict::Mismatch {
                key: key@,
                expected: expected@,
                actual: actual@,
            },
        }
    }
}

/// How one field compares, given the string that stands there.
pub open spec fn one_field(
    key: Seq<char>,
    expected: Seq<char>,
    actual: Option<Seq<char>>,
) -> FieldVerdict {
    match actual {
        None => FieldVerdict::Missing { key },
        Some(text) => if text == expected {
            FieldVerdict::Match
        } else {
            FieldVerdict::Mismatch { key, expected, actual: text }
        },
    }
}

/// The first field that does not match, in the order of the keys.
pub open spec fn all_fields(
    body: Seq<char>,
    expected: Seq<(Seq<char>, Seq<char>)>,
) -> FieldVerdict
    decreases expected.len(),
{
    if expected.len() == 0 {
        FieldVerdict::Match
    } else {
        let first = one_field(
            expected[0].0,
            expected[0].1,
            json_string_at(body, expected[0].0),
        );
        if first is Match {
            all_fields(body, expected.skip(1))
        } else {
            first
        }
    }
}

/// How one field compares, given the string that stands there.
pub fn compare_field(key: &str, expected: &str, actual: Option<String>) -> (r: JsonFieldCheck)
    ensures
        r@ == one_field(key@, expected@, opt_text(actual)),
{
    match actual {
        None => JsonFieldCheck::Missing { key: key.to_owned() },
        Some(text) => if same(text.as_str(), expected) {
            JsonFieldCheck::Match
        } else {
            JsonFieldCheck::Mismatch {
                key: key.to_owned(),
                expected: expected.to_owned(),
                actual: text,
            }
        },
    }
}

/// Compares the string fields of a JSON body with what is expected.
pub fn check_json_fields(body: &str, expected: &TextMap<String>) -> (r: Result<
    JsonFieldCheck,
    Failure,
>)
    ensures
        outcome(r) == match json_fault(body@) {
            Some(fault) => Err::<FieldVerdict, Chain>(plain(fault)),
            None => Ok(all_fields(body@, listing(expected@))),
        },
{
    if let Some(complaint) = json_complaint(body) {
        return Err(Failure::msg(complaint.as_str()));
    }
    let ghost all = listing(expected@);
    let n: usize = expected.len();
    let mut i: usize = 0;
    assert(all.skip(0) =~= all);
    while i < n
        invariant
            i <= n == all.len(),
            all == listing(expected@),
            json_fault(body@) is None,
            all_fields(body@, all.skip(i as int)) == all_fields(body@, all),
        decreases n - i,
    {
        assert(all.skip(i as int).skip(1) =~= all.skip(i + 1));
        let (key, value) = expected.entry(i);
        let verdict = compare_field(
            key.as_str(),
            value.as_str(),
            json_text_field(body, key.as_str()),
        );
        match verdict {
            JsonFieldCheck::Match => {},
            _ => return Ok(verdict),
        }
        i += 1;
    }
    Ok(JsonFieldCheck::Match)
}

// ---------------------------------------------------------------- laws

/// A probe asks the host and the port that an address names, port 80 where it
/// names none, for the path behind them.
pub proof fn probes_ask_where_they_are_told(host: Seq<char>, port: u16, path: Seq<char>)
    requires
        !host.contains('/'),
        !host.contains(':'),
    ensures
        ({
            let told = probe_of("http://"@ + host + ":"@ + decimal(port as nat) + "/"@ + path);
            let short = probe_of("http://"@ + host + "/"@ + path);
            let request = "GET /"@ + path + " HTTP/1.1\r\nHost: "@ + host
                + "\r\nConnection: close\r\n\r\n"@;
            &&& told matches Ok(probe) && probe.host == host && probe.port == port && probe.request
                == request
            &&& short matches Ok(probe) && probe.host == host && probe.port == 80 && probe.request
                == request
        }),
{
    reveal_strlit("http://");
    reveal_strlit(":");
    reveal_strlit("/");
    let head = "http://"@;
    let number = decimal(port as nat);
    decimal_has_digits(port as nat);
    decimal_has_its_value(port as nat);
    assert(number[0] != '+');
    assert(unsigned_value(number) == Some(port as int));
    let named = host + ":"@ + number;
    assert forall|i: int| 0 <= i < named.len() implies named[i] != '/' by {
        if i < host.len() {
            assert(host.contains(host[i]));
        } else if i > host.len() {
            assert(is_digit(number[i - host.len() - 1]));
        }
    }
    assert forall|i: int| 0 <= i < host.len() implies host[i] != '/' && host[i] != ':' by {
        assert(host.contains(host[i]));
    }
    let full = head + host + ":"@ + number + "/"@ + path;
    assert(full.subrange(0, 7) =~= head);
    assert(full.skip(7) =~= named + "/"@ + path);
    parts_are_split(named, '/', path);
    assert(named + "/"@ + path =~= named + seq!['/'] + path);
    parts_are_split(host, ':', number);
    assert(named =~= host + seq![':'] + number);
    let brief = head + host + "/"@ + path;
    assert(brief.subrange(0, 7) =~= head);
    assert(brief.skip(7) =~= host + "/"@ + path);
    parts_are_split(host, '/', path);
    assert(host + "/"@ + path =~= host + seq!['/'] + path);
    find_from_bounds(host, ':', 0);
    assert(split_once_at(host, ':') is None);
}

/// What stands in front of the first mark, and what stands behind it.
proof fn parts_are_split(front: Seq<char>, c: char, back: Seq<char>)
    requires
        forall|i: int| 0 <= i < front.len() ==> front[i] != c,
    ensures
        split_once_at(front + seq![c] + back, c) == Some((front, back)),
{
    let s = front + seq![c] + back;
    find_from_bounds(s, c, 0);
    let at = find_from(s, c, 0);
    assert(s[front.len() as int] == c);
    if at < front.len() {
        assert(s[at] == front[at]);
    }
    assert(at == front.len());
    assert(s.take(at) =~= front);
    assert(s.skip(at + 1) =~= back);
}

/// Addresses are asked over plain HTTP only.
pub proof fn probes_are_plain(url: Seq<char>)
    ensures
        probe_of(url) is Ok ==> "http://"@.is_prefix_of(url),
{
}

/// An answer has the status that it begins with, in either version, and no other.
pub proof fn answers_have_one_status(status: nat, rest: Seq<char>, other: nat)
    ensures
        has_status("HTTP/1.1 "@ + decimal(status) + " "@ + rest, status as int),
        has_status("HTTP/1.0 "@ + decimal(status) + " "@ + rest, status as int),
        has_status("HTTP/1.1 "@ + decimal(status) + " "@ + rest, other as int) ==> other == status,
        has_status("HTTP/1.0 "@ + decimal(status) + " "@ + rest, other as int) ==> other == status,
{
    reveal_strlit("HTTP/1.1 ");
    reveal_strlit("HTTP/1.0 ");
    reveal_strlit(" ");
    status_is_settled("HTTP/1.1 "@, status, rest, other);
    status_is_settled("HTTP/1.0 "@, status, rest, other);
    let a = "HTTP/1.1 "@ + decimal(status) + " "@ + rest;
    let b = "HTTP/1.0 "@ + decimal(status) + " "@ + rest;
    assert(a[7] == '1' && b[7] == '0');
    let x = "HTTP/1.0 "@ + decimal(other) + " "@;
    let y = "HTTP/1.1 "@ + decimal(other) + " "@;
    assert(x[7] == '0' && y[7] == '1');
    if x.is_prefix_of(a) {
        assert(a.subrange(0, x.len() as int)[7] == x[7]);
    }
    if y.is_prefix_of(b) {
        assert(b.subrange(0, y.len() as int)[7] == y[7]);
    }
}

proof fn status_is_settled(head: Seq<char>, status: nat, rest: Seq<char>, other: nat)
    ensures
        (head + decimal(status) + " "@).is_prefix_of(head + decimal(status) + " "@ + rest),
        (head + decimal(other) + " "@).is_prefix_of(head + decimal(status) + " "@ + rest) ==> other
            == status,
{
    reveal_strlit(" ");
    let h = head.len() as int;
    let own = head + decimal(status) + " "@;
    let text = own + rest;
    assert(text.subrange(0, own.len() as int) =~= own);
    let tried = head + decimal(other) + " "@;
    if tried.is_prefix_of(text) {
        decimal_has_digits(status);
        decimal_has_digits(other);
        let (m, n) = (decimal(status).len() as int, decimal(other).len() as int);
        assert forall|i: int| 0 <= i < tried.len() implies tried[i] == text[i] by {
            assert(text.subrange(0, tried.len() as int)[i] == text[i]);
        }
        if n < m {
            assert(tried[h + n] == ' ');
            assert(text[h + n] == decimal(status)[n]);
            assert(is_digit(decimal(status)[n]));
        } else if m < n {
            assert(text[h + m] == ' ');
            assert(tried[h + m] == decimal(other)[m]);
            assert(is_digit(decimal(other)[m]));
        } else {
            assert forall|i: int| 0 <= i < n implies decimal(other)[i] == decimal(status)[i] by {
                assert(tried[h + i] == text[h + i]);
            }
            assert(decimal(other) =~= decimal(status));
            decimal_has_its_value(status);
            decimal_has_its_value(other);
        }
    }
}

/// Fields match exactly where every one of them holds the string that is expected
/// of it.
pub proof fn fields_match_one_by_one(body: Seq<char>, expected: Seq<(Seq<char>, Seq<char>)>)
    ensures
        all_fields(body, expected) is Match <==> forall|i: int|
            0 <= i < expected.len() ==> json_string_at(body, (#[trigger] expected[i]).0) == Some(
                expected[i].1,
            ),
    decreases expected.len(),
{
    if expected.len() > 0 {
        let rest = expected.skip(1);
        fields_match_one_by_one(body, rest);
        if all_fields(body, rest) is Match {
            assert forall|i: int| 0 < i < expected.len() implies json_string_at(
                body,
                (#[trigger] expected[i]).0,
            ) == Some(expected[i].1) by {
                assert(rest[i - 1] == expected[i]);
            }
        }
        assert forall|i: int| 0 <= i < rest.len() implies #[trigger] rest[i] == expected[i + 1] by {
        }
    }
}

/// The first line of an answer is what stands before its first line end; an answer
/// without a character has none.
pub proof fn answers_begin_with_their_first_line(line: Seq<char>, rest: Seq<char>)
    requires
        !line.contains('\n'),
    ensures
        first_line(line + seq!['\r', '\n'] + rest) == Some(line),
        line.len() > 0 ==> first_line(line) == Some(line),
        first_line(Seq::empty()) is None,
{
    crate::text_parts::line_feeds_end_lines(line, rest);
}

/// The body of an answer is all that stands behind the first empty line, and only
/// an answer without an empty line has none.
pub proof fn bodies_stand_behind_the_first_empty_line(
    head: Seq<char>,
    body: Seq<char>,
    answer: Seq<char>,
)
    requires
        forall|j: int|
            0 <= j < head.len() ==> !stands_at(head + "\r\n\r\n"@ + body, "\r\n\r\n"@, j),
    ensures
        is_body(head + "\r\n\r\n"@ + body, Some(body)),
        !is_body(head + "\r\n\r\n"@ + body, None),
        is_body(answer, None) <==> !has_text(answer, "\r\n\r\n"@),
        forall|other: Seq<char>|
            is_body(head + "\r\n\r\n"@ + body, Some(other)) ==> other == body,
{
    reveal_strlit("\r\n\r\n");
    let gap = "\r\n\r\n"@;
    let all = head + gap + body;
    crate::text::texts_stand_where_they_were_put(head, gap, body, all, 0);
    assert(all.skip(head.len() as int + 4) =~= body);
    assert forall|other: Seq<char>| is_body(all, Some(other)) implies other == body by {
        let at = choose|at: int|
            {
                &&& #[trigger] stands_at(all, gap, at)
                &&& forall|j: int| 0 <= j < at ==> !stands_at(all, gap, j)
                &&& other == all.skip(at + 4)
            };
        assert(stands_at(all, gap, at));
        assert(stands_at(all, gap, head.len() as int));
        assert(at == head.len());
    }
}

} // verus!
