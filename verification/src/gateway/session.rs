//! Sessions: their ids, their records, and which of them are under way.

use crate::failure::{outcome, plain, refusal, under, unless, Chain, Failure};
use crate::gateway::model::{LocalListenerStatus, SessionMarker, SessionStatus};
use crate::gateway::listener::LocalSshAddress;
use crate::gateway::state::Runtime;
use crate::random::{is_lower_hex, random_hex_token};
use crate::text::{
    byte_len, cat2, cat3, chars_of, copy_option, decimal, decimal_text, has_text, opt_str, opt_text, quote,
    quoted, same, stands_at, text_from_bytes, texts, trim, trimmed, utf8_fault,
};
use crate::text_map::{precedes, precedes_total, precedes_transitive, text_precedes};
use crate::text_parts::{find_last, last_stand, words, words_of};
use crate::unix_path::{
    can_name, entries_have_their_names, entry_name, file_name, is_absolute_path, is_within, join,
    joined_path, paths_are_seen_from_their_directory,
};
use vstd::prelude::*;
use vstd::utf8::{decode_utf8, encode_utf8, valid_utf8};

verus! {

// ---------------------------------------------------------------- ids

pub open spec fn is_id_char(c: char) -> bool {
    ||| 'a' <= c && c <= 'z'
    ||| 'A' <= c && c <= 'Z'
    ||| '0' <= c && c <= '9'
    ||| c == '-' || c == '_' || c == '.'
}

/// A session id is a short text of letters, digits and a few marks. The name of
/// the parent directory is none: ids become parts of paths.
pub open spec fn is_session_id(value: Seq<char>) -> bool {
    &&& value.len() > 0
    &&& encode_utf8(value).len() <= 64
    &&& forall|i: int| 0 <= i < value.len() ==> is_id_char(#[trigger] value[i])
    &&& value != ".."@
}

fn id_char(c: char) -> (r: bool)
    ensures
        r == is_id_char(c),
{
    ('a' <= c && c <= 'z') || ('A' <= c && c <= 'Z') || ('0' <= c && c <= '9') || c == '-' || c
        == '_' || c == '.'
}

fn all_id_chars(value: &str) -> (r: bool)
    ensures
        r == forall|i: int| 0 <= i < value@.len() ==> is_id_char(#[trigger] value@[i]),
{
    let v = chars_of(value);
    let mut i: usize = 0;
    while i < v.len()
        invariant
            i <= v.len(),
            v@ == value@,
            forall|j: int| 0 <= j < i ==> is_id_char(#[trigger] value@[j]),
        decreases v.len() - i,
    {
        if !id_char(v[i]) {
            assert(!is_id_char(value@[i as int]));
            return false;
        }
        i += 1;
    }
    true
}

pub fn validate_session_id(value: &str) -> (r: Result<(), Failure>)
    ensures
        refusal(r) == unless(is_session_id(value@), "invalid session id "@ + quoted(value@)),
{
    if value.unicode_len() == 0 || byte_len(value) > 64 || !all_id_chars(value) || same(
        value,
        "..",
    ) {
        return Err(Failure::msg(cat2("invalid session id ", quote(value).as_str()).as_str()));
    }
    Ok(())
}

/// A session id made from random digits.
pub fn session_id_from_token(token: &str) -> (r: String)
    requires
        token@.len() >= 12,
    ensures
        r@ == token@.take(12),
{
    let r = token.substring_char(0, 12).to_owned();
    assert(r@ =~= token@.take(12));
    r
}

/// A random session id.
pub fn generate_session_id_value() -> (r: Result<String, Failure>)
    ensures
        r matches Ok(id) ==> id@.len() == 12 && is_lower_hex(id@),
        r matches Err(failure) ==> exists|complaint: Seq<char>|
            failure@ == #[trigger] under("get random bytes"@, plain(complaint)),
{
    match random_hex_token() {
        Ok(token) => Ok(session_id_from_token(token.as_str())),
        Err(failure) => Err(failure),
    }
}

pub(crate) proof fn lower_hex_is_short(id: Seq<char>)
    requires
        is_lower_hex(id),
    ensures
        encode_utf8(id).len() == id.len(),
    decreases id.len(),
{
    reveal_with_fuel(encode_utf8, 2);
    if id.len() > 0 {
        assert(('0' <= id[0] && id[0] <= '9') || ('a' <= id[0] && id[0] <= 'f'));
        let rest = id.skip(1);
        assert forall|i: int| 0 <= i < rest.len() implies ('0' <= #[trigger] rest[i] && rest[i]
            <= '9') || ('a' <= rest[i] && rest[i] <= 'f') by {
            assert(rest[i] == id[i + 1]);
        }
        lower_hex_is_short(rest);
    }
}

/// Generated session ids are valid.
pub proof fn generated_ids_are_valid(id: Seq<char>)
    requires
        id.len() == 12,
        is_lower_hex(id),
    ensures
        is_session_id(id),
{
    lower_hex_is_short(id);
    reveal_strlit("..");
    assert forall|i: int| 0 <= i < id.len() implies is_id_char(#[trigger] id[i]) by {
        assert(('0' <= id[i] && id[i] <= '9') || ('a' <= id[i] && id[i] <= 'f'));
    }
}

// ---------------------------------------------------------------- processes

/// The start time in the status line of a process: the twentieth word behind
/// its name, which stands in brackets and may hold anything.
pub open spec fn start_time_of(stat: Seq<char>) -> Result<Seq<char>, Chain> {
    let at = last_stand(stat, ") "@, stat.len() as int);
    if at < 0 {
        Err(plain("malformed proc stat"@))
    } else if words(stat.skip(at + 2)).len() <= 19 {
        Err(plain("proc stat missing starttime"@))
    } else {
        Ok(words(stat.skip(at + 2))[19])
    }
}

pub fn parse_process_start_time(stat: &str) -> (r: Result<String, Failure>)
    ensures
        outcome(r) == start_time_of(stat@),
{
    let at: usize = match find_last(stat, ") ") {
        Some(at) => at,
        None => return Err(Failure::msg("malformed proc stat")),
    };
    proof {
        reveal_strlit(") ");
    }
    let n: usize = stat.unicode_len();
    let rest = stat.substring_char(at + 2, n);
    assert(rest@ =~= stat@.skip(at + 2));
    let all = words_of(rest);
    assert(texts(all@).len() == all@.len());
    if all.len() <= 19 {
        return Err(Failure::msg("proc stat missing starttime"));
    }
    Ok(all[19].clone())
}

/// When a process started, as `ps` tells it.
pub open spec fn told_start_time(pid: u32, success: bool, stdout: Seq<u8>) -> Result<
    Seq<char>,
    Chain,
> {
    let process = "process "@ + decimal(pid as nat);
    if !success {
        Err(plain(process + " is not active"@))
    } else if !valid_utf8(stdout) {
        Err(under("process start time output is not valid UTF-8"@, plain(utf8_fault(stdout))))
    } else if trimmed(decode_utf8(stdout)).len() == 0 {
        Err(plain(process + " has no start time"@))
    } else {
        Ok(trimmed(decode_utf8(stdout)))
    }
}

/// Reads what `ps` says of a process: whether it succeeded, and what it printed.
pub fn ps_start_time(pid: u32, success: bool, stdout: Vec<u8>) -> (r: Result<String, Failure>)
    ensures
        outcome(r) == told_start_time(pid, success, stdout@),
{
    let number = decimal_text(pid as u64);
    if !success {
        return Err(Failure::msg(cat3("process ", number.as_str(), " is not active").as_str()));
    }
    let text = match text_from_bytes(stdout) {
        Ok(text) => text,
        Err(complaint) => return Err(
            Failure::msg(complaint.as_str()).context(
                "process start time output is not valid UTF-8",
            ),
        ),
    };
    let start_time = trim(text.as_str());
    if start_time.unicode_len() == 0 {
        return Err(Failure::msg(cat3("process ", number.as_str(), " has no start time").as_str()));
    }
    Ok(start_time.to_owned())
}

/// Whether a process with the number of a record started at the recorded time.
pub open spec fn started_then(recorded_start: Seq<char>, start_time: Option<Seq<char>>) -> bool {
    recorded_start.len() > 0 && start_time == Some(recorded_start)
}

/// Whether the process that left a session record still runs: it started at the
/// recorded time, or it is this one and recorded no time.
pub open spec fn session_is_alive(
    pid: u32,
    recorded_start: Seq<char>,
    own_pid: u32,
    start_time: Option<Seq<char>>,
) -> bool {
    ||| pid == own_pid && recorded_start.len() == 0
    ||| started_then(recorded_start, start_time)
}

/// Whether the process that left a listener record still runs: it is this one,
/// or it started at the recorded time.
pub open spec fn listener_is_alive(
    pid: u32,
    recorded_start: Seq<char>,
    own_pid: u32,
    start_time: Option<Seq<char>>,
) -> bool {
    ||| pid == own_pid
    ||| started_then(recorded_start, start_time)
}

fn has_started_then(recorded_start: &str, start_time: Option<&str>) -> (r: bool)
    ensures
        r == started_then(recorded_start@, opt_str(start_time)),
{
    match start_time {
        Some(time) => recorded_start.unicode_len() > 0 && same(time, recorded_start),
        None => false,
    }
}

/// Whether a session is under way. `start_time` is when the process with the
/// recorded number started, where there is one.
pub fn session_marker_is_active(marker: &SessionMarker, own_pid: u32, start_time: Option<&str>) -> (r:
    bool)
    ensures
        r == session_is_alive(
            marker.gateway_pid,
            marker.gateway_start_time@,
            own_pid,
            opt_str(start_time),
        ),
{
    if marker.gateway_start_time.as_str().unicode_len() == 0 {
        return marker.gateway_pid == own_pid;
    }
    has_started_then(marker.gateway_start_time.as_str(), start_time)
}

/// Whether a local listener is under way.
pub fn local_listener_is_active(
    status: &LocalListenerStatus,
    own_pid: u32,
    start_time: Option<&str>,
) -> (r: bool)
    ensures
        r == listener_is_alive(
            status.gateway_pid,
            status.gateway_start_time@,
            own_pid,
            opt_str(start_time),
        ),
{
    status.gateway_pid == own_pid || has_started_then(
        status.gateway_start_time.as_str(),
        start_time,
    )
}

/// A record of another process counts only while a process with its number and
/// its start time runs: numbers that are used again do not bring it back.
pub proof fn reused_numbers_are_not_alive(
    pid: u32,
    recorded_start: Seq<char>,
    own_pid: u32,
    start_time: Option<Seq<char>>,
)
    requires
        pid != own_pid,
        start_time != Some(recorded_start),
    ensures
        !session_is_alive(pid, recorded_start, own_pid, start_time),
        !listener_is_alive(pid, recorded_start, own_pid, start_time),
{
}

/// A session record that names a start time counts only while its process runs,
/// even where the number is this process's own.
pub proof fn recorded_start_times_count(
    pid: u32,
    recorded_start: Seq<char>,
    own_pid: u32,
    start_time: Option<Seq<char>>,
)
    requires
        recorded_start.len() > 0,
    ensures
        session_is_alive(pid, recorded_start, own_pid, start_time) <==> start_time == Some(
            recorded_start,
        ),
{
}

// ---------------------------------------------------------------- records

impl Runtime {
    pub open spec fn records_dir(self) -> Seq<char> {
        joined_path(self.paths.container_state_dir@, "sessions"@)
    }

    pub open spec fn record_path(self, id: Seq<char>) -> Seq<char> {
        joined_path(self.records_dir(), id + ".json"@)
    }

    pub open spec fn lock_path(self, user_state_dir: Seq<char>) -> Seq<char> {
        joined_path(
            joined_path(user_state_dir, "locks"@),
            self.identity.container_name@ + ".lock"@,
        )
    }

    /// The launch that a record names.
    pub open spec fn recorded_launch(self, of_launch: bool) -> Option<Seq<char>> {
        if of_launch {
            opt_text(self.identity.launch_name)
        } else {
            None
        }
    }

    /// Where the records of sessions are kept.
    pub fn session_marker_dir(&self) -> (r: String)
        ensures
            r@ == self.records_dir(),
    {
        join(self.paths.container_state_dir.as_str(), "sessions")
    }

    pub fn local_listener_status_path(&self) -> (r: String)
        ensures
            r@ == joined_path(self.paths.container_state_dir@, "local-ssh-listener.json"@),
    {
        join(self.paths.container_state_dir.as_str(), "local-ssh-listener.json")
    }

    /// The lock that orders what is done to the container.
    pub fn lifecycle_lock_path(&self, user_state_dir: &str) -> (r: String)
        ensures
            r@ == self.lock_path(user_state_dir@),
    {
        join(
            join(user_state_dir, "locks").as_str(),
            cat2(self.identity.container_name.as_str(), ".lock").as_str(),
        )
    }

    /// The record of a new session, and where it is kept. A launch is recorded
    /// only for sessions of launches.
    pub fn session_marker(
        &self,
        id: String,
        kind: &str,
        of_launch: bool,
        gateway_pid: u32,
        gateway_start_time: Option<String>,
        created_at_ms: u128,
    ) -> (r: (String, SessionMarker))
        ensures
            r.0@ == self.record_path(id@),
            r.1.id@ == id@,
            r.1.kind@ == kind@,
            r.1.gateway_pid == gateway_pid,
            r.1.gateway_start_time@ == (match gateway_start_time {
                Some(time) => time@,
                None => ""@,
            }),
            r.1.container@ == self.identity.container_name@,
            r.1.target@ == self.identity.target_name@,
            opt_text(r.1.launch) == self.recorded_launch(of_launch),
            r.1.context@ == self.context@,
            r.1.created_at_ms == created_at_ms,
    {
        let dir = self.session_marker_dir();
        let path = join(dir.as_str(), cat2(id.as_str(), ".json").as_str());
        let start = match gateway_start_time {
            Some(time) => time,
            None => "".to_owned(),
        };
        let launch = if of_launch {
            copy_option(&self.identity.launch_name)
        } else {
            None
        };
        let marker = SessionMarker {
            id,
            kind: kind.to_owned(),
            gateway_pid,
            gateway_start_time: start,
            container: self.identity.container_name.clone(),
            target: self.identity.target_name.clone(),
            launch,
            context: self.context.duplicate(),
            created_at_ms,
        };
        (path, marker)
    }
}

/// Whether a file is called like a record of a session.
pub open spec fn is_record_path(path: Seq<char>) -> bool {
    match entry_name(path) {
        Some(name) => ".json"@.is_suffix_of(name) && name.len() > 5,
        None => false,
    }
}

fn record_path(path: &str) -> (r: bool)
    ensures
        r == is_record_path(path@),
{
    match file_name(path) {
        Some(name) => crate::text::strip_suffix(name.as_str(), ".json").is_some()
            && name.as_str().unicode_len() > 5,
        None => false,
    }
}

/// A file in the directory of session records: the record that it holds, where
/// it can be read, and when the process with its number started.
#[derive(Debug)]
pub struct RecordFile {
    pub path: String,
    pub marker: Option<SessionMarker>,
    pub start_time: Option<String>,
}

/// What is done with a file in the directory of session records.
pub enum RecordFate {
    /// It is left alone: it is no record, or it cannot be read.
    Ignored,
    /// It records a session that is under way.
    Active(SessionStatus),
    /// It records a session that ended, and is removed.
    Stale(Seq<char>),
}

pub open spec fn fate_of(file: RecordFile, own_pid: u32) -> RecordFate {
    if !is_record_path(file.path@) {
        RecordFate::Ignored
    } else {
        match file.marker {
            None => RecordFate::Ignored,
            Some(marker) => if session_is_alive(
                marker.gateway_pid,
                marker.gateway_start_time@,
                own_pid,
                opt_text(file.start_time),
            ) {
                RecordFate::Active(SessionStatus::of_marker(marker))
            } else {
                RecordFate::Stale(file.path@)
            },
        }
    }
}

/// A session put into its place in a list that is ordered by ids, behind those
/// with the same id.
pub open spec fn placed(sorted: Seq<SessionStatus>, session: SessionStatus) -> Seq<SessionStatus>
    decreases sorted.len(),
{
    if sorted.len() == 0 || !precedes(session.id@, sorted.last().id@) {
        sorted.push(session)
    } else {
        placed(sorted.drop_last(), session).push(sorted.last())
    }
}

/// The sessions under way that files record, by their ids.
pub open spec fn sessions_of(files: Seq<RecordFile>, own_pid: u32) -> Seq<SessionStatus>
    decreases files.len(),
{
    if files.len() == 0 {
        Seq::empty()
    } else {
        let before = sessions_of(files.drop_last(), own_pid);
        match fate_of(files.last(), own_pid) {
            RecordFate::Active(session) => placed(before, session),
            _ => before,
        }
    }
}

/// The files that are removed.
pub open spec fn stale_paths(files: Seq<RecordFile>, own_pid: u32) -> Seq<Seq<char>>
    decreases files.len(),
{
    if files.len() == 0 {
        Seq::empty()
    } else {
        let before = stale_paths(files.drop_last(), own_pid);
        match fate_of(files.last(), own_pid) {
            RecordFate::Stale(path) => before.push(path),
            _ => before,
        }
    }
}

fn place(sorted: &mut Vec<SessionStatus>, session: SessionStatus)
    ensures
        final(sorted)@ == placed(old(sorted)@, session),
{
    let ghost before = sorted@;
    let mut at: usize = sorted.len();
    assert(before.take(at as int) =~= before);
    assert(before.skip(at as int) =~= Seq::<SessionStatus>::empty());
    assert(placed(before.take(at as int), session) + before.skip(at as int) =~= placed(
        before,
        session,
    ));
    while at > 0 && text_precedes(session.id.as_str(), sorted[at - 1].id.as_str())
        invariant
            at <= sorted@.len(),
            sorted@ == before,
            placed(before.take(at as int), session) + before.skip(at as int) == placed(
                before,
                session,
            ),
        decreases at,
    {
        proof {
            let t = before.take(at as int);
            assert(t.last() == before[at - 1]);
            assert(t.drop_last() =~= before.take(at - 1));
            assert(placed(t.drop_last(), session).push(t.last()) + before.skip(at as int) =~= placed(
                before.take(at - 1),
                session,
            ) + before.skip(at - 1));
        }
        at -= 1;
    }
    proof {
        let t = before.take(at as int);
        if at > 0 {
            assert(t.last() == before[at - 1]);
        }
        assert(placed(t, session) == t.push(session));
        assert(before.insert(at as int, session) =~= t.push(session) + before.skip(at as int));
    }
    sorted.insert(at, session);
}

/// What the directory of session records says.
#[derive(Debug)]
pub struct SessionSurvey {
    pub sessions: Vec<SessionStatus>,
    pub stale: Vec<String>,
}

/// The sessions that are under way, ordered by their ids, and the records of
/// those that ended.
pub fn active_session_markers(files: Vec<RecordFile>, own_pid: u32) -> (r: SessionSurvey)
    ensures
        r.sessions@ == sessions_of(files@, own_pid),
        texts(r.stale@) == stale_paths(files@, own_pid),
{
    let ghost all = files@;
    let mut rest = files;
    let mut sessions: Vec<SessionStatus> = Vec::new();
    let mut stale: Vec<String> = Vec::new();
    let ghost mut done: int = 0;
    assert(all.take(0) =~= Seq::<RecordFile>::empty());
    assert(texts(stale@) =~= Seq::<Seq<char>>::empty());
    assert(all.skip(0) =~= all);
    while rest.len() > 0
        invariant
            0 <= done <= all.len(),
            rest@ == all.skip(done),
            sessions@ == sessions_of(all.take(done), own_pid),
            texts(stale@) == stale_paths(all.take(done), own_pid),
        decreases rest@.len(),
    {
        let ghost before = rest@;
        let file = rest.remove(0);
        proof {
            assert(before[0] == all[done]);
            assert(rest@ =~= all.skip(done + 1));
            assert(all.take(done + 1).drop_last() =~= all.take(done));
            assert(all.take(done + 1).last() == file);
        }
        if record_path(file.path.as_str()) {
            if let Some(marker) = file.marker {
                let start_time = match &file.start_time {
                    Some(time) => Some(time.as_str()),
                    None => None,
                };
                if session_marker_is_active(&marker, own_pid, start_time) {
                    place(&mut sessions, SessionStatus::from_marker(marker));
                } else {
                    let ghost kept = texts(stale@);
                    stale.push(file.path);
                    assert(texts(stale@) =~= kept.push(file.path@));
                }
            }
        }
        proof {
            done = done + 1;
        }
    }
    assert(all.take(done) =~= all);
    SessionSurvey { sessions, stale }
}

/// Whether sessions are ordered by their ids.
pub open spec fn ordered(sessions: Seq<SessionStatus>) -> bool {
    forall|i: int, j: int|
        0 <= i < j < sessions.len() ==> !precedes(
            (#[trigger] sessions[j]).id@,
            (#[trigger] sessions[i]).id@,
        )
}

proof fn placed_is_ordered(sorted: Seq<SessionStatus>, session: SessionStatus)
    requires
        ordered(sorted),
    ensures
        ordered(placed(sorted, session)),
        placed(sorted, session).to_multiset() == sorted.to_multiset().insert(session),
        placed(sorted, session).len() == sorted.len() + 1,
    decreases sorted.len(),
{
    broadcast use vstd::seq_lib::group_to_multiset_ensures;

    let r = placed(sorted, session);
    if sorted.len() == 0 || !precedes(session.id@, sorted.last().id@) {
        assert forall|i: int, j: int| 0 <= i < j < r.len() implies !precedes(
            (#[trigger] r[j]).id@,
            (#[trigger] r[i]).id@,
        ) by {
            if j == r.len() - 1 {
                let last = sorted.last();
                if precedes(session.id@, sorted[i].id@) {
                    if i < sorted.len() - 1 {
                        precedes_total(sorted[i].id@, last.id@);
                        if sorted[i].id@ != last.id@ {
                            assert(!precedes(last.id@, sorted[i].id@));
                            precedes_transitive(session.id@, sorted[i].id@, last.id@);
                        }
                    }
                }
            }
        }
    } else {
        let front = sorted.drop_last();
        let last = sorted.last();
        placed_is_ordered(front, session);
        let p = placed(front, session);
        assert(sorted =~= front.push(last));
        assert forall|i: int, j: int| 0 <= i < j < r.len() implies !precedes(
            (#[trigger] r[j]).id@,
            (#[trigger] r[i]).id@,
        ) by {
            if j == r.len() - 1 {
                assert(p.to_multiset().contains(p[i]));
                if p[i] == session {
                    precedes_total(session.id@, last.id@);
                } else {
                    assert(front.to_multiset().insert(session).count(p[i])
                        == front.to_multiset().count(p[i]));
                    assert(front.contains(p[i]));
                    let k = choose|k: int| 0 <= k < front.len() && front[k] == p[i];
                    assert(sorted[k] == p[i]);
                    assert(!precedes(sorted[sorted.len() - 1].id@, sorted[k].id@));
                }
            }
        }
        assert(sorted.to_multiset() == front.to_multiset().insert(last));
        assert(r.to_multiset() =~= sorted.to_multiset().insert(session));
    }
}

/// Sessions are reported in the order of their ids.
pub proof fn sessions_are_ordered(files: Seq<RecordFile>, own_pid: u32)
    ensures
        ordered(sessions_of(files, own_pid)),
    decreases files.len(),
{
    if files.len() > 0 {
        sessions_are_ordered(files.drop_last(), own_pid);
        if let RecordFate::Active(session) = fate_of(files.last(), own_pid) {
            placed_is_ordered(sessions_of(files.drop_last(), own_pid), session);
        }
    }
}

// ---------------------------------------------------------------- the local listener

/// What the record of a local listener says.
#[derive(Debug)]
pub enum ListenerRecord {
    Missing,
    Unreadable(String),
    Malformed(String),
    Found(LocalListenerStatus, bool),
}

/// What is done with the record of a local listener.
#[derive(Debug)]
pub enum ListenerFinding {
    Active(LocalListenerStatus),
    NoListener,
    /// There is none any more, and its record is removed.
    Stale,
}

/// The listener that is under way.
pub fn active_local_listener_status(path: &str, record: ListenerRecord) -> (r: Result<
    ListenerFinding,
    Failure,
>)
    ensures
        match record {
            ListenerRecord::Missing => r == Ok::<ListenerFinding, Failure>(
                ListenerFinding::NoListener,
            ),
            ListenerRecord::Unreadable(said) => r matches Err(failure) && failure@ == under(
                "read "@ + path@,
                plain(said@),
            ),
            ListenerRecord::Malformed(said) => r matches Err(failure) && failure@ == under(
                "parse "@ + path@,
                plain(said@),
            ),
            ListenerRecord::Found(status, active) => r == Ok::<ListenerFinding, Failure>(
                if active {
                    ListenerFinding::Active(status)
                } else {
                    ListenerFinding::Stale
                },
            ),
        },
{
    match record {
        ListenerRecord::Missing => Ok(ListenerFinding::NoListener),
        ListenerRecord::Unreadable(said) => Err(
            Failure::msg(said.as_str()).context(cat2("read ", path).as_str()),
        ),
        ListenerRecord::Malformed(said) => Err(
            Failure::msg(said.as_str()).context(cat2("parse ", path).as_str()),
        ),
        ListenerRecord::Found(status, active) => if active {
            Ok(ListenerFinding::Active(status))
        } else {
            Ok(ListenerFinding::Stale)
        },
    }
}

/// The port that local clients use, or that the record of the listener is stale
/// and is removed.
#[derive(Debug)]
pub enum LocalPort {
    Known(u16),
    /// The record is removed, and the failure is reported.
    Stale(Failure),
}

/// The port that local clients are known to use.
pub open spec fn port_in_use(configured: LocalSshAddress, record: ListenerRecord) -> Option<u16> {
    match (configured.port, record) {
        (Some(port), _) => Some(port),
        (None, ListenerRecord::Found(status, active)) => if active && status.host@
            == configured.host@ {
            Some(status.port)
        } else {
            None
        },
        _ => None,
    }
}

/// The port of local clients: what is configured, or that of the listener under
/// way. `missing` is what the system says of a record that is not there.
pub fn local_ssh_port(
    configured: &LocalSshAddress,
    path: &str,
    missing: &str,
    record: ListenerRecord,
) -> (r: Result<LocalPort, Failure>)
    ensures
        port_in_use(*configured, record) == match r {
            Ok(LocalPort::Known(port)) => Some(port),
            _ => None,
        },
        ({
            let nowhere =
                "local_ssh.port is not configured and no active listener status exists at "@ + path@;
            match configured.port {
                Some(port) => r == Ok::<LocalPort, Failure>(LocalPort::Known(port)),
                None => match record {
                    ListenerRecord::Missing => r matches Err(failure) && failure@ == under(
                        nowhere,
                        plain(missing@),
                    ),
                    ListenerRecord::Unreadable(said) => r matches Err(failure) && failure@ == under(
                        nowhere,
                        plain(said@),
                    ),
                    ListenerRecord::Malformed(said) => r matches Err(failure) && failure@ == under(
                        "parse "@ + path@,
                        plain(said@),
                    ),
                    ListenerRecord::Found(status, active) => if active && status.host@
                        == configured.host@ {
                        r == Ok::<LocalPort, Failure>(LocalPort::Known(status.port))
                    } else {
                        r matches Ok(LocalPort::Stale(failure)) && failure@ == plain(
                            "local_ssh.port is not configured and listener status is stale; start the local listener first"@,
                        )
                    },
                },
            }
        }),
{
    if let Some(port) = configured.port {
        return Ok(LocalPort::Known(port));
    }
    let nowhere = cat2(
        "local_ssh.port is not configured and no active listener status exists at ",
        path,
    );
    match record {
        ListenerRecord::Missing => Err(Failure::msg(missing).context(nowhere.as_str())),
        ListenerRecord::Unreadable(said) => Err(
            Failure::msg(said.as_str()).context(nowhere.as_str()),
        ),
        ListenerRecord::Malformed(said) => Err(
            Failure::msg(said.as_str()).context(cat2("parse ", path).as_str()),
        ),
        ListenerRecord::Found(status, active) => {
            if active && same(status.host.as_str(), configured.host.as_str()) {
                Ok(LocalPort::Known(status.port))
            } else {
                Ok(
                    LocalPort::Stale(
                        Failure::msg(
                            "local_ssh.port is not configured and listener status is stale; start the local listener first",
                        ),
                    ),
                )
            }
        },
    }
}

// ---------------------------------------------------------------- laws

/// A session id can be a part of a path: it is neither empty nor long, means no
/// directory above it, and consists of letters and digits without accents and of
/// three marks. Every such text is a session id.
pub proof fn session_ids_are_parts_of_paths(value: Seq<char>)
    ensures
        is_session_id(value) <==> {
            &&& 0 < value.len()
            &&& encode_utf8(value).len() <= 64
            &&& value != ".."@
            &&& forall|i: int|
                0 <= i < value.len() ==> ({
                    let c = #[trigger] value[i];
                    ('a' <= c <= 'z') || ('A' <= c <= 'Z') || ('0' <= c <= '9') || c == '-' || c
                        == '_' || c == '.'
                })
        },
        is_session_id(value) ==> !value.contains('/'),
{
    if is_session_id(value) && value.contains('/') {
        let i = choose|i: int| 0 <= i < value.len() && value[i] == '/';
        assert(is_id_char(value[i]));
    }
}

/// This process's own records count where no start time was recorded; a record
/// counts where a process with its number started when it says.
pub proof fn running_processes_are_alive(
    pid: u32,
    recorded_start: Seq<char>,
    own_pid: u32,
    start_time: Option<Seq<char>>,
)
    ensures
        recorded_start.len() > 0 && start_time == Some(recorded_start) ==> session_is_alive(
            pid,
            recorded_start,
            own_pid,
            start_time,
        ) && listener_is_alive(pid, recorded_start, own_pid, start_time),
        recorded_start.len() == 0 ==> (session_is_alive(pid, recorded_start, own_pid, start_time)
            <==> pid == own_pid),
        pid == own_pid ==> listener_is_alive(pid, recorded_start, own_pid, start_time),
        pid != own_pid && recorded_start.len() == 0 ==> !listener_is_alive(
            pid,
            recorded_start,
            own_pid,
            start_time,
        ),
{
}

/// `ps` tells when a process started exactly where it succeeded and printed a
/// text that is not blank; the time is that text without the white space around
/// it.
pub proof fn told_start_times_are_printed(pid: u32, success: bool, stdout: Seq<u8>)
    ensures
        told_start_time(pid, success, stdout) is Ok <==> success && valid_utf8(stdout) && trimmed(
            decode_utf8(stdout),
        ).len() > 0,
        told_start_time(pid, success, stdout) matches Ok(time) ==> time == trimmed(
            decode_utf8(stdout),
        ),
{
}

/// Whether a file records a session whose process runs.
pub open spec fn records_running(file: RecordFile, own_pid: u32) -> bool {
    &&& is_record_path(file.path@)
    &&& file.marker matches Some(marker) && session_is_alive(
        marker.gateway_pid,
        marker.gateway_start_time@,
        own_pid,
        opt_text(file.start_time),
    )
}

/// Whether a file records a session whose process does not run.
pub open spec fn records_ended(file: RecordFile, own_pid: u32) -> bool {
    &&& is_record_path(file.path@)
    &&& file.marker matches Some(marker) && !session_is_alive(
        marker.gateway_pid,
        marker.gateway_start_time@,
        own_pid,
        opt_text(file.start_time),
    )
}

/// Every session that runs is reported as it was recorded, and no other is. Every
/// record of a session that ended is removed, and no other file is.
pub proof fn records_are_sorted_out(files: Seq<RecordFile>, own_pid: u32)
    ensures
        forall|i: int|
            #![trigger files[i]]
            0 <= i < files.len() && records_running(files[i], own_pid) ==> sessions_of(
                files,
                own_pid,
            ).contains(SessionStatus::of_marker(files[i].marker->0)),
        forall|session: SessionStatus| #[trigger]
            sessions_of(files, own_pid).contains(session) ==> exists|i: int|
                #![trigger files[i]]
                0 <= i < files.len() && records_running(files[i], own_pid) && session
                    == SessionStatus::of_marker(files[i].marker->0),
        forall|i: int|
            #![trigger files[i]]
            0 <= i < files.len() && records_ended(files[i], own_pid) ==> stale_paths(
                files,
                own_pid,
            ).contains(files[i].path@),
        forall|path: Seq<char>| #[trigger]
            stale_paths(files, own_pid).contains(path) ==> exists|i: int|
                #![trigger files[i]]
                0 <= i < files.len() && records_ended(files[i], own_pid) && path
                    == files[i].path@,
    decreases files.len(),
{
    if files.len() > 0 {
        let front = files.drop_last();
        let last = files.last();
        records_are_sorted_out(front, own_pid);
        let before = sessions_of(front, own_pid);
        let now = sessions_of(files, own_pid);
        let stale_before = stale_paths(front, own_pid);
        let stale = stale_paths(files, own_pid);
        if let RecordFate::Active(session) = fate_of(last, own_pid) {
            placed_holds(before, session);
        }
        assert(files[files.len() - 1] == last);
        assert forall|i: int|
            #![trigger files[i]]
            0 <= i < files.len() && records_running(files[i], own_pid) implies now.contains(
            SessionStatus::of_marker(files[i].marker->0),
        ) by {
            if i < front.len() {
                assert(front[i] == files[i]);
            }
        }
        assert forall|session: SessionStatus| #[trigger] now.contains(session) implies exists|
            i: int,
        |
            #![trigger files[i]]
            0 <= i < files.len() && records_running(files[i], own_pid) && session
                == SessionStatus::of_marker(files[i].marker->0) by {
            if before.contains(session) {
                let i = choose|i: int|
                    #![trigger front[i]]
                    0 <= i < front.len() && records_running(front[i], own_pid) && session
                        == SessionStatus::of_marker(front[i].marker->0);
                assert(files[i] == front[i]);
            }
        }
        assert forall|i: int|
            #![trigger files[i]]
            0 <= i < files.len() && records_ended(files[i], own_pid) implies stale.contains(
            files[i].path@,
        ) by {
            if i < front.len() {
                assert(front[i] == files[i]);
                let k = choose|k: int|
                    0 <= k < stale_before.len() && stale_before[k] == files[i].path@;
                assert(stale[k] == files[i].path@);
            } else {
                assert(stale[stale_before.len() as int] == files[i].path@);
            }
        }
        assert forall|path: Seq<char>| #[trigger] stale.contains(path) implies exists|i: int|
            #![trigger files[i]]
            0 <= i < files.len() && records_ended(files[i], own_pid) && path == files[i].path@ by {
            let k = choose|k: int| 0 <= k < stale.len() && stale[k] == path;
            if k < stale_before.len() {
                assert(stale_before[k] == path);
                assert(stale_before.contains(path));
                let i = choose|i: int|
                    #![trigger front[i]]
                    0 <= i < front.len() && records_ended(front[i], own_pid) && path
                        == front[i].path@;
                assert(files[i] == front[i]);
            }
        }
    }
}

/// A list with one more session holds that session and those it held.
proof fn placed_holds(sorted: Seq<SessionStatus>, session: SessionStatus)
    ensures
        forall|other: SessionStatus| #[trigger]
            placed(sorted, session).contains(other) <==> other == session || sorted.contains(other),
    decreases sorted.len(),
{
    let r = placed(sorted, session);
    if sorted.len() == 0 || !precedes(session.id@, sorted.last().id@) {
        assert(r[sorted.len() as int] == session);
        assert forall|other: SessionStatus| #[trigger] r.contains(other) <==> other == session
            || sorted.contains(other) by {
            if sorted.contains(other) {
                let i = choose|i: int| 0 <= i < sorted.len() && sorted[i] == other;
                assert(r[i] == other);
            }
            if r.contains(other) && other != session {
                let i = choose|i: int| 0 <= i < r.len() && r[i] == other;
                assert(sorted[i] == other);
            }
        }
    } else {
        let front = sorted.drop_last();
        let p = placed(front, session);
        placed_holds(front, session);
        assert forall|other: SessionStatus| #[trigger] r.contains(other) <==> other == session
            || sorted.contains(other) by {
            if sorted.contains(other) {
                let i = choose|i: int| 0 <= i < sorted.len() && sorted[i] == other;
                if i < front.len() {
                    assert(front[i] == other);
                    assert(p.contains(other));
                } else {
                    assert(r[p.len() as int] == other);
                }
            }
            if p.contains(other) {
                let i = choose|i: int| 0 <= i < p.len() && p[i] == other;
                assert(r[i] == other);
            }
            assert(p.contains(session));
            if front.contains(other) {
                let i = choose|i: int| 0 <= i < front.len() && front[i] == other;
                assert(sorted[i] == other);
            }
            if r.contains(other) {
                let i = choose|i: int| 0 <= i < r.len() && r[i] == other;
                if i < p.len() {
                    assert(p[i] == other);
                } else {
                    assert(sorted[sorted.len() - 1] == other);
                }
            }
        }
        let i = choose|i: int| 0 <= i < p.len() && p[i] == session;
        assert(p.contains(session));
        assert(r[i] == session);
    }
}

/// Local clients use the port that is configured. Where none is, they use that of
/// the listener, as long as it runs and listens where it is configured to.
pub proof fn clients_use_the_known_port(configured: LocalSshAddress, record: ListenerRecord)
    ensures
        configured.port is Some ==> port_in_use(configured, record) == configured.port,
        configured.port is None ==> (port_in_use(configured, record) is Some <==> (record matches
            ListenerRecord::Found(status, active) && active && status.host@
            == configured.host@)),
        configured.port is None ==> (record matches ListenerRecord::Found(status, _)
            ==> (port_in_use(configured, record) matches Some(port) ==> port == status.port)),
{
}

/// The start time is the twentieth of the words behind a process's name, whatever
/// the name holds: it ends at the last bracket that a space follows.
pub proof fn start_times_stand_behind_the_name(name: Seq<char>, rest: Seq<char>)
    requires
        !has_text(rest, ") "@),
    ensures
        ({
            let told = start_time_of(name + ") "@ + rest);
            &&& told is Ok <==> words(rest).len() >= 20
            &&& told matches Ok(time) ==> time == words(rest)[19]
        }),
{
    reveal_strlit(") ");
    let mark = ") "@;
    let stat = name + mark + rest;
    let n = name.len() as int;
    assert(mark.len() == 2 && mark[0] == ')' && mark[1] == ' ');
    assert(stat.subrange(n, n + 2) =~= mark);
    assert forall|at: int| n < at <= stat.len() implies !#[trigger] stands_at(stat, mark, at) by {
        if stands_at(stat, mark, at) {
            assert(stat.subrange(at, at + 2)[0] == stat[at]);
            if at == n + 1 {
                assert(stat[at] == ' ');
            } else {
                assert(rest.subrange(at - n - 2, at - n) =~= stat.subrange(at, at + 2));
                assert(stands_at(rest, mark, at - n - 2));
            }
        }
    }
    last_stand_is_found(stat, mark, n, stat.len() as int);
    assert(stat.skip(n + 2) =~= rest);
}

proof fn last_stand_is_found(s: Seq<char>, needle: Seq<char>, found: int, at: int)
    requires
        0 <= found <= at,
        stands_at(s, needle, found),
        forall|later: int| found < later <= at ==> !#[trigger] stands_at(s, needle, later),
    ensures
        last_stand(s, needle, at) == found,
    decreases at,
{
    if found < at {
        last_stand_is_found(s, needle, found, at - 1);
    }
}

/// The record of a session is found again among the records: it stands in their
/// directory, is called like a record, and tells its id. No two sessions share a
/// record.
pub proof fn records_are_called_like_records(runtime: Runtime, a: Seq<char>, b: Seq<char>)
    requires
        is_session_id(a),
        is_session_id(b),
        runtime.paths.container_state_dir@.len() > 0,
    ensures
        is_record_path(runtime.record_path(a)),
        entry_name(runtime.record_path(a)) == Some(a + ".json"@),
        is_within(runtime.record_path(a), runtime.records_dir()),
        is_within(runtime.records_dir(), runtime.paths.container_state_dir@),
        runtime.record_path(a) == runtime.record_path(b) <==> a == b,
{
    reveal_strlit(".json");
    reveal_strlit("sessions");
    reveal_strlit("/");
    reveal_strlit(".");
    reveal_strlit("..");
    let (x, y) = (a + ".json"@, b + ".json"@);
    let (home, dir) = (runtime.paths.container_state_dir@, runtime.records_dir());
    assert("sessions"@[0] == 's');
    assert(dir.len() > 0);
    assert forall|i: int| 0 <= i < x.len() implies x[i] != '/' by {
        if i < a.len() {
            assert(x[i] == a[i] && is_id_char(a[i]));
        }
    }
    assert forall|i: int| 0 <= i < y.len() implies y[i] != '/' by {
        if i < b.len() {
            assert(y[i] == b[i] && is_id_char(b[i]));
        }
    }
    assert(!x.contains('/') && !y.contains('/'));
    assert("/"@.len() == 1 && "."@.len() == 1 && ".."@.len() == 2 && ".json"@.len() == 5);
    paths_are_seen_from_their_directory(home, "sessions"@);
    paths_are_seen_from_their_directory(dir, x);
    entries_have_their_names(dir, x, y);
    entries_have_their_names(dir, y, x);
    assert(x.subrange(a.len() as int, x.len() as int) =~= ".json"@);
    assert(x.take(a.len() as int) =~= a);
    assert(y.take(b.len() as int) =~= b);
}

/// Every container has a lock of its own, beside those of the user's other
/// containers.
pub proof fn locks_are_those_of_their_container(
    a: Runtime,
    b: Runtime,
    user_state_dir: Seq<char>,
)
    requires
        user_state_dir.len() > 0,
        can_name(a.identity.container_name@ + ".lock"@),
        can_name(b.identity.container_name@ + ".lock"@),
    ensures
        a.lock_path(user_state_dir) == b.lock_path(user_state_dir) <==> a.identity.container_name@
            == b.identity.container_name@,
        entry_name(a.lock_path(user_state_dir)) == Some(a.identity.container_name@ + ".lock"@),
        is_within(a.lock_path(user_state_dir), joined_path(user_state_dir, "locks"@)),
{
    reveal_strlit(".lock");
    reveal_strlit("locks");
    reveal_strlit("/");
    let (p, q) = (a.identity.container_name@, b.identity.container_name@);
    let (x, y) = (p + ".lock"@, q + ".lock"@);
    let dir = joined_path(user_state_dir, "locks"@);
    assert("locks"@[0] == 'l');
    assert(dir.len() > 0);
    if is_absolute_path(x) {
        assert(x.contains(x[0]));
    }
    paths_are_seen_from_their_directory(dir, x);
    entries_have_their_names(dir, x, y);
    entries_have_their_names(dir, y, x);
    assert(x.take(p.len() as int) =~= p);
    assert(y.take(q.len() as int) =~= q);
}

/// A record names the launch of its session exactly where the session is one of a
/// launch.
pub proof fn records_name_the_launch_of_their_session(runtime: Runtime, of_launch: bool)
    ensures
        runtime.recorded_launch(of_launch) is Some ==> of_launch,
        of_launch ==> runtime.recorded_launch(of_launch) == opt_text(runtime.identity.launch_name),
{
}

} // verus!
