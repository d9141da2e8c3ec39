//! Requests of the HTTP transport.

use crate::gateway::http::output_projection::{OutputFormat, OutputFormats};
use crate::gateway::http::response::{fault, http_outcome, http_refusal, ErrorCode, HttpError, HttpFault};
use crate::gateway::ops::request::{GatewayOperation, OperationModel};
use crate::gateway::ops::types::{
    CanonicalLaunchVarValue, LaunchPassthroughArgs, LaunchValue, NumberReading,
    OperationExecutionOptions, OperationMode, OutputSelection, SuppliedLaunchVars,
};
use crate::text::{
    cat2, cat3, cat4, cat5, contains, decimal, decimal_text, has_text, list_has, opt_str, opt_text,
    quote, quoted, same, starts_with, strip_prefix, texts,
};
use crate::text_map::{listing, TextMap};
use vstd::prelude::*;

verus! {

pub const MIN_TERMINAL_COLS: u16 = 10;

pub const MAX_TERMINAL_COLS: u16 = 500;

pub const MIN_TERMINAL_ROWS: u16 = 2;

pub const MAX_TERMINAL_ROWS: u16 = 300;

// ---------------------------------------------------------------- status queries

/// What a status query asks for.
#[derive(Debug, Clone, PartialEq, Eq)]
pub struct ParsedStatusQuery {
    pub target: Option<String>,
    pub session_id: Option<String>,
    pub context: TextMap<String>,
}

pub struct QueryModel {
    pub target: Option<Seq<char>>,
    pub session_id: Option<Seq<char>>,
    pub context: Map<Seq<char>, Seq<char>>,
}

impl View for ParsedStatusQuery {
    type V = QueryModel;

    open spec fn view(&self) -> QueryModel {
        QueryModel {
            target: opt_text(self.target),
            session_id: opt_text(self.session_id),
            context: self.context@,
        }
    }
}

pub open spec fn pair_texts(pairs: Seq<(String, String)>) -> Seq<(Seq<char>, Seq<char>)> {
    Seq::new(pairs.len(), |i: int| (pairs[i].0@, pairs[i].1@))
}

/// A query with one more parameter, or why the parameter is refused.
pub open spec fn query_with(q: QueryModel, key: Seq<char>, value: Seq<char>) -> Result<
    QueryModel,
    HttpFault,
> {
    if key == "target"@ {
        if q.target is Some {
            Err(
                fault(
                    ErrorCode::InvalidRequest,
                    "duplicate status query parameter \"target\""@,
                ),
            )
        } else {
            Ok(QueryModel { target: Some(value), ..q })
        }
    } else if key == "session_id"@ {
        if q.session_id is Some {
            Err(
                fault(
                    ErrorCode::InvalidRequest,
                    "duplicate status query parameter \"session_id\""@,
                ),
            )
        } else {
            Ok(QueryModel { session_id: Some(value), ..q })
        }
    } else if !"context."@.is_prefix_of(key) {
        Err(fault(ErrorCode::InvalidRequest, "unknown status query parameter "@ + quoted(key)))
    } else {
        let name = key.skip("context."@.len() as int);
        if name.len() == 0 {
            Err(
                fault(
                    ErrorCode::InvalidRequest,
                    "context query parameters must use context.<key>=value"@,
                ),
            )
        } else if q.context.contains_key(name) {
            Err(fault(ErrorCode::InvalidRequest, "duplicate context key "@ + quoted(name)))
        } else {
            Ok(QueryModel { context: q.context.insert(name, value), ..q })
        }
    }
}

/// What a list of parameters asks for, or what is wrong with the first bad one.
pub open spec fn query_of(pairs: Seq<(Seq<char>, Seq<char>)>) -> Result<QueryModel, HttpFault>
    decreases pairs.len(),
{
    if pairs.len() == 0 {
        Ok(QueryModel { target: None, session_id: None, context: Map::empty() })
    } else {
        match query_of(pairs.drop_last()) {
            Err(e) => Err(e),
            Ok(q) => query_with(q, pairs.last().0, pairs.last().1),
        }
    }
}

proof fn query_error_stays(pairs: Seq<(Seq<char>, Seq<char>)>, k: int)
    requires
        0 <= k <= pairs.len(),
        query_of(pairs.take(k)) is Err,
    ensures
        query_of(pairs) == query_of(pairs.take(k)),
    decreases pairs.len() - k,
{
    if k == pairs.len() {
        assert(pairs.take(k) =~= pairs);
    } else {
        assert(pairs.take(k + 1).drop_last() =~= pairs.take(k));
        query_error_stays(pairs, k + 1);
    }
}

impl ParsedStatusQuery {
    fn set(&mut self, key: &str, value: String) -> (r: Result<(), HttpError>)
        ensures
            match query_with(old(self)@, key@, value@) {
                Ok(q) => r is Ok && final(self)@ == q,
                Err(e) => r matches Err(error) && error@ == e && final(self)@ == old(self)@,
            },
    {
        if same(key, "target") {
            if self.target.is_some() {
                return Err(
                    HttpError::invalid_request("duplicate status query parameter \"target\""),
                );
            }
            self.target = Some(value);
            return Ok(());
        }
        if same(key, "session_id") {
            if self.session_id.is_some() {
                return Err(
                    HttpError::invalid_request("duplicate status query parameter \"session_id\""),
                );
            }
            self.session_id = Some(value);
            return Ok(());
        }
        let name = match strip_prefix(key, "context.") {
            Some(name) => name,
            None => {
                let message = cat2("unknown status query parameter ", quote(key).as_str());
                return Err(HttpError::invalid_request(message.as_str()));
            },
        };
        if name.unicode_len() == 0 {
            return Err(
                HttpError::invalid_request("context query parameters must use context.<key>=value"),
            );
        }
        if self.context.contains_key(name) {
            let message = cat2("duplicate context key ", quote(name).as_str());
            return Err(HttpError::invalid_request(message.as_str()));
        }
        self.context.insert(name.to_owned(), value);
        Ok(())
    }
}

/// Reads the parameters of a status query. Each may be given once.
pub fn status_query_from_pairs(pairs: Vec<(String, String)>) -> (r: Result<
    ParsedStatusQuery,
    HttpError,
>)
    ensures
        http_outcome(r) == query_of(pair_texts(pairs@)),
{
    let ghost all = pair_texts(pairs@);
    let mut query = ParsedStatusQuery { target: None, session_id: None, context: TextMap::new() };
    let mut i: usize = 0;
    assert(all.take(0) =~= Seq::empty());
    while i < pairs.len()
        invariant
            i <= pairs.len(),
            all == pair_texts(pairs@),
            query_of(all.take(i as int)) == Ok::<QueryModel, HttpFault>(query@),
        decreases pairs.len() - i,
    {
        let ghost next = all.take(i + 1);
        proof {
            assert(next.drop_last() =~= all.take(i as int));
            assert(next.last() == (pairs@[i as int].0@, pairs@[i as int].1@));
            if query_of(next) is Err {
                query_error_stays(all, i + 1);
            }
        }
        if let Err(error) = query.set(pairs[i].0.as_str(), pairs[i].1.clone()) {
            return Err(error);
        }
        i += 1;
    }
    assert(all.take(i as int) =~= all);
    Ok(query)
}

/// The decoded parameters of a query string.
pub uninterp spec fn form_pairs(raw: Seq<char>) -> Seq<(Seq<char>, Seq<char>)>;

/// `form_urlencoded::parse` on the bytes of a query string: its decoded
/// parameters in their order.
#[verifier::external_body]
fn decode_form(raw: &str) -> (r: Vec<(String, String)>)
    ensures
        pair_texts(r@) == form_pairs(raw@),
{
    form_urlencoded::parse(raw.as_bytes()).into_owned().collect()
}

/// Reads the query string of a status request; a missing one is empty.
pub fn parse_status_query(raw: Option<&str>) -> (r: Result<ParsedStatusQuery, HttpError>)
    ensures
        http_outcome(r) == query_of(
            form_pairs(
                match raw {
                    Some(raw) => raw@,
                    None => ""@,
                },
            ),
        ),
{
    let raw = match raw {
        Some(raw) => raw,
        None => "",
    };
    status_query_from_pairs(decode_form(raw))
}

/// The operation that a status query asks for.
pub fn status_operation(query: ParsedStatusQuery) -> (r: (GatewayOperation, TextMap<String>))
    ensures
        r.0@ == (OperationModel::Status {
            target: opt_text(query.target),
            session_id: opt_text(query.session_id),
        }),
        r.1@ == query.context@,
{
    (
        GatewayOperation::Status { target: query.target, session_id: query.session_id },
        query.context,
    )
}

/// The operation that a query for all statuses asks for, which takes context only.
pub fn status_all_operation(query: ParsedStatusQuery) -> (r: Result<
    (GatewayOperation, TextMap<String>),
    HttpError,
>)
    ensures
        match r {
            Ok((operation, context)) => query.target is None && query.session_id is None
                && operation@ == OperationModel::StatusAll && context@ == query.context@,
            Err(error) => (query.target is Some || query.session_id is Some) && error@ == fault(
                ErrorCode::InvalidRequest,
                "status/all query only accepts context.<key> parameters"@,
            ),
        },
{
    if query.target.is_some() || query.session_id.is_some() {
        return Err(
            HttpError::invalid_request("status/all query only accepts context.<key> parameters"),
        );
    }
    Ok((GatewayOperation::StatusAll, query.context))
}

proof fn query_keys(pairs: Seq<(Seq<char>, Seq<char>)>, i: int)
    requires
        query_of(pairs) is Ok,
        0 <= i < pairs.len(),
    ensures
        pairs[i].0 == "target"@ ==> query_of(pairs)->Ok_0.target == Some(pairs[i].1),
        pairs[i].0 == "session_id"@ ==> query_of(pairs)->Ok_0.session_id == Some(pairs[i].1),
        pairs[i].0 != "target"@ && pairs[i].0 != "session_id"@ ==> {
            let name = pairs[i].0.skip("context."@.len() as int);
            &&& "context."@.is_prefix_of(pairs[i].0)
            &&& query_of(pairs)->Ok_0.context.contains_key(name)
            &&& query_of(pairs)->Ok_0.context[name] == pairs[i].1
        },
    decreases pairs.len(),
{
    reveal_strlit("target");
    reveal_strlit("session_id");
    if i < pairs.len() - 1 {
        query_keys(pairs.drop_last(), i);
        assert(pairs.drop_last()[i] == pairs[i]);
    }
}

/// An accepted status query says what each of its parameters said: nothing is
/// dropped and nothing overwritten.
pub proof fn accepted_queries_keep_every_parameter(pairs: Seq<(Seq<char>, Seq<char>)>, i: int)
    requires
        query_of(pairs) is Ok,
        0 <= i < pairs.len(),
    ensures
        ({
            let q = query_of(pairs)->Ok_0;
            let (key, value) = pairs[i];
            ||| key == "target"@ && q.target == Some(value)
            ||| key == "session_id"@ && q.session_id == Some(value)
            ||| {
                let name = key.skip("context."@.len() as int);
                "context."@.is_prefix_of(key) && q.context.contains_key(name) && q.context[name]
                    == value
            }
        }),
{
    query_keys(pairs, i);
}

// ---------------------------------------------------------------- execution options

/// How an execution is run and answered.
#[derive(Debug, Clone, Copy, PartialEq, Eq, Structural)]
pub struct HttpExecutionOptions {
    pub options: OperationExecutionOptions,
    pub output_formats: OutputFormats,
}

/// What is wrong with the first bad stream from position `from` on: a stream
/// that was named before, or one that does not exist.
pub open spec fn stream_fault(streams: Seq<Seq<char>>, from: int) -> Option<HttpFault>
    decreases streams.len() - from,
{
    if from >= streams.len() {
        None
    } else if streams.take(from).contains(streams[from]) {
        Some(
            fault(ErrorCode::InvalidOutput, "duplicate output stream "@ + quoted(streams[from])),
        )
    } else if streams[from] != "stdout"@ && streams[from] != "stderr"@ {
        Some(fault(ErrorCode::InvalidOutput, "unknown output stream "@ + quoted(streams[from])))
    } else {
        stream_fault(streams, from + 1)
    }
}

/// The streams that are captured: all unless some are named.
pub open spec fn selection_of(output: Option<Seq<Seq<char>>>) -> Result<OutputSelection, HttpFault> {
    match output {
        None => Ok(OutputSelection { stdout: true, stderr: true }),
        Some(streams) => if streams.len() == 0 {
            Err(fault(ErrorCode::InvalidOutput, "output must not be empty"@))
        } else {
            match stream_fault(streams, 0) {
                Some(e) => Err(e),
                None => Ok(
                    OutputSelection {
                        stdout: streams.contains("stdout"@),
                        stderr: streams.contains("stderr"@),
                    },
                ),
            }
        },
    }
}

pub open spec fn opt_list(o: Option<&Vec<String>>) -> Option<Seq<Seq<char>>> {
    match o {
        Some(v) => Some(texts(v@)),
        None => None,
    }
}

impl View for OutputSelection {
    type V = OutputSelection;

    open spec fn view(&self) -> OutputSelection {
        *self
    }
}

impl View for OutputFormats {
    type V = OutputFormats;

    open spec fn view(&self) -> OutputFormats {
        *self
    }
}

impl View for HttpExecutionOptions {
    type V = HttpExecutionOptions;

    open spec fn view(&self) -> HttpExecutionOptions {
        *self
    }
}

fn named_before(streams: &Vec<String>, i: usize) -> (r: bool)
    requires
        i < streams.len(),
    ensures
        r == texts(streams@).take(i as int).contains(texts(streams@)[i as int]),
{
    let ghost all = texts(streams@);
    let mut j: usize = 0;
    while j < i
        invariant
            j <= i < streams.len(),
            all == texts(streams@),
            forall|k: int| 0 <= k < j ==> #[trigger] all[k] != all[i as int],
        decreases i - j,
    {
        if same(streams[j].as_str(), streams[i].as_str()) {
            assert(all.take(i as int)[j as int] == all[i as int]);
            return true;
        }
        j += 1;
    }
    false
}

pub fn output_selection(output: Option<&Vec<String>>) -> (r: Result<OutputSelection, HttpError>)
    ensures
        http_outcome(r) == selection_of(opt_list(output)),
{
    let streams = match output {
        Some(streams) => streams,
        None => return Ok(OutputSelection::both()),
    };
    if streams.len() == 0 {
        return Err(HttpError::invalid_output("output must not be empty"));
    }
    let ghost all = texts(streams@);
    let mut i: usize = 0;
    while i < streams.len()
        invariant
            i <= streams.len(),
            all == texts(streams@),
            Some(all) == opt_list(output),
            all.len() > 0,
            stream_fault(all, 0) == stream_fault(all, i as int),
        decreases streams.len() - i,
    {
        if named_before(streams, i) {
            let message = cat2("duplicate output stream ", quote(streams[i].as_str()).as_str());
            return Err(HttpError::invalid_output(message.as_str()));
        }
        let stream = streams[i].as_str();
        if !same(stream, "stdout") && !same(stream, "stderr") {
            let message = cat2("unknown output stream ", quote(stream).as_str());
            return Err(HttpError::invalid_output(message.as_str()));
        }
        i += 1;
    }
    Ok(
        OutputSelection {
            stdout: list_has(streams, "stdout"),
            stderr: list_has(streams, "stderr"),
        },
    )
}

/// What is wrong with one requested format.
pub open spec fn one_format_fault(
    stream: Seq<char>,
    format: Seq<char>,
    selection: OutputSelection,
) -> Option<HttpFault> {
    if stream != "stdout"@ && stream != "stderr"@ {
        Some(fault(ErrorCode::InvalidOutput, "unknown output_format stream "@ + quoted(stream)))
    } else if !(if stream == "stdout"@ {
        selection.stdout
    } else {
        selection.stderr
    }) {
        Some(
            fault(
                ErrorCode::InvalidOutput,
                "output_format stream "@ + quoted(stream) + " is not selected"@,
            ),
        )
    } else if format != "text"@ && format != "json"@ {
        Some(
            fault(
                ErrorCode::InvalidOutput,
                "unknown output format "@ + quoted(format) + " for stream "@ + quoted(stream),
            ),
        )
    } else {
        None
    }
}

pub open spec fn format_fault(
    formats: Seq<(Seq<char>, Seq<char>)>,
    selection: OutputSelection,
) -> Option<HttpFault>
    decreases formats.len(),
{
    if formats.len() == 0 {
        None
    } else {
        let first = one_format_fault(formats[0].0, formats[0].1, selection);
        if first is Some {
            first
        } else {
            format_fault(formats.skip(1), selection)
        }
    }
}

/// The format of a stream: text unless JSON is asked for.
pub open spec fn format_of(formats: Map<Seq<char>, Seq<char>>, stream: Seq<char>) -> OutputFormat {
    if formats.contains_key(stream) && formats[stream] == "json"@ {
        OutputFormat::Json
    } else {
        OutputFormat::Text
    }
}

pub open spec fn formats_of(
    formats: Option<Map<Seq<char>, Seq<char>>>,
    selection: OutputSelection,
) -> Result<OutputFormats, HttpFault> {
    match formats {
        None => Ok(OutputFormats { stdout: OutputFormat::Text, stderr: OutputFormat::Text }),
        Some(formats) => match format_fault(listing(formats), selection) {
            Some(e) => Err(e),
            None => Ok(
                OutputFormats {
                    stdout: format_of(formats, "stdout"@),
                    stderr: format_of(formats, "stderr"@),
                },
            ),
        },
    }
}

pub open spec fn opt_map(o: Option<&TextMap<String>>) -> Option<Map<Seq<char>, Seq<char>>> {
    match o {
        Some(m) => Some(m@),
        None => None,
    }
}

fn requested_format(formats: &TextMap<String>, stream: &str) -> (r: OutputFormat)
    ensures
        r == format_of(formats@, stream@),
{
    match formats.get(stream) {
        Some(format) => if same(format.as_str(), "json") {
            OutputFormat::Json
        } else {
            OutputFormat::Text
        },
        None => OutputFormat::Text,
    }
}

/// Formats can be asked for streams that are selected only.
pub fn validate_output_formats(
    output_format: Option<&TextMap<String>>,
    selection: OutputSelection,
) -> (r: Result<OutputFormats, HttpError>)
    ensures
        http_outcome(r) == formats_of(opt_map(output_format), selection),
{
    let formats = match output_format {
        Some(formats) => formats,
        None => return Ok(OutputFormats::text()),
    };
    let n: usize = formats.len();
    let ghost all = listing(formats@);
    let mut i: usize = 0;
    assert(all.skip(0) =~= all);
    while i < n
        invariant
            i <= n == all.len(),
            all == listing(formats@),
            Some(formats@) == opt_map(output_format),
            format_fault(all, selection) == format_fault(all.skip(i as int), selection),
        decreases n - i,
    {
        assert(all.skip(i as int).skip(1) =~= all.skip(i + 1));
        let (stream, format) = formats.entry(i);
        let is_stdout = same(stream.as_str(), "stdout");
        let is_stderr = same(stream.as_str(), "stderr");
        if !is_stdout && !is_stderr {
            let message = cat2("unknown output_format stream ", quote(stream.as_str()).as_str());
            return Err(HttpError::invalid_output(message.as_str()));
        }
        let selected = if is_stdout {
            selection.stdout
        } else {
            selection.stderr
        };
        if !selected {
            let message = cat3(
                "output_format stream ",
                quote(stream.as_str()).as_str(),
                " is not selected",
            );
            return Err(HttpError::invalid_output(message.as_str()));
        }
        if !same(format.as_str(), "text") && !same(format.as_str(), "json") {
            let message = cat4(
                "unknown output format ",
                quote(format.as_str()).as_str(),
                " for stream ",
                quote(stream.as_str()).as_str(),
            );
            return Err(HttpError::invalid_output(message.as_str()));
        }
        i += 1;
    }
    Ok(
        OutputFormats {
            stdout: requested_format(formats, "stdout"),
            stderr: requested_format(formats, "stderr"),
        },
    )
}

/// The mode that a request names; waiting is the default.
pub open spec fn mode_of(mode: Option<Seq<char>>) -> Option<OperationMode> {
    match mode {
        None => Some(OperationMode::Wait),
        Some(name) => if name == "wait"@ {
            Some(OperationMode::Wait)
        } else if name == "detach"@ {
            Some(OperationMode::Detach)
        } else {
            None
        },
    }
}

pub open spec fn execution_options_of(
    mode: Option<Seq<char>>,
    output: Option<Seq<Seq<char>>>,
    formats: Option<Map<Seq<char>, Seq<char>>>,
) -> Result<HttpExecutionOptions, HttpFault> {
    match mode_of(mode) {
        None => Err(
            fault(
                ErrorCode::InvalidMode,
                "mode must be \"wait\", \"detach\", or \"pty\""@,
            ),
        ),
        Some(mode) => if mode == OperationMode::Detach && output is Some {
            Err(fault(ErrorCode::InvalidOutput, "output is only supported for wait mode"@))
        } else if mode == OperationMode::Detach && formats is Some {
            Err(fault(ErrorCode::InvalidOutput, "output_format is only supported for wait mode"@))
        } else {
            match selection_of(output) {
                Err(e) => Err(e),
                Ok(selection) => match formats_of(formats, selection) {
                    Err(e) => Err(e),
                    Ok(output_formats) => Ok(
                        HttpExecutionOptions {
                            options: OperationExecutionOptions { mode, output: selection },
                            output_formats,
                        },
                    ),
                },
            }
        },
    }
}

pub fn execution_request_options(
    mode: Option<&str>,
    output: Option<&Vec<String>>,
    output_format: Option<&TextMap<String>>,
) -> (r: Result<HttpExecutionOptions, HttpError>)
    ensures
        http_outcome(r) == execution_options_of(
            opt_str(mode),
            opt_list(output),
            opt_map(output_format),
        ),
{
    let mode = match mode {
        None => OperationMode::Wait,
        Some(name) => if same(name, "wait") {
            OperationMode::Wait
        } else if same(name, "detach") {
            OperationMode::Detach
        } else {
            return Err(HttpError::invalid_mode("mode must be \"wait\", \"detach\", or \"pty\""));
        },
    };
    if mode == OperationMode::Detach && output.is_some() {
        return Err(HttpError::invalid_output("output is only supported for wait mode"));
    }
    if mode == OperationMode::Detach && output_format.is_some() {
        return Err(HttpError::invalid_output("output_format is only supported for wait mode"));
    }
    let selection = match output_selection(output) {
        Ok(selection) => selection,
        Err(error) => return Err(error),
    };
    let output_formats = match validate_output_formats(output_format, selection) {
        Ok(formats) => formats,
        Err(error) => return Err(error),
    };
    Ok(
        HttpExecutionOptions {
            options: OperationExecutionOptions { mode, output: selection },
            output_formats,
        },
    )
}

/// Whether a request asks for an interactive session.
pub fn is_pty_mode(mode: Option<&str>) -> (r: bool)
    ensures
        r == (opt_str(mode) == Some("pty"@)),
{
    match mode {
        Some(mode) => same(mode, "pty"),
        None => false,
    }
}

pub open spec fn command_fault(command: Seq<Seq<char>>) -> Option<HttpFault> {
    if command.len() == 0 {
        Some(fault(ErrorCode::InvalidRequest, "command must not be empty"@))
    } else if exists|i: int| 0 <= i < command.len() && (#[trigger] command[i]).len() == 0 {
        Some(fault(ErrorCode::InvalidRequest, "command elements must not be empty"@))
    } else {
        None
    }
}

/// A command has elements, none of which is empty.
pub fn validate_run_command(command: &Vec<String>) -> (r: Result<(), HttpError>)
    ensures
        http_refusal(r) == command_fault(texts(command@)),
{
    if command.len() == 0 {
        return Err(HttpError::invalid_request("command must not be empty"));
    }
    let ghost all = texts(command@);
    let mut i: usize = 0;
    while i < command.len()
        invariant
            i <= command.len(),
            all == texts(command@),
            all.len() > 0,
            forall|j: int| 0 <= j < i ==> (#[trigger] all[j]).len() != 0,
        decreases command.len() - i,
    {
        assert(all[i as int] == command@[i as int]@);
        if command[i].as_str().unicode_len() == 0 {
            return Err(HttpError::invalid_request("command elements must not be empty"));
        }
        i += 1;
    }
    Ok(())
}

pub open spec fn pty_output_fault(output: bool, output_format: bool) -> Option<HttpFault> {
    if output {
        Some(fault(ErrorCode::InvalidOutput, "output is only supported for wait mode"@))
    } else if output_format {
        Some(fault(ErrorCode::InvalidOutput, "output_format is only supported for wait mode"@))
    } else {
        None
    }
}

/// An interactive session has no captured output.
pub fn reject_pty_output(
    output: Option<&Vec<String>>,
    output_format: Option<&TextMap<String>>,
) -> (r: Result<(), HttpError>)
    ensures
        http_refusal(r) == pty_output_fault(output is Some, output_format is Some),
{
    if output.is_some() {
        return Err(HttpError::invalid_output("output is only supported for wait mode"));
    }
    if output_format.is_some() {
        return Err(HttpError::invalid_output("output_format is only supported for wait mode"));
    }
    Ok(())
}

// ---------------------------------------------------------------- terminals

/// The size of a terminal.
#[derive(Debug, Clone, Copy, PartialEq, Eq, Structural)]
pub struct ContainerPtySize {
    pub cols: u16,
    pub rows: u16,
    pub pixel_width: u16,
    pub pixel_height: u16,
}

impl View for ContainerPtySize {
    type V = ContainerPtySize;

    open spec fn view(&self) -> ContainerPtySize {
        *self
    }
}

#[derive(Debug, Clone, Copy, PartialEq, Eq, Structural)]
pub struct TerminalRequest {
    pub cols: u16,
    pub rows: u16,
    pub cell_width_px: Option<u16>,
    pub cell_height_px: Option<u16>,
}

pub open spec fn dimension_fault(name: Seq<char>, value: u16, min: u16, max: u16) -> Option<HttpFault> {
    if min <= value <= max {
        None
    } else {
        Some(
            fault(
                ErrorCode::InvalidRequest,
                name + " must be between "@ + decimal(min as nat) + " and "@ + decimal(max as nat),
            ),
        )
    }
}

pub fn validate_dimension(name: &str, value: u16, min: u16, max: u16) -> (r: Result<u16, HttpError>)
    ensures
        http_refusal(r) == dimension_fault(name@, value, min, max),
        r matches Ok(v) ==> v == value,
{
    if value < min || value > max {
        let message = cat5(
            name,
            " must be between ",
            decimal_text(min as u64).as_str(),
            " and ",
            decimal_text(max as u64).as_str(),
        );
        return Err(HttpError::invalid_request(message.as_str()));
    }
    Ok(value)
}

pub open spec fn pixels(o: Option<u16>) -> u16 {
    match o {
        Some(n) => n,
        None => 0,
    }
}

/// The size that is asked for, within the limits of terminals.
pub open spec fn size_of(
    cols_name: Seq<char>,
    rows_name: Seq<char>,
    t: TerminalRequest,
) -> Result<ContainerPtySize, HttpFault> {
    match dimension_fault(cols_name, t.cols, MIN_TERMINAL_COLS, MAX_TERMINAL_COLS) {
        Some(e) => Err(e),
        None => match dimension_fault(rows_name, t.rows, MIN_TERMINAL_ROWS, MAX_TERMINAL_ROWS) {
            Some(e) => Err(e),
            None => Ok(
                ContainerPtySize {
                    cols: t.cols,
                    rows: t.rows,
                    pixel_width: pixels(t.cell_width_px),
                    pixel_height: pixels(t.cell_height_px),
                },
            ),
        },
    }
}

fn checked_size(cols_name: &str, rows_name: &str, t: TerminalRequest) -> (r: Result<
    ContainerPtySize,
    HttpError,
>)
    ensures
        http_outcome(r) == size_of(cols_name@, rows_name@, t),
{
    let cols: u16 = match validate_dimension(
        cols_name,
        t.cols,
        MIN_TERMINAL_COLS,
        MAX_TERMINAL_COLS,
    ) {
        Ok(cols) => cols,
        Err(error) => return Err(error),
    };
    let rows: u16 = match validate_dimension(
        rows_name,
        t.rows,
        MIN_TERMINAL_ROWS,
        MAX_TERMINAL_ROWS,
    ) {
        Ok(rows) => rows,
        Err(error) => return Err(error),
    };
    Ok(
        ContainerPtySize {
            cols,
            rows,
            pixel_width: t.cell_width_px.unwrap_or(0),
            pixel_height: t.cell_height_px.unwrap_or(0),
        },
    )
}

pub open spec fn terminal_of(terminal: Option<TerminalRequest>) -> Result<ContainerPtySize, HttpFault> {
    match terminal {
        None => Err(fault(ErrorCode::InvalidRequest, "terminal is required for pty mode"@)),
        Some(t) => size_of("terminal.cols"@, "terminal.rows"@, t),
    }
}

/// The terminal of an interactive session, which must be given.
pub fn terminal_size(terminal: Option<TerminalRequest>) -> (r: Result<ContainerPtySize, HttpError>)
    ensures
        http_outcome(r) == terminal_of(terminal),
{
    match terminal {
        None => Err(HttpError::invalid_request("terminal is required for pty mode")),
        Some(t) => checked_size("terminal.cols", "terminal.rows", t),
    }
}

/// The new size of a terminal that is being resized.
pub fn resized_terminal(t: TerminalRequest) -> (r: Result<ContainerPtySize, HttpError>)
    ensures
        http_outcome(r) == size_of("cols"@, "rows"@, t),
{
    checked_size("cols", "rows", t)
}

/// Every accepted terminal lies within the limits.
pub proof fn accepted_terminals_are_within_limits(
    cols_name: Seq<char>,
    rows_name: Seq<char>,
    t: TerminalRequest,
)
    ensures
        size_of(cols_name, rows_name, t) is Ok <==> 10 <= t.cols <= 500 && 2 <= t.rows <= 300,
{
}

// ---------------------------------------------------------------- requests to execute

/// A request to run a command.
#[derive(Debug)]
pub struct RunRequest {
    pub target: Option<String>,
    pub session_id: Option<String>,
    pub cwd: Option<String>,
    pub command: Vec<String>,
    pub mode: Option<String>,
    pub terminal: Option<TerminalRequest>,
    pub output: Option<Vec<String>>,
    pub output_format: Option<TextMap<String>>,
}

/// A request to run a launch.
#[derive(Debug)]
pub struct LaunchRunRequest {
    pub session_id: Option<String>,
    pub vars: Option<SuppliedLaunchVars>,
    pub args: Option<LaunchPassthroughArgs>,
    pub mode: Option<String>,
    pub terminal: Option<TerminalRequest>,
    pub output: Option<Vec<String>>,
    pub output_format: Option<TextMap<String>>,
}

/// What is done for a request that was accepted.
#[derive(Debug)]
pub enum ExecutionPlan {
    /// An interactive session is prepared and can then be attached to.
    Interactive { operation: GatewayOperation, terminal: ContainerPtySize },
    /// The operation is executed; its output is answered in these formats.
    Execute { operation: GatewayOperation, output_formats: OutputFormats },
}

pub enum PlanModel {
    Interactive { operation: OperationModel, terminal: ContainerPtySize },
    Execute { operation: OperationModel, output_formats: OutputFormats },
}

impl View for ExecutionPlan {
    type V = PlanModel;

    open spec fn view(&self) -> PlanModel {
        match self {
            ExecutionPlan::Interactive { operation, terminal } => PlanModel::Interactive {
                operation: operation@,
                terminal: *terminal,
            },
            ExecutionPlan::Execute { operation, output_formats } => PlanModel::Execute {
                operation: operation@,
                output_formats: *output_formats,
            },
        }
    }
}

pub open spec fn owned_list(o: Option<Vec<String>>) -> Option<Seq<Seq<char>>> {
    match o {
        Some(v) => Some(texts(v@)),
        None => None,
    }
}

pub open spec fn owned_map(o: Option<TextMap<String>>) -> Option<Map<Seq<char>, Seq<char>>> {
    match o {
        Some(m) => Some(m@),
        None => None,
    }
}

/// How a request is carried out: interactively, or with these options.
pub enum Manner {
    Interactive(ContainerPtySize),
    Execute(HttpExecutionOptions),
}

pub open spec fn manner_of(
    mode: Option<Seq<char>>,
    terminal: Option<TerminalRequest>,
    output: Option<Seq<Seq<char>>>,
    formats: Option<Map<Seq<char>, Seq<char>>>,
) -> Result<Manner, HttpFault> {
    if mode == Some("pty"@) {
        match pty_output_fault(output is Some, formats is Some) {
            Some(e) => Err(e),
            None => match terminal_of(terminal) {
                Err(e) => Err(e),
                Ok(size) => Ok(Manner::Interactive(size)),
            },
        }
    } else {
        match execution_options_of(mode, output, formats) {
            Err(e) => Err(e),
            Ok(options) => Ok(Manner::Execute(options)),
        }
    }
}

/// The options that an interactive session is run with.
pub open spec fn interactive_options() -> OperationExecutionOptions {
    OperationExecutionOptions::in_mode(OperationMode::Stream)
}

impl RunRequest {
    pub open spec fn operation(self, options: OperationExecutionOptions) -> OperationModel {
        OperationModel::Run {
            target: opt_text(self.target),
            session_id: opt_text(self.session_id),
            cwd: opt_text(self.cwd),
            command: texts(self.command@),
            options,
        }
    }

    pub open spec fn plan(self) -> Result<PlanModel, HttpFault> {
        match command_fault(texts(self.command@)) {
            Some(e) => Err(e),
            None => match manner_of(
                opt_text(self.mode),
                self.terminal,
                owned_list(self.output),
                owned_map(self.output_format),
            ) {
                Err(e) => Err(e),
                Ok(Manner::Interactive(terminal)) => Ok(
                    PlanModel::Interactive {
                        operation: self.operation(interactive_options()),
                        terminal,
                    },
                ),
                Ok(Manner::Execute(options)) => Ok(
                    PlanModel::Execute {
                        operation: self.operation(options.options),
                        output_formats: options.output_formats,
                    },
                ),
            },
        }
    }

    /// Decides what is done for a request to run a command.
    pub fn accept(self) -> (r: Result<ExecutionPlan, HttpError>)
        ensures
            http_outcome(r) == self.plan(),
    {
        if let Err(error) = validate_run_command(&self.command) {
            return Err(error);
        }
        let mode = match &self.mode {
            Some(mode) => Some(mode.as_str()),
            None => None,
        };
        if is_pty_mode(mode) {
            if let Err(error) = reject_pty_output(self.output.as_ref(), self.output_format.as_ref()) {
                return Err(error);
            }
            let terminal = match terminal_size(self.terminal) {
                Ok(terminal) => terminal,
                Err(error) => return Err(error),
            };
            return Ok(
                ExecutionPlan::Interactive {
                    operation: GatewayOperation::Run {
                        target: self.target,
                        session_id: self.session_id,
                        cwd: self.cwd,
                        command: self.command,
                        options: OperationExecutionOptions::stream(),
                    },
                    terminal,
                },
            );
        }
        let execution = match execution_request_options(
            mode,
            self.output.as_ref(),
            self.output_format.as_ref(),
        ) {
            Ok(execution) => execution,
            Err(error) => return Err(error),
        };
        Ok(
            ExecutionPlan::Execute {
                operation: GatewayOperation::Run {
                    target: self.target,
                    session_id: self.session_id,
                    cwd: self.cwd,
                    command: self.command,
                    options: execution.options,
                },
                output_formats: execution.output_formats,
            },
        )
    }
}

impl LaunchRunRequest {
    pub open spec fn operation(self, name: Seq<char>, options: OperationExecutionOptions) -> OperationModel {
        OperationModel::Launch {
            name,
            session_id: opt_text(self.session_id),
            vars: match self.vars {
                Some(vars) => vars@,
                None => Map::empty(),
            },
            args: match self.args {
                Some(args) => args@,
                None => Seq::empty(),
            },
            options,
        }
    }

    pub open spec fn plan(self, name: Seq<char>) -> Result<PlanModel, HttpFault> {
        match manner_of(
            opt_text(self.mode),
            self.terminal,
            owned_list(self.output),
            owned_map(self.output_format),
        ) {
            Err(e) => Err(e),
            Ok(Manner::Interactive(terminal)) => Ok(
                PlanModel::Interactive {
                    operation: self.operation(name, interactive_options()),
                    terminal,
                },
            ),
            Ok(Manner::Execute(options)) => Ok(
                PlanModel::Execute {
                    operation: self.operation(name, options.options),
                    output_formats: options.output_formats,
                },
            ),
        }
    }

    /// Decides what is done for a request to run a launch.
    pub fn accept(self, name: String) -> (r: Result<ExecutionPlan, HttpError>)
        ensures
            http_outcome(r) == self.plan(name@),
    {
        let mode = match &self.mode {
            Some(mode) => Some(mode.as_str()),
            None => None,
        };
        let interactive = is_pty_mode(mode);
        let mut terminal: Option<ContainerPtySize> = None;
        let mut options = OperationExecutionOptions::stream();
        let mut output_formats = OutputFormats::text();
        if interactive {
            if let Err(error) = reject_pty_output(self.output.as_ref(), self.output_format.as_ref()) {
                return Err(error);
            }
            terminal =
            match terminal_size(self.terminal) {
                Ok(terminal) => Some(terminal),
                Err(error) => return Err(error),
            };
        } else {
            match execution_request_options(
                mode,
                self.output.as_ref(),
                self.output_format.as_ref(),
            ) {
                Ok(execution) => {
                    options = execution.options;
                    output_formats = execution.output_formats;
                },
                Err(error) => return Err(error),
            }
        }
        let vars = match self.vars {
            Some(vars) => vars,
            None => SuppliedLaunchVars::new(),
        };
        let args = match self.args {
            Some(args) => args,
            None => LaunchPassthroughArgs::new(),
        };
        let operation = GatewayOperation::Launch {
            name,
            session_id: self.session_id,
            vars,
            args,
            options,
        };
        match terminal {
            Some(terminal) => Ok(ExecutionPlan::Interactive { operation, terminal }),
            None => Ok(ExecutionPlan::Execute { operation, output_formats }),
        }
    }
}

/// The operation of a plan.
pub open spec fn planned(plan: PlanModel) -> OperationModel {
    match plan {
        PlanModel::Interactive { operation, .. } => operation,
        PlanModel::Execute { operation, .. } => operation,
    }
}

proof fn every_stream_is_known(streams: Seq<Seq<char>>, from: int, i: int)
    requires
        0 <= from <= i < streams.len(),
        stream_fault(streams, from) is None,
    ensures
        streams[i] == "stdout"@ || streams[i] == "stderr"@,
        !streams.take(i).contains(streams[i]),
    decreases i - from,
{
    if from < i {
        every_stream_is_known(streams, from + 1, i);
    }
}

proof fn every_format_is_for_a_selected_stream(
    formats: Seq<(Seq<char>, Seq<char>)>,
    selection: OutputSelection,
    i: int,
)
    requires
        0 <= i < formats.len(),
        format_fault(formats, selection) is None,
    ensures
        formats[i].0 == "stdout"@ && selection.stdout || formats[i].0 == "stderr"@
            && selection.stderr,
        formats[i].1 == "text"@ || formats[i].1 == "json"@,
    decreases i,
{
    if i > 0 {
        assert(formats.skip(1)[i - 1] == formats[i]);
        every_format_is_for_a_selected_stream(formats.skip(1), selection, i - 1);
    }
}

/// An output selection is what was asked for: both streams where nothing was, and
/// else exactly those that were named, each once.
pub proof fn selections_are_as_asked(output: Option<Seq<Seq<char>>>)
    requires
        selection_of(output) is Ok,
    ensures
        ({
            let selection = selection_of(output)->Ok_0;
            &&& output is None ==> selection.stdout && selection.stderr
            &&& output matches Some(streams) ==> {
                &&& streams.len() > 0
                &&& selection.stdout <==> streams.contains("stdout"@)
                &&& selection.stderr <==> streams.contains("stderr"@)
                &&& forall|i: int|
                    0 <= i < streams.len() ==> #[trigger] streams[i] == "stdout"@ || streams[i]
                        == "stderr"@
                &&& forall|i: int, j: int|
                    0 <= i < j < streams.len() ==> #[trigger] streams[i] != #[trigger] streams[j]
            }
        }),
{
    if let Some(streams) = output {
        assert forall|i: int| 0 <= i < streams.len() implies #[trigger] streams[i] == "stdout"@
            || streams[i] == "stderr"@ by {
            every_stream_is_known(streams, 0, i);
        }
        assert forall|i: int, j: int| 0 <= i < j < streams.len() implies #[trigger] streams[i]
            != #[trigger] streams[j] by {
            every_stream_is_known(streams, 0, j);
            assert(streams.take(j)[i] == streams[i]);
        }
    }
}

/// The formats of the streams are those that were asked for, and text where none
/// was. They can be asked for streams that are selected only.
pub proof fn formats_are_as_asked(
    formats: Option<Map<Seq<char>, Seq<char>>>,
    selection: OutputSelection,
)
    requires
        formats matches Some(m) ==> m.dom().finite(),
        formats_of(formats, selection) is Ok,
    ensures
        ({
            let got = formats_of(formats, selection)->Ok_0;
            &&& formats is None ==> got.stdout == OutputFormat::Text && got.stderr
                == OutputFormat::Text
            &&& formats matches Some(m) ==> {
                &&& got.stdout == OutputFormat::Json <==> m.contains_pair("stdout"@, "json"@)
                &&& got.stderr == OutputFormat::Json <==> m.contains_pair("stderr"@, "json"@)
                &&& forall|stream: Seq<char>| #[trigger]
                    m.contains_key(stream) ==> {
                        &&& stream == "stdout"@ && selection.stdout || stream == "stderr"@
                            && selection.stderr
                        &&& m[stream] == "text"@ || m[stream] == "json"@
                    }
            }
        }),
{
    if let Some(m) = formats {
        crate::text_map::finite_maps_are_listed(m);
        let all = listing(m);
        assert forall|stream: Seq<char>| #[trigger] m.contains_key(stream) implies {
            &&& stream == "stdout"@ && selection.stdout || stream == "stderr"@ && selection.stderr
            &&& m[stream] == "text"@ || m[stream] == "json"@
        } by {
            assert(crate::text_map::has_pair(all, stream, m[stream]));
            let i = choose|i: int|
                0 <= i < all.len() && #[trigger] all[i] == (stream, m[stream]);
            every_format_is_for_a_selected_stream(all, selection, i);
        }
    }
}

/// A request is carried out in the mode that it names: interactively in a terminal
/// of the size that it gives, in the background without output, or else waited
/// for, with the output that it asks for.
pub proof fn requests_are_carried_out_in_their_mode(
    mode: Option<Seq<char>>,
    terminal: Option<TerminalRequest>,
    output: Option<Seq<Seq<char>>>,
    formats: Option<Map<Seq<char>, Seq<char>>>,
)
    ensures
        manner_of(mode, terminal, output, formats) matches Ok(manner) ==> {
            &&& manner is Interactive <==> mode == Some("pty"@)
            &&& manner matches Manner::Interactive(size) ==> {
                &&& output is None && formats is None
                &&& terminal matches Some(asked) && size.cols == asked.cols && size.rows
                    == asked.rows && size.pixel_width == pixels(asked.cell_width_px)
                    && size.pixel_height == pixels(asked.cell_height_px)
            }
            &&& manner matches Manner::Execute(options) ==> {
                &&& options.options.mode == OperationMode::Detach <==> mode == Some("detach"@)
                &&& options.options.mode == OperationMode::Wait <==> mode is None || mode == Some(
                    "wait"@,
                )
                &&& mode == Some("detach"@) ==> output is None && formats is None
                &&& selection_of(output) == Ok::<OutputSelection, HttpFault>(options.options.output)
                &&& formats_of(formats, options.options.output) == Ok::<OutputFormats, HttpFault>(
                    options.output_formats,
                )
            }
        },
        manner_of(mode, terminal, None, None) is Ok <==> mode is None || mode == Some("wait"@)
            || mode == Some("detach"@) || (mode == Some("pty"@) && (terminal matches Some(asked)
            && 10 <= asked.cols <= 500 && 2 <= asked.rows <= 300)),
{
    reveal_strlit("pty");
    reveal_strlit("wait");
    reveal_strlit("detach");
    assert("pty"@.len() == 3 && "wait"@.len() == 4 && "detach"@.len() == 6);
}

/// Running a command does what the request says: in its target and session, in
/// its directory, exactly its command. No other command is run for it, and only
/// interactive requests get a terminal.
pub proof fn accepted_runs_are_as_asked(request: RunRequest)
    requires
        request.plan() is Ok,
    ensures
        ({
            let plan = request.plan()->Ok_0;
            let manner = manner_of(
                opt_text(request.mode),
                request.terminal,
                owned_list(request.output),
                owned_map(request.output_format),
            );
            &&& planned(plan) matches OperationModel::Run {
                target,
                session_id,
                cwd,
                command,
                options,
            } && {
                &&& target == opt_text(request.target)
                &&& session_id == opt_text(request.session_id)
                &&& cwd == opt_text(request.cwd)
                &&& command.len() == request.command@.len() && command.len() > 0
                &&& forall|i: int|
                    0 <= i < command.len() ==> #[trigger] command[i] == request.command@[i]@
                        && command[i].len() > 0
                &&& manner matches Ok(Manner::Execute(asked)) ==> options == asked.options
                &&& manner matches Ok(Manner::Interactive(_)) ==> options.mode
                    == OperationMode::Stream
            }
            &&& plan matches PlanModel::Interactive { terminal, .. } ==> manner == Ok::<
                Manner,
                HttpFault,
            >(Manner::Interactive(terminal))
            &&& plan matches PlanModel::Execute { output_formats, .. } ==> (manner matches Ok(
                Manner::Execute(asked),
            ) && output_formats == asked.output_formats)
        }),
{
}

/// Running a launch does what the request says: the launch that was named, in the
/// request's session, with every variable that it gave and no other, and exactly
/// its arguments in their order. Only interactive requests get a terminal.
pub proof fn accepted_launches_are_as_asked(request: LaunchRunRequest, asked_name: Seq<char>)
    requires
        request.plan(asked_name) is Ok,
    ensures
        ({
            let plan = request.plan(asked_name)->Ok_0;
            let manner = manner_of(
                opt_text(request.mode),
                request.terminal,
                owned_list(request.output),
                owned_map(request.output_format),
            );
            &&& planned(plan) matches OperationModel::Launch {
                name,
                session_id,
                vars,
                args,
                options,
            } && {
                &&& name == asked_name
                &&& session_id == opt_text(request.session_id)
                &&& forall|key: Seq<char>| #[trigger]
                    vars.contains_key(key) <==> (request.vars matches Some(given)
                        && given@.contains_key(key))
                &&& forall|key: Seq<char>| #[trigger]
                    vars.contains_key(key) ==> vars[key] == request.vars->0@[key]
                &&& request.args matches Some(given) ==> args == given@
                &&& request.args is None ==> args.len() == 0
                &&& manner matches Ok(Manner::Execute(asked)) ==> options == asked.options
                &&& manner matches Ok(Manner::Interactive(_)) ==> options.mode
                    == OperationMode::Stream
            }
            &&& plan matches PlanModel::Interactive { terminal, .. } ==> manner == Ok::<
                Manner,
                HttpFault,
            >(Manner::Interactive(terminal))
            &&& plan matches PlanModel::Execute { output_formats, .. } ==> (manner matches Ok(
                Manner::Execute(asked),
            ) && output_formats == asked.output_formats)
        }),
{
}

// ---------------------------------------------------------------- bodies

/// The answer to a body that could not be read. Complaints of launch arguments
/// and of launch variables have codes of their own where launches are run.
pub open spec fn body_fault(launch: bool, complaint: Seq<char>) -> HttpFault {
    if launch && (has_text(complaint, "invalid launch args"@) || has_text(
        complaint,
        "launch args must"@,
    )) {
        fault(ErrorCode::InvalidLaunchArgs, complaint)
    } else if launch && (has_text(complaint, "launch variable"@) || has_text(
        complaint,
        "launch var"@,
    )) {
        fault(ErrorCode::InvalidLaunchVar, complaint)
    } else {
        fault(ErrorCode::InvalidRequest, complaint)
    }
}

pub fn classify_body_error(semantic_code: ErrorCode, complaint: &str) -> (r: HttpError)
    ensures
        r@ == body_fault(semantic_code == ErrorCode::InvalidLaunchVar, complaint@),
{
    let launch = semantic_code == ErrorCode::InvalidLaunchVar;
    if launch && (contains(complaint, "invalid launch args") || contains(
        complaint,
        "launch args must",
    )) {
        return HttpError::new(400, ErrorCode::InvalidLaunchArgs, complaint);
    }
    if launch && (contains(complaint, "launch variable") || contains(complaint, "launch var")) {
        return HttpError::new(400, ErrorCode::InvalidLaunchVar, complaint);
    }
    HttpError::invalid_request(complaint)
}

/// A JSON value that is given for a launch variable.
#[derive(Debug, Clone, PartialEq, Eq)]
pub enum JsonVar {
    Text(String),
    Flag(bool),
    Number { integer: Option<i64>, float: NumberReading },
    /// Null, an array or an object.
    Structured,
}

/// The value of a variable, or the complaint about it.
pub open spec fn json_var_value(key: Seq<char>, value: JsonVar) -> Result<LaunchValue, Seq<char>> {
    match value {
        JsonVar::Text(s) => Ok(LaunchValue::Text(s@)),
        JsonVar::Flag(b) => Ok(LaunchValue::Flag(b)),
        JsonVar::Number { integer, float } => match (integer, float) {
            (Some(n), _) => Ok(LaunchValue::Numeral(crate::text::signed_decimal(n as int))),
            (None, NumberReading::Finite(s)) => Ok(LaunchValue::Numeral(s@)),
            _ => Err("invalid launch variable "@ + quoted(key) + ": number must be finite"@),
        },
        JsonVar::Structured => Err(
            "invalid launch variable "@ + quoted(key)
                + ": value must be string, boolean, or number"@,
        ),
    }
}

/// The variables of a JSON object's entries, or the first complaint.
pub open spec fn json_vars(entries: Seq<(String, JsonVar)>) -> Result<
    Map<Seq<char>, LaunchValue>,
    Seq<char>,
>
    decreases entries.len(),
{
    if entries.len() == 0 {
        Ok(Map::empty())
    } else {
        match json_vars(entries.drop_last()) {
            Err(e) => Err(e),
            Ok(vars) => match json_var_value(entries.last().0@, entries.last().1) {
                Err(e) => Err(e),
                Ok(value) => if vars.contains_key(entries.last().0@) {
                    Err("duplicate launch variable "@ + quoted(entries.last().0@))
                } else {
                    Ok(vars.insert(entries.last().0@, value))
                },
            },
        }
    }
}

proof fn json_vars_error_stays(entries: Seq<(String, JsonVar)>, k: int)
    requires
        0 <= k <= entries.len(),
        json_vars(entries.take(k)) is Err,
    ensures
        json_vars(entries) == json_vars(entries.take(k)),
    decreases entries.len() - k,
{
    if k == entries.len() {
        assert(entries.take(k) =~= entries);
    } else {
        assert(entries.take(k + 1).drop_last() =~= entries.take(k));
        json_vars_error_stays(entries, k + 1);
    }
}

fn json_var(key: &str, value: &JsonVar) -> (r: Result<CanonicalLaunchVarValue, String>)
    ensures
        match r {
            Ok(v) => json_var_value(key@, *value) == Ok::<LaunchValue, Seq<char>>(v@),
            Err(message) => json_var_value(key@, *value) == Err::<LaunchValue, Seq<char>>(
                message@,
            ),
        },
{
    match value {
        JsonVar::Text(s) => Ok(CanonicalLaunchVarValue::from_json_string(s.clone())),
        JsonVar::Flag(b) => Ok(CanonicalLaunchVarValue::from_json_bool(*b)),
        JsonVar::Number { integer, float } => CanonicalLaunchVarValue::from_json_number(
            key,
            *integer,
            float,
        ),
        JsonVar::Structured => Err(
            cat3(
                "invalid launch variable ",
                quote(key).as_str(),
                ": value must be string, boolean, or number",
            ),
        ),
    }
}

/// Reads the entries of a JSON object of launch variables, in their order.
fn launch_vars_of_entries(entries: &Vec<(String, JsonVar)>) -> (r: Result<
    SuppliedLaunchVars,
    String,
>)
    ensures
        match r {
            Ok(vars) => json_vars(entries@) == Ok::<Map<Seq<char>, LaunchValue>, Seq<char>>(vars@),
            Err(message) => json_vars(entries@) == Err::<Map<Seq<char>, LaunchValue>, Seq<char>>(
                message@,
            ),
        },
{
    let mut vars = SuppliedLaunchVars::new();
    let mut i: usize = 0;
    assert(entries@.take(0) =~= Seq::empty());
    while i < entries.len()
        invariant
            i <= entries.len(),
            json_vars(entries@.take(i as int)) == Ok::<Map<Seq<char>, LaunchValue>, Seq<char>>(
                vars@,
            ),
        decreases entries.len() - i,
    {
        proof {
            let next = entries@.take(i + 1);
            assert(next.drop_last() =~= entries@.take(i as int));
            assert(next.last() == entries@[i as int]);
            if json_vars(next) is Err {
                json_vars_error_stays(entries@, i + 1);
            }
        }
        let key = entries[i].0.as_str();
        let value = match json_var(key, &entries[i].1) {
            Ok(value) => value,
            Err(message) => return Err(message),
        };
        if let Err(error) = vars.insert(key.to_owned(), value) {
            return Err(error.message());
        }
        i += 1;
    }
    assert(entries@.take(i as int) =~= entries@);
    Ok(vars)
}

/// The variables that a launch request gives, or the complaint about them. Null
/// is refused.
pub open spec fn launch_vars_read(vars: Option<Vec<(String, JsonVar)>>) -> Result<
    Map<Seq<char>, LaunchValue>,
    Seq<char>,
> {
    match vars {
        None => Err("launch variables must be an object"@),
        Some(entries) => json_vars(entries@),
    }
}

/// Reads the launch variables of a request, in their order; `None` stands for
/// null.
pub fn launch_vars_from_json(vars: &Option<Vec<(String, JsonVar)>>) -> (r: Result<
    SuppliedLaunchVars,
    String,
>)
    ensures
        match r {
            Ok(read) => launch_vars_read(*vars) == Ok::<Map<Seq<char>, LaunchValue>, Seq<char>>(
                read@,
            ),
            Err(message) => launch_vars_read(*vars) == Err::<
                Map<Seq<char>, LaunchValue>,
                Seq<char>,
            >(message@),
        },
{
    match vars {
        None => Err("launch variables must be an object".to_owned()),
        Some(entries) => launch_vars_of_entries(entries),
    }
}

/// The arguments that a launch request gives, or the complaint about them. Null,
/// what is no list of texts and empty texts are refused.
pub open spec fn launch_args_read(args: Option<Result<Vec<String>, String>>) -> Result<
    Seq<Seq<char>>,
    Seq<char>,
> {
    match args {
        None => Err("invalid launch args: args must be an array"@),
        Some(Err(complaint)) => Err("invalid launch args: "@ + complaint@),
        Some(Ok(list)) => if exists|i: int|
            0 <= i < list@.len() && (#[trigger] list@[i])@.len() == 0 {
            Err("launch args must not contain empty strings"@)
        } else {
            Ok(texts(list@))
        },
    }
}

/// Reads the arguments of a launch request; `None` stands for null.
pub fn launch_args_from_json(args: Option<Result<Vec<String>, String>>) -> (r: Result<
    LaunchPassthroughArgs,
    String,
>)
    ensures
        match r {
            Ok(read) => launch_args_read(args) == Ok::<Seq<Seq<char>>, Seq<char>>(read@),
            Err(message) => launch_args_read(args) == Err::<Seq<Seq<char>>, Seq<char>>(message@),
        },
{
    match args {
        None => Err("invalid launch args: args must be an array".to_owned()),
        Some(Err(complaint)) => Err(cat2("invalid launch args: ", complaint.as_str())),
        Some(Ok(list)) => match LaunchPassthroughArgs::from_strings(list) {
            Ok(read) => Ok(read),
            Err(error) => Err(error.message()),
        },
    }
}

// ---------------------------------------------------------------- contexts

/// The context of a JSON object's entries. A key that occurs twice is refused.
pub open spec fn json_context(entries: Seq<(String, String)>) -> Result<
    Map<Seq<char>, Seq<char>>,
    Seq<char>,
>
    decreases entries.len(),
{
    if entries.len() == 0 {
        Ok(Map::empty())
    } else {
        match json_context(entries.drop_last()) {
            Err(e) => Err(e),
            Ok(context) => if context.contains_key(entries.last().0@) {
                Err("duplicate context key "@ + quoted(entries.last().0@))
            } else {
                Ok(context.insert(entries.last().0@, entries.last().1@))
            },
        }
    }
}

proof fn json_context_error_stays(entries: Seq<(String, String)>, k: int)
    requires
        0 <= k <= entries.len(),
        json_context(entries.take(k)) is Err,
    ensures
        json_context(entries) == json_context(entries.take(k)),
    decreases entries.len() - k,
{
    if k == entries.len() {
        assert(entries.take(k) =~= entries);
    } else {
        assert(entries.take(k + 1).drop_last() =~= entries.take(k));
        json_context_error_stays(entries, k + 1);
    }
}

/// Reads the entries of a request's context, in their order.
pub fn context_from_json(entries: &Vec<(String, String)>) -> (r: Result<TextMap<String>, String>)
    ensures
        match r {
            Ok(context) => json_context(entries@) == Ok::<Map<Seq<char>, Seq<char>>, Seq<char>>(
                context@,
            ),
            Err(message) => json_context(entries@) == Err::<Map<Seq<char>, Seq<char>>, Seq<char>>(
                message@,
            ),
        },
{
    let mut context: TextMap<String> = TextMap::new();
    let mut i: usize = 0;
    assert(entries@.take(0) =~= Seq::empty());
    while i < entries.len()
        invariant
            i <= entries.len(),
            json_context(entries@.take(i as int)) == Ok::<Map<Seq<char>, Seq<char>>, Seq<char>>(
                context@,
            ),
        decreases entries.len() - i,
    {
        proof {
            let next = entries@.take(i + 1);
            assert(next.drop_last() =~= entries@.take(i as int));
            assert(next.last() == entries@[i as int]);
            if json_context(next) is Err {
                json_context_error_stays(entries@, i + 1);
            }
        }
        let key = entries[i].0.as_str();
        if context.contains_key(key) {
            return Err(cat2("duplicate context key ", quote(key).as_str()));
        }
        context.insert(key.to_owned(), entries[i].1.clone());
        i += 1;
    }
    assert(entries@.take(i as int) =~= entries@);
    Ok(context)
}

/// A context that is accepted has every entry that the request gave.
pub proof fn accepted_contexts_keep_every_entry(entries: Seq<(String, String)>, i: int)
    requires
        json_context(entries) is Ok,
        0 <= i < entries.len(),
    ensures
        json_context(entries)->Ok_0.contains_pair(entries[i].0@, entries[i].1@),
    decreases entries.len(),
{
    if i < entries.len() - 1 {
        accepted_contexts_keep_every_entry(entries.drop_last(), i);
        assert(entries.drop_last()[i] == entries[i]);
    }
}

/// Whether an unknown route lies in the part of the interface where clients
/// must be known before they are told that it does not exist.
pub fn unknown_route_needs_authorization(path: &str) -> (r: bool)
    ensures
        r == "/api/v1/"@.is_prefix_of(path@),
{
    starts_with(path, "/api/v1/")
}

// ---------------------------------------------------------------- laws of acceptance

/// Streams are selected exactly where some are named, each is known, and none is
/// named twice.
pub proof fn selections_are_accepted(streams: Seq<Seq<char>>)
    ensures
        selection_of(Some(streams)) is Ok <==> {
            &&& streams.len() > 0
            &&& forall|i: int|
                0 <= i < streams.len() ==> #[trigger] streams[i] == "stdout"@ || streams[i]
                    == "stderr"@
            &&& forall|i: int, j: int|
                0 <= i < j < streams.len() ==> #[trigger] streams[i] != #[trigger] streams[j]
        },
        selection_of(None) is Ok,
{
    if selection_of(Some(streams)) is Ok {
        selections_are_as_asked(Some(streams));
    }
    let known = forall|i: int|
        0 <= i < streams.len() ==> #[trigger] streams[i] == "stdout"@ || streams[i] == "stderr"@;
    let apart = forall|i: int, j: int|
        0 <= i < j < streams.len() ==> #[trigger] streams[i] != #[trigger] streams[j];
    if known && apart {
        known_streams_are_sound(streams, 0);
    }
}

proof fn known_streams_are_sound(streams: Seq<Seq<char>>, from: int)
    requires
        0 <= from <= streams.len(),
        forall|i: int|
            0 <= i < streams.len() ==> #[trigger] streams[i] == "stdout"@ || streams[i]
                == "stderr"@,
        forall|i: int, j: int|
            0 <= i < j < streams.len() ==> #[trigger] streams[i] != #[trigger] streams[j],
    ensures
        stream_fault(streams, from) is None,
    decreases streams.len() - from,
{
    if from < streams.len() {
        let before = streams.take(from);
        if before.contains(streams[from]) {
            let i = choose|i: int| 0 <= i < before.len() && before[i] == streams[from];
            assert(streams[i] == streams[from]);
        }
        known_streams_are_sound(streams, from + 1);
    }
}

/// Formats are accepted wherever they are known and asked for selected streams.
pub proof fn formats_are_accepted(
    formats: Map<Seq<char>, Seq<char>>,
    selection: OutputSelection,
)
    requires
        formats.dom().finite(),
        forall|stream: Seq<char>| #[trigger]
            formats.contains_key(stream) ==> {
                &&& stream == "stdout"@ && selection.stdout || stream == "stderr"@
                    && selection.stderr
                &&& formats[stream] == "text"@ || formats[stream] == "json"@
            },
    ensures
        formats_of(Some(formats), selection) is Ok,
        formats_of(None, selection) is Ok,
{
    reveal_strlit("stdout");
    reveal_strlit("stderr");
    assert("stdout"@[3] == 'o' && "stderr"@[3] == 'e');
    crate::text_map::finite_maps_are_listed(formats);
    let all = listing(formats);
    assert forall|i: int| 0 <= i < all.len() implies one_format_fault(
        (#[trigger] all[i]).0,
        all[i].1,
        selection,
    ) is None by {
        assert(formats.contains_key(all[i].0));
    }
    sound_formats_pass(all, selection);
}

proof fn sound_formats_pass(formats: Seq<(Seq<char>, Seq<char>)>, selection: OutputSelection)
    requires
        forall|i: int|
            0 <= i < formats.len() ==> one_format_fault(
                (#[trigger] formats[i]).0,
                formats[i].1,
                selection,
            ) is None,
    ensures
        format_fault(formats, selection) is None,
    decreases formats.len(),
{
    if formats.len() > 0 {
        let rest = formats.skip(1);
        assert forall|i: int| 0 <= i < rest.len() implies one_format_fault(
            (#[trigger] rest[i]).0,
            rest[i].1,
            selection,
        ) is None by {
            assert(rest[i] == formats[i + 1]);
        }
        sound_formats_pass(rest, selection);
    }
}

/// A request is accepted exactly where its manner is and, to run a command, where
/// the command has elements and none of them is empty. Cells without a size have
/// none.
pub proof fn requests_are_accepted(run: RunRequest, launch: LaunchRunRequest, name: Seq<char>)
    ensures
        run.plan() is Ok <==> {
            &&& run.command@.len() > 0
            &&& forall|i: int| 0 <= i < run.command@.len() ==> (#[trigger] run.command@[i])@.len() > 0
            &&& manner_of(
                opt_text(run.mode),
                run.terminal,
                owned_list(run.output),
                owned_map(run.output_format),
            ) is Ok
        },
        launch.plan(name) is Ok <==> manner_of(
            opt_text(launch.mode),
            launch.terminal,
            owned_list(launch.output),
            owned_map(launch.output_format),
        ) is Ok,
        pixels(None) == 0,
        forall|n: u16| pixels(Some(n)) == n,
{
    let command = texts(run.command@);
    assert forall|i: int| 0 <= i < command.len() implies #[trigger] command[i]
        == run.command@[i]@ by {}
    if exists|i: int| 0 <= i < command.len() && (#[trigger] command[i]).len() == 0 {
        let i = choose|i: int| 0 <= i < command.len() && (#[trigger] command[i]).len() == 0;
        assert(run.command@[i]@.len() == 0);
    }
    if exists|i: int| 0 <= i < run.command@.len() && (#[trigger] run.command@[i])@.len() == 0 {
        let i = choose|i: int|
            0 <= i < run.command@.len() && (#[trigger] run.command@[i])@.len() == 0;
        assert(command[i].len() == 0);
    }
}

/// A mode is accepted together with what it supports: output and formats where an
/// execution is waited for, and nothing else is asked of them there than that they
/// are sound.
pub proof fn waiting_takes_output(
    output: Option<Seq<Seq<char>>>,
    formats: Option<Map<Seq<char>, Seq<char>>>,
    terminal: Option<TerminalRequest>,
)
    ensures
        manner_of(None, terminal, output, formats) is Ok <==> selection_of(output) is Ok
            && formats_of(formats, selection_of(output)->Ok_0) is Ok,
        manner_of(Some("wait"@), terminal, output, formats) == manner_of(
            None,
            terminal,
            output,
            formats,
        ),
        manner_of(Some("detach"@), terminal, output, formats) is Ok <==> output is None && formats
            is None,
{
    reveal_strlit("pty");
    reveal_strlit("wait");
    reveal_strlit("detach");
    assert("pty"@.len() == 3 && "wait"@.len() == 4 && "detach"@.len() == 6);
}

/// The variables of a request are read exactly where each value is a text, a truth
/// value or a finite number, and no key occurs twice.
pub proof fn variables_are_read_as_given(entries: Seq<(String, JsonVar)>)
    ensures
        json_vars(entries) is Ok <==> {
            &&& forall|i: int| 0 <= i < entries.len() ==> is_plain((#[trigger] entries[i]).1)
            &&& forall|i: int, j: int|
                0 <= i < j < entries.len() ==> (#[trigger] entries[i]).0@ != (#[trigger] entries[j]).0@
        },
        json_vars(entries) matches Ok(vars) ==> {
            &&& forall|i: int|
                0 <= i < entries.len() ==> vars.contains_pair(
                    (#[trigger] entries[i]).0@,
                    plain_value(entries[i].1),
                )
            &&& forall|key: Seq<char>| #[trigger]
                vars.contains_key(key) ==> exists|i: int|
                    0 <= i < entries.len() && (#[trigger] entries[i]).0@ == key
        },
    decreases entries.len(),
{
    if entries.len() > 0 {
        let front = entries.drop_last();
        let n = front.len() as int;
        variables_are_read_as_given(front);
        assert forall|i: int| 0 <= i < n implies #[trigger] front[i] == entries[i] by {}
        assert(entries[n] == entries.last());
        let plainly = forall|i: int|
            0 <= i < entries.len() ==> is_plain((#[trigger] entries[i]).1);
        let apart = forall|i: int, j: int|
            0 <= i < j < entries.len() ==> (#[trigger] entries[i]).0@ != (#[trigger] entries[j]).0@;
        if plainly && apart {
            assert forall|i: int| 0 <= i < front.len() implies is_plain((#[trigger] front[i]).1) by {
                assert(is_plain(entries[i].1));
            }
            assert forall|i: int, j: int| 0 <= i < j < front.len() implies (
            #[trigger] front[i]).0@ != (#[trigger] front[j]).0@ by {
                assert(entries[i].0@ != entries[j].0@);
            }
            let key = entries[n].0@;
            if json_vars(front)->Ok_0.contains_key(key) {
                let i = choose|i: int| 0 <= i < front.len() && (#[trigger] front[i]).0@ == key;
                assert(entries[i].0@ == entries[n].0@);
            }
            assert(is_plain(entries[n].1));
        }
        if json_vars(entries) is Ok {
            let before = json_vars(front)->Ok_0;
            let vars = json_vars(entries)->Ok_0;
            assert forall|i: int| 0 <= i < entries.len() implies is_plain(
                (#[trigger] entries[i]).1,
            ) by {
                if i < n {
                    assert(is_plain(front[i].1));
                }
            }
            assert forall|i: int, j: int| 0 <= i < j < entries.len() implies (
            #[trigger] entries[i]).0@ != (#[trigger] entries[j]).0@ by {
                assert(front[i] == entries[i]);
                if j < n {
                    assert(front[j] == entries[j]);
                } else {
                    assert(before.contains_pair(front[i].0@, plain_value(front[i].1)));
                }
            }
            assert forall|i: int| 0 <= i < entries.len() implies vars.contains_pair(
                (#[trigger] entries[i]).0@,
                plain_value(entries[i].1),
            ) by {
                if i < n {
                    assert(before.contains_pair(front[i].0@, plain_value(front[i].1)));
                }
            }
            assert forall|key: Seq<char>| #[trigger] vars.contains_key(key) implies exists|i: int|
                0 <= i < entries.len() && (#[trigger] entries[i]).0@ == key by {
                if before.contains_key(key) {
                    let i = choose|i: int| 0 <= i < front.len() && (#[trigger] front[i]).0@ == key;
                    assert(entries[i].0@ == key);
                } else {
                    assert(entries[n].0@ == key);
                }
            }
        }
    }
}

/// Whether a JSON value is a text, a truth value or a finite number.
pub open spec fn is_plain(value: JsonVar) -> bool {
    match value {
        JsonVar::Text(_) => true,
        JsonVar::Flag(_) => true,
        JsonVar::Number { integer, float } => integer is Some || float is Finite,
        JsonVar::Structured => false,
    }
}

/// What a plain JSON value stands for. A number that is an integer is written as
/// one.
pub open spec fn plain_value(value: JsonVar) -> LaunchValue {
    match value {
        JsonVar::Text(text) => LaunchValue::Text(text@),
        JsonVar::Flag(flag) => LaunchValue::Flag(flag),
        JsonVar::Number { integer: Some(n), .. } => LaunchValue::Numeral(
            crate::text::signed_decimal(n as int),
        ),
        JsonVar::Number { integer: None, float } => LaunchValue::Numeral(float->Finite_0@),
        JsonVar::Structured => LaunchValue::Flag(false),
    }
}

/// The arguments of a request are read exactly where they are a list of texts, none
/// of which is empty; they are then those texts, in their order. Null is neither
/// arguments nor variables.
pub proof fn arguments_are_read_as_given(
    args: Option<Result<Vec<String>, String>>,
    vars: Option<Vec<(String, JsonVar)>>,
)
    ensures
        launch_args_read(args) is Ok <==> (args matches Some(Ok(list)) && forall|i: int|
            0 <= i < list@.len() ==> (#[trigger] list@[i])@.len() > 0),
        args matches Some(Ok(list)) ==> (launch_args_read(args) matches Ok(read) ==> read == texts(
            list@,
        )),
        vars is None ==> launch_vars_read(vars) is Err,
        vars matches Some(entries) ==> launch_vars_read(vars) == json_vars(entries@),
{
}

/// What is wrong with a body is told as it is. Only the body of a launch can be
/// wrong in its arguments, which come first, or in its variables.
pub proof fn body_errors_are_told(launch: bool, complaint: Seq<char>)
    ensures
        ({
            let answer = body_fault(launch, complaint);
            let args = has_text(complaint, "invalid launch args"@) || has_text(
                complaint,
                "launch args must"@,
            );
            let vars = has_text(complaint, "launch variable"@) || has_text(
                complaint,
                "launch var"@,
            );
            &&& answer.0 == 400 && answer.2 == complaint
            &&& answer.1 == ErrorCode::InvalidLaunchArgs <==> launch && args
            &&& answer.1 == ErrorCode::InvalidLaunchVar <==> launch && !args && vars
            &&& answer.1 == ErrorCode::InvalidRequest <==> !launch || !args && !vars
        }),
{
}

/// One more parameter of a status query changes what it names and nothing else. It
/// is refused exactly where what it names is there already, is not known, or has no
/// name.
pub proof fn parameters_change_what_they_name(q: QueryModel, key: Seq<char>, value: Seq<char>)
    ensures
        ({
            let r = query_with(q, key, value);
            let name = key.skip(8);
            let named = "context."@.is_prefix_of(key) && key.len() > 8;
            &&& key == "target"@ ==> (r is Ok <==> q.target is None)
            &&& key == "session_id"@ ==> (r is Ok <==> q.session_id is None)
            &&& key != "target"@ && key != "session_id"@ ==> (r is Ok <==> named
                && !q.context.contains_key(name))
            &&& r matches Ok(next) ==> {
                &&& next.target == (if key == "target"@ {
                    Some(value)
                } else {
                    q.target
                })
                &&& next.session_id == (if key == "session_id"@ {
                    Some(value)
                } else {
                    q.session_id
                })
                &&& key == "target"@ || key == "session_id"@ ==> next.context == q.context
                &&& key != "target"@ && key != "session_id"@ ==> next.context == q.context.insert(
                    name,
                    value,
                )
            }
            &&& r matches Err(answer) ==> answer.0 == 400 && answer.1 == ErrorCode::InvalidRequest
        }),
{
    reveal_strlit("target");
    reveal_strlit("session_id");
    reveal_strlit("context.");
    assert("target"@.len() == 6 && "session_id"@.len() == 10 && "context."@.len() == 8);
}

/// A context is accepted exactly where no key occurs twice, and has no entry that
/// the request did not give.
pub proof fn contexts_are_accepted(entries: Seq<(String, String)>)
    ensures
        json_context(entries) is Ok <==> forall|i: int, j: int|
            0 <= i < j < entries.len() ==> (#[trigger] entries[i]).0@ != (#[trigger] entries[j]).0@,
        json_context(entries) matches Ok(context) ==> forall|key: Seq<char>| #[trigger]
            context.contains_key(key) ==> exists|i: int|
                0 <= i < entries.len() && (#[trigger] entries[i]).0@ == key,
    decreases entries.len(),
{
    if entries.len() > 0 {
        let front = entries.drop_last();
        let n = front.len() as int;
        contexts_are_accepted(front);
        assert forall|i: int| 0 <= i < n implies #[trigger] front[i] == entries[i] by {}
        assert(entries[n] == entries.last());
        let apart = forall|i: int, j: int|
            0 <= i < j < entries.len() ==> (#[trigger] entries[i]).0@ != (#[trigger] entries[j]).0@;
        if apart {
            assert forall|i: int, j: int| 0 <= i < j < front.len() implies (
            #[trigger] front[i]).0@ != (#[trigger] front[j]).0@ by {
                assert(entries[i].0@ != entries[j].0@);
            }
            let key = entries[n].0@;
            if json_context(front)->Ok_0.contains_key(key) {
                let i = choose|i: int| 0 <= i < front.len() && (#[trigger] front[i]).0@ == key;
                assert(entries[i].0@ == entries[n].0@);
            }
        }
        if json_context(entries) is Ok {
            let before = json_context(front)->Ok_0;
            let context = json_context(entries)->Ok_0;
            assert forall|i: int, j: int| 0 <= i < j < entries.len() implies (
            #[trigger] entries[i]).0@ != (#[trigger] entries[j]).0@ by {
                assert(front[i] == entries[i]);
                if j < n {
                    assert(front[j] == entries[j]);
                } else {
                    accepted_contexts_keep_every_entry(front, i);
                }
            }
            assert forall|key: Seq<char>| #[trigger] context.contains_key(key) implies exists|
                i: int,
            | 0 <= i < entries.len() && (#[trigger] entries[i]).0@ == key by {
                if before.contains_key(key) {
                    let i = choose|i: int| 0 <= i < front.len() && (#[trigger] front[i]).0@ == key;
                    assert(entries[i].0@ == key);
                } else {
                    assert(entries[n].0@ == key);
                }
            }
        }
    }
}

} // verus!
