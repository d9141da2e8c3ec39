//! Where log messages go.

use crate::failure::{outcome, plain, under, Chain, Failure};
use crate::gateway::container_spec::Labels;
use crate::paths::{
    resolve_workspace, workspace_path, UserContext, DEFAULT_AGENT_STATE_DIR,
};
use crate::text::{
    cat2, chars_of, decimal, decimal_text, is_white, opt_str, opt_text, pieces, split, texts, white,
};
use crate::gateway::ownership::prefixed_entries;
use crate::text_map::{finite_maps_are_listed, has_pair, listing, with_prefixed, TextMap};
use crate::unix_path::{join, joined_path};
use vstd::prelude::*;

verus! {

pub const DEFAULT_MAX_BYTES: u64 = 104857600;

pub const DEFAULT_MAX_FILES: usize = 5;

/// How logging is configured.
#[derive(Debug, Clone, PartialEq, Eq)]
pub struct LoggingConfig {
    pub level: String,
    pub console: bool,
    pub directory: Option<String>,
    pub max_bytes: Option<u64>,
    pub max_files: Option<usize>,
}

/// Where messages go.
#[derive(Debug, Clone, PartialEq, Eq)]
pub enum LogSink {
    /// A file that is rotated by its size.
    File { directory: String, file_prefix: String, max_bytes: u64, max_files: usize },
    StandardError,
    Nowhere,
}

pub enum SinkModel {
    File { directory: Seq<char>, file_prefix: Seq<char>, max_bytes: u64, max_files: usize },
    StandardError,
    Nowhere,
}

impl View for LogSink {
    type V = SinkModel;

    open spec fn view(&self) -> SinkModel {
        match self {
            LogSink::File { directory, file_prefix, max_bytes, max_files } => SinkModel::File {
                directory: directory@,
                file_prefix: file_prefix@,
                max_bytes: *max_bytes,
                max_files: *max_files,
            },
            LogSink::StandardError => SinkModel::StandardError,
            LogSink::Nowhere => SinkModel::Nowhere,
        }
    }
}

/// Logging as it is set up: which messages count, and where they go.
#[derive(Debug, Clone, PartialEq, Eq)]
pub struct LoggingGuard {
    pub directive: String,
    pub sink: LogSink,
}

impl View for LoggingGuard {
    type V = (Seq<char>, SinkModel);

    open spec fn view(&self) -> (Seq<char>, SinkModel) {
        (self.directive@, self.sink@)
    }
}

/// A directive that the filter can read to its end: it does not begin with white
/// space, or it is plain ASCII.
pub open spec fn readable_piece(piece: Seq<char>) -> bool {
    piece.len() == 0 || !is_white(piece[0]) || forall|i: int|
        0 <= i < piece.len() ==> (#[trigger] piece[i] as u32) < 0x80
}

/// A text whose directives, separated by commas, can each be read to their end.
pub open spec fn readable(directive: Seq<char>) -> bool {
    forall|i: int|
        0 <= i < pieces(directive, ',').len() ==> readable_piece(
            #[trigger] pieces(directive, ',')[i],
        )
}

fn piece_is_readable(piece: &str) -> (r: bool)
    ensures
        r == readable_piece(piece@),
{
    let all = chars_of(piece);
    if all.len() == 0 || !white(all[0]) {
        return true;
    }
    let mut i: usize = 0;
    while i < all.len()
        invariant
            i <= all.len(),
            all@ == piece@,
            piece@.len() > 0 && is_white(piece@[0]),
            forall|j: int| 0 <= j < i ==> (#[trigger] piece@[j] as u32) < 0x80,
        decreases all.len() - i,
    {
        if (all[i] as u32) >= 0x80 {
            return false;
        }
        i += 1;
    }
    true
}

/// Whether the filter can read a text of directives.
pub fn is_readable(directive: &str) -> (r: bool)
    ensures
        r == readable(directive@),
{
    let all = split(directive, ',');
    let ghost parts = pieces(directive@, ',');
    assert(texts(all@) == parts);
    let mut i: usize = 0;
    while i < all.len()
        invariant
            i <= all.len() == parts.len(),
            parts == pieces(directive@, ','),
            texts(all@) == parts,
            forall|j: int| 0 <= j < i ==> readable_piece(#[trigger] parts[j]),
        decreases all.len() - i,
    {
        assert(all@[i as int]@ == parts[i as int]);
        if !piece_is_readable(all[i].as_str()) {
            return false;
        }
        i += 1;
    }
    true
}

/// What is said against a text that does not say which messages count.
pub uninterp spec fn filter_fault(directive: Seq<char>) -> Option<Seq<char>>;

/// `tracing_subscriber::EnvFilter::try_new`: what its error says against a text
/// with directives, and nothing for a text that it accepts. It looks for the
/// parts of a directive behind leading white space and cuts them out of the
/// directive with it, which fails inside a character that takes several bytes:
/// such texts are left out.
#[verifier::external_body]
fn filter_complaint(directive: &str) -> (r: Option<String>)
    requires
        readable(directive@),
    ensures
        opt_text(r) == filter_fault(directive@),
{
    match tracing_subscriber::EnvFilter::try_new(directive) {
        Ok(_) => None,
        Err(error) => Some(error.to_string()),
    }
}

/// What is said against a text of directives.
pub open spec fn filter_verdict(directive: Seq<char>) -> Option<Seq<char>> {
    if readable(directive) {
        filter_fault(directive)
    } else {
        Some("a filter directive that begins with white space must be plain ASCII"@)
    }
}

fn filter_check(directive: &str) -> (r: Option<String>)
    ensures
        opt_text(r) == filter_verdict(directive@),
{
    if is_readable(directive) {
        filter_complaint(directive)
    } else {
        Some("a filter directive that begins with white space must be plain ASCII".to_owned())
    }
}

/// Which messages count: the command line before the environment, the
/// environment before the configuration.
pub open spec fn chosen_directive(
    level: Option<Seq<char>>,
    environment: Option<Seq<char>>,
    configured: Seq<char>,
) -> Seq<char> {
    match (level, environment) {
        (Some(text), _) => text,
        (None, Some(text)) => text,
        (None, None) => configured,
    }
}

/// Where messages go: a file where a directory is configured. Where the standard
/// output carries a protocol, messages without a file always go to the standard
/// error.
pub open spec fn chosen_sink(
    config: LoggingConfig,
    file_prefix: Seq<char>,
    protocol_mode: bool,
) -> SinkModel {
    match config.directory {
        Some(directory) => SinkModel::File {
            directory: directory@,
            file_prefix,
            max_bytes: match config.max_bytes {
                Some(n) => n,
                None => DEFAULT_MAX_BYTES,
            },
            max_files: match config.max_files {
                Some(n) => n,
                None => DEFAULT_MAX_FILES,
            },
        },
        None => if config.console || protocol_mode {
            SinkModel::StandardError
        } else {
            SinkModel::Nowhere
        },
    }
}

/// What a verdict on the directive leads to.
pub open spec fn set_up(
    config: LoggingConfig,
    directive: Seq<char>,
    verdict: Option<Seq<char>>,
    file_prefix: Seq<char>,
    protocol_mode: bool,
) -> Result<(Seq<char>, SinkModel), Chain> {
    match verdict {
        Some(said) => Err(under("invalid log filter"@, plain(said))),
        None => Ok((directive, chosen_sink(config, file_prefix, protocol_mode))),
    }
}

/// Which messages count.
pub fn log_directive(level: Option<&str>, environment: Option<&str>, configured: &str) -> (r: String)
    ensures
        r@ == chosen_directive(opt_str(level), opt_str(environment), configured@),
{
    match (level, environment) {
        (Some(text), _) => text.to_owned(),
        (None, Some(text)) => text.to_owned(),
        (None, None) => configured.to_owned(),
    }
}

/// What a verdict on the directive leads to. `complaint` is what is said against
/// the directive.
pub fn logging_guard(
    config: LoggingConfig,
    directive: String,
    complaint: Option<String>,
    file_prefix: &str,
    protocol_mode: bool,
) -> (r: Result<LoggingGuard, Failure>)
    ensures
        outcome(r) == set_up(
            config,
            directive@,
            opt_text(complaint),
            file_prefix@,
            protocol_mode,
        ),
{
    if let Some(said) = complaint {
        return Err(Failure::msg(said.as_str()).context("invalid log filter"));
    }
    let sink = match config.directory {
        Some(directory) => {
            let max_bytes: u64 = match config.max_bytes {
                Some(n) => n,
                None => DEFAULT_MAX_BYTES,
            };
            let max_files: usize = match config.max_files {
                Some(n) => n,
                None => DEFAULT_MAX_FILES,
            };
            LogSink::File { directory, file_prefix: file_prefix.to_owned(), max_bytes, max_files }
        },
        None => if config.console || protocol_mode {
            LogSink::StandardError
        } else {
            LogSink::Nowhere
        },
    };
    Ok(LoggingGuard { directive, sink })
}

/// Sets up logging as configured.
pub fn init(
    config: LoggingConfig,
    level: Option<&str>,
    environment: Option<&str>,
    file_prefix: &str,
    protocol_mode: bool,
) -> (r: Result<LoggingGuard, Failure>)
    ensures
        ({
            let directive = chosen_directive(
                opt_str(level),
                opt_str(environment),
                config.level@,
            );
            outcome(r) == set_up(
                config,
                directive,
                filter_verdict(directive),
                file_prefix@,
                protocol_mode,
            )
        }),
{
    let directive = log_directive(level, environment, config.level.as_str());
    let complaint = filter_check(directive.as_str());
    logging_guard(config, directive, complaint, file_prefix, protocol_mode)
}

/// The failure to open the log file.
pub fn file_logging_failure(file_prefix: &str, failure: Failure) -> (r: Failure)
    ensures
        r@ == under("initialize file logging for "@ + file_prefix@, failure@),
{
    failure.context(cat2("initialize file logging for ", file_prefix).as_str())
}

/// The path of a log file.
pub fn log_file_path(directory: &str, file_prefix: &str) -> (r: String)
    ensures
        r@ == joined_path(directory@, file_prefix@ + ".log"@),
{
    join(directory, cat2(file_prefix, ".log").as_str())
}

// ---------------------------------------------------------------- the gateway's and the agent's

/// What was read of the configuration. `directory` is the text of the log
/// directory as it was filled in; it counts only where one is configured.
#[derive(Debug)]
pub struct GatewayLogging {
    pub loaded: Result<LoggingConfig, Failure>,
    pub context: Result<(), Failure>,
    pub workspace: Result<(), Failure>,
    pub directory: Result<String, Failure>,
}

pub open spec fn with_directory(config: LoggingConfig, directory: Option<String>) -> LoggingConfig {
    LoggingConfig { directory, ..config }
}

/// A configuration with its directory filled in.
pub open spec fn filled_in(
    config: LoggingConfig,
    directory: Result<String, Failure>,
    said: Seq<char>,
) -> Result<LoggingConfig, Chain> {
    if config.directory is None {
        Ok(config)
    } else {
        match directory {
            Ok(text) => Ok(with_directory(config, Some(text))),
            Err(failure) => Err(under(said, failure@)),
        }
    }
}

fn fill_in(config: LoggingConfig, directory: Result<String, Failure>, said: &str) -> (r: Result<
    LoggingConfig,
    Failure,
>)
    ensures
        match filled_in(config, directory, said@) {
            Ok(expected) => r == Ok::<LoggingConfig, Failure>(expected),
            Err(chain) => r matches Err(failure) && failure@ == chain,
        },
{
    if config.directory.is_none() {
        return Ok(config);
    }
    match directory {
        Ok(text) => Ok(
            LoggingConfig {
                level: config.level,
                console: config.console,
                directory: Some(text),
                max_bytes: config.max_bytes,
                max_files: config.max_files,
            },
        ),
        Err(failure) => Err(failure.context(said)),
    }
}

/// The logging of the gateway, as it is configured.
pub open spec fn gateway_logging(input: GatewayLogging) -> Result<LoggingConfig, Chain> {
    let said = "render gateway logging directory"@;
    match input.loaded {
        Err(failure) => Err(failure@),
        Ok(config) => match input.context {
            Err(failure) => Err(failure@),
            Ok(_) => match input.workspace {
                Err(failure) => Err(under(said, failure@)),
                Ok(_) => filled_in(config, input.directory, said),
            },
        },
    }
}

/// Logging without a configuration file.
pub fn fallback_config(defaults: LoggingConfig, console: bool) -> (r: LoggingConfig)
    ensures
        r == (LoggingConfig { console, ..defaults }),
{
    LoggingConfig {
        level: defaults.level,
        console,
        directory: defaults.directory,
        max_bytes: defaults.max_bytes,
        max_files: defaults.max_files,
    }
}

fn read_gateway_logging(input: GatewayLogging) -> (r: Result<LoggingConfig, Failure>)
    ensures
        match gateway_logging(input) {
            Ok(expected) => r == Ok::<LoggingConfig, Failure>(expected),
            Err(chain) => r matches Err(failure) && failure@ == chain,
        },
{
    let config = match input.loaded {
        Ok(config) => config,
        Err(failure) => return Err(failure),
    };
    if let Err(failure) = input.context {
        return Err(failure);
    }
    if let Err(failure) = input.workspace {
        return Err(failure.context("render gateway logging directory"));
    }
    fill_in(config, input.directory, "render gateway logging directory")
}

/// Sets up the gateway's logging. Without a configuration file messages go to
/// the console, unless the standard output carries a protocol. `environment` is
/// the value of `AW_GATEWAY_LOG_LEVEL`.
pub fn init_gateway(
    config: Option<GatewayLogging>,
    defaults: LoggingConfig,
    level: Option<&str>,
    environment: Option<&str>,
    protocol_mode: bool,
) -> (r: Result<LoggingGuard, Failure>)
    ensures
        ({
            let effective = match config {
                Some(input) => gateway_logging(input),
                None => Ok(LoggingConfig { console: !protocol_mode, ..defaults }),
            };
            outcome(r) == match effective {
                Err(chain) => Err::<(Seq<char>, SinkModel), Chain>(chain),
                Ok(logging) => {
                    let directive = chosen_directive(
                        opt_str(level),
                        opt_str(environment),
                        logging.level@,
                    );
                    set_up(
                        logging,
                        directive,
                        filter_verdict(directive),
                        "aw-gateway"@,
                        protocol_mode,
                    )
                },
            }
        }),
{
    let logging = match config {
        Some(input) => match read_gateway_logging(input) {
            Ok(logging) => logging,
            Err(failure) => return Err(failure),
        },
        None => fallback_config(defaults, !protocol_mode),
    };
    init(logging, level, environment, "aw-gateway", protocol_mode)
}

/// Sets up the agent's logging. `config` is the loaded configuration and the
/// text of its log directory as it was filled in; `environment` is the value of
/// `AW_CONTAINER_AGENT_LOG_LEVEL`.
pub fn init_agent(
    config: Option<(Result<LoggingConfig, Failure>, Result<String, Failure>)>,
    defaults: LoggingConfig,
    level: Option<&str>,
    environment: Option<&str>,
) -> (r: Result<LoggingGuard, Failure>)
    ensures
        ({
            let effective = match config {
                Some((Err(failure), _)) => Err(failure@),
                Some((Ok(loaded), directory)) => filled_in(
                    loaded,
                    directory,
                    "render container-agent logging directory"@,
                ),
                None => Ok(LoggingConfig { console: true, ..defaults }),
            };
            outcome(r) == match effective {
                Err(chain) => Err::<(Seq<char>, SinkModel), Chain>(chain),
                Ok(logging) => {
                    let directive = chosen_directive(
                        opt_str(level),
                        opt_str(environment),
                        logging.level@,
                    );
                    set_up(
                        logging,
                        directive,
                        filter_verdict(directive),
                        "aw-container-agent"@,
                        false,
                    )
                },
            }
        }),
{
    let logging = match config {
        Some((Err(failure), _)) => return Err(failure),
        Some((Ok(loaded), directory)) => match fill_in(
            loaded,
            directory,
            "render container-agent logging directory",
        ) {
            Ok(logging) => logging,
            Err(failure) => return Err(failure),
        },
        None => fallback_config(defaults, true),
    };
    init(logging, level, environment, "aw-container-agent", false)
}

/// Messages never go to the standard output: where it carries a protocol, they
/// still go somewhere.
pub proof fn protocols_are_not_disturbed(config: LoggingConfig, file_prefix: Seq<char>)
    ensures
        !(chosen_sink(config, file_prefix, true) is Nowhere),
{
}

/// What stands for what in the text of the gateway's log directory.
pub open spec fn gateway_vars_map(
    user: UserContext,
    path: Seq<char>,
    state_dir: Seq<char>,
    context: Labels,
) -> Labels {
    let workspace = workspace_path(user.home@, path);
    let state = joined_path(workspace, state_dir);
    with_prefixed(
        Map::empty().insert("user"@, user.user@).insert("uid"@, decimal(user.uid as nat)).insert(
            "gid"@,
            decimal(user.gid as nat),
        ).insert("home"@, user.home@).insert("workspace"@, workspace).insert("state"@, state).insert(
            "state_dir"@,
            state,
        ),
        "context."@,
        listing(context),
    )
}

pub fn gateway_logging_vars(
    user: &UserContext,
    path: &str,
    state_dir: &str,
    context: &TextMap<String>,
) -> (r: TextMap<String>)
    ensures
        r@ == gateway_vars_map(*user, path@, state_dir@, context@),
{
    let workspace = resolve_workspace(user.home.as_str(), path);
    let state = join(workspace.as_str(), state_dir);
    let mut vars: TextMap<String> = TextMap::new();
    vars.insert("user".to_owned(), user.user.clone());
    vars.insert("uid".to_owned(), decimal_text(user.uid as u64));
    vars.insert("gid".to_owned(), decimal_text(user.gid as u64));
    vars.insert("home".to_owned(), user.home.clone());
    vars.insert("workspace".to_owned(), workspace);
    vars.insert("state".to_owned(), state.clone());
    vars.insert("state_dir".to_owned(), state);
    vars.extend_prefixed("context.", context);
    vars
}

/// What stands for what in the text of the agent's log directory. `state_dir` is
/// the value of `AW_CONTAINER_STATE_DIR`.
pub fn agent_logging_vars(state_dir: Option<&str>) -> (r: TextMap<String>)
    ensures
        r@ == Map::<Seq<char>, Seq<char>>::empty().insert(
            "container_state_dir"@,
            match state_dir {
                Some(dir) => dir@,
                None => DEFAULT_AGENT_STATE_DIR@,
            },
        ),
{
    let dir = match state_dir {
        Some(dir) => dir.to_owned(),
        None => DEFAULT_AGENT_STATE_DIR.to_owned(),
    };
    let mut vars: TextMap<String> = TextMap::new();
    vars.insert("container_state_dir".to_owned(), dir);
    vars
}

// ---------------------------------------------------------------- laws

/// What counts is what the command line says, else what the environment says, else
/// what is configured. It is set up exactly where nothing is said against it, and
/// then as it was written.
pub proof fn directives_count_in_their_order(
    level: Option<Seq<char>>,
    environment: Option<Seq<char>>,
    config: LoggingConfig,
    verdict: Option<Seq<char>>,
    file_prefix: Seq<char>,
    protocol_mode: bool,
)
    ensures
        ({
            let directive = chosen_directive(level, environment, config.level@);
            let r = set_up(config, directive, verdict, file_prefix, protocol_mode);
            &&& level is Some ==> Some(directive) == level
            &&& level is None && environment is Some ==> Some(directive) == environment
            &&& level is None && environment is None ==> directive == config.level@
            &&& r is Ok <==> verdict is None
            &&& r matches Ok((used, sink)) ==> used == directive && sink == chosen_sink(
                config,
                file_prefix,
                protocol_mode,
            )
        }),
{
}

/// Messages go to a file exactly where a directory is configured, under the name
/// that is asked for and within the configured limits, or those of a hundred
/// megabytes and five files. Else they go to the standard error where the console is
/// asked for or the standard output carries a protocol.
pub proof fn messages_go_where_configured(
    config: LoggingConfig,
    file_prefix: Seq<char>,
    protocol_mode: bool,
)
    ensures
        ({
            let sink = chosen_sink(config, file_prefix, protocol_mode);
            &&& sink is File <==> config.directory is Some
            &&& sink is StandardError <==> config.directory is None && (config.console
                || protocol_mode)
            &&& sink matches SinkModel::File { directory, file_prefix: name, max_bytes, max_files }
                ==> {
                &&& Some(directory) == opt_text(config.directory)
                &&& name == file_prefix
                &&& config.max_bytes is Some ==> config.max_bytes == Some(max_bytes)
                &&& config.max_bytes is None ==> max_bytes == 100 * 1024 * 1024
                &&& config.max_files is Some ==> config.max_files == Some(max_files)
                &&& config.max_files is None ==> max_files == 5
            }
        }),
{
}

/// Filling in a directory changes that alone, and only where one is configured; it
/// fails exactly where one is configured that cannot be filled in.
pub proof fn only_directories_are_filled_in(
    config: LoggingConfig,
    directory: Result<String, Failure>,
    said: Seq<char>,
)
    ensures
        ({
            let r = filled_in(config, directory, said);
            &&& r is Ok <==> config.directory is None || directory is Ok
            &&& r matches Ok(filled) ==> {
                &&& filled.level == config.level && filled.console == config.console
                &&& filled.max_bytes == config.max_bytes && filled.max_files == config.max_files
                &&& filled.directory is Some <==> config.directory is Some
                &&& config.directory is Some ==> (directory matches Ok(text) ==> filled.directory
                    == Some(text))
            }
        }),
{
}

/// The gateway's logging is read exactly where its configuration, its context, its
/// workspace and, if configured, its directory could be; the first that could not
/// is told.
pub proof fn logging_is_read_in_order(input: GatewayLogging)
    ensures
        gateway_logging(input) is Ok <==> input.loaded is Ok && input.context is Ok
            && input.workspace is Ok && (input.loaded->Ok_0.directory is None || input.directory
            is Ok),
        input.loaded matches Err(failure) ==> gateway_logging(input) == Err::<LoggingConfig, Chain>(
            failure@,
        ),
        input.loaded is Ok ==> (input.context matches Err(failure) ==> gateway_logging(input)
            == Err::<LoggingConfig, Chain>(failure@)),
        gateway_logging(input) matches Ok(config) ==> config.level == input.loaded->Ok_0.level
            && config.console == input.loaded->Ok_0.console && (input.loaded->Ok_0.directory is None
            ==> config.directory is None) && (input.loaded->Ok_0.directory is Some
            ==> config.directory == Some(input.directory->Ok_0)),
{
}

/// The text of the gateway's log directory can mention the user, the workspace and
/// the state below it, and every entry of the context.
pub proof fn logging_variables_tell_of_the_user(
    user: UserContext,
    path: Seq<char>,
    state_dir: Seq<char>,
    context: Labels,
)
    requires
        context.dom().finite(),
    ensures
        ({
            let vars = gateway_vars_map(user, path, state_dir, context);
            let workspace = workspace_path(user.home@, path);
            &&& vars.contains_pair("user"@, user.user@)
            &&& vars.contains_pair("uid"@, decimal(user.uid as nat))
            &&& vars.contains_pair("gid"@, decimal(user.gid as nat))
            &&& vars.contains_pair("home"@, user.home@)
            &&& vars.contains_pair("workspace"@, workspace)
            &&& vars.contains_pair("state"@, joined_path(workspace, state_dir))
            &&& vars.contains_pair("state_dir"@, joined_path(workspace, state_dir))
            &&& forall|key: Seq<char>| #[trigger]
                context.contains_key(key) ==> vars.contains_pair("context."@ + key, context[key])
        }),
{
    reveal_strlit("user");
    reveal_strlit("uid");
    reveal_strlit("gid");
    reveal_strlit("home");
    reveal_strlit("workspace");
    reveal_strlit("state");
    reveal_strlit("state_dir");
    reveal_strlit("context.");
    assert("user"@.len() == 4 && "user"@[0] == 'u');
    assert("uid"@.len() == 3 && "uid"@[0] == 'u');
    assert("gid"@.len() == 3 && "gid"@[0] == 'g');
    assert("home"@.len() == 4 && "home"@[0] == 'h');
    assert("workspace"@.len() == 9 && "workspace"@[0] == 'w');
    assert("state"@.len() == 5);
    assert("state_dir"@.len() == 9 && "state_dir"@[0] == 's');
    let prefix = "context."@;
    assert(prefix.len() == 8 && prefix[0] == 'c');
    let workspace = workspace_path(user.home@, path);
    let state = joined_path(workspace, state_dir);
    let pairs = listing(context);
    finite_maps_are_listed(context);
    assert forall|i: int, j: int| 0 <= i < j < pairs.len() implies pairs[i].0 != pairs[j].0 by {
        crate::text_map::precedes_irreflexive(pairs[i].0);
    }
    let first = Map::empty().insert("user"@, user.user@).insert(
        "uid"@,
        decimal(user.uid as nat),
    ).insert("gid"@, decimal(user.gid as nat)).insert("home"@, user.home@).insert(
        "workspace"@,
        workspace,
    ).insert("state"@, state).insert("state_dir"@, state);
    prefixed_entries(first, prefix, pairs);
    let vars = with_prefixed(first, prefix, pairs);
    assert forall|key: Seq<char>| key.len() < 8 || key[0] != 'c' implies !#[trigger] prefix.is_prefix_of(
        key,
    ) by {
        if prefix.is_prefix_of(key) {
            assert(key[0] == prefix[0]);
        }
    }
    assert(vars.contains_key("user"@) && vars.contains_key("uid"@) && vars.contains_key("gid"@));
    assert(vars.contains_key("home"@) && vars.contains_key("workspace"@) && vars.contains_key(
        "state"@,
    ) && vars.contains_key("state_dir"@));
    assert forall|key: Seq<char>| #[trigger] context.contains_key(key) implies vars.contains_pair(
        prefix + key,
        context[key],
    ) by {
        assert(has_pair(pairs, key, context[key]));
        let i = choose|i: int| 0 <= i < pairs.len() && #[trigger] pairs[i] == (key, context[key]);
        assert(vars.contains_key(prefix + pairs[i].0));
    }
}

/// A filter is judged by the outside parser wherever that can read it, and refused
/// elsewhere. It can read plain ASCII, and whatever does not begin with white space
/// behind a comma or at its front.
pub proof fn filters_are_judged_where_they_can_be_read(directive: Seq<char>, piece: Seq<char>)
    ensures
        readable(directive) ==> filter_verdict(directive) == filter_fault(directive),
        !readable(directive) ==> filter_verdict(directive) is Some,
        (forall|i: int| 0 <= i < piece.len() ==> (#[trigger] piece[i] as u32) < 0x80)
            ==> readable_piece(piece),
        piece.len() > 0 && !is_white(piece[0]) ==> readable_piece(piece),
        readable_piece(Seq::empty()),
        piece.len() > 0 && is_white(piece[0]) && (exists|i: int|
            0 <= i < piece.len() && (#[trigger] piece[i] as u32) >= 0x80) ==> !readable_piece(
            piece,
        ),
{
}

} // verus!
