//! Where the gateway's own files are.

use crate::failure::{outcome, plain, Chain, Failure};
use crate::text::{cat2, join as join_texts, joined, opt_str, opt_text, same, strip_prefix, texts};
use crate::unix_path::{is_absolute, is_absolute_path, join, joined_path};
use vstd::prelude::*;

verus! {

pub const DEFAULT_AGENT_STATE_DIR: &'static str = "/tmp/aw-gateway/container";

pub const SYSTEM_GATEWAY_CONFIG_PATH: &'static str = "/etc/aw-gateway/gateway.toml";

const USER_GATEWAY_CONFIG_FILE: &'static str = "gateway.toml";

/// The user on whose behalf the gateway runs.
#[derive(Debug, Clone, PartialEq, Eq)]
pub struct UserContext {
    pub uid: u32,
    pub gid: u32,
    pub user: String,
    pub home: String,
}

/// The first directory that is set, or `fallback` below the home directory.
pub open spec fn first_dir(
    own: Option<Seq<char>>,
    shared: Option<Seq<char>>,
    home: Seq<char>,
    fallback: Seq<char>,
) -> Seq<char> {
    let base = match (own, shared) {
        (Some(dir), _) => dir,
        (None, Some(dir)) => dir,
        (None, None) => joined_path(home, fallback),
    };
    joined_path(base, "aw-gateway"@)
}

fn pick_dir(own: Option<&str>, shared: Option<&str>, home: &str, fallback: &str) -> (r: String)
    ensures
        r@ == first_dir(opt_str(own), opt_str(shared), home@, fallback@),
{
    let base = match (own, shared) {
        (Some(dir), _) => dir.to_owned(),
        (None, Some(dir)) => dir.to_owned(),
        (None, None) => join(home, fallback),
    };
    join(base.as_str(), "aw-gateway")
}

impl UserContext {
    /// The directory of the user's configuration, given the values of
    /// `AW_GATEWAY_CONFIG_HOME` and `XDG_CONFIG_HOME`.
    pub fn config_dir(&self, own: Option<&str>, shared: Option<&str>) -> (r: String)
        ensures
            r@ == first_dir(opt_str(own), opt_str(shared), self.home@, ".config"@),
    {
        pick_dir(own, shared, self.home.as_str(), ".config")
    }

    /// The directory of the user's state, given the values of
    /// `AW_GATEWAY_STATE_HOME` and `XDG_STATE_HOME`.
    pub fn state_dir(&self, own: Option<&str>, shared: Option<&str>) -> (r: String)
        ensures
            r@ == first_dir(opt_str(own), opt_str(shared), self.home@, ".local/state"@),
    {
        pick_dir(own, shared, self.home.as_str(), ".local/state")
    }

    /// A copy with the same values.
    pub fn duplicate(&self) -> (r: UserContext)
        ensures
            r == *self,
    {
        UserContext {
            uid: self.uid,
            gid: self.gid,
            user: self.user.clone(),
            home: self.home.clone(),
        }
    }
}

/// Where the chosen configuration file was named.
#[derive(Debug, Clone, Copy, PartialEq, Eq, Structural)]
pub enum GatewayConfigSource {
    ExplicitFlag,
    Environment,
    User,
    System,
    Nowhere,
}

/// A file that was considered.
#[derive(Debug, Clone, PartialEq, Eq)]
pub struct GatewayConfigCandidate {
    pub source: GatewayConfigSource,
    pub path: String,
    pub exists: bool,
}

impl View for GatewayConfigCandidate {
    type V = (GatewayConfigSource, Seq<char>, bool);

    open spec fn view(&self) -> (GatewayConfigSource, Seq<char>, bool) {
        (self.source, self.path@, self.exists)
    }
}

pub open spec fn candidate_models(v: Seq<GatewayConfigCandidate>) -> Seq<
    (GatewayConfigSource, Seq<char>, bool),
> {
    Seq::new(v.len(), |i: int| v[i]@)
}

/// Which configuration file the gateway uses, and what it considered.
#[derive(Debug, Clone)]
pub struct GatewayConfigResolution {
    pub user: Option<UserContext>,
    pub user_config_dir: Option<String>,
    pub user_state_dir: Option<String>,
    pub user_config_file: Option<String>,
    pub system_config_file: String,
    pub candidates: Vec<GatewayConfigCandidate>,
    pub selected_source: GatewayConfigSource,
    pub selected_path: Option<String>,
}

pub open spec fn candidate_paths(v: Seq<GatewayConfigCandidate>) -> Seq<Seq<char>> {
    Seq::new(v.len(), |i: int| v[i].path@)
}

impl GatewayConfigResolution {
    /// The chosen file, or a failure that lists what was considered.
    pub fn selected_path(&self) -> (r: Result<String, Failure>)
        ensures
            outcome(r) == match self.selected_path {
                Some(path) => Ok::<Seq<char>, Chain>(path@),
                None => Err(
                    plain(
                        "gateway config not found; checked: "@ + joined(
                            candidate_paths(self.candidates@),
                            ", "@,
                        ),
                    ),
                ),
            },
    {
        if let Some(path) = &self.selected_path {
            return Ok(path.clone());
        }
        let mut checked: Vec<String> = Vec::new();
        let mut i: usize = 0;
        while i < self.candidates.len()
            invariant
                i <= self.candidates.len(),
                texts(checked@) == candidate_paths(self.candidates@).take(i as int),
            decreases self.candidates.len() - i,
        {
            let ghost before = texts(checked@);
            checked.push(self.candidates[i].path.clone());
            assert(texts(checked@) =~= before.push(self.candidates@[i as int].path@));
            assert(texts(checked@) =~= candidate_paths(self.candidates@).take(i + 1));
            i += 1;
        }
        assert(candidate_paths(self.candidates@).take(i as int) =~= candidate_paths(
            self.candidates@,
        ));
        let list = join_texts(&checked, ", ");
        Err(Failure::msg(cat2("gateway config not found; checked: ", list.as_str()).as_str()))
    }
}

/// What the process sees of its surroundings when it looks for a configuration.
#[derive(Debug)]
pub struct ConfigSurroundings {
    /// The value of `AW_GATEWAY_CONFIG`.
    pub env_path: Option<String>,
    /// Whether the file that the flag or the environment names exists.
    pub named_exists: bool,
    pub user: Result<UserContext, Failure>,
    pub config_home: Option<String>,
    pub xdg_config_home: Option<String>,
    pub state_home: Option<String>,
    pub xdg_state_home: Option<String>,
    pub user_exists: bool,
    pub system_exists: bool,
}

impl ConfigSurroundings {
    /// The user's configuration directory.
    pub open spec fn config_dir(self, home: Seq<char>) -> Seq<char> {
        first_dir(opt_text(self.config_home), opt_text(self.xdg_config_home), home, ".config"@)
    }

    pub open spec fn state_dir(self, home: Seq<char>) -> Seq<char> {
        first_dir(opt_text(self.state_home), opt_text(self.xdg_state_home), home, ".local/state"@)
    }

    pub open spec fn user_file(self, home: Seq<char>) -> Seq<char> {
        joined_path(self.config_dir(home), "gateway.toml"@)
    }

    /// The candidates after one that was named: the user's file, where the user
    /// is known, and the system's.
    pub open spec fn unnamed(self) -> Seq<(GatewayConfigSource, Seq<char>, bool)> {
        let system = (
            GatewayConfigSource::System,
            SYSTEM_GATEWAY_CONFIG_PATH@,
            self.system_exists,
        );
        match self.user {
            Ok(user) => seq![
                (GatewayConfigSource::User, self.user_file(user.home@), self.user_exists),
                system,
            ],
            Err(_) => seq![system],
        }
    }
}

/// The path named by the flag or, without one, by the environment.
pub open spec fn named_path(input: Option<Seq<char>>, env: Option<Seq<char>>) -> Option<
    (GatewayConfigSource, Seq<char>),
> {
    match (input, env) {
        (Some(path), _) => Some((GatewayConfigSource::ExplicitFlag, path)),
        (None, Some(path)) => Some((GatewayConfigSource::Environment, path)),
        (None, None) => None,
    }
}

/// The file that is used: one that was named, whether or not it exists; else
/// the user's if it exists, else the system's if it exists.
pub open spec fn chosen(input: Option<Seq<char>>, around: ConfigSurroundings) -> (
    GatewayConfigSource,
    Option<Seq<char>>,
) {
    match named_path(input, opt_text(around.env_path)) {
        Some((source, path)) => (source, Some(path)),
        None => if around.user_exists {
            (GatewayConfigSource::User, Some(around.user_file(around.user->Ok_0.home@)))
        } else if around.system_exists {
            (GatewayConfigSource::System, Some(SYSTEM_GATEWAY_CONFIG_PATH@))
        } else {
            (GatewayConfigSource::Nowhere, None)
        },
    }
}

pub open spec fn resolution_is(
    r: GatewayConfigResolution,
    input: Option<Seq<char>>,
    around: ConfigSurroundings,
) -> bool {
    &&& candidate_models(r.candidates@) == match named_path(input, opt_text(around.env_path)) {
        Some((source, path)) => seq![(source, path, around.named_exists)] + around.unnamed(),
        None => around.unnamed(),
    }
    &&& (r.selected_source, opt_text(r.selected_path)) == chosen(input, around)
    &&& r.system_config_file@ == SYSTEM_GATEWAY_CONFIG_PATH@
    &&& match around.user {
        Ok(user) => {
            &&& r.user == Some(user)
            &&& opt_text(r.user_config_dir) == Some(around.config_dir(user.home@))
            &&& opt_text(r.user_state_dir) == Some(around.state_dir(user.home@))
            &&& opt_text(r.user_config_file) == Some(around.user_file(user.home@))
        },
        Err(_) => {
            &&& r.user is None
            &&& r.user_config_dir is None
            &&& r.user_state_dir is None
            &&& r.user_config_file is None
        },
    }
}

fn as_slice(o: &Option<String>) -> (r: Option<&str>)
    ensures
        opt_str(r) == opt_text(*o),
{
    match o {
        Some(s) => Some(s.as_str()),
        None => None,
    }
}

/// Decides which configuration file the gateway uses. A file that the flag or
/// the environment names is used as it is; otherwise the user must be known.
pub fn resolve_gateway_config(input: Option<String>, around: ConfigSurroundings) -> (r: Result<
    GatewayConfigResolution,
    Failure,
>)
    ensures
        r is Err <==> named_path(opt_text(input), opt_text(around.env_path)) is None
            && around.user is Err,
        r matches Err(failure) ==> failure@ == around.user->Err_0@,
        r matches Ok(resolution) ==> resolution_is(resolution, opt_text(input), around),
{
    let ghost input_text = opt_text(input);
    let named: Option<(GatewayConfigSource, String)> = match input {
        Some(path) => Some((GatewayConfigSource::ExplicitFlag, path)),
        None => match &around.env_path {
            Some(path) => Some((GatewayConfigSource::Environment, path.clone())),
            None => None,
        },
    };
    let mut candidates: Vec<GatewayConfigCandidate> = Vec::new();
    let mut user: Option<UserContext> = None;
    let mut user_config_dir: Option<String> = None;
    let mut user_state_dir: Option<String> = None;
    let mut user_config_file: Option<String> = None;
    if let Some((source, path)) = &named {
        candidates.push(
            GatewayConfigCandidate {
                source: *source,
                path: path.clone(),
                exists: around.named_exists,
            },
        );
    }
    let ghost first = candidate_models(candidates@);
    match &around.user {
        Ok(context) => {
            let dir = context.config_dir(
                as_slice(&around.config_home),
                as_slice(&around.xdg_config_home),
            );
            let state = context.state_dir(
                as_slice(&around.state_home),
                as_slice(&around.xdg_state_home),
            );
            let file = join(dir.as_str(), USER_GATEWAY_CONFIG_FILE);
            candidates.push(
                GatewayConfigCandidate {
                    source: GatewayConfigSource::User,
                    path: file.clone(),
                    exists: around.user_exists,
                },
            );
            user = Some(context.duplicate());
            user_config_dir = Some(dir);
            user_state_dir = Some(state);
            user_config_file = Some(file);
        },
        Err(_) => {},
    }
    candidates.push(
        GatewayConfigCandidate {
            source: GatewayConfigSource::System,
            path: SYSTEM_GATEWAY_CONFIG_PATH.to_owned(),
            exists: around.system_exists,
        },
    );
    assert(candidate_models(candidates@) =~= first + around.unnamed());
    let (selected_source, selected_path) = match named {
        Some((source, path)) => {
            assert(first =~= seq![(source, path@, around.named_exists)]);
            (source, Some(path))
        },
        None => {
            assert(first =~= Seq::empty());
            assert(first + around.unnamed() =~= around.unnamed());
            if let Err(failure) = around.user {
                return Err(failure);
            }
            if around.user_exists {
                (GatewayConfigSource::User, user_config_file.clone())
            } else if around.system_exists {
                (GatewayConfigSource::System, Some(SYSTEM_GATEWAY_CONFIG_PATH.to_owned()))
            } else {
                (GatewayConfigSource::Nowhere, None)
            }
        },
    };
    Ok(
        GatewayConfigResolution {
            user,
            user_config_dir,
            user_state_dir,
            user_config_file,
            system_config_file: SYSTEM_GATEWAY_CONFIG_PATH.to_owned(),
            candidates,
            selected_source,
            selected_path,
        },
    )
}

/// The path of the configuration file, or the system's where none was found.
pub fn gateway_config_path(input: Option<String>, around: ConfigSurroundings) -> (r: String)
    ensures
        r@ == (if named_path(opt_text(input), opt_text(around.env_path)) is None && around.user is Err {
            SYSTEM_GATEWAY_CONFIG_PATH@
        } else {
            match chosen(opt_text(input), around).1 {
                Some(path) => path,
                None => SYSTEM_GATEWAY_CONFIG_PATH@,
            }
        }),
{
    match resolve_gateway_config(input, around) {
        Ok(resolution) => match resolution.selected_path() {
            Ok(path) => path,
            Err(_) => SYSTEM_GATEWAY_CONFIG_PATH.to_owned(),
        },
        Err(_) => SYSTEM_GATEWAY_CONFIG_PATH.to_owned(),
    }
}

/// The flag, the environment, or the default.
pub open spec fn first_path(
    input: Option<Seq<char>>,
    env: Option<Seq<char>>,
    default: Seq<char>,
) -> Seq<char> {
    match (input, env) {
        (Some(path), _) => path,
        (None, Some(path)) => path,
        (None, None) => default,
    }
}

fn pick_path(input: Option<String>, env: Option<String>, default: &str) -> (r: String)
    ensures
        r@ == first_path(opt_text(input), opt_text(env), default@),
{
    match (input, env) {
        (Some(path), _) => path,
        (None, Some(path)) => path,
        (None, None) => default.to_owned(),
    }
}

/// The agent's configuration, given the value of `AW_CONTAINER_AGENT_CONFIG`.
pub fn agent_config_path(input: Option<String>, env: Option<String>) -> (r: String)
    ensures
        r@ == first_path(
            opt_text(input),
            opt_text(env),
            "/etc/aw-gateway/container-agent.toml"@,
        ),
{
    pick_path(input, env, "/etc/aw-gateway/container-agent.toml")
}

/// The bootstrap's configuration, given the value of `AW_CONTAINER_BOOTSTRAP_CONFIG`.
pub fn bootstrap_config_path(input: Option<String>, env: Option<String>) -> (r: String)
    ensures
        r@ == first_path(
            opt_text(input),
            opt_text(env),
            "/etc/aw-gateway/container-bootstrap.toml"@,
        ),
{
    pick_path(input, env, "/etc/aw-gateway/container-bootstrap.toml")
}

/// A text with a leading `~` or `~/` replaced by the home directory.
pub open spec fn with_home(home: Seq<char>, input: Seq<char>) -> Seq<char> {
    if input == "~"@ {
        home
    } else if "~/"@.is_prefix_of(input) {
        joined_path(home, input.skip(2))
    } else {
        input
    }
}

pub fn expand_home(home: &str, input: &str) -> (r: String)
    ensures
        r@ == with_home(home@, input@),
{
    proof {
        reveal_strlit("~/");
    }
    if same(input, "~") {
        return home.to_owned();
    }
    if let Some(rest) = strip_prefix(input, "~/") {
        return join(home, rest);
    }
    input.to_owned()
}

/// The workspace that a configured text stands for.
pub open spec fn workspace_path(home: Seq<char>, configured: Seq<char>) -> Seq<char> {
    let path = with_home(home, configured);
    if is_absolute_path(path) {
        path
    } else {
        joined_path(home, path)
    }
}

pub fn resolve_workspace(home: &str, configured: &str) -> (r: String)
    ensures
        r@ == workspace_path(home@, configured@),
{
    let path = expand_home(home, configured);
    if is_absolute(path.as_str()) {
        path
    } else {
        join(home, path.as_str())
    }
}

/// With an absolute home directory, a workspace is always absolute.
pub proof fn workspace_is_absolute(home: Seq<char>, configured: Seq<char>)
    requires
        is_absolute_path(home),
    ensures
        is_absolute_path(workspace_path(home, configured)),
{
}

/// Expanding the home directory twice is expanding it once, where the home
/// directory is absolute.
pub proof fn expanding_home_is_idempotent(home: Seq<char>, input: Seq<char>)
    requires
        is_absolute_path(home),
    ensures
        with_home(home, with_home(home, input)) == with_home(home, input),
{
    reveal_strlit("~");
    reveal_strlit("~/");
    let once = with_home(home, input);
    if once != input {
        assert(once[0] == '/');
        if "~/"@.is_prefix_of(once) {
            assert("~/"@[0] == once.subrange(0, 2)[0]);
        }
    }
}

// ---------------------------------------------------------------- laws

/// The gateway's own setting names its directory before the shared one, and either
/// before a place in the home directory. Its directory is always one of its own.
pub proof fn directories_are_set_or_at_home(
    own: Option<Seq<char>>,
    shared: Option<Seq<char>>,
    home: Seq<char>,
    fallback: Seq<char>,
)
    ensures
        own matches Some(dir) ==> first_dir(own, shared, home, fallback) == joined_path(
            dir,
            "aw-gateway"@,
        ),
        own is None ==> first_dir(own, shared, home, fallback) == first_dir(
            shared,
            None,
            home,
            fallback,
        ),
        first_dir(None, None, home, fallback) == joined_path(
            joined_path(home, fallback),
            "aw-gateway"@,
        ),
{
}

/// A file that the flag names is used before one that the environment names, and
/// either whether it exists or not. Where none is named, the user's is used if it
/// exists, and else the system's if it exists.
pub proof fn named_files_are_used_first(input: Option<Seq<char>>, around: ConfigSurroundings)
    ensures
        ({
            let (source, path) = chosen(input, around);
            &&& source is ExplicitFlag <==> input is Some
            &&& source is Environment <==> input is None && around.env_path is Some
            &&& source is User <==> input is None && around.env_path is None && around.user_exists
            &&& source is System <==> input is None && around.env_path is None
                && !around.user_exists && around.system_exists
            &&& source is Nowhere <==> path is None
            &&& input is Some ==> path == input
            &&& source is Environment ==> path == opt_text(around.env_path)
            &&& source is User ==> (around.user matches Ok(user) ==> path == Some(
                joined_path(around.config_dir(user.home@), "gateway.toml"@),
            ))
            &&& source is System ==> path == Some("/etc/aw-gateway/gateway.toml"@)
        }),
{
}

/// What is used is one of the files that were considered, and it exists unless it
/// was named. A named file is considered first, the system's last.
pub proof fn used_files_were_considered(
    r: GatewayConfigResolution,
    input: Option<Seq<char>>,
    around: ConfigSurroundings,
)
    requires
        resolution_is(r, input, around),
        around.user is Err ==> !around.user_exists,
    ensures
        r.selected_path matches Some(path) ==> exists|i: int|
            0 <= i < r.candidates@.len() && (#[trigger] r.candidates@[i]).source
                == r.selected_source && r.candidates@[i].path@ == path@ && (r.candidates@[i].exists
                || i == 0 && (input is Some || around.env_path is Some)),
        r.candidates@.len() > 0 && r.candidates@.last().source == GatewayConfigSource::System
            && r.candidates@.last().path@ == r.system_config_file@,
{
    let models = candidate_models(r.candidates@);
    let n = r.candidates@.len() as int;
    assert(models.len() == n);
    assert(models[n - 1] == r.candidates@[n - 1]@);
    assert(models[0] == r.candidates@[0]@);
    if n > 1 {
        assert(models[1] == r.candidates@[1]@);
    }
    match named_path(input, opt_text(around.env_path)) {
        Some((source, path)) => {
            assert(models[0] == (source, path, around.named_exists));
        },
        None => {
            assert(models =~= around.unnamed());
            if around.user is Ok {
                assert(models[0] == around.unnamed()[0]);
            }
            assert(models[n - 1] == around.unnamed().last());
        },
    }
    assert(r.candidates@[0].source == r.candidates@[0]@.0);
    assert(r.candidates@[n - 1].source == r.candidates@[n - 1]@.0);
}

/// A tilde stands for the home directory where it is all there is or a slash
/// follows it, and for itself anywhere else.
pub proof fn tildes_stand_for_home(home: Seq<char>, rest: Seq<char>, input: Seq<char>)
    ensures
        with_home(home, "~"@) == home,
        with_home(home, "~/"@ + rest) == joined_path(home, rest),
        input.len() == 0 || input[0] != '~' || input.len() > 1 && input[1] != '/' ==> with_home(
            home,
            input,
        ) == input,
{
    reveal_strlit("~");
    reveal_strlit("~/");
    let full = "~/"@ + rest;
    assert(full.len() >= 2 && "~"@.len() == 1);
    assert(full.subrange(0, 2) =~= "~/"@);
    assert(full.skip(2) =~= rest);
    if "~/"@.is_prefix_of(input) {
        assert(input.subrange(0, 2)[0] == input[0] && input.subrange(0, 2)[1] == input[1]);
    }
}

/// A workspace that is written absolutely is where it says; any other is in the
/// home directory.
pub proof fn workspaces_are_where_they_say(home: Seq<char>, configured: Seq<char>)
    ensures
        is_absolute_path(configured) ==> workspace_path(home, configured) == configured,
        configured.len() > 0 && configured[0] != '/' && configured[0] != '~' ==> workspace_path(
            home,
            configured,
        ) == joined_path(home, configured),
{
    tildes_stand_for_home(home, configured, configured);
}

/// A path that is given counts before one of the environment, and either before the
/// one that is used by default.
pub proof fn given_paths_count_first(
    input: Option<Seq<char>>,
    env: Option<Seq<char>>,
    default: Seq<char>,
)
    ensures
        input matches Some(path) ==> first_path(input, env, default) == path,
        input is None ==> (env matches Some(path) ==> first_path(input, env, default) == path),
        input is None && env is None ==> first_path(input, env, default) == default,
{
}

/// A known user has a configuration directory, a state directory and a
/// configuration file of their own; without a known user there is none of them.
pub proof fn known_users_have_their_directories(
    r: GatewayConfigResolution,
    input: Option<Seq<char>>,
    around: ConfigSurroundings,
)
    requires
        resolution_is(r, input, around),
    ensures
        around.user matches Ok(user) ==> {
            &&& r.user == Some(user)
            &&& opt_text(r.user_config_dir) == Some(around.config_dir(user.home@))
            &&& opt_text(r.user_state_dir) == Some(around.state_dir(user.home@))
            &&& opt_text(r.user_config_file) == Some(around.user_file(user.home@))
        },
        around.user is Err <==> r.user is None,
        around.user is Err ==> r.user_config_dir is None && r.user_state_dir is None
            && r.user_config_file is None,
{
}

} // verus!
