//! The sockets between the gateway and its container, and the files that tell
//! the container's agent about them.

use crate::config::{
    ContainerRuntimeType, IdleCleanupAction, IdleCleanupOwner, LocalSshBackend,
};
use crate::failure::{either, failed, outcome, plain, refusal, under, unless, Chain, Failure};
use crate::gateway::container_spec::Labels;
use crate::gateway::host_socket_exposures::text_of;
use crate::gateway::state::{ControlSocketPaths, IdleCleanup, Runtime};
use crate::paths::UserContext;
use crate::text::{
    byte_len, cat2, cat3, cat4, cat5, cat7, decimal, decimal_text, has_char, has_text, has_white,
    is_white, list_has, octal, octal_text, opt_str, opt_text, quote, quoted, same, stands_at,
    starts_with, texts,
};
use crate::gateway::ownership::prefixed_entries;
use crate::text_map::{finite_maps_are_listed, has_pair, listing, with_prefixed, TextMap};
use crate::unix_path::{
    can_name, components, components_are_a_list, components_of, entries_have_their_names,
    entry_name, file_name, is_absolute, is_absolute_path, is_within, join, joined_path,
    joining_adds_components, names_are_their_only_component, paths_are_seen_from_their_directory,
    rebuilt,
    rebuilt_paths_keep_components, same_path,
};
use vstd::prelude::*;
use vstd::utf8::encode_utf8;

verus! {

// ---------------------------------------------------------------- file names

impl Runtime {
    pub open spec fn agent_config_host_path(self) -> Seq<char> {
        joined_path(self.paths.container_state_dir@, "container-agent.toml"@)
    }

    pub open spec fn bootstrap_config_host_path(self) -> Seq<char> {
        joined_path(self.paths.container_state_dir@, "container-bootstrap.toml"@)
    }

    pub open spec fn sshd_env_host_path(self) -> Seq<char> {
        joined_path(self.paths.container_state_dir@, "sshd-session-env.conf"@)
    }

    pub open spec fn filter_policy_host_path(self) -> Seq<char> {
        joined_path(self.paths.container_state_dir@, "ssh-command-filter.toml"@)
    }

    pub fn container_agent_config_host(&self) -> (r: String)
        ensures
            r@ == self.agent_config_host_path(),
    {
        join(self.paths.container_state_dir.as_str(), "container-agent.toml")
    }

    pub fn container_bootstrap_config_host(&self) -> (r: String)
        ensures
            r@ == self.bootstrap_config_host_path(),
    {
        join(self.paths.container_state_dir.as_str(), "container-bootstrap.toml")
    }

    pub fn sshd_session_env_config_host(&self) -> (r: String)
        ensures
            r@ == self.sshd_env_host_path(),
    {
        join(self.paths.container_state_dir.as_str(), "sshd-session-env.conf")
    }

    pub open spec fn sshd_env_path(self) -> Seq<char> {
        joined_path(self.paths.container_state_dir_in_container@, "sshd-session-env.conf"@)
    }

    pub fn sshd_session_env_config_in_container(&self) -> (r: String)
        ensures
            r@ == self.sshd_env_path(),
    {
        join(self.paths.container_state_dir_in_container.as_str(), "sshd-session-env.conf")
    }

    pub fn ssh_command_filter_policy_host(&self) -> (r: String)
        ensures
            r@ == self.filter_policy_host_path(),
    {
        join(self.paths.container_state_dir.as_str(), "ssh-command-filter.toml")
    }

    pub open spec fn filter_policy_path(self) -> Seq<char> {
        joined_path(self.paths.container_state_dir_in_container@, "ssh-command-filter.toml"@)
    }

    pub fn ssh_command_filter_policy_in_container(&self) -> (r: String)
        ensures
            r@ == self.filter_policy_path(),
    {
        join(self.paths.container_state_dir_in_container.as_str(), "ssh-command-filter.toml")
    }

    pub fn agent_socket(&self) -> (r: String)
        ensures
            r@ == self.paths.control_sockets.host_agent_socket@,
    {
        self.paths.control_sockets.host_agent_socket.clone()
    }

    pub fn ssh_socket(&self) -> (r: String)
        ensures
            r@ == self.paths.control_sockets.host_ssh_socket@,
    {
        self.paths.control_sockets.host_ssh_socket.clone()
    }

    pub open spec fn agent_socket_inside(self) -> Option<Seq<char>> {
        if self.target.agent_control_enabled {
            Some(self.paths.control_sockets.container_agent_socket@)
        } else {
            None
        }
    }

    pub open spec fn ssh_socket_inside(self) -> Option<Seq<char>> {
        if self.bridges_ssh() {
            Some(self.paths.control_sockets.container_ssh_socket@)
        } else {
            None
        }
    }

    /// Where the agent listens inside the container.
    pub fn container_agent_socket(&self) -> (r: Option<String>)
        ensures
            opt_text(r) == self.agent_socket_inside(),
    {
        if !self.target.agent_control_enabled {
            return None;
        }
        Some(self.paths.control_sockets.container_agent_socket.clone())
    }

    pub open spec fn bridges_ssh(self) -> bool {
        self.target.agent_enabled && self.target.ssh_bridge_enabled
    }

    /// Where SSH is bridged inside the container.
    pub fn container_ssh_socket(&self) -> (r: Option<String>)
        ensures
            opt_text(r) == self.ssh_socket_inside(),
    {
        if !(self.target.agent_enabled && self.target.ssh_bridge_enabled) {
            return None;
        }
        Some(self.paths.control_sockets.container_ssh_socket.clone())
    }
}

// ---------------------------------------------------------------- socket paths in use

pub open spec fn pair_models(v: Seq<(String, String)>) -> Seq<(Seq<char>, Seq<char>)> {
    Seq::new(v.len(), |i: int| (v[i].0@, v[i].1@))
}

impl Runtime {
    /// The sockets that are used, each with what it is.
    pub open spec fn sockets_in_use(self) -> Seq<(Seq<char>, Seq<char>)> {
        let sockets = self.paths.control_sockets;
        let agent = if self.target.agent_control_enabled {
            seq![
                ("host agent socket path"@, sockets.host_agent_socket@),
                ("container agent socket path"@, sockets.container_agent_socket@),
            ]
        } else {
            Seq::empty()
        };
        let host = if self.target.ssh_endpoint_configured && self.target.ssh_backend
            == LocalSshBackend::Socket {
            agent.push(("host ssh socket path"@, sockets.host_ssh_socket@))
        } else {
            agent
        };
        if self.bridges_ssh() {
            host.push(("container ssh socket path"@, sockets.container_ssh_socket@))
        } else {
            host
        }
    }

    pub fn effective_unix_socket_paths(&self) -> (r: Vec<(String, String)>)
        ensures
            pair_models(r@) == self.sockets_in_use(),
    {
        let mut paths: Vec<(String, String)> = Vec::new();
        if self.target.agent_control_enabled {
            paths.push(("host agent socket path".to_owned(), self.agent_socket()));
            if let Some(path) = self.container_agent_socket() {
                paths.push(("container agent socket path".to_owned(), path));
            }
        }
        if self.target.ssh_endpoint_configured && self.target.ssh_backend
            == LocalSshBackend::Socket {
            paths.push(("host ssh socket path".to_owned(), self.ssh_socket()));
        }
        if let Some(path) = self.container_ssh_socket() {
            paths.push(("container ssh socket path".to_owned(), path));
        }
        assert(pair_models(paths@) =~= self.sockets_in_use());
        paths
    }

    /// The refusal of the first socket whose path is too long.
    pub open spec fn overlong_socket(
        self,
        sockets: Seq<(Seq<char>, Seq<char>)>,
        limit: int,
    ) -> Option<Chain>
        decreases sockets.len(),
    {
        if sockets.len() == 0 {
            None
        } else {
            let (label, path) = sockets[0];
            either(
                unless(
                    encode_utf8(path).len() <= limit,
                    label + " is too long for a Unix domain socket ("@ + decimal(
                        encode_utf8(path).len(),
                    ) + " bytes, limit "@ + decimal(limit as nat) + "): "@ + path
                        + ". Configure control_sockets.host_dir or control_sockets.container_dir to a shorter absolute path. For fixed targets, runtime_id is the target id "@
                        + quoted(self.identity.target_name@)
                        + "; for ephemeral targets, runtime_id is the session id."@,
                ),
                self.overlong_socket(sockets.skip(1), limit),
            )
        }
    }

    /// Refuses sockets whose paths do not fit in a socket address of the host.
    pub fn validate_unix_socket_paths(&self, limit: usize) -> (r: Result<(), Failure>)
        ensures
            refusal(r) == self.overlong_socket(self.sockets_in_use(), limit as int),
    {
        let paths = self.effective_unix_socket_paths();
        let ghost all = pair_models(paths@);
        let mut i: usize = 0;
        assert(all.skip(0) =~= all);
        while i < paths.len()
            invariant
                i <= paths.len(),
                all == pair_models(paths@),
                all == self.sockets_in_use(),
                self.overlong_socket(all, limit as int) == self.overlong_socket(
                    all.skip(i as int),
                    limit as int,
                ),
            decreases paths.len() - i,
        {
            assert(all.skip(i as int).skip(1) =~= all.skip(i + 1));
            let bytes: usize = byte_len(paths[i].1.as_str());
            if bytes > limit {
                let mut message = cat7(
                    paths[i].0.as_str(),
                    " is too long for a Unix domain socket (",
                    decimal_text(bytes as u64).as_str(),
                    " bytes, limit ",
                    decimal_text(limit as u64).as_str(),
                    "): ",
                    paths[i].1.as_str(),
                );
                message.append(
                    ". Configure control_sockets.host_dir or control_sockets.container_dir to a shorter absolute path. For fixed targets, runtime_id is the target id ",
                );
                message.append(quote(self.identity.target_name.as_str()).as_str());
                message.append("; for ephemeral targets, runtime_id is the session id.");
                return Err(Failure::msg(message.as_str()));
            }
            i += 1;
        }
        Ok(())
    }
}

// ---------------------------------------------------------------- the agent's file

/// A variable of a service's environment.
#[derive(Debug, Clone, PartialEq, Eq)]
pub struct EnvValue {
    pub value: Option<String>,
    pub file: Option<String>,
    pub inherit: Option<String>,
    pub interpolate: bool,
    pub required: bool,
}

pub struct EnvValueModel {
    pub value: Option<Seq<char>>,
    pub file: Option<Seq<char>>,
    pub inherit: Option<Seq<char>>,
    pub interpolate: bool,
    pub required: bool,
}

impl View for EnvValue {
    type V = EnvValueModel;

    open spec fn view(&self) -> EnvValueModel {
        EnvValueModel {
            value: opt_text(self.value),
            file: opt_text(self.file),
            inherit: opt_text(self.inherit),
            interpolate: self.interpolate,
            required: self.required,
        }
    }
}

/// A required variable with a literal value.
pub open spec fn literal_env(value: Seq<char>) -> EnvValueModel {
    EnvValueModel {
        value: Some(value),
        file: None,
        inherit: None,
        interpolate: false,
        required: true,
    }
}

fn literal_env_value(value: String) -> (r: EnvValue)
    ensures
        r@ == literal_env(value@),
{
    EnvValue { value: Some(value), file: None, inherit: None, interpolate: false, required: true }
}

/// A service that the agent supervises.
#[derive(Debug, Clone, PartialEq, Eq)]
pub struct ServiceConfig {
    pub name: String,
    pub user: String,
    pub env: TextMap<EnvValue>,
}

pub struct ServiceModel {
    pub name: Seq<char>,
    pub user: Seq<char>,
    pub env: Map<Seq<char>, EnvValueModel>,
}

impl View for ServiceConfig {
    type V = ServiceModel;

    open spec fn view(&self) -> ServiceModel {
        ServiceModel { name: self.name@, user: self.user@, env: self.env@ }
    }
}

pub open spec fn service_models(v: Seq<ServiceConfig>) -> Seq<ServiceModel> {
    Seq::new(v.len(), |i: int| v[i]@)
}

/// A text of a service's user that stands for the container's user.
pub const SERVICE_USER_TEMPLATE: &'static str = "{container_user}";

/// A path that an `AuthorizedKeysFile` line cannot hold.
pub open spec fn breaks_keys_line(path: Seq<char>) -> bool {
    (exists|i: int| 0 <= i < path.len() && is_white(#[trigger] path[i])) || path.contains('#')
}

impl Runtime {
    pub open spec fn sshd_service(self, s: ServiceModel, keys_file: Seq<char>) -> ServiceModel {
        let set = s.env.insert(
            "AW_SSHD_POLICY_CONFIG"@,
            literal_env(self.filter_policy_path()),
        ).insert("AW_SSHD_AUTHORIZED_KEYS_FILE"@, literal_env(keys_file));
        ServiceModel {
            env: if set.contains_key("AW_SSHD_SETENV_CONFIG"@) {
                set
            } else {
                set.insert("AW_SSHD_SETENV_CONFIG"@, literal_env(self.sshd_env_path()))
            },
            ..s
        }
    }

    /// A service as the agent gets it.
    pub open spec fn managed_service(self, s: ServiceModel, keys_file: Seq<char>) -> ServiceModel {
        if s.name == "container-sshd"@ {
            self.sshd_service(s, keys_file)
        } else {
            s
        }
    }

    pub open spec fn keys_file_refused(
        self,
        services: Seq<ServiceModel>,
        keys_file: Seq<char>,
    ) -> Option<Chain> {
        unless(
            !(breaks_keys_line(keys_file) && exists|i: int|
                0 <= i < services.len() && (#[trigger] services[i]).name == "container-sshd"@),
            "managed container authorized-keys path "@ + quoted(keys_file)
                + " cannot contain whitespace or '#'"@,
        )
    }

    /// Tells the container's SSH daemon where its policy, its keys and its
    /// session environment are. An environment file that is already set stays.
    pub fn inject_container_sshd_env(&self, services: &mut Vec<ServiceConfig>, keys_file: &str) -> (r:
        Result<(), Failure>)
        ensures
            refusal(r) == self.keys_file_refused(service_models(old(services)@), keys_file@),
            r is Ok ==> service_models(final(services)@) == service_models(
                old(services)@,
            ).map_values(|s: ServiceModel| self.managed_service(s, keys_file@)),
            r is Err ==> final(services)@ == old(services)@,
    {
        let ghost all = service_models(services@);
        let bad = has_white(keys_file) || has_char(keys_file, '#');
        let n: usize = services.len();
        let mut i: usize = 0;
        while i < n
            invariant
                i <= n == services.len(),
                n == all.len(),
                all == service_models(old(services)@),
                bad == breaks_keys_line(keys_file@),
                forall|j: int|
                    0 <= j < i ==> (#[trigger] services@[j])@ == self.managed_service(
                        all[j],
                        keys_file@,
                    ),
                forall|j: int| i <= j < n ==> (#[trigger] services@[j])@ == all[j],
                bad ==> forall|j: int|
                    0 <= j < i ==> (#[trigger] all[j]).name != "container-sshd"@,
                bad ==> services@ == old(services)@,
            decreases n - i,
        {
            assert(services@[i as int]@ == all[i as int]);
            if same(services[i].name.as_str(), "container-sshd") {
                if bad {
                    let message = cat3(
                        "managed container authorized-keys path ",
                        quote(keys_file).as_str(),
                        " cannot contain whitespace or '#'",
                    );
                    return Err(Failure::msg(message.as_str()));
                }
                let mut service = services.remove(i);
                service.env.insert(
                    "AW_SSHD_POLICY_CONFIG".to_owned(),
                    literal_env_value(self.ssh_command_filter_policy_in_container()),
                );
                service.env.insert(
                    "AW_SSHD_AUTHORIZED_KEYS_FILE".to_owned(),
                    literal_env_value(keys_file.to_owned()),
                );
                if !service.env.contains_key("AW_SSHD_SETENV_CONFIG") {
                    service.env.insert(
                        "AW_SSHD_SETENV_CONFIG".to_owned(),
                        literal_env_value(self.sshd_session_env_config_in_container()),
                    );
                }
                services.insert(i, service);
            }
            i += 1;
        }
        assert(service_models(services@) =~= all.map_values(
            |s: ServiceModel| self.managed_service(s, keys_file@),
        ));
        Ok(())
    }

    pub open spec fn service_for_user(self, s: ServiceModel) -> ServiceModel {
        if s.user == SERVICE_USER_TEMPLATE@ {
            ServiceModel { user: self.identity.container_user@, ..s }
        } else {
            s
        }
    }

    /// Gives services of the container's user their user.
    pub fn render_gateway_managed_service_fields(&self, services: &mut Vec<ServiceConfig>)
        ensures
            service_models(final(services)@) == service_models(old(services)@).map_values(
                |s: ServiceModel| self.service_for_user(s),
            ),
    {
        let ghost all = service_models(services@);
        let n: usize = services.len();
        let mut i: usize = 0;
        while i < n
            invariant
                i <= n == services.len(),
                n == all.len(),
                forall|j: int|
                    0 <= j < i ==> (#[trigger] services@[j])@ == self.service_for_user(all[j]),
                forall|j: int| i <= j < n ==> (#[trigger] services@[j])@ == all[j],
            decreases n - i,
        {
            assert(services@[i as int]@ == all[i as int]);
            if same(services[i].user.as_str(), SERVICE_USER_TEMPLATE) {
                let mut service = services.remove(i);
                service.user = self.identity.container_user.clone();
                services.insert(i, service);
            }
            i += 1;
        }
        assert(service_models(services@) =~= all.map_values(
            |s: ServiceModel| self.service_for_user(s),
        ));
    }
}

#[derive(Debug, Clone, PartialEq, Eq)]
pub struct SshBridge {
    pub enabled: bool,
    pub socket: Option<String>,
}

/// The part of the agent's configuration that the gateway fills in.
#[derive(Debug, Clone, PartialEq, Eq)]
pub struct ContainerAgentConfig {
    pub control_socket: Option<String>,
    pub ssh_bridge: Option<SshBridge>,
    pub services: Vec<ServiceConfig>,
    pub idle_cleanup: Option<IdleCleanup>,
}

impl Runtime {
    /// What the agent is told of idle cleanup: nothing unless it is the agent's
    /// task and does something.
    pub open spec fn agent_idle_cleanup(self, own: Option<IdleCleanup>) -> Option<IdleCleanup> {
        match self.target.idle_cleanup {
            Some(cleanup) => if cleanup.owner == IdleCleanupOwner::Agent && cleanup.action
                != IdleCleanupAction::Nothing {
                Some(cleanup)
            } else {
                None
            },
            None => own,
        }
    }

    pub open spec fn agent_config_is(
        self,
        r: ContainerAgentConfig,
        own: ContainerAgentConfig,
        keys_file: Seq<char>,
    ) -> bool {
        &&& opt_text(r.control_socket) == (if self.target.agent_control_enabled {
            Some(self.paths.control_sockets.container_agent_socket@)
        } else {
            opt_text(own.control_socket)
        })
        &&& match own.ssh_bridge {
            None => r.ssh_bridge is None,
            Some(bridge) => r.ssh_bridge is Some && r.ssh_bridge->0.enabled == bridge.enabled
                && opt_text(r.ssh_bridge->0.socket) == (if self.target.agent_enabled
                && bridge.enabled {
                Some(self.paths.control_sockets.container_ssh_socket@)
            } else {
                opt_text(bridge.socket)
            }),
        }
        &&& service_models(r.services@) == service_models(own.services@).map_values(
            |s: ServiceModel| self.service_for_user(self.managed_service(s, keys_file)),
        )
        &&& r.idle_cleanup == self.agent_idle_cleanup(own.idle_cleanup)
    }

    /// The agent's configuration with what the gateway decides filled in.
    pub fn container_agent_config(&self, own: ContainerAgentConfig, keys_file: &str) -> (r: Result<
        ContainerAgentConfig,
        Failure,
    >)
        ensures
            failed(r) == self.keys_file_refused(service_models(own.services@), keys_file@),
            r matches Ok(config) ==> self.agent_config_is(config, own, keys_file@),
    {
        let control_socket = if self.target.agent_control_enabled {
            Some(self.paths.control_sockets.container_agent_socket.clone())
        } else {
            own.control_socket
        };
        let ssh_bridge = match own.ssh_bridge {
            Some(bridge) => {
                let socket = if self.target.agent_enabled && bridge.enabled {
                    Some(self.paths.control_sockets.container_ssh_socket.clone())
                } else {
                    bridge.socket
                };
                Some(SshBridge { enabled: bridge.enabled, socket })
            },
            None => None,
        };
        let ghost before = service_models(own.services@);
        let mut services = own.services;
        if let Err(failure) = self.inject_container_sshd_env(&mut services, keys_file) {
            return Err(failure);
        }
        let idle_cleanup = match self.target.idle_cleanup {
            Some(cleanup) => if cleanup.owner == IdleCleanupOwner::Agent && cleanup.action
                != IdleCleanupAction::Nothing {
                Some(cleanup)
            } else {
                None
            },
            None => own.idle_cleanup,
        };
        self.render_gateway_managed_service_fields(&mut services);
        assert(service_models(services@) =~= before.map_values(
            |s: ServiceModel| self.service_for_user(self.managed_service(s, keys_file@)),
        ));
        Ok(ContainerAgentConfig { control_socket, ssh_bridge, services, idle_cleanup })
    }
}

/// Telling the SSH daemon where its files are changes nothing but its own
/// environment: its policy and its keys are set, its session environment is set
/// where it was not, and every other variable stays.
pub proof fn only_the_ssh_daemon_changes(runtime: Runtime, s: ServiceModel, keys_file: Seq<char>)
    ensures
        ({
            let t = runtime.managed_service(s, keys_file);
            let policy = "AW_SSHD_POLICY_CONFIG"@;
            let keys = "AW_SSHD_AUTHORIZED_KEYS_FILE"@;
            let session = "AW_SSHD_SETENV_CONFIG"@;
            &&& t.name == s.name && t.user == s.user
            &&& s.name != "container-sshd"@ ==> t == s
            &&& s.name == "container-sshd"@ ==> {
                &&& t.env.contains_pair(policy, literal_env(runtime.filter_policy_path()))
                &&& t.env.contains_pair(keys, literal_env(keys_file))
                &&& t.env.contains_pair(
                    session,
                    if s.env.contains_key(session) {
                        s.env[session]
                    } else {
                        literal_env(runtime.sshd_env_path())
                    },
                )
                &&& forall|key: Seq<char>|
                    key != policy && key != keys && key != session ==> (
                    #[trigger] t.env.contains_key(key) == s.env.contains_key(key)) && t.env[key]
                        == s.env[key]
            }
        }),
{
    reveal_strlit("AW_SSHD_POLICY_CONFIG");
    reveal_strlit("AW_SSHD_AUTHORIZED_KEYS_FILE");
    reveal_strlit("AW_SSHD_SETENV_CONFIG");
    assert("AW_SSHD_POLICY_CONFIG"@[8] == 'P');
    assert("AW_SSHD_AUTHORIZED_KEYS_FILE"@[8] == 'A');
    assert("AW_SSHD_SETENV_CONFIG"@[8] == 'S');
}

// ---------------------------------------------------------------- the bootstrap's file

#[derive(Debug, Clone, PartialEq, Eq)]
pub struct BootstrapIdentity {
    pub session_user: String,
    pub session_uid: u32,
    pub session_gid: u32,
    pub session_home: String,
    pub session_shell: String,
    pub state_dir: String,
}

#[derive(Debug, Clone, PartialEq, Eq)]
pub struct RenderedContainerBootstrapStep {
    pub name: String,
    pub required: bool,
    pub user: String,
    pub command: Vec<String>,
    pub timeout: Option<String>,
}

/// What the bootstrap inside a container reads.
#[derive(Debug, Clone, PartialEq, Eq)]
pub struct ContainerBootstrapFile {
    pub agent_program: String,
    pub agent_config: String,
    pub skip_identity_prepare: bool,
    pub chown_existing_identity_dirs: bool,
    pub identity: BootstrapIdentity,
    pub steps: Vec<RenderedContainerBootstrapStep>,
}

impl Runtime {
    /// Whether a bootstrap's file is this runtime's, apart from the texts that are
    /// configured.
    pub open spec fn bootstraps_with(self, file: ContainerBootstrapFile) -> bool {
        &&& file.agent_config@ == self.agent_config_path()
        &&& file.skip_identity_prepare == (self.kind == ContainerRuntimeType::Podman)
        &&& file.chown_existing_identity_dirs == (self.kind
            != ContainerRuntimeType::AppleContainer)
        &&& file.identity.session_user@ == self.identity.container_user@
        &&& file.identity.session_uid == self.identity.session_uid
        &&& file.identity.session_gid == self.identity.session_gid
        &&& file.identity.session_home@ == self.identity.container_home@
        &&& file.identity.session_shell@ == self.identity.session_shell@
        &&& file.identity.state_dir@ == self.paths.container_state_dir_in_container@
    }

    /// The bootstrap's file, from the target's steps and agent program with
    /// their variables filled in. Steps are looked at first.
    pub fn container_bootstrap_file(
        &self,
        steps: Result<Vec<RenderedContainerBootstrapStep>, Failure>,
        agent_program: Result<String, Failure>,
    ) -> (r: Result<ContainerBootstrapFile, Failure>)
        ensures
            failed(r) == either(failed(steps), failed(agent_program)),
            r matches Ok(file) ==> {
                &&& file.steps == steps->Ok_0
                &&& file.agent_program == agent_program->Ok_0
                &&& self.bootstraps_with(file)
            },
    {
        let steps = match steps {
            Ok(steps) => steps,
            Err(failure) => return Err(failure),
        };
        let agent_program = match agent_program {
            Ok(program) => program,
            Err(failure) => return Err(failure),
        };
        Ok(
            ContainerBootstrapFile {
                agent_program,
                agent_config: self.container_agent_config_in_container(),
                skip_identity_prepare: self.kind == ContainerRuntimeType::Podman,
                chown_existing_identity_dirs: self.kind != ContainerRuntimeType::AppleContainer,
                identity: BootstrapIdentity {
                    session_user: self.identity.container_user.clone(),
                    session_uid: self.identity.session_uid,
                    session_gid: self.identity.session_gid,
                    session_home: self.identity.container_home.clone(),
                    session_shell: self.identity.session_shell.clone(),
                    state_dir: self.paths.container_state_dir_in_container.clone(),
                },
                steps,
            },
        )
    }
}

// ---------------------------------------------------------------- the SSH daemon's file

pub open spec fn holds_white(s: Seq<char>) -> bool {
    exists|i: int| 0 <= i < s.len() && is_white(#[trigger] s[i])
}

/// The refusal of the first variable that a `SetEnv` line cannot hold.
pub open spec fn setenv_refused(env: Seq<(Seq<char>, Seq<char>)>) -> Option<Chain>
    decreases env.len(),
{
    if env.len() == 0 {
        None
    } else {
        either(
            unless(
                !holds_white(env[0].0),
                "target session_env key "@ + quoted(env[0].0)
                    + " contains whitespace and cannot be rendered into sshd SetEnv"@,
            ),
            either(
                unless(
                    !holds_white(env[0].1),
                    "target session_env value for "@ + quoted(env[0].0)
                        + " contains whitespace and cannot be rendered into sshd SetEnv"@,
                ),
                setenv_refused(env.skip(1)),
            ),
        )
    }
}

pub open spec fn setenv_line(env: Seq<(Seq<char>, Seq<char>)>) -> Seq<char>
    decreases env.len(),
{
    if env.len() == 0 {
        "SetEnv"@
    } else {
        setenv_line(env.drop_last()) + " "@ + env.last().0 + "="@ + env.last().1
    }
}

pub open spec fn sshd_env_text(env: Seq<(Seq<char>, Seq<char>)>) -> Seq<char> {
    let head =
        "# Generated by aw-gateway. Included by container SSHD helpers when configured.\n"@;
    if env.len() == 0 {
        head
    } else {
        head + (setenv_line(env) + "\n"@)
    }
}

/// The file that gives SSH sessions their environment.
pub fn sshd_session_env_config(env: &TextMap<String>) -> (r: Result<String, Failure>)
    ensures
        failed(r) == setenv_refused(listing(env@)),
        r matches Ok(text) ==> text@ == sshd_env_text(listing(env@)),
{
    let mut raw =
        "# Generated by aw-gateway. Included by container SSHD helpers when configured.\n".to_owned();
    let n: usize = env.len();
    let ghost all = listing(env@);
    if n == 0 {
        return Ok(raw);
    }
    let mut line = "SetEnv".to_owned();
    let mut i: usize = 0;
    assert(all.skip(0) =~= all);
    assert(all.take(0) =~= Seq::empty());
    while i < n
        invariant
            i <= n == all.len(),
            all == listing(env@),
            line@ == setenv_line(all.take(i as int)),
            setenv_refused(all) == setenv_refused(all.skip(i as int)),
        decreases n - i,
    {
        assert(all.skip(i as int).skip(1) =~= all.skip(i + 1));
        assert(all.take(i + 1).drop_last() =~= all.take(i as int));
        let (key, value) = env.entry(i);
        if has_white(key.as_str()) {
            let message = cat3(
                "target session_env key ",
                quote(key.as_str()).as_str(),
                " contains whitespace and cannot be rendered into sshd SetEnv",
            );
            return Err(Failure::msg(message.as_str()));
        }
        if has_white(value.as_str()) {
            let message = cat3(
                "target session_env value for ",
                quote(key.as_str()).as_str(),
                " contains whitespace and cannot be rendered into sshd SetEnv",
            );
            return Err(Failure::msg(message.as_str()));
        }
        line.append(" ");
        line.append(key.as_str());
        line.append("=");
        line.append(value.as_str());
        i += 1;
    }
    assert(all.take(i as int) =~= all);
    line.append("\n");
    raw.append(line.as_str());
    Ok(raw)
}

// ---------------------------------------------------------------- the directory

/// What the host says of a path, without following a final link.
#[derive(Debug, Clone, PartialEq, Eq)]
pub enum PathInspection {
    Symlink,
    Directory { mode: u32 },
    OtherFile,
    Unreadable { not_found: bool, complaint: String },
}

pub open spec fn open_directory(path: Seq<char>, mode: u32) -> Option<Chain> {
    unless(
        mode & 0o777 & 0o077 == 0,
        "control_sockets.host_dir "@ + path + " exists with permissions "@ + octal(
            (mode & 0o777) as nat,
        ) + "; use a private 0700 directory or remove it so aw-gateway can create it"@,
    )
}

/// Refuses a directory that others can enter.
pub fn validate_control_socket_dir_permissions(path: &str, mode: u32) -> (r: Result<(), Failure>)
    ensures
        refusal(r) == open_directory(path@, mode),
{
    let bits: u32 = mode & 0o777;
    if bits & 0o077 != 0 {
        let message = cat5(
            "control_sockets.host_dir ",
            path,
            " exists with permissions ",
            octal_text(bits).as_str(),
            "; use a private 0700 directory or remove it so aw-gateway can create it",
        );
        return Err(Failure::msg(message.as_str()));
    }
    Ok(())
}

/// Why what stands at a path cannot be the directory.
pub open spec fn not_a_private_dir(path: Seq<char>, seen: PathInspection, check_mode: bool) -> Option<
    Chain,
> {
    match seen {
        PathInspection::Symlink => Some(
            plain("control_sockets.host_dir "@ + path + " must not be a symlink"@),
        ),
        PathInspection::OtherFile => Some(
            plain("control_sockets.host_dir "@ + path + " exists but is not a directory"@),
        ),
        PathInspection::Directory { mode } => if check_mode {
            open_directory(path, mode)
        } else {
            None
        },
        PathInspection::Unreadable { complaint, .. } => Some(
            under("inspect control_sockets.host_dir "@ + path, plain(complaint@)),
        ),
    }
}

fn reject_unusable_dir(path: &str, seen: &PathInspection, check_mode: bool) -> (r: Result<
    (),
    Failure,
>)
    ensures
        refusal(r) == not_a_private_dir(path@, *seen, check_mode),
{
    match seen {
        PathInspection::Symlink => Err(
            Failure::msg(
                cat3("control_sockets.host_dir ", path, " must not be a symlink").as_str(),
            ),
        ),
        PathInspection::OtherFile => Err(
            Failure::msg(
                cat3("control_sockets.host_dir ", path, " exists but is not a directory").as_str(),
            ),
        ),
        PathInspection::Directory { mode } => if check_mode {
            validate_control_socket_dir_permissions(path, *mode)
        } else {
            Ok(())
        },
        PathInspection::Unreadable { not_found: _, complaint } => Err(
            Failure::msg(complaint.as_str()).context(
                cat2("inspect control_sockets.host_dir ", path).as_str(),
            ),
        ),
    }
}

pub open spec fn is_missing(seen: PathInspection) -> bool {
    seen matches PathInspection::Unreadable { not_found, .. } && not_found
}

/// The first look at the control socket directory: whether it is to be created.
/// One that exists must be private.
pub fn ensure_control_socket_dir(path: &str, seen: &PathInspection) -> (r: Result<bool, Failure>)
    ensures
        outcome(r) == (if is_missing(*seen) {
            Ok::<bool, Chain>(true)
        } else {
            match not_a_private_dir(path@, *seen, true) {
                Some(chain) => Err(chain),
                None => Ok(false),
            }
        }),
{
    if let PathInspection::Unreadable { not_found, .. } = seen {
        if *not_found {
            return Ok(true);
        }
    }
    match reject_unusable_dir(path, seen, true) {
        Ok(()) => Ok(false),
        Err(failure) => Err(failure),
    }
}

/// The second look: whether permissions are to be set, which is so exactly for a
/// directory that was just created.
pub fn confirm_control_socket_dir(path: &str, created: bool, seen: &PathInspection) -> (r: Result<
    bool,
    Failure,
>)
    ensures
        outcome(r) == match not_a_private_dir(path@, *seen, !created) {
            Some(chain) => Err::<bool, Chain>(chain),
            None => Ok(created),
        },
{
    match reject_unusable_dir(path, seen, !created) {
        Ok(()) => Ok(created),
        Err(failure) => Err(failure),
    }
}

/// Something that a runtime leaves on the host.
#[derive(Debug, Clone, PartialEq, Eq)]
pub enum SocketLeftover {
    File(String),
    /// A directory, which is removed only when it is empty.
    EmptyDirectory(String),
}

pub enum LeftoverModel {
    File(Seq<char>),
    EmptyDirectory(Seq<char>),
}

impl View for SocketLeftover {
    type V = LeftoverModel;

    open spec fn view(&self) -> LeftoverModel {
        match self {
            SocketLeftover::File(path) => LeftoverModel::File(path@),
            SocketLeftover::EmptyDirectory(path) => LeftoverModel::EmptyDirectory(path@),
        }
    }
}

impl LeftoverModel {
    pub open spec fn path(self) -> Seq<char> {
        match self {
            LeftoverModel::File(path) => path,
            LeftoverModel::EmptyDirectory(path) => path,
        }
    }
}

pub open spec fn leftover_models(v: Seq<SocketLeftover>) -> Seq<LeftoverModel> {
    Seq::new(v.len(), |i: int| v[i]@)
}

/// What is removed with a runtime's sockets: the sockets, then their directory.
/// A link, or a file in the directory's place, is left alone.
pub open spec fn leftovers(sockets: ControlSocketPaths, seen: PathInspection) -> Seq<
    LeftoverModel,
> {
    if seen is Directory {
        seq![
            LeftoverModel::File(sockets.host_agent_socket@),
            LeftoverModel::File(sockets.host_ssh_socket@),
            LeftoverModel::EmptyDirectory(sockets.host_dir@),
        ]
    } else {
        Seq::empty()
    }
}

/// How removing a leftover ended.
#[derive(Debug, Clone, Copy, PartialEq, Eq, Structural)]
pub enum LeftoverEnd {
    Removed,
    NotFound,
    NotEmpty,
    Failed,
}

impl SocketLeftover {
    pub open spec fn is_worth_a_warning(self, end: LeftoverEnd) -> bool {
        match end {
            LeftoverEnd::Removed => false,
            LeftoverEnd::NotFound => false,
            LeftoverEnd::NotEmpty => self is File,
            LeftoverEnd::Failed => true,
        }
    }

    /// Whether the end of a removal is worth a warning. What is gone already and
    /// a directory that others still use are not.
    pub fn is_reported(&self, end: LeftoverEnd) -> (r: bool)
        ensures
            r == self.is_worth_a_warning(end),
    {
        match end {
            LeftoverEnd::Removed => false,
            LeftoverEnd::NotFound => false,
            LeftoverEnd::NotEmpty => match self {
                SocketLeftover::File(_) => true,
                SocketLeftover::EmptyDirectory(_) => false,
            },
            LeftoverEnd::Failed => true,
        }
    }
}

impl Runtime {
    /// What is removed once the runtime's sockets are no longer used, in this
    /// order.
    pub fn cleanup_control_socket_dir(&self, seen: &PathInspection) -> (r: Vec<SocketLeftover>)
        ensures
            leftover_models(r@) == leftovers(self.paths.control_sockets, *seen),
    {
        let mut out: Vec<SocketLeftover> = Vec::new();
        if let PathInspection::Directory { mode: _ } = seen {
            let sockets = &self.paths.control_sockets;
            out.push(SocketLeftover::File(sockets.host_agent_socket.clone()));
            out.push(SocketLeftover::File(sockets.host_ssh_socket.clone()));
            out.push(SocketLeftover::EmptyDirectory(sockets.host_dir.clone()));
        }
        assert(leftover_models(out@) =~= leftovers(self.paths.control_sockets, *seen));
        out
    }
}

/// Whether a stale socket file is to be removed. A directory in its place is refused.
pub fn remove_stale_control_socket_file(socket: &str, seen: &PathInspection) -> (r: Result<
    bool,
    Failure,
>)
    ensures
        outcome(r) == match *seen {
            PathInspection::Directory { .. } => Err::<bool, Chain>(
                plain(
                    "control socket path "@ + socket@
                        + " exists as a directory; remove it or configure a different control_sockets.host_dir"@,
                ),
            ),
            PathInspection::Unreadable { not_found, complaint } => if not_found {
                Ok(false)
            } else {
                Err(under("inspect control socket "@ + socket@, plain(complaint@)))
            },
            _ => Ok(true),
        },
{
    match seen {
        PathInspection::Directory { mode: _ } => Err(
            Failure::msg(
                cat3(
                    "control socket path ",
                    socket,
                    " exists as a directory; remove it or configure a different control_sockets.host_dir",
                ).as_str(),
            ),
        ),
        PathInspection::Unreadable { not_found, complaint } => {
            if *not_found {
                return Ok(false);
            }
            Err(
                Failure::msg(complaint.as_str()).context(
                    cat2("inspect control socket ", socket).as_str(),
                ),
            )
        },
        _ => Ok(true),
    }
}

/// What the host says of the directory that the default location lies in.
#[derive(Debug)]
pub struct RunUserDir {
    pub is_dir: Result<bool, String>,
    /// What creating a file in it gave.
    pub probe: Result<(), String>,
}

pub open spec fn run_user_dir_refused(dir: Seq<char>, seen: RunUserDir) -> Option<Chain> {
    match seen.is_dir {
        Err(complaint) => Some(
            under(
                dir
                    + " is required by the default control_sockets.host_dir; configure control_sockets.host_dir to a writable short absolute path if this host does not provide per-user runtime directories"@,
                plain(complaint@),
            ),
        ),
        Ok(is_dir) => either(
            unless(
                is_dir,
                dir
                    + " is not a directory; configure control_sockets.host_dir to a writable short absolute path"@,
            ),
            match seen.probe {
                Ok(_) => None,
                Err(complaint) => Some(
                    plain(
                        dir + " is not writable: "@ + complaint@
                            + "; configure control_sockets.host_dir to a writable short absolute path"@,
                    ),
                ),
            },
        ),
    }
}

impl Runtime {
    /// Checks that the default location of the control sockets can be used; any
    /// other location is not checked here.
    pub fn prepare_control_socket_dir(&self, seen: &RunUserDir) -> (r: Result<(), Failure>)
        ensures
            refusal(r) == (if self.paths.control_sockets.default_host_dir {
                run_user_dir_refused(
                    "/run/user/"@ + decimal(self.identity.user.uid as nat),
                    *seen,
                )
            } else {
                None
            }),
    {
        if !self.paths.control_sockets.default_host_dir {
            return Ok(());
        }
        let dir = cat2("/run/user/", decimal_text(self.identity.user.uid as u64).as_str());
        match &seen.is_dir {
            Err(complaint) => {
                let message = cat2(
                    dir.as_str(),
                    " is required by the default control_sockets.host_dir; configure control_sockets.host_dir to a writable short absolute path if this host does not provide per-user runtime directories",
                );
                return Err(Failure::msg(complaint.as_str()).context(message.as_str()));
            },
            Ok(is_dir) => {
                if !*is_dir {
                    let message = cat2(
                        dir.as_str(),
                        " is not a directory; configure control_sockets.host_dir to a writable short absolute path",
                    );
                    return Err(Failure::msg(message.as_str()));
                }
            },
        }
        if let Err(complaint) = &seen.probe {
            let message = cat4(
                dir.as_str(),
                " is not writable: ",
                complaint.as_str(),
                "; configure control_sockets.host_dir to a writable short absolute path",
            );
            return Err(Failure::msg(message.as_str()));
        }
        Ok(())
    }
}

// ---------------------------------------------------------------- configured locations

/// A state directory that would leave the workspace.
pub open spec fn leaves_workspace(configured: Seq<char>) -> bool {
    configured == "~"@ || "~/"@.is_prefix_of(configured) || is_absolute_path(configured)
        || components(configured).contains(".."@)
}

fn rebuild(parts: &Vec<String>) -> (r: String)
    ensures
        r@ == rebuilt(texts(parts@)),
{
    let ghost all = texts(parts@);
    let mut out = String::new();
    let mut i: usize = 0;
    while i < parts.len()
        invariant
            i <= parts.len(),
            all == texts(parts@),
            out@ == rebuilt(all.take(i as int)),
        decreases parts.len() - i,
    {
        assert(all.take(i + 1).drop_last() =~= all.take(i as int));
        out = join(out.as_str(), parts[i].as_str());
        i += 1;
    }
    assert(all.take(i as int) =~= all);
    out
}

/// The state directory below a base, which it must not leave.
pub fn resolve_workspace_state_path(base: &str, configured: &str) -> (r: Result<String, Failure>)
    ensures
        outcome(r) == (if leaves_workspace(configured@) {
            Err::<Seq<char>, Chain>(
                plain(
                    "target.workspace.state_dir must stay within the workspace mount and must not render as absolute, home-relative, or with '..' components"@,
                ),
            )
        } else {
            Ok(rebuilt(components(joined_path(base@, configured@))))
        }),
{
    let parts = components_of(configured);
    if same(configured, "~") || starts_with(configured, "~/") || is_absolute(configured)
        || list_has(&parts, "..") {
        return Err(
            Failure::msg(
                "target.workspace.state_dir must stay within the workspace mount and must not render as absolute, home-relative, or with '..' components",
            ),
        );
    }
    Ok(rebuild(&components_of(join(base, configured).as_str())))
}

/// A directory that is shared by more than one runtime.
pub open spec fn is_shared_dir(dir: Seq<char>, user: UserContext) -> bool {
    let parts = components(dir);
    parts == components("/"@) || parts == components(user.home@) || parts == components("/tmp"@)
        || parts == components("/run"@) || parts == components("/run/user"@) || parts == components(
        "/run/user/"@ + decimal(user.uid as nat),
    )
}

pub open spec fn host_dir_refused(dir: Seq<char>, runtime_id: Seq<char>, user: UserContext) -> Option<
    Chain,
> {
    either(
        unless(
            !components(dir).contains("."@) && !components(dir).contains(".."@),
            "control_sockets.host_dir must not contain '.' or '..' path components: "@ + dir,
        ),
        either(
            unless(
                !is_shared_dir(dir, user),
                "control_sockets.host_dir must be an isolated runtime-specific leaf directory, got dangerous shared path "@
                    + dir,
            ),
            match entry_name(dir) {
                None => Some(
                    plain(
                        "control_sockets.host_dir must end with runtime_id "@ + quoted(runtime_id)
                            + ", got "@ + dir,
                    ),
                ),
                Some(leaf) => unless(
                    leaf == runtime_id,
                    "control_sockets.host_dir must end with runtime_id "@ + quoted(runtime_id)
                        + " so cleanup only removes the runtime leaf, got "@ + dir,
                ),
            },
        ),
    )
}

/// Refuses a directory that is not this runtime's alone.
pub fn validate_control_socket_host_dir(host_dir: &str, runtime_id: &str, user: &UserContext) -> (r:
    Result<(), Failure>)
    ensures
        refusal(r) == host_dir_refused(host_dir@, runtime_id@, *user),
{
    let parts = components_of(host_dir);
    if list_has(&parts, ".") || list_has(&parts, "..") {
        let message = cat2(
            "control_sockets.host_dir must not contain '.' or '..' path components: ",
            host_dir,
        );
        return Err(Failure::msg(message.as_str()));
    }
    let run_user = cat2("/run/user/", decimal_text(user.uid as u64).as_str());
    if same_path(host_dir, "/") || same_path(host_dir, user.home.as_str()) || same_path(
        host_dir,
        "/tmp",
    ) || same_path(host_dir, "/run") || same_path(host_dir, "/run/user") || same_path(
        host_dir,
        run_user.as_str(),
    ) {
        let message = cat2(
            "control_sockets.host_dir must be an isolated runtime-specific leaf directory, got dangerous shared path ",
            host_dir,
        );
        return Err(Failure::msg(message.as_str()));
    }
    let prefix = cat2(
        "control_sockets.host_dir must end with runtime_id ",
        quote(runtime_id).as_str(),
    );
    match file_name(host_dir) {
        None => Err(Failure::msg(cat3(prefix.as_str(), ", got ", host_dir).as_str())),
        Some(leaf) => {
            if !same(leaf.as_str(), runtime_id) {
                let message = cat3(
                    prefix.as_str(),
                    " so cleanup only removes the runtime leaf, got ",
                    host_dir,
                );
                return Err(Failure::msg(message.as_str()));
            }
            Ok(())
        },
    }
}

/// The variables that the configured locations can mention.
pub open spec fn socket_vars(
    user: UserContext,
    target: Seq<char>,
    image: Seq<char>,
    image_slug: Seq<char>,
    container: Seq<char>,
    runtime_id: Seq<char>,
    session_id: Option<Seq<char>>,
    context: Labels,
) -> Labels {
    let own = Map::empty().insert("user"@, user.user@).insert("uid"@, decimal(user.uid as nat)).insert(
        "gid"@,
        decimal(user.gid as nat),
    ).insert("home"@, user.home@).insert("target"@, target).insert("image"@, image).insert(
        "image_slug"@,
        image_slug,
    ).insert("container_name"@, container).insert("runtime_id"@, runtime_id);
    with_prefixed(
        crate::gateway::container_spec::optional_insert(own, "session_id"@, session_id),
        "context."@,
        listing(context),
    )
}

pub fn control_socket_vars(
    user: &UserContext,
    target_name: &str,
    image: &str,
    image_slug: &str,
    container_name: &str,
    runtime_id: &str,
    session_id: Option<&str>,
    context: &TextMap<String>,
) -> (r: TextMap<String>)
    ensures
        r@ == socket_vars(
            *user,
            target_name@,
            image@,
            image_slug@,
            container_name@,
            runtime_id@,
            opt_str(session_id),
            context@,
        ),
{
    let mut vars: TextMap<String> = TextMap::new();
    vars.insert("user".to_owned(), user.user.clone());
    vars.insert("uid".to_owned(), decimal_text(user.uid as u64));
    vars.insert("gid".to_owned(), decimal_text(user.gid as u64));
    vars.insert("home".to_owned(), user.home.clone());
    vars.insert("target".to_owned(), target_name.to_owned());
    vars.insert("image".to_owned(), image.to_owned());
    vars.insert("image_slug".to_owned(), image_slug.to_owned());
    vars.insert("container_name".to_owned(), container_name.to_owned());
    vars.insert("runtime_id".to_owned(), runtime_id.to_owned());
    if let Some(session_id) = session_id {
        vars.insert("session_id".to_owned(), session_id.to_owned());
    }
    vars.extend_prefixed("context.", context);
    vars
}

/// The configured locations with their variables filled in.
#[derive(Debug)]
pub struct RenderedSocketDirs {
    /// Whether the runtime's id is an acceptable name.
    pub runtime_id_check: Result<(), Failure>,
    pub host_dir: Result<String, Failure>,
    pub container_dir: Result<String, Failure>,
    pub default_host_dir: bool,
}

pub open spec fn socket_dirs_refused(
    rendered: RenderedSocketDirs,
    runtime_id: Seq<char>,
    user: UserContext,
) -> Option<Chain> {
    let host = text_of(rendered.host_dir);
    let container = text_of(rendered.container_dir);
    either(
        failed(rendered.runtime_id_check),
        either(
            failed(rendered.host_dir),
            either(
                unless(
                    is_absolute_path(host),
                    "control_sockets.host_dir must render to an absolute path, got "@ + host,
                ),
                either(
                    host_dir_refused(host, runtime_id, user),
                    either(
                        failed(rendered.container_dir),
                        unless(
                            is_absolute_path(container),
                            "control_sockets.container_dir must render to an absolute path, got "@
                                + container,
                        ),
                    ),
                ),
            ),
        ),
    )
}

/// The sockets below two directories.
pub open spec fn sockets_below(
    paths: ControlSocketPaths,
    host: Seq<char>,
    container: Seq<char>,
) -> bool {
    &&& paths.host_dir@ == host
    &&& paths.container_dir@ == container
    &&& paths.host_agent_socket@ == joined_path(host, "agent.sock"@)
    &&& paths.host_ssh_socket@ == joined_path(host, "ssh.sock"@)
    &&& paths.container_agent_socket@ == joined_path(container, "agent.sock"@)
    &&& paths.container_ssh_socket@ == joined_path(container, "ssh.sock"@)
}

/// The sockets of a runtime, from its configured locations.
pub fn render_control_socket_paths(
    rendered: RenderedSocketDirs,
    runtime_id: &str,
    user: &UserContext,
) -> (r: Result<ControlSocketPaths, Failure>)
    ensures
        failed(r) == socket_dirs_refused(rendered, runtime_id@, *user),
        r matches Ok(paths) ==> {
            &&& sockets_below(paths, text_of(rendered.host_dir), text_of(rendered.container_dir))
            &&& paths.default_host_dir == rendered.default_host_dir
        },
{
    if let Err(failure) = rendered.runtime_id_check {
        return Err(failure);
    }
    let host_dir = match rendered.host_dir {
        Ok(dir) => dir,
        Err(failure) => return Err(failure),
    };
    if !is_absolute(host_dir.as_str()) {
        let message = cat2(
            "control_sockets.host_dir must render to an absolute path, got ",
            host_dir.as_str(),
        );
        return Err(Failure::msg(message.as_str()));
    }
    if let Err(failure) = validate_control_socket_host_dir(host_dir.as_str(), runtime_id, user) {
        return Err(failure);
    }
    let container_dir = match rendered.container_dir {
        Ok(dir) => dir,
        Err(failure) => return Err(failure),
    };
    if !is_absolute(container_dir.as_str()) {
        let message = cat2(
            "control_sockets.container_dir must render to an absolute path, got ",
            container_dir.as_str(),
        );
        return Err(Failure::msg(message.as_str()));
    }
    Ok(
        ControlSocketPaths {
            host_agent_socket: join(host_dir.as_str(), "agent.sock"),
            host_ssh_socket: join(host_dir.as_str(), "ssh.sock"),
            container_agent_socket: join(container_dir.as_str(), "agent.sock"),
            container_ssh_socket: join(container_dir.as_str(), "ssh.sock"),
            default_host_dir: rendered.default_host_dir,
            host_dir,
            container_dir,
        },
    )
}

/// A control socket directory that is accepted ends with the runtime's own id,
/// is none of the shared directories, and is named without `..`: removing it
/// removes nothing of another runtime.
pub proof fn accepted_host_dir_is_a_leaf(
    dir: Seq<char>,
    runtime_id: Seq<char>,
    user: UserContext,
)
    ensures
        host_dir_refused(dir, runtime_id, user) is None <==> entry_name(dir) == Some(runtime_id)
            && !is_shared_dir(dir, user) && !components(dir).contains("."@) && !components(
            dir,
        ).contains(".."@),
{
}

/// Whatever is removed with a runtime's sockets lies within the directory of its
/// own that was accepted for it.
pub proof fn cleanup_stays_within_the_leaf(
    sockets: ControlSocketPaths,
    host: Seq<char>,
    container: Seq<char>,
    runtime_id: Seq<char>,
    user: UserContext,
    seen: PathInspection,
    i: int,
)
    requires
        sockets_below(sockets, host, container),
        is_absolute_path(host),
        host_dir_refused(host, runtime_id, user) is None,
        0 <= i < leftovers(sockets, seen).len(),
    ensures
        is_within(leftovers(sockets, seen)[i].path(), host),
        entry_name(host) == Some(runtime_id),
        !is_shared_dir(host, user),
{
    accepted_host_dir_is_a_leaf(host, runtime_id, user);
    reveal_strlit("agent.sock");
    reveal_strlit("ssh.sock");
    reveal_strlit("/");
    joining_adds_components(host, "agent.sock"@);
    joining_adds_components(host, "ssh.sock"@);
}

/// The state directory of a workspace lies within the workspace.
pub proof fn state_paths_stay_within_the_workspace(base: Seq<char>, configured: Seq<char>)
    requires
        !leaves_workspace(configured),
    ensures
        is_within(rebuilt(components(joined_path(base, configured))), base),
{
    let path = joined_path(base, configured);
    components_are_a_list(path);
    rebuilt_paths_keep_components(components(path));
    if base.len() == 0 {
        components_are_a_list(base);
        rebuilt_paths_keep_components(Seq::empty());
        assert(base =~= rebuilt(Seq::empty()));
        assert(components(base) =~= Seq::<Seq<char>>::empty());
    } else {
        joining_adds_components(base, configured);
    }
}

// ---------------------------------------------------------------- laws

/// The agent's sockets are in use exactly where the agent is controlled, the host's
/// SSH socket exactly where an endpoint is a socket, and the container's exactly
/// where an agent bridges SSH.
pub proof fn sockets_are_used_where_needed(runtime: Runtime)
    ensures
        ({
            let used = runtime.sockets_in_use();
            let sockets = runtime.paths.control_sockets;
            let controlled = runtime.target.agent_control_enabled;
            let on_socket = runtime.target.ssh_endpoint_configured && runtime.target.ssh_backend
                == LocalSshBackend::Socket;
            let bridged = runtime.target.agent_enabled && runtime.target.ssh_bridge_enabled;
            &&& used.contains(("host agent socket path"@, sockets.host_agent_socket@))
                <==> controlled
            &&& used.contains(("container agent socket path"@, sockets.container_agent_socket@))
                <==> controlled
            &&& used.contains(("host ssh socket path"@, sockets.host_ssh_socket@)) <==> on_socket
            &&& used.contains(("container ssh socket path"@, sockets.container_ssh_socket@))
                <==> bridged
            &&& used.len() == (if controlled {
                2int
            } else {
                0
            }) + (if on_socket {
                1int
            } else {
                0
            }) + (if bridged {
                1int
            } else {
                0
            })
        }),
{
    reveal_strlit("host agent socket path");
    reveal_strlit("container agent socket path");
    reveal_strlit("host ssh socket path");
    reveal_strlit("container ssh socket path");
    assert("host agent socket path"@.len() == 22 && "container agent socket path"@.len() == 27);
    assert("host ssh socket path"@.len() == 20 && "container ssh socket path"@.len() == 25);
    let used = runtime.sockets_in_use();
    let n = used.len() as int;
    if runtime.target.agent_control_enabled {
        assert(used[0].0.len() == 22 && used[1].0.len() == 27);
    }
    if runtime.bridges_ssh() {
        assert(used[n - 1].0.len() == 25);
    }
    if runtime.target.ssh_endpoint_configured && runtime.target.ssh_backend
        == LocalSshBackend::Socket {
        let at = if runtime.bridges_ssh() {
            n - 2
        } else {
            n - 1
        };
        assert(used[at].0.len() == 20);
    }
}

/// Sockets are refused exactly where one of their paths takes more bytes than an
/// address has.
pub proof fn sockets_fit_their_addresses(
    runtime: Runtime,
    sockets: Seq<(Seq<char>, Seq<char>)>,
    limit: int,
)
    ensures
        runtime.overlong_socket(sockets, limit) is None <==> forall|i: int|
            0 <= i < sockets.len() ==> encode_utf8((#[trigger] sockets[i]).1).len() <= limit,
    decreases sockets.len(),
{
    if sockets.len() > 0 {
        let rest = sockets.skip(1);
        sockets_fit_their_addresses(runtime, rest, limit);
        assert forall|i: int| 0 <= i < rest.len() implies #[trigger] rest[i] == sockets[i + 1] by {}
        if runtime.overlong_socket(rest, limit) is None {
            assert forall|i: int| 0 < i < sockets.len() implies encode_utf8(
                (#[trigger] sockets[i]).1,
            ).len() <= limit by {
                assert(rest[i - 1] == sockets[i]);
            }
        } else {
            let i = choose|i: int|
                0 <= i < rest.len() && encode_utf8((#[trigger] rest[i]).1).len() > limit;
            assert(encode_utf8(sockets[i + 1].1).len() > limit);
        }
    }
}

/// A service whose user is left open runs as the container's user; any other runs as
/// it says, and nothing else of it changes.
pub proof fn services_run_as_their_user(runtime: Runtime, s: ServiceModel)
    ensures
        ({
            let t = runtime.service_for_user(s);
            &&& s.user == "{container_user}"@ ==> t.user == runtime.identity.container_user@
            &&& s.user != "{container_user}"@ ==> t.user == s.user
            &&& t.name == s.name && t.env == s.env
        }),
{
}

/// A file of keys is refused exactly where an SSH daemon would be told of it and its
/// path holds white space or a comment mark.
pub proof fn key_files_can_be_written_down(
    runtime: Runtime,
    services: Seq<ServiceModel>,
    keys_file: Seq<char>,
)
    ensures
        runtime.keys_file_refused(services, keys_file) is Some <==> {
            &&& exists|i: int|
                0 <= i < services.len() && (#[trigger] services[i]).name == "container-sshd"@
            &&& keys_file.contains('#') || exists|i: int|
                0 <= i < keys_file.len() && is_white(#[trigger] keys_file[i])
        },
{
}

/// What the target says of idle containers counts before what the agent's own file
/// says. The agent looks after them only where the target leaves it to the agent and
/// something is to be done.
pub proof fn idle_containers_are_looked_after(runtime: Runtime, own: Option<IdleCleanup>)
    ensures
        runtime.target.idle_cleanup is None ==> runtime.agent_idle_cleanup(own) == own,
        runtime.target.idle_cleanup matches Some(cleanup) ==> {
            &&& runtime.agent_idle_cleanup(own) is Some <==> cleanup.owner
                == IdleCleanupOwner::Agent && cleanup.action != IdleCleanupAction::Nothing
            &&& runtime.agent_idle_cleanup(own) matches Some(used) ==> used == cleanup
        },
{
}

/// The agent is told of the sockets that are used, and of no others; its services
/// stay as many and as they were named; what the gateway does not decide stays.
pub proof fn agents_are_told_what_they_need(
    runtime: Runtime,
    r: ContainerAgentConfig,
    own: ContainerAgentConfig,
    keys_file: Seq<char>,
)
    requires
        runtime.agent_config_is(r, own, keys_file),
    ensures
        runtime.target.agent_control_enabled ==> opt_text(r.control_socket) == Some(
            runtime.paths.control_sockets.container_agent_socket@,
        ),
        !runtime.target.agent_control_enabled ==> opt_text(r.control_socket) == opt_text(
            own.control_socket,
        ),
        r.ssh_bridge is Some <==> own.ssh_bridge is Some,
        own.ssh_bridge matches Some(bridge) ==> {
            let got = r.ssh_bridge->0;
            &&& got.enabled == bridge.enabled
            &&& runtime.target.agent_enabled && bridge.enabled ==> opt_text(got.socket) == Some(
                runtime.paths.control_sockets.container_ssh_socket@,
            )
            &&& !(runtime.target.agent_enabled && bridge.enabled) ==> opt_text(got.socket)
                == opt_text(bridge.socket)
        },
        r.services@.len() == own.services@.len(),
        forall|i: int|
            0 <= i < r.services@.len() ==> {
                &&& (#[trigger] r.services@[i]).name@ == own.services@[i].name@
                &&& own.services@[i].user@ != "{container_user}"@ ==> r.services@[i].user@
                    == own.services@[i].user@
                &&& own.services@[i].user@ == "{container_user}"@ ==> r.services@[i].user@
                    == runtime.identity.container_user@
            },
        r.idle_cleanup == runtime.agent_idle_cleanup(own.idle_cleanup),
{
    let got = service_models(r.services@);
    let given = service_models(own.services@);
    let expected = given.map_values(
        |s: ServiceModel| runtime.service_for_user(runtime.managed_service(s, keys_file)),
    );
    assert(got.len() == expected.len());
    assert forall|i: int| 0 <= i < r.services@.len() implies {
        &&& (#[trigger] r.services@[i]).name@ == own.services@[i].name@
        &&& own.services@[i].user@ != "{container_user}"@ ==> r.services@[i].user@
            == own.services@[i].user@
        &&& own.services@[i].user@ == "{container_user}"@ ==> r.services@[i].user@
            == runtime.identity.container_user@
    } by {
        assert(got[i] == r.services@[i]@);
        assert(given[i] == own.services@[i]@);
        assert(got[i] == expected[i]);
        only_the_ssh_daemon_changes(runtime, given[i], keys_file);
        services_run_as_their_user(runtime, runtime.managed_service(given[i], keys_file));
    }
}

/// A session's environment can be written down exactly where neither a key nor a
/// value holds white space.
pub proof fn environments_without_blanks_are_written(env: Seq<(Seq<char>, Seq<char>)>)
    ensures
        setenv_refused(env) is None <==> forall|i: int|
            0 <= i < env.len() ==> !holds_white((#[trigger] env[i]).0) && !holds_white(env[i].1),
    decreases env.len(),
{
    if env.len() > 0 {
        let rest = env.skip(1);
        environments_without_blanks_are_written(rest);
        assert forall|i: int| 0 <= i < rest.len() implies #[trigger] rest[i] == env[i + 1] by {}
        if setenv_refused(rest) is None {
            assert forall|i: int| 0 < i < env.len() implies !holds_white((#[trigger] env[i]).0)
                && !holds_white(env[i].1) by {
                assert(rest[i - 1] == env[i]);
            }
        } else {
            let i = choose|i: int|
                0 <= i < rest.len() && !(!holds_white((#[trigger] rest[i]).0) && !holds_white(
                    rest[i].1,
                ));
            assert(env[i + 1] == rest[i]);
        }
    }
}

/// The file of an SSH session's environment has one line for it, on which every
/// variable stands with its value; without variables it has no such line.
pub proof fn environments_are_written_in_full(env: Seq<(Seq<char>, Seq<char>)>, i: int)
    requires
        0 <= i < env.len(),
    ensures
        "SetEnv"@.is_prefix_of(setenv_line(env)),
        has_text(setenv_line(env), " "@ + env[i].0 + "="@ + env[i].1),
        (setenv_line(env) + "\n"@).is_suffix_of(sshd_env_text(env)),
        setenv_line(Seq::empty()) == "SetEnv"@,
        sshd_env_text(Seq::empty())
            == "# Generated by aw-gateway. Included by container SSHD helpers when configured.\n"@,
    decreases env.len(),
{
    variables_stand_on_the_line(env, i);
    let head =
        "# Generated by aw-gateway. Included by container SSHD helpers when configured.\n"@;
    let line = setenv_line(env) + "\n"@;
    let text = sshd_env_text(env);
    assert(text.subrange(head.len() as int, text.len() as int) =~= line);
}

proof fn variables_stand_on_the_line(env: Seq<(Seq<char>, Seq<char>)>, i: int)
    requires
        0 <= i < env.len(),
    ensures
        "SetEnv"@.is_prefix_of(setenv_line(env)),
        has_text(setenv_line(env), " "@ + env[i].0 + "="@ + env[i].1),
    decreases env.len(),
{
    let front = env.drop_last();
    let before = setenv_line(front);
    let last = " "@ + env.last().0 + "="@ + env.last().1;
    let line = setenv_line(env);
    assert(line =~= before + last);
    if front.len() > 0 {
        variables_stand_on_the_line(front, 0);
    }
    let word = "SetEnv"@;
    assert(before.subrange(0, word.len() as int) =~= word);
    assert(line.subrange(0, word.len() as int) =~= word);
    let shown = " "@ + env[i].0 + "="@ + env[i].1;
    if i == front.len() {
        let at = before.len() as int;
        assert(line.subrange(at, at + shown.len()) =~= shown);
        assert(stands_at(line, shown, at));
    } else {
        variables_stand_on_the_line(front, i);
        assert(front[i] == env[i]);
        let at = choose|at: int| stands_at(before, shown, at);
        assert(line.subrange(at, at + shown.len()) =~= before.subrange(at, at + shown.len()));
        assert(stands_at(line, shown, at));
    }
}

/// A directory is private exactly where neither its group nor others may do anything
/// with it. Only a directory is used, no link and no file, and only a private one
/// where that is looked at.
pub proof fn only_private_directories_are_used(
    path: Seq<char>,
    seen: PathInspection,
    mode: u32,
    check_mode: bool,
)
    ensures
        open_directory(path, mode) is None <==> mode & 0o077 == 0,
        not_a_private_dir(path, seen, check_mode) is None <==> (seen matches
            PathInspection::Directory { mode } && (!check_mode || mode & 0o077 == 0)),
{
    assert(mode & 0o777 & 0o077 == mode & 0o077) by (bit_vector);
    if let PathInspection::Directory { mode: own } = seen {
        assert(own & 0o777 & 0o077 == own & 0o077) by (bit_vector);
    }
}

/// Sockets are removed before their directory, and only where a directory stands.
pub proof fn sockets_are_removed_before_their_directory(
    sockets: ControlSocketPaths,
    seen: PathInspection,
)
    ensures
        leftovers(sockets, seen).len() > 0 <==> seen is Directory,
        seen is Directory ==> {
            let removed = leftovers(sockets, seen);
            &&& removed.len() == 3
            &&& removed[0] == LeftoverModel::File(sockets.host_agent_socket@)
            &&& removed[1] == LeftoverModel::File(sockets.host_ssh_socket@)
            &&& removed[2] == LeftoverModel::EmptyDirectory(sockets.host_dir@)
        },
{
}

/// The user's runtime directory can be used exactly where it is a directory that
/// could be written.
pub proof fn runtime_directories_are_writable(dir: Seq<char>, seen: RunUserDir)
    ensures
        run_user_dir_refused(dir, seen) is None <==> seen.is_dir == Ok::<bool, String>(true)
            && seen.probe is Ok,
{
}

/// The directories that others use are the root, the home, and the system's
/// directories for temporary and running things, the user's among them.
pub proof fn shared_directories_are_known(dir: Seq<char>, user: UserContext)
    ensures
        is_shared_dir("/"@, user),
        is_shared_dir(user.home@, user),
        is_shared_dir("/tmp"@, user),
        is_shared_dir("/run"@, user),
        is_shared_dir("/run/user"@, user),
        is_shared_dir("/run/user/"@ + decimal(user.uid as nat), user),
        is_shared_dir(dir, user) ==> exists|known: Seq<char>| #[trigger]
            components(known) == components(dir) && seq![
                "/"@,
                user.home@,
                "/tmp"@,
                "/run"@,
                "/run/user"@,
                "/run/user/"@ + decimal(user.uid as nat),
            ].contains(known),
{
    let all = seq![
        "/"@,
        user.home@,
        "/tmp"@,
        "/run"@,
        "/run/user"@,
        "/run/user/"@ + decimal(user.uid as nat),
    ];
    assert(all.contains(all[0]) && all.contains(all[1]) && all.contains(all[2]) && all.contains(
        all[3],
    ) && all.contains(all[4]) && all.contains(all[5]));
    if is_shared_dir(dir, user) {
        assert(components(all[0]) == components(dir) || components(all[1]) == components(dir)
            || components(all[2]) == components(dir) || components(all[3]) == components(dir)
            || components(all[4]) == components(dir) || components(all[5]) == components(dir));
    }
}

/// Locations are accepted exactly where the runtime's id is, both were filled in
/// absolutely, and the host's is one of the runtime's own. Its sockets are then four,
/// by the same names on both sides.
pub proof fn socket_locations_are_the_runtimes_own(
    rendered: RenderedSocketDirs,
    runtime_id: Seq<char>,
    user: UserContext,
    paths: ControlSocketPaths,
    host: Seq<char>,
    container: Seq<char>,
)
    ensures
        socket_dirs_refused(rendered, runtime_id, user) is None <==> {
            &&& rendered.runtime_id_check is Ok
            &&& rendered.host_dir matches Ok(dir) && is_absolute_path(dir@) && host_dir_refused(
                dir@,
                runtime_id,
                user,
            ) is None
            &&& rendered.container_dir matches Ok(dir) && is_absolute_path(dir@)
        },
        sockets_below(paths, host, container) ==> {
            &&& paths.host_dir@ == host && paths.container_dir@ == container
            &&& paths.host_agent_socket@ == joined_path(host, "agent.sock"@)
            &&& paths.host_ssh_socket@ == joined_path(host, "ssh.sock"@)
            &&& paths.container_agent_socket@ == joined_path(container, "agent.sock"@)
            &&& paths.container_ssh_socket@ == joined_path(container, "ssh.sock"@)
        },
{
}

/// The texts of socket directories can mention the user, the target, its image, its
/// container and the runtime's id, every entry of the context, and the session where
/// there is one.
pub proof fn socket_variables_tell_of_the_target(
    user: UserContext,
    target: Seq<char>,
    image: Seq<char>,
    image_slug: Seq<char>,
    container: Seq<char>,
    runtime_id: Seq<char>,
    session_id: Option<Seq<char>>,
    context: Labels,
)
    requires
        context.dom().finite(),
    ensures
        ({
            let vars = socket_vars(
                user,
                target,
                image,
                image_slug,
                container,
                runtime_id,
                session_id,
                context,
            );
            &&& vars.contains_pair("user"@, user.user@)
            &&& vars.contains_pair("uid"@, decimal(user.uid as nat))
            &&& vars.contains_pair("gid"@, decimal(user.gid as nat))
            &&& vars.contains_pair("home"@, user.home@)
            &&& vars.contains_pair("target"@, target)
            &&& vars.contains_pair("image"@, image)
            &&& vars.contains_pair("image_slug"@, image_slug)
            &&& vars.contains_pair("container_name"@, container)
            &&& vars.contains_pair("runtime_id"@, runtime_id)
            &&& vars.contains_key("session_id"@) <==> session_id is Some
            &&& session_id matches Some(id) ==> vars["session_id"@] == id
            &&& forall|key: Seq<char>| #[trigger]
                context.contains_key(key) ==> vars.contains_pair("context."@ + key, context[key])
        }),
{
    reveal_strlit("user");
    reveal_strlit("uid");
    reveal_strlit("gid");
    reveal_strlit("home");
    reveal_strlit("target");
    reveal_strlit("image");
    reveal_strlit("image_slug");
    reveal_strlit("container_name");
    reveal_strlit("runtime_id");
    reveal_strlit("session_id");
    reveal_strlit("context.");
    assert("user"@.len() == 4 && "user"@[0] == 'u');
    assert("uid"@.len() == 3 && "uid"@[0] == 'u');
    assert("gid"@.len() == 3 && "gid"@[0] == 'g');
    assert("home"@.len() == 4 && "home"@[0] == 'h');
    assert("target"@.len() == 6 && "image"@.len() == 5);
    assert("image_slug"@.len() == 10 && "image_slug"@[0] == 'i');
    assert("session_id"@.len() == 10 && "session_id"@[0] == 's');
    assert("runtime_id"@.len() == 10 && "runtime_id"@[0] == 'r');
    assert("container_name"@.len() == 14 && "container_name"@[4] == 'a');
    let prefix = "context."@;
    assert(prefix.len() == 8 && prefix[0] == 'c' && prefix[4] == 'e');
    let pairs = listing(context);
    finite_maps_are_listed(context);
    assert forall|i: int, j: int| 0 <= i < j < pairs.len() implies pairs[i].0 != pairs[j].0 by {
        crate::text_map::precedes_irreflexive(pairs[i].0);
    }
    let first = crate::gateway::container_spec::optional_insert(
        Map::empty().insert("user"@, user.user@).insert("uid"@, decimal(user.uid as nat)).insert(
            "gid"@,
            decimal(user.gid as nat),
        ).insert("home"@, user.home@).insert("target"@, target).insert("image"@, image).insert(
            "image_slug"@,
            image_slug,
        ).insert("container_name"@, container).insert("runtime_id"@, runtime_id),
        "session_id"@,
        session_id,
    );
    prefixed_entries(first, prefix, pairs);
    let vars = with_prefixed(first, prefix, pairs);
    assert forall|key: Seq<char>| key.len() < 8 || key[0] != 'c' || key[4] == 'a' implies
        !#[trigger] prefix.is_prefix_of(key) by {
        if prefix.is_prefix_of(key) {
            assert(key[0] == prefix[0] && key[4] == prefix[4]);
        }
    }
    assert(vars.contains_key("user"@) && vars.contains_key("uid"@) && vars.contains_key("gid"@));
    assert(vars.contains_key("home"@) && vars.contains_key("target"@) && vars.contains_key(
        "image"@,
    ) && vars.contains_key("image_slug"@));
    assert(vars.contains_key("container_name"@) && vars.contains_key("runtime_id"@));
    assert(vars.contains_key("session_id"@) == first.contains_key("session_id"@));
    assert forall|key: Seq<char>| #[trigger] context.contains_key(key) implies vars.contains_pair(
        prefix + key,
        context[key],
    ) by {
        assert(has_pair(pairs, key, context[key]));
        let i = choose|i: int| 0 <= i < pairs.len() && #[trigger] pairs[i] == (key, context[key]);
        assert(vars.contains_key(prefix + pairs[i].0));
    }
}

/// The container knows the agent's socket exactly where the agent can be asked,
/// and that of the bridge exactly where the agent runs and bridges SSH; neither
/// is the other's.
pub proof fn sockets_are_known_inside_where_used(runtime: Runtime)
    ensures
        runtime.agent_socket_inside() is Some <==> runtime.target.agent_control_enabled,
        runtime.agent_socket_inside() matches Some(path) ==> path
            == runtime.paths.control_sockets.container_agent_socket@,
        runtime.ssh_socket_inside() is Some <==> runtime.target.agent_enabled
            && runtime.target.ssh_bridge_enabled,
        runtime.ssh_socket_inside() matches Some(path) ==> path
            == runtime.paths.control_sockets.container_ssh_socket@,
{
}

/// What is gone is not worth a warning, what could not be removed is; a directory
/// that others still use is not, where a file in its place is.
pub proof fn leftovers_are_warned_of_when_they_stay(leftover: SocketLeftover)
    ensures
        !leftover.is_worth_a_warning(LeftoverEnd::Removed),
        !leftover.is_worth_a_warning(LeftoverEnd::NotFound),
        leftover.is_worth_a_warning(LeftoverEnd::Failed),
        leftover.is_worth_a_warning(LeftoverEnd::NotEmpty) <==> !(leftover is EmptyDirectory),
{
}

/// The bootstrap of a container makes the session's user ready: it is told this
/// runtime's user, numbers, home, shell and state directory. It leaves the user
/// alone where Podman has made it, and hands over directories that are there
/// except where the runtime does not let it.
pub proof fn bootstraps_make_the_session_user_ready(
    runtime: Runtime,
    file: ContainerBootstrapFile,
)
    requires
        runtime.bootstraps_with(file),
    ensures
        file.identity.session_user@ == runtime.identity.container_user@,
        file.identity.session_uid == runtime.identity.session_uid,
        file.identity.session_gid == runtime.identity.session_gid,
        file.identity.session_home@ == runtime.identity.container_home@,
        file.identity.session_shell@ == runtime.identity.session_shell@,
        file.identity.state_dir@ == runtime.paths.container_state_dir_in_container@,
        file.agent_config@ == runtime.agent_config_path(),
        runtime.kind is Podman ==> file.skip_identity_prepare && file.chown_existing_identity_dirs,
        runtime.kind is Docker ==> !file.skip_identity_prepare && file.chown_existing_identity_dirs,
        runtime.kind is Colima ==> !file.skip_identity_prepare && file.chown_existing_identity_dirs,
        runtime.kind is AppleContainer ==> !file.skip_identity_prepare
            && !file.chown_existing_identity_dirs,
{
}

proof fn state_files_have_names()
    ensures
        can_name("container-agent.toml"@),
        can_name("container-bootstrap.toml"@),
        can_name("sshd-session-env.conf"@),
        can_name("ssh-command-filter.toml"@),
{
    reveal_strlit("container-agent.toml");
    reveal_strlit("container-bootstrap.toml");
    reveal_strlit("sshd-session-env.conf");
    reveal_strlit("ssh-command-filter.toml");
    reveal_strlit("/");
    reveal_strlit(".");
    reveal_strlit("..");
    assert("container-agent.toml"@.len() == 20 && "container-bootstrap.toml"@.len() == 24
        && "sshd-session-env.conf"@.len() == 21 && "ssh-command-filter.toml"@.len() == 23);
    assert("/"@.len() == 1 && "."@.len() == 1 && ".."@.len() == 2);
    assert(!"container-agent.toml"@.contains('/'));
    assert(!"container-bootstrap.toml"@.contains('/'));
    assert(!"sshd-session-env.conf"@.contains('/'));
    assert(!"ssh-command-filter.toml"@.contains('/'));
}

proof fn state_files_stand_inside(runtime: Runtime, outside: Seq<char>, name: Seq<char>)
    requires
        can_name(name),
        outside.len() > 0,
        runtime.paths.container_state_dir_in_container@.len() > 0,
    ensures
        ({
            let inside = runtime.paths.container_state_dir_in_container@;
            &&& entry_name(joined_path(outside, name)) == Some(name)
            &&& entry_name(joined_path(inside, name)) == Some(name)
            &&& is_within(joined_path(outside, name), outside)
            &&& is_within(joined_path(inside, name), inside)
        }),
{
    let inside = runtime.paths.container_state_dir_in_container@;
    if is_absolute_path(name) {
        assert(name.contains(name[0]));
    }
    entries_have_their_names(outside, name, name);
    entries_have_their_names(inside, name, name);
    paths_are_seen_from_their_directory(outside, name);
    paths_are_seen_from_their_directory(inside, name);
}

/// What the gateway writes for a container is found inside it under the same name:
/// in the state directory, which the host and the container see each under its own
/// path. The four files have four names.
pub proof fn state_files_are_found_inside(runtime: Runtime)
    requires
        runtime.paths.container_state_dir@.len() > 0,
        runtime.paths.container_state_dir_in_container@.len() > 0,
    ensures
        ({
            let (outside, inside) = (
                runtime.paths.container_state_dir@,
                runtime.paths.container_state_dir_in_container@,
            );
            let agent = entry_name(runtime.agent_config_host_path());
            let bootstrap = entry_name(runtime.bootstrap_config_host_path());
            let env = entry_name(runtime.sshd_env_host_path());
            let filter = entry_name(runtime.filter_policy_host_path());
            &&& agent is Some && agent == entry_name(runtime.agent_config_path())
            &&& bootstrap is Some && bootstrap == entry_name(runtime.bootstrap_config_path())
            &&& env is Some && env == entry_name(runtime.sshd_env_path())
            &&& filter is Some && filter == entry_name(runtime.filter_policy_path())
            &&& agent != bootstrap && agent != env && agent != filter && bootstrap != env
                && bootstrap != filter && env != filter
            &&& is_within(runtime.agent_config_host_path(), outside)
            &&& is_within(runtime.bootstrap_config_host_path(), outside)
            &&& is_within(runtime.sshd_env_host_path(), outside)
            &&& is_within(runtime.filter_policy_host_path(), outside)
            &&& is_within(runtime.agent_config_path(), inside)
            &&& is_within(runtime.bootstrap_config_path(), inside)
            &&& is_within(runtime.sshd_env_path(), inside)
            &&& is_within(runtime.filter_policy_path(), inside)
        }),
{
    let outside = runtime.paths.container_state_dir@;
    state_files_have_names();
    state_files_stand_inside(runtime, outside, "container-agent.toml"@);
    state_files_stand_inside(runtime, outside, "container-bootstrap.toml"@);
    state_files_stand_inside(runtime, outside, "sshd-session-env.conf"@);
    state_files_stand_inside(runtime, outside, "ssh-command-filter.toml"@);
    reveal_strlit("container-agent.toml");
    reveal_strlit("container-bootstrap.toml");
    reveal_strlit("sshd-session-env.conf");
    reveal_strlit("ssh-command-filter.toml");
    assert("container-agent.toml"@.len() == 20 && "container-bootstrap.toml"@.len() == 24
        && "sshd-session-env.conf"@.len() == 21 && "ssh-command-filter.toml"@.len() == 23);
}

/// What the gateway sets for a service stands as it is: nothing in it is filled in,
/// read from a file or taken over, and it must be there.
pub proof fn set_variables_stand_as_they_are(value: Seq<char>)
    ensures
        ({
            let set = literal_env(value);
            &&& set.value == Some(value) && set.file is None && set.inherit is None
            &&& !set.interpolate && set.required
        }),
{
}

/// A path leaves the workspace where it begins at the root or at home, or climbs; a
/// name that does not stand for home stays in it.
pub proof fn plain_names_stay_in_the_workspace(path: Seq<char>, name: Seq<char>)
    requires
        can_name(name),
    ensures
        is_absolute_path(path) ==> leaves_workspace(path),
        leaves_workspace("~"@),
        leaves_workspace("~/"@ + path),
        components(path).contains(".."@) ==> leaves_workspace(path),
        leaves_workspace(name) <==> name == "~"@,
{
    reveal_strlit("~/");
    reveal_strlit("~");
    reveal_strlit("..");
    assert(("~/"@ + path).subrange(0, 2) =~= "~/"@);
    if is_absolute_path(name) {
        assert(name.contains(name[0]));
    }
    if "~/"@.is_prefix_of(name) {
        assert(name.subrange(0, 2)[1] == name[1]);
        assert(name.contains(name[1]));
    }
    names_are_their_only_component(name);
    if components(name).contains(".."@) {
        assert(components(name)[0] == name);
    }
}

} // verus!
