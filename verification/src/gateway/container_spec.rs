//! What a container is started with, and how an existing one is recognised.

use crate::config::{ContainerMountMode, ContainerRuntimeType, LocalSshBackend, TargetAccessMethod, TargetMode};
use crate::failure::{either, failed, outcome, plain, refusal, under, unless, Chain, Failure};
use crate::gateway::host_socket_exposures::{
    canonicalize_generic_mount_source, final_entry, final_entry_refused, has_separator,
    mount_models, mount_source_refused, not_normalized, text_of, validate_normalized_container_path,
    ContainerMountSpec, MountModel, PreparedContainerInputs, SourceFileType,
    HOST_SOCKET_EXPOSURE_MANIFEST_LABEL,
};
use crate::gateway::state::Runtime;
use crate::runtime::{label_fault, validate_gateway_labels, ContainerInspect, ContainerRunSpec};
use crate::text::{
    cat2, cat3, cat4, cat7, decimal, decimal_text, find_from, find_from_bounds, has_char, opt_str,
    opt_text, pieces, pieces_of_both, quote, quoted, same, strip_prefix, texts,
};
use crate::gateway::ownership::prefixed_entries;
use crate::text_map::{finite_maps_are_listed, has_pair, listing, lists, with_prefixed, TextMap};
use crate::unix_path::{components, entry_name, join, joined_path, same_path};
use vstd::prelude::*;

verus! {

pub const DEFAULT_SESSION_SHELL_ENV: &'static str = "/usr/bin/bash";

pub const PUBLISHED_SSH_RUN_ATTEMPTS: usize = 3;

pub const WORKSPACE_SOURCE_LABEL: &'static str = "io.aw-gateway.workspace.source";

pub const WORKSPACE_TARGET_LABEL: &'static str = "io.aw-gateway.workspace.target";

pub const WORKSPACE_STATE_HOST_LABEL: &'static str = "io.aw-gateway.workspace.state_host";

pub const WORKSPACE_STATE_CONTAINER_LABEL: &'static str = "io.aw-gateway.workspace.state_container";

pub const CONTEXT_LABEL_PREFIX: &'static str = "io.aw-gateway.context.";

pub type Labels = Map<Seq<char>, Seq<char>>;

// ---------------------------------------------------------------- labels

impl Runtime {
    /// The labels that name a container's owner.
    pub open spec fn owner_labels(self) -> Labels {
        Map::empty().insert("io.aw-gateway.gateway"@, "true"@).insert(
            "io.aw-gateway.user"@,
            self.identity.user.user@,
        ).insert("io.aw-gateway.uid"@, decimal(self.identity.user.uid as nat)).insert(
            "io.aw-gateway.target"@,
            self.identity.target_name@,
        ).insert("io.aw-gateway.container_id"@, self.identity.container_name@)
    }

    /// The labels by which a container is recognised as this target's.
    pub open spec fn stable_labels(self) -> Labels {
        with_prefixed(self.owner_labels(), CONTEXT_LABEL_PREFIX@, listing(self.context@))
    }

    /// The labels that say how the workspace is mounted.
    pub open spec fn layout_labels(self) -> Labels {
        Map::empty().insert(WORKSPACE_SOURCE_LABEL@, self.paths.workspace@).insert(
            WORKSPACE_TARGET_LABEL@,
            self.paths.workspace_container_path@,
        ).insert(WORKSPACE_STATE_HOST_LABEL@, self.paths.workspace_state_dir@).insert(
            WORKSPACE_STATE_CONTAINER_LABEL@,
            self.paths.workspace_state_dir_in_container@,
        )
    }

    /// All labels that a new container gets.
    pub open spec fn all_labels(self, manifest: Option<Seq<char>>) -> Labels {
        let base = self.stable_labels().insert("io.aw-gateway.image"@, self.target.image@).insert(
            "io.aw-gateway.access"@,
            self.target.access_method.name(),
        ).insert("io.aw-gateway.mode"@, mode_name(self.target.mode)).union_prefer_right(
            self.layout_labels(),
        );
        let with_session = match self.identity.session_id {
            Some(id) => base.insert("io.aw-gateway.session_id"@, id@),
            None => base,
        };
        let with_launch = match self.identity.launch_name {
            Some(name) if self.target.mode == TargetMode::Ephemeral => with_session.insert(
                "io.aw-gateway.launch"@,
                name@,
            ),
            _ => with_session,
        };
        match manifest {
            Some(manifest) => with_launch.insert(HOST_SOCKET_EXPOSURE_MANIFEST_LABEL@, manifest),
            None => with_launch,
        }
    }
}

pub open spec fn mode_name(mode: TargetMode) -> Seq<char> {
    match mode {
        TargetMode::Fixed => "fixed"@,
        TargetMode::Ephemeral => "ephemeral"@,
    }
}

impl Runtime {
    pub fn validation_labels(&self) -> (r: TextMap<String>)
        ensures
            r@ == self.stable_labels(),
    {
        let mut labels: TextMap<String> = TextMap::new();
        labels.insert("io.aw-gateway.gateway".to_owned(), "true".to_owned());
        labels.insert("io.aw-gateway.user".to_owned(), self.identity.user.user.clone());
        labels.insert("io.aw-gateway.uid".to_owned(), decimal_text(self.identity.user.uid as u64));
        labels.insert("io.aw-gateway.target".to_owned(), self.identity.target_name.clone());
        labels.insert("io.aw-gateway.container_id".to_owned(), self.identity.container_name.clone());
        labels.extend_prefixed(CONTEXT_LABEL_PREFIX, &self.context);
        labels
    }

    pub fn workspace_layout_labels(&self) -> (r: TextMap<String>)
        ensures
            r@ == self.layout_labels(),
    {
        let mut labels: TextMap<String> = TextMap::new();
        labels.insert(WORKSPACE_SOURCE_LABEL.to_owned(), self.paths.workspace.clone());
        labels.insert(
            WORKSPACE_TARGET_LABEL.to_owned(),
            self.paths.workspace_container_path.clone(),
        );
        labels.insert(
            WORKSPACE_STATE_HOST_LABEL.to_owned(),
            self.paths.workspace_state_dir.clone(),
        );
        labels.insert(
            WORKSPACE_STATE_CONTAINER_LABEL.to_owned(),
            self.paths.workspace_state_dir_in_container.clone(),
        );
        labels
    }

    pub fn labels(&self) -> (r: TextMap<String>)
        ensures
            r@ == self.all_labels(None),
    {
        self.labels_with_exposure_manifest(None)
    }

    pub fn labels_with_exposure_manifest(&self, exposure_manifest: Option<&str>) -> (r: TextMap<
        String,
    >)
        ensures
            r@ == self.all_labels(opt_str(exposure_manifest)),
    {
        let mut labels = self.validation_labels();
        labels.insert("io.aw-gateway.image".to_owned(), self.target.image.clone());
        labels.insert(
            "io.aw-gateway.access".to_owned(),
            self.target.access_method.as_str().to_owned(),
        );
        let mode = match self.target.mode {
            TargetMode::Fixed => "fixed".to_owned(),
            TargetMode::Ephemeral => "ephemeral".to_owned(),
        };
        labels.insert("io.aw-gateway.mode".to_owned(), mode);
        labels.extend(&self.workspace_layout_labels());
        if let Some(session_id) = &self.identity.session_id {
            labels.insert("io.aw-gateway.session_id".to_owned(), session_id.clone());
        }
        if self.target.mode == TargetMode::Ephemeral {
            if let Some(launch_name) = &self.identity.launch_name {
                labels.insert("io.aw-gateway.launch".to_owned(), launch_name.clone());
            }
        }
        if let Some(manifest) = exposure_manifest {
            labels.insert(HOST_SOCKET_EXPOSURE_MANIFEST_LABEL.to_owned(), manifest.to_owned());
        }
        labels
    }
}

/// The context that the labels of a container record.
pub open spec fn stored_context(labels: Labels) -> Labels {
    Map::new(
        |key: Seq<char>| labels.contains_key(CONTEXT_LABEL_PREFIX@ + key),
        |key: Seq<char>| labels[CONTEXT_LABEL_PREFIX@ + key],
    )
}

/// The context that the labels of a container record.
pub fn context_of_labels(labels: &TextMap<String>) -> (r: TextMap<String>)
    ensures
        r@ == stored_context(labels@),
{
    let prefix = CONTEXT_LABEL_PREFIX;
    let mut out: TextMap<String> = TextMap::new();
    let n: usize = labels.len();
    let ghost all = listing(labels@);
    let mut i: usize = 0;
    while i < n
        invariant
            i <= n == all.len(),
            all == listing(labels@),
            lists(all, labels@),
            prefix@ == CONTEXT_LABEL_PREFIX@,
            forall|key: Seq<char>| #[trigger]
                out@.contains_key(key) ==> labels@.contains_key(prefix@ + key) && out@[key]
                    == labels@[prefix@ + key],
            forall|j: int|
                0 <= j < i && prefix@.is_prefix_of((#[trigger] all[j]).0) ==> out@.contains_key(
                    all[j].0.skip(prefix@.len() as int),
                ),
        decreases n - i,
    {
        let (label, value) = labels.entry(i);
        if let Some(key) = strip_prefix(label.as_str(), prefix) {
            assert(prefix@ + key@ =~= label@);
            out.insert(key.to_owned(), value.clone());
        }
        i += 1;
    }
    proof {
        let s = stored_context(labels@);
        assert forall|key: Seq<char>| s.contains_key(key) == #[trigger] out@.contains_key(
            key,
        ) by {
            if s.contains_key(key) {
                let label = prefix@ + key;
                let j = choose|j: int|
                    0 <= j < all.len() && #[trigger] all[j] == (label, labels@[label]);
                assert(prefix@ =~= label.subrange(0, prefix@.len() as int));
                assert(label.skip(prefix@.len() as int) =~= key);
            }
        }
        assert(s =~= out@);
    }
    out
}

/// Whether labels record exactly the given context.
pub fn context_matches_stored(context: &TextMap<String>, labels: &TextMap<String>) -> (r: bool)
    ensures
        r == (stored_context(labels@) == context@),
{
    let prefix = CONTEXT_LABEL_PREFIX;
    let n: usize = context.len();
    let ghost given = listing(context@);
    let mut i: usize = 0;
    while i < n
        invariant
            i <= n == given.len(),
            given == listing(context@),
            lists(given, context@),
            prefix@ == CONTEXT_LABEL_PREFIX@,
            forall|j: int|
                0 <= j < i ==> stored_context(labels@).contains_key((#[trigger] given[j]).0)
                    && stored_context(labels@)[given[j].0] == given[j].1,
        decreases n - i,
    {
        let (key, value) = context.entry(i);
        let label = cat2(prefix, key.as_str());
        let found = match labels.get(label.as_str()) {
            Some(actual) => same(actual.as_str(), value.as_str()),
            None => false,
        };
        if !found {
            assert(context@.contains_key(given[i as int].0));
            return false;
        }
        i += 1;
    }
    let m: usize = labels.len();
    let ghost stored = listing(labels@);
    let mut k: usize = 0;
    while k < m
        invariant
            k <= m == stored.len(),
            stored == listing(labels@),
            lists(stored, labels@),
            prefix@ == CONTEXT_LABEL_PREFIX@,
            forall|j: int|
                0 <= j < k && prefix@.is_prefix_of((#[trigger] stored[j]).0)
                    ==> context@.contains_key(stored[j].0.skip(prefix@.len() as int)),
        decreases m - k,
    {
        let (label, _) = labels.entry(k);
        if let Some(key) = strip_prefix(label.as_str(), prefix) {
            if !context.contains_key(key) {
                proof {
                    assert(prefix@ + key@ =~= label@);
                    assert(stored_context(labels@).contains_key(key@));
                }
                return false;
            }
        }
        k += 1;
    }
    proof {
        let s = stored_context(labels@);
        assert forall|key: Seq<char>| s.contains_key(key) == #[trigger] context@.contains_key(
            key,
        ) by {
            if s.contains_key(key) {
                let label = prefix@ + key;
                let j = choose|j: int|
                    0 <= j < stored.len() && #[trigger] stored[j] == (label, labels@[label]);
                assert(prefix@ =~= label.subrange(0, prefix@.len() as int));
                assert(label.skip(prefix@.len() as int) =~= key);
            }
            if context@.contains_key(key) {
                let j = choose|j: int|
                    0 <= j < given.len() && #[trigger] given[j] == (key, context@[key]);
            }
        }
        assert forall|key: Seq<char>| #[trigger] context@.contains_key(key) implies s[key]
            == context@[key] by {
            let j = choose|j: int|
                0 <= j < given.len() && #[trigger] given[j] == (key, context@[key]);
        }
        assert(s =~= context@);
    }
    true
}

impl Runtime {
    pub open spec fn stable_fault(self, labels: Labels) -> Option<Chain> {
        either(
            label_fault(listing(self.stable_labels()), labels),
            unless(
                stored_context(labels) == self.context@,
                "container context does not match supplied runtime context"@,
            ),
        )
    }

    /// Refuses a container that is not this target's, or was made for another context.
    pub fn validate_stable_labels(&self, inspect: &ContainerInspect) -> (r: Result<(), Failure>)
        ensures
            refusal(r) == self.stable_fault(inspect.labels()),
    {
        if let Err(failure) = validate_gateway_labels(inspect, &self.validation_labels()) {
            return Err(failure);
        }
        if !context_matches_stored(&self.context, &inspect.config.labels) {
            return Err(Failure::msg("container context does not match supplied runtime context"));
        }
        Ok(())
    }

    pub open spec fn access_fault(self, labels: Labels) -> Option<Chain> {
        let expected = self.target.access_method.name();
        let name = quoted(self.identity.container_name@);
        if labels.contains_key("io.aw-gateway.access"@) {
            let actual = labels["io.aw-gateway.access"@];
            unless(
                actual == expected,
                "container "@ + name + " access label "@ + quoted(actual)
                    + " does not match configured access.method "@ + quoted(expected)
                    + "; stop or remove the existing container before switching access methods"@,
            )
        } else {
            unless(
                self.target.access_method == TargetAccessMethod::Ssh,
                "container "@ + name
                    + " is missing io.aw-gateway.access and cannot be reused for access.method = \"runtime_exec\"; remove the existing container before using runtime-exec access"@,
            )
        }
    }

    /// Refuses a container that is entered another way. One without the label is
    /// entered by SSH.
    pub fn validate_access_label(&self, inspect: &ContainerInspect) -> (r: Result<(), Failure>)
        ensures
            refusal(r) == self.access_fault(inspect.labels()),
    {
        let expected = self.target.access_method.as_str();
        let name = quote(self.identity.container_name.as_str());
        match inspect.config.labels.get("io.aw-gateway.access") {
            Some(actual) => {
                if same(actual.as_str(), expected) {
                    return Ok(());
                }
                let message = cat7(
                    "container ",
                    name.as_str(),
                    " access label ",
                    quote(actual.as_str()).as_str(),
                    " does not match configured access.method ",
                    quote(expected).as_str(),
                    "; stop or remove the existing container before switching access methods",
                );
                Err(Failure::msg(message.as_str()))
            },
            None => {
                if self.target.access_method == TargetAccessMethod::Ssh {
                    return Ok(());
                }
                let message = cat3(
                    "container ",
                    name.as_str(),
                    " is missing io.aw-gateway.access and cannot be reused for access.method = \"runtime_exec\"; remove the existing container before using runtime-exec access",
                );
                Err(Failure::msg(message.as_str()))
            },
        }
    }

    /// Whether labels say anything of the workspace's layout.
    pub open spec fn mentions_layout(labels: Labels) -> bool {
        labels.contains_key(WORKSPACE_SOURCE_LABEL@) || labels.contains_key(WORKSPACE_TARGET_LABEL@)
            || labels.contains_key(WORKSPACE_STATE_HOST_LABEL@) || labels.contains_key(
            WORKSPACE_STATE_CONTAINER_LABEL@,
        )
    }

    /// Whether the workspace is mounted as it was before containers recorded it.
    pub open spec fn has_default_layout(self) -> bool {
        components(self.paths.workspace_container_path@) == components(
            self.identity.container_home@,
        ) && components(self.paths.workspace_state_dir_in_container@) == components(
            joined_path(self.identity.container_home@, ".aw-gateway"@),
        )
    }

    pub open spec fn layout_fault(self, labels: Labels) -> Option<Chain> {
        if !Self::mentions_layout(labels) && self.has_default_layout() {
            None
        } else {
            match label_fault(listing(self.layout_labels()), labels) {
                None => None,
                Some(chain) => Some(
                    under(
                        "container "@ + quoted(self.identity.container_name@)
                            + " workspace layout does not match the configured workspace mount; remove the existing container before using the new layout"@,
                        chain,
                    ),
                ),
            }
        }
    }

    /// Refuses a container whose workspace is mounted another way. One that does
    /// not record its layout has the default one.
    pub fn validate_workspace_layout_labels(&self, inspect: &ContainerInspect) -> (r: Result<
        (),
        Failure,
    >)
        ensures
            refusal(r) == self.layout_fault(inspect.labels()),
    {
        let labels = &inspect.config.labels;
        let has_layout_labels = labels.contains_key(WORKSPACE_SOURCE_LABEL) || labels.contains_key(
            WORKSPACE_TARGET_LABEL,
        ) || labels.contains_key(WORKSPACE_STATE_HOST_LABEL) || labels.contains_key(
            WORKSPACE_STATE_CONTAINER_LABEL,
        );
        let home = self.identity.container_home.as_str();
        let default_layout = same_path(self.paths.workspace_container_path.as_str(), home)
            && same_path(
            self.paths.workspace_state_dir_in_container.as_str(),
            join(home, ".aw-gateway").as_str(),
        );
        if !has_layout_labels && default_layout {
            return Ok(());
        }
        match validate_gateway_labels(inspect, &self.workspace_layout_labels()) {
            Ok(()) => Ok(()),
            Err(failure) => {
                let message = cat3(
                    "container ",
                    quote(self.identity.container_name.as_str()).as_str(),
                    " workspace layout does not match the configured workspace mount; remove the existing container before using the new layout",
                );
                Err(failure.context(message.as_str()))
            },
        }
    }

    pub open spec fn label_refusal(self, labels: Labels) -> Option<Chain> {
        either(
            self.stable_fault(labels),
            either(self.access_fault(labels), self.layout_fault(labels)),
        )
    }

    /// Refuses a container that this target cannot use.
    pub fn validate_labels(&self, inspect: &ContainerInspect) -> (r: Result<(), Failure>)
        ensures
            refusal(r) == self.label_refusal(inspect.labels()),
    {
        if let Err(failure) = self.validate_stable_labels(inspect) {
            return Err(failure);
        }
        if let Err(failure) = self.validate_access_label(inspect) {
            return Err(failure);
        }
        self.validate_workspace_layout_labels(inspect)
    }
}

// ---------------------------------------------------------------- running

pub open spec fn mount_path_refused(label: Seq<char>, path: Seq<char>) -> Option<Chain> {
    unless(!has_separator(path), label + " must not contain ':' or ','"@)
}

/// Refuses a path that holds a separator of mount arguments.
pub fn validate_bind_mount_path(label: &str, path: &str) -> (r: Result<(), Failure>)
    ensures
        refusal(r) == mount_path_refused(label@, path@),
{
    if has_char(path, ':') || has_char(path, ',') {
        return Err(Failure::msg(cat2(label, " must not contain ':' or ','").as_str()));
    }
    Ok(())
}

/// The target's own texts with their variables filled in.
#[derive(Debug)]
pub struct RenderedTarget {
    pub container_env: Result<TextMap<String>, Failure>,
    pub entrypoint: Result<String, Failure>,
    pub extra_run_args: Result<Vec<String>, Failure>,
}

pub open spec fn optional_insert(m: Labels, key: Seq<char>, value: Option<Seq<char>>) -> Labels {
    match value {
        Some(value) => m.insert(key, value),
        None => m,
    }
}

impl Runtime {
    /// The environment that a container is started with. The target's own
    /// variables win over those of the gateway.
    pub open spec fn run_env(
        self,
        identity_token: Option<Seq<char>>,
        control_token: Option<Seq<char>>,
        container_env: Labels,
    ) -> Labels {
        let tokens = optional_insert(
            optional_insert(Map::empty(), "AW_IDENTITY_TOKEN"@, identity_token),
            "AW_CONTAINER_CONTROL_TOKEN"@,
            control_token,
        );
        let own = if self.target.agent_enabled {
            tokens.insert("AW_AUTHENTICATED_UID"@, decimal(self.identity.user.uid as nat)).insert(
                "AW_AUTHENTICATED_GID"@,
                decimal(self.identity.user.gid as nat),
            )
        } else {
            tokens
        };
        own.union_prefer_right(container_env)
    }

    pub open spec fn agent_config_path(self) -> Seq<char> {
        joined_path(self.paths.container_state_dir_in_container@, "container-agent.toml"@)
    }

    pub open spec fn bootstrap_config_path(self) -> Seq<char> {
        joined_path(self.paths.container_state_dir_in_container@, "container-bootstrap.toml"@)
    }

    /// The command that a container runs.
    pub open spec fn run_command(self, entrypoint: Seq<char>) -> Seq<Seq<char>> {
        if !self.target.agent_enabled {
            seq!["sleep"@, "infinity"@]
        } else if self.target.bootstrap_enabled {
            seq![
                entrypoint,
                "--config"@,
                self.agent_config_path(),
                "--bootstrap-config"@,
                self.bootstrap_config_path(),
            ]
        } else {
            seq!["aw-container-agent"@, "--config"@, self.agent_config_path(), "run"@]
        }
    }

    pub open spec fn bootstrap_user_text(self) -> Seq<char> {
        if self.kind == ContainerRuntimeType::Podman {
            "0:0"@
        } else {
            self.identity.bootstrap_user@
        }
    }

    pub open spec fn exec_user_text(self) -> Seq<char> {
        if self.kind == ContainerRuntimeType::Podman {
            decimal(self.identity.session_uid as nat) + ":"@ + decimal(
                self.identity.session_gid as nat,
            )
        } else {
            self.identity.container_user@
        }
    }

    pub open spec fn passwd_text(self) -> Seq<char> {
        self.identity.container_user@ + ":x:"@ + decimal(self.identity.session_uid as nat) + ":"@
            + decimal(self.identity.session_gid as nat) + ":"@ + self.identity.container_user@
            + ":"@ + self.identity.container_home@ + ":"@ + self.identity.session_shell@
    }

    /// Why a container cannot be started with these inputs.
    pub open spec fn run_refused(self, rendered: RenderedTarget) -> Option<Chain> {
        either(
            failed(rendered.container_env),
            either(
                mount_path_refused("workspace path"@, self.paths.workspace@),
                either(
                    mount_path_refused("container_home"@, self.identity.container_home@),
                    either(
                        mount_path_refused(
                            "workspace.container_path"@,
                            self.paths.workspace_container_path@,
                        ),
                        either(
                            if self.target.agent_enabled && self.target.bootstrap_enabled {
                                failed(rendered.entrypoint)
                            } else {
                                None
                            },
                            failed(rendered.extra_run_args),
                        ),
                    ),
                ),
            ),
        )
    }

    pub open spec fn run_spec_is(
        self,
        spec: ContainerRunSpec,
        identity_token: Option<Seq<char>>,
        control_token: Option<Seq<char>>,
        prepared: PreparedContainerInputs,
        published_ssh_host_port: Option<u16>,
        rendered: RenderedTarget,
    ) -> bool {
        &&& spec.name@ == self.identity.container_name@
        &&& spec.hostname@ == self.identity.container_name@
        &&& spec.image@ == self.target.image@
        &&& spec.workspace@ == self.paths.workspace@
        &&& spec.workspace_container_path@ == self.paths.workspace_container_path@
        &&& spec.container_home@ == self.identity.container_home@
        &&& spec.container_user@ == (if self.target.bootstrap_enabled {
            self.bootstrap_user_text()
        } else {
            self.identity.container_user@
        })
        &&& opt_text(spec.passwd_entry) == (if self.kind == ContainerRuntimeType::Podman {
            Some(self.passwd_text())
        } else {
            None
        })
        &&& spec.state_dir_in_container@ == self.paths.container_state_dir_in_container@
        &&& spec.mounts == prepared.mounts
        &&& spec.host_socket_exposures == prepared.host_socket_exposures
        &&& spec.env@ == self.run_env(identity_token, control_token, rendered.container_env->Ok_0@)
        &&& spec.labels@ == self.all_labels(opt_text(prepared.exposure_manifest))
        &&& spec.publish_ssh == (self.target.ssh_endpoint_configured && self.target.ssh_backend
            == LocalSshBackend::PublishedPort)
        &&& spec.published_ssh_host_port == published_ssh_host_port
        &&& spec.extra_run_args == rendered.extra_run_args->Ok_0
        &&& texts(spec.command@) == self.run_command(text_of(rendered.entrypoint))
    }

    pub fn passwd_entry(&self) -> (r: String)
        ensures
            r@ == self.passwd_text(),
    {
        let uid = decimal_text(self.identity.session_uid as u64);
        let gid = decimal_text(self.identity.session_gid as u64);
        let user = self.identity.container_user.as_str();
        let mut entry = cat7(user, ":x:", uid.as_str(), ":", gid.as_str(), ":", user);
        entry.append(":");
        entry.append(self.identity.container_home.as_str());
        entry.append(":");
        entry.append(self.identity.session_shell.as_str());
        entry
    }

    /// The user that commands in the container run as.
    pub fn exec_identity(&self) -> (r: String)
        ensures
            r@ == self.exec_user_text(),
    {
        if self.kind == ContainerRuntimeType::Podman {
            cat3(
                decimal_text(self.identity.session_uid as u64).as_str(),
                ":",
                decimal_text(self.identity.session_gid as u64).as_str(),
            )
        } else {
            self.identity.container_user.clone()
        }
    }

    /// The user that the bootstrap runs as.
    pub fn bootstrap_identity(&self) -> (r: String)
        ensures
            r@ == self.bootstrap_user_text(),
    {
        if self.kind == ContainerRuntimeType::Podman {
            "0:0".to_owned()
        } else {
            self.identity.bootstrap_user.clone()
        }
    }

    pub fn container_agent_config_in_container(&self) -> (r: String)
        ensures
            r@ == self.agent_config_path(),
    {
        join(self.paths.container_state_dir_in_container.as_str(), "container-agent.toml")
    }

    pub fn container_bootstrap_config_in_container(&self) -> (r: String)
        ensures
            r@ == self.bootstrap_config_path(),
    {
        join(self.paths.container_state_dir_in_container.as_str(), "container-bootstrap.toml")
    }

    fn container_env(
        &self,
        identity_token: Option<&str>,
        control_token: Option<&str>,
        container_env: &TextMap<String>,
    ) -> (r: TextMap<String>)
        ensures
            r@ == self.run_env(opt_str(identity_token), opt_str(control_token), container_env@),
    {
        let mut env: TextMap<String> = TextMap::new();
        if let Some(token) = identity_token {
            env.insert("AW_IDENTITY_TOKEN".to_owned(), token.to_owned());
        }
        if let Some(token) = control_token {
            env.insert("AW_CONTAINER_CONTROL_TOKEN".to_owned(), token.to_owned());
        }
        if self.target.agent_enabled {
            env.insert(
                "AW_AUTHENTICATED_UID".to_owned(),
                decimal_text(self.identity.user.uid as u64),
            );
            env.insert(
                "AW_AUTHENTICATED_GID".to_owned(),
                decimal_text(self.identity.user.gid as u64),
            );
        }
        env.extend(container_env);
        env
    }

    fn container_command(&self, entrypoint: String) -> (r: Vec<String>)
        ensures
            texts(r@) == self.run_command(entrypoint@),
    {
        let mut command: Vec<String> = Vec::new();
        if self.target.agent_enabled {
            if self.target.bootstrap_enabled {
                command.push(entrypoint);
                command.push("--config".to_owned());
                command.push(self.container_agent_config_in_container());
                command.push("--bootstrap-config".to_owned());
                command.push(self.container_bootstrap_config_in_container());
            } else {
                command.push("aw-container-agent".to_owned());
                command.push("--config".to_owned());
                command.push(self.container_agent_config_in_container());
                command.push("run".to_owned());
            }
        } else {
            command.push("sleep".to_owned());
            command.push("infinity".to_owned());
        }
        assert(texts(command@) =~= self.run_command(entrypoint@));
        command
    }

    /// Puts together what a container is started with.
    pub fn container_run_spec_with_inputs(
        &self,
        identity_token: Option<&str>,
        control_token: Option<&str>,
        prepared: PreparedContainerInputs,
        published_ssh_host_port: Option<u16>,
        rendered: RenderedTarget,
    ) -> (r: Result<ContainerRunSpec, Failure>)
        ensures
            failed(r) == self.run_refused(rendered),
            r matches Ok(spec) ==> self.run_spec_is(
                spec,
                opt_str(identity_token),
                opt_str(control_token),
                prepared,
                published_ssh_host_port,
                rendered,
            ),
    {
        let container_env = match rendered.container_env {
            Ok(env) => env,
            Err(failure) => return Err(failure),
        };
        let env = self.container_env(identity_token, control_token, &container_env);
        if let Err(failure) = validate_bind_mount_path(
            "workspace path",
            self.paths.workspace.as_str(),
        ) {
            return Err(failure);
        }
        if let Err(failure) = validate_bind_mount_path(
            "container_home",
            self.identity.container_home.as_str(),
        ) {
            return Err(failure);
        }
        if let Err(failure) = validate_bind_mount_path(
            "workspace.container_path",
            self.paths.workspace_container_path.as_str(),
        ) {
            return Err(failure);
        }
        let entrypoint = match rendered.entrypoint {
            Ok(entrypoint) => entrypoint,
            Err(failure) => {
                if self.target.agent_enabled && self.target.bootstrap_enabled {
                    return Err(failure);
                }
                String::new()
            },
        };
        let command = self.container_command(entrypoint);
        let extra_run_args = match rendered.extra_run_args {
            Ok(args) => args,
            Err(failure) => return Err(failure),
        };
        let container_user = if self.target.bootstrap_enabled {
            self.bootstrap_identity()
        } else {
            self.identity.container_user.clone()
        };
        let passwd_entry = if self.kind == ContainerRuntimeType::Podman {
            Some(self.passwd_entry())
        } else {
            None
        };
        let labels = match &prepared.exposure_manifest {
            Some(manifest) => self.labels_with_exposure_manifest(Some(manifest.as_str())),
            None => self.labels_with_exposure_manifest(None),
        };
        Ok(
            ContainerRunSpec {
                name: self.identity.container_name.clone(),
                hostname: self.identity.container_name.clone(),
                image: self.target.image.clone(),
                workspace: self.paths.workspace.clone(),
                workspace_container_path: self.paths.workspace_container_path.clone(),
                container_home: self.identity.container_home.clone(),
                container_user,
                passwd_entry,
                state_dir_in_container: self.paths.container_state_dir_in_container.clone(),
                mounts: prepared.mounts,
                host_socket_exposures: prepared.host_socket_exposures,
                env,
                labels,
                publish_ssh: self.target.ssh_endpoint_configured && self.target.ssh_backend
                    == LocalSshBackend::PublishedPort,
                published_ssh_host_port,
                extra_run_args,
                command,
            },
        )
    }
}

// ---------------------------------------------------------------- variables

impl Runtime {
    /// The variables that texts of the configuration can mention.
    pub open spec fn template_vars(
        self,
        user_state_dir: Seq<char>,
        image_slug: Seq<char>,
        container_pid: Option<Seq<char>>,
    ) -> Labels {
        let session_id = opt_text(self.identity.session_id);
        let first = optional_insert(
            Map::empty().insert("user"@, self.identity.user.user@).insert(
                "uid"@,
                decimal(self.identity.session_uid as nat),
            ).insert("gid"@, decimal(self.identity.session_gid as nat)).insert(
                "home"@,
                self.identity.user.home@,
            ).insert("container_user"@, self.identity.container_user@).insert(
                "container_home"@,
                self.identity.container_home@,
            ).insert("workspace"@, self.paths.workspace@).insert(
                "state"@,
                self.paths.workspace_state_dir@,
            ).insert("state_dir"@, user_state_dir).insert("target"@, self.identity.target_name@),
            "session_id"@,
            session_id,
        );
        optional_insert(
            with_prefixed(first, "context."@, listing(self.context@)).insert(
                "image"@,
                self.target.image@,
            ).insert("image_slug"@, image_slug).insert(
                "container_name"@,
                self.identity.container_name@,
            ).insert("container_state_dir"@, self.paths.container_state_dir@).insert(
                "container_state_dir_in_container"@,
                self.paths.container_state_dir_in_container@,
            ),
            "container_pid"@,
            container_pid,
        )
    }

    pub fn vars(&self, user_state_dir: &str, image_slug: &str, container_pid: Option<&str>) -> (r:
        TextMap<String>)
        ensures
            r@ == self.template_vars(user_state_dir@, image_slug@, opt_str(container_pid)),
    {
        let mut vars: TextMap<String> = TextMap::new();
        vars.insert("user".to_owned(), self.identity.user.user.clone());
        vars.insert("uid".to_owned(), decimal_text(self.identity.session_uid as u64));
        vars.insert("gid".to_owned(), decimal_text(self.identity.session_gid as u64));
        vars.insert("home".to_owned(), self.identity.user.home.clone());
        vars.insert("container_user".to_owned(), self.identity.container_user.clone());
        vars.insert("container_home".to_owned(), self.identity.container_home.clone());
        vars.insert("workspace".to_owned(), self.paths.workspace.clone());
        vars.insert("state".to_owned(), self.paths.workspace_state_dir.clone());
        vars.insert("state_dir".to_owned(), user_state_dir.to_owned());
        vars.insert("target".to_owned(), self.identity.target_name.clone());
        if let Some(session_id) = &self.identity.session_id {
            vars.insert("session_id".to_owned(), session_id.clone());
        }
        vars.extend_prefixed("context.", &self.context);
        vars.insert("image".to_owned(), self.target.image.clone());
        vars.insert("image_slug".to_owned(), image_slug.to_owned());
        vars.insert("container_name".to_owned(), self.identity.container_name.clone());
        vars.insert("container_state_dir".to_owned(), self.paths.container_state_dir.clone());
        vars.insert(
            "container_state_dir_in_container".to_owned(),
            self.paths.container_state_dir_in_container.clone(),
        );
        if let Some(pid) = container_pid {
            vars.insert("container_pid".to_owned(), pid.to_owned());
        }
        vars
    }

    pub open spec fn pid_refused(self, container_pid: Option<Seq<char>>, mentions_pid: Result<bool, Failure>) -> Option<Chain> {
        if container_pid is None && self.kind == ContainerRuntimeType::AppleContainer {
            match mentions_pid {
                Err(failure) => Some(failure@),
                Ok(mentioned) => unless(
                    !mentioned,
                    "apple_container runtime did not report a container PID; {container_pid} is not available for target "@
                        + quoted(self.identity.target_name@),
                ),
            }
        } else {
            None
        }
    }

    /// Refuses a text that mentions the container's process on a runtime that
    /// does not report one.
    pub fn ensure_runtime_template_value_supported(
        &self,
        container_pid: Option<&str>,
        mentions_pid: Result<bool, Failure>,
    ) -> (r: Result<(), Failure>)
        ensures
            refusal(r) == self.pid_refused(opt_str(container_pid), mentions_pid),
    {
        if container_pid.is_none() && self.kind == ContainerRuntimeType::AppleContainer {
            match mentions_pid {
                Err(failure) => return Err(failure),
                Ok(mentioned) => {
                    if mentioned {
                        let message = cat2(
                            "apple_container runtime did not report a container PID; {container_pid} is not available for target ",
                            quote(self.identity.target_name.as_str()).as_str(),
                        );
                        return Err(Failure::msg(message.as_str()));
                    }
                },
            }
        }
        Ok(())
    }

    pub open spec fn inherited_env(self, base: Labels, keys: Seq<Seq<char>>, environment: Labels) -> Labels
        decreases keys.len(),
    {
        if keys.len() == 0 {
            base
        } else {
            let before = self.inherited_env(base, keys.drop_last(), environment);
            if environment.contains_key(keys.last()) {
                before.insert(keys.last(), environment[keys.last()])
            } else {
                before
            }
        }
    }

    /// The environment of a session: defaults, then what is inherited, then what
    /// the target sets.
    pub open spec fn session_env_map(self, environment: Labels, session_env: Labels) -> Labels {
        self.inherited_env(
            Map::empty().insert("SHELL"@, DEFAULT_SESSION_SHELL_ENV@).insert(
                "PATH"@,
                "/usr/local/bin:/usr/bin:/bin:/usr/sbin:/sbin"@,
            ),
            texts(self.target.session_env_inherit@),
            environment,
        ).union_prefer_right(session_env)
    }

    pub fn session_env_with_lookup(
        &self,
        environment: &TextMap<String>,
        session_env: Result<TextMap<String>, Failure>,
    ) -> (r: Result<TextMap<String>, Failure>)
        ensures
            outcome(r) == match session_env {
                Ok(set) => Ok::<Labels, Chain>(self.session_env_map(environment@, set@)),
                Err(failure) => Err(failure@),
            },
    {
        let mut env: TextMap<String> = TextMap::new();
        env.insert("SHELL".to_owned(), DEFAULT_SESSION_SHELL_ENV.to_owned());
        env.insert(
            "PATH".to_owned(),
            "/usr/local/bin:/usr/bin:/bin:/usr/sbin:/sbin".to_owned(),
        );
        let ghost base = env@;
        let keys = &self.target.session_env_inherit;
        let ghost all = texts(keys@);
        let mut i: usize = 0;
        assert(all.take(0) =~= Seq::empty());
        while i < keys.len()
            invariant
                i <= keys.len(),
                all == texts(keys@),
                env@ == self.inherited_env(base, all.take(i as int), environment@),
            decreases keys.len() - i,
        {
            proof {
                assert(all.take(i + 1).drop_last() =~= all.take(i as int));
                assert(all.take(i + 1).last() == keys@[i as int]@);
            }
            if let Some(value) = environment.get(keys[i].as_str()) {
                env.insert(keys[i].clone(), value.clone());
            }
            i += 1;
        }
        assert(all.take(i as int) =~= all);
        let session_env = match session_env {
            Ok(session_env) => session_env,
            Err(failure) => return Err(failure),
        };
        env.extend(&session_env);
        Ok(env)
    }
}

// ---------------------------------------------------------------- mounts

/// A mount of the target with its texts filled in, and what the host said of
/// its source.
#[derive(Debug)]
pub struct ConfiguredMount {
    pub source: Result<String, Failure>,
    pub parent: Result<String, String>,
    pub file_type: Result<SourceFileType, String>,
    pub target: Result<String, Failure>,
    pub mode: ContainerMountMode,
}

#[derive(Debug)]
pub struct ContainerMountInputs {
    pub configured: Vec<ConfiguredMount>,
    pub control_socket_host_dir: String,
    pub control_socket_container_dir: String,
    pub include_control_socket_mount: bool,
}

pub open spec fn source_label(i: int) -> Seq<char> {
    "container mount source #"@ + decimal(i as nat)
}

pub open spec fn target_label(i: int) -> Seq<char> {
    "container mount target #"@ + decimal(i as nat)
}

pub open spec fn configured_mount_refused(m: ConfiguredMount, i: int) -> Option<Chain> {
    let source = text_of(m.source);
    let target = text_of(m.target);
    either(
        failed(m.source),
        either(
            final_entry_refused(source_label(i), source, m.parent),
            either(
                mount_source_refused(source_label(i), final_entry(source, m.parent), m.file_type),
                either(
                    mount_path_refused(source_label(i), final_entry(source, m.parent)),
                    either(
                        failed(m.target),
                        either(
                            not_normalized(target_label(i), target),
                            mount_path_refused(target_label(i), target),
                        ),
                    ),
                ),
            ),
        ),
    )
}

pub open spec fn configured_mount(m: ConfiguredMount) -> MountModel {
    MountModel {
        source: final_entry(text_of(m.source), m.parent),
        target: text_of(m.target),
        readonly: m.mode == ContainerMountMode::Ro,
    }
}

pub open spec fn configured_mounts_refused(mounts: Seq<ConfiguredMount>, from: int) -> Option<Chain>
    decreases mounts.len() - from,
{
    if from >= mounts.len() {
        None
    } else {
        either(
            configured_mount_refused(mounts[from], from),
            configured_mounts_refused(mounts, from + 1),
        )
    }
}

impl ContainerMountInputs {
    /// The mounts of the target, and the control sockets' where they are needed.
    pub open spec fn answer(self) -> Result<Seq<MountModel>, Chain> {
        let own = self.configured@.map_values(|m: ConfiguredMount| configured_mount(m));
        let refused = either(
            configured_mounts_refused(self.configured@, 0),
            if self.include_control_socket_mount {
                either(
                    mount_path_refused(
                        "control socket host directory"@,
                        self.control_socket_host_dir@,
                    ),
                    mount_path_refused(
                        "control socket container directory"@,
                        self.control_socket_container_dir@,
                    ),
                )
            } else {
                None
            },
        );
        match refused {
            Some(chain) => Err(chain),
            None => Ok(
                if self.include_control_socket_mount {
                    own.push(
                        MountModel {
                            source: self.control_socket_host_dir@,
                            target: self.control_socket_container_dir@,
                            readonly: false,
                        },
                    )
                } else {
                    own
                },
            ),
        }
    }
}

fn resolve_configured_mount(m: &ConfiguredMount, i: usize) -> (r: Result<ContainerMountSpec, Failure>)
    ensures
        failed(r) == configured_mount_refused(*m, i as int),
        r matches Ok(spec) ==> spec@ == configured_mount(*m),
{
    let index = decimal_text(i as u64);
    let source_label = cat2("container mount source #", index.as_str());
    let target_label = cat2("container mount target #", index.as_str());
    let rendered = match &m.source {
        Ok(path) => path,
        Err(failure) => return Err(failure.duplicate()),
    };
    let source = match canonicalize_generic_mount_source(
        rendered.as_str(),
        source_label.as_str(),
        &m.parent,
        &m.file_type,
    ) {
        Ok(path) => path,
        Err(failure) => return Err(failure),
    };
    if let Err(failure) = validate_bind_mount_path(source_label.as_str(), source.as_str()) {
        return Err(failure);
    }
    let target = match &m.target {
        Ok(path) => path,
        Err(failure) => return Err(failure.duplicate()),
    };
    if let Err(failure) = validate_normalized_container_path(
        target_label.as_str(),
        target.as_str(),
    ) {
        return Err(failure);
    }
    if let Err(failure) = validate_bind_mount_path(target_label.as_str(), target.as_str()) {
        return Err(failure);
    }
    Ok(
        ContainerMountSpec {
            source,
            target: target.clone(),
            readonly: m.mode == ContainerMountMode::Ro,
        },
    )
}

/// Resolves the mounts of a container.
pub fn render_container_mounts(inputs: ContainerMountInputs) -> (r: Result<
    Vec<ContainerMountSpec>,
    Failure,
>)
    ensures
        match r {
            Ok(mounts) => inputs.answer() == Ok::<Seq<MountModel>, Chain>(mount_models(mounts@)),
            Err(failure) => inputs.answer() == Err::<Seq<MountModel>, Chain>(failure@),
        },
{
    let ghost own = inputs.configured@.map_values(|m: ConfiguredMount| configured_mount(m));
    let mut mounts: Vec<ContainerMountSpec> = Vec::new();
    let mut i: usize = 0;
    while i < inputs.configured.len()
        invariant
            i <= inputs.configured.len(),
            own == inputs.configured@.map_values(|m: ConfiguredMount| configured_mount(m)),
            mount_models(mounts@) == own.take(i as int),
            configured_mounts_refused(inputs.configured@, 0) == configured_mounts_refused(
                inputs.configured@,
                i as int,
            ),
        decreases inputs.configured.len() - i,
    {
        let ghost before = mount_models(mounts@);
        let mount = match resolve_configured_mount(&inputs.configured[i], i) {
            Ok(mount) => mount,
            Err(failure) => return Err(failure),
        };
        let ghost model = mount@;
        mounts.push(mount);
        assert(mount_models(mounts@) =~= before.push(model));
        assert(mount_models(mounts@) =~= own.take(i + 1));
        i += 1;
    }
    assert(own.take(i as int) =~= own);
    if inputs.include_control_socket_mount {
        if let Err(failure) = validate_bind_mount_path(
            "control socket host directory",
            inputs.control_socket_host_dir.as_str(),
        ) {
            return Err(failure);
        }
        if let Err(failure) = validate_bind_mount_path(
            "control socket container directory",
            inputs.control_socket_container_dir.as_str(),
        ) {
            return Err(failure);
        }
        let control = ContainerMountSpec {
            source: inputs.control_socket_host_dir,
            target: inputs.control_socket_container_dir,
            readonly: false,
        };
        let ghost model = control@;
        mounts.push(control);
        assert(mount_models(mounts@) =~= own.push(model));
    }
    Ok(mounts)
}

/// The mounts of a container are those that were configured, in their order, each
/// at its target and writable unless it was configured read-only. Where the
/// control sockets are needed, their directory follows, writable; nothing else is
/// mounted.
pub proof fn mounts_are_as_configured(inputs: ContainerMountInputs)
    requires
        inputs.answer() is Ok,
    ensures
        ({
            let mounts = inputs.answer()->Ok_0;
            let n = inputs.configured@.len() as int;
            &&& mounts.len() == n + if inputs.include_control_socket_mount {
                1int
            } else {
                0
            }
            &&& forall|i: int|
                0 <= i < n ==> {
                    let asked = inputs.configured@[i];
                    let got = #[trigger] mounts[i];
                    &&& got.readonly <==> asked.mode == ContainerMountMode::Ro
                    &&& asked.target matches Ok(target) && got.target == target@
                    &&& asked.source matches Ok(source) && asked.parent matches Ok(parent)
                        && entry_name(source@) matches Some(entry) && got.source == joined_path(
                        parent@,
                        entry,
                    )
                }
            &&& inputs.include_control_socket_mount ==> {
                &&& mounts[n].source == inputs.control_socket_host_dir@
                &&& mounts[n].target == inputs.control_socket_container_dir@
                &&& !mounts[n].readonly
            }
        }),
{
    let all = inputs.configured@;
    assert(configured_mounts_refused(all, 0) is None);
    assert forall|i: int| 0 <= i < all.len() implies configured_mount_refused(
        #[trigger] all[i],
        i,
    ) is None by {
        each_mount_is_accepted(all, 0, i);
    }
}

proof fn each_mount_is_accepted(mounts: Seq<ConfiguredMount>, from: int, i: int)
    requires
        0 <= from <= i < mounts.len(),
        configured_mounts_refused(mounts, from) is None,
    ensures
        configured_mount_refused(mounts[i], i) is None,
    decreases i - from,
{
    if from < i {
        each_mount_is_accepted(mounts, from + 1, i);
    }
}

pub open spec fn world_writable(mode: u32) -> bool {
    mode & 0o002 != 0
}

/// The refusal of the first mount whose source could not be inspected, or whose
/// source anyone can write while the container can too.
pub open spec fn unsafe_mount(
    mounts: Seq<MountModel>,
    modes: Seq<Result<u32, String>>,
    from: int,
) -> Option<Chain>
    decreases mounts.len() - from,
{
    if from >= mounts.len() {
        None
    } else {
        let place = source_label(from) + " "@ + mounts[from].source;
        either(
            match modes[from] {
                Err(complaint) => Some(under("stat "@ + place, plain(complaint@))),
                Ok(mode) => unless(
                    !world_writable(mode) || mounts[from].readonly,
                    place + " is world-writable; refusing read-write mount"@,
                ),
            },
            unsafe_mount(mounts, modes, from + 1),
        )
    }
}

/// Refuses mounts that would let a container change what anyone can write.
pub fn reject_unsafe_container_mounts(
    mounts: &Vec<ContainerMountSpec>,
    modes: &Vec<Result<u32, String>>,
) -> (r: Result<(), Failure>)
    requires
        modes@.len() == mounts@.len(),
    ensures
        refusal(r) == unsafe_mount(mount_models(mounts@), modes@, 0),
{
    let mut i: usize = 0;
    while i < mounts.len()
        invariant
            i <= mounts.len() == modes.len(),
            unsafe_mount(mount_models(mounts@), modes@, 0) == unsafe_mount(
                mount_models(mounts@),
                modes@,
                i as int,
            ),
        decreases mounts.len() - i,
    {
        let place = cat4(
            "container mount source #",
            decimal_text(i as u64).as_str(),
            " ",
            mounts[i].source.as_str(),
        );
        match &modes[i] {
            Err(complaint) => {
                let doing = cat2("stat ", place.as_str());
                return Err(Failure::msg(complaint.as_str()).context(doing.as_str()));
            },
            Ok(mode) => {
                if *mode & 0o002 != 0 && !mounts[i].readonly {
                    let why = " is world-writable; refusing read-write mount";
                    return Err(Failure::msg(cat2(place.as_str(), why).as_str()));
                }
            },
        }
        i += 1;
    }
    Ok(())
}

/// A read-write mount of what anyone can write is refused, and so is a mount
/// whose source cannot be inspected. Every other mount is allowed.
pub proof fn mounts_are_refused_when_unsafe(
    mounts: Seq<MountModel>,
    modes: Seq<Result<u32, String>>,
)
    ensures
        unsafe_mount(mounts, modes, 0) is None <==> forall|i: int|
            0 <= i < mounts.len() ==> #[trigger] may_be_mounted(mounts[i], modes[i]),
{
    safe_mounts_from(mounts, modes, 0);
}

/// Whether a source that could be inspected is closed to others, or mounted so
/// that the container cannot write it.
pub open spec fn may_be_mounted(mount: MountModel, mode: Result<u32, String>) -> bool {
    match mode {
        Ok(mode) => mode & 0o002 == 0 || mount.readonly,
        Err(_) => false,
    }
}

proof fn safe_mounts_from(mounts: Seq<MountModel>, modes: Seq<Result<u32, String>>, from: int)
    requires
        0 <= from <= mounts.len(),
    ensures
        unsafe_mount(mounts, modes, from) is None <==> forall|i: int|
            from <= i < mounts.len() ==> #[trigger] may_be_mounted(mounts[i], modes[i]),
    decreases mounts.len() - from,
{
    if from < mounts.len() {
        safe_mounts_from(mounts, modes, from + 1);
        assert(unsafe_mount(mounts, modes, from) is None <==> may_be_mounted(
            mounts[from],
            modes[from],
        ) && unsafe_mount(mounts, modes, from + 1) is None);
    }
}

// ---------------------------------------------------------------- laws

/// A container is started under its target's name, from its image, with its
/// workspace and home, with the mounts and sockets that were prepared for it and
/// with the port that was chosen. It runs as root, or as the bootstrap's user,
/// only where a bootstrap is configured.
pub proof fn containers_are_started_for_their_target(
    runtime: Runtime,
    spec: ContainerRunSpec,
    identity_token: Option<Seq<char>>,
    control_token: Option<Seq<char>>,
    prepared: PreparedContainerInputs,
    port: Option<u16>,
    rendered: RenderedTarget,
)
    requires
        runtime.run_refused(rendered) is None,
        runtime.run_spec_is(spec, identity_token, control_token, prepared, port, rendered),
    ensures
        spec.name@ == runtime.identity.container_name@,
        spec.hostname@ == spec.name@,
        spec.image@ == runtime.target.image@,
        spec.workspace@ == runtime.paths.workspace@,
        spec.workspace_container_path@ == runtime.paths.workspace_container_path@,
        spec.container_home@ == runtime.identity.container_home@,
        spec.state_dir_in_container@ == runtime.paths.container_state_dir_in_container@,
        spec.mounts@ == prepared.mounts@,
        spec.host_socket_exposures@ == prepared.host_socket_exposures@,
        spec.published_ssh_host_port == port,
        spec.publish_ssh ==> runtime.target.ssh_endpoint_configured,
        spec.publish_ssh ==> runtime.target.ssh_backend == LocalSshBackend::PublishedPort,
        runtime.target.ssh_endpoint_configured && runtime.target.ssh_backend
            == LocalSshBackend::PublishedPort ==> spec.publish_ssh,
        rendered.extra_run_args matches Ok(args) && spec.extra_run_args@ == args@,
        !runtime.target.bootstrap_enabled ==> spec.container_user@
            == runtime.identity.container_user@,
        runtime.target.bootstrap_enabled && runtime.kind == ContainerRuntimeType::Podman
            ==> spec.container_user@ == "0:0"@,
        runtime.target.bootstrap_enabled && runtime.kind != ContainerRuntimeType::Podman
            ==> spec.container_user@ == runtime.identity.bootstrap_user@,
        spec.passwd_entry is Some <==> runtime.kind == ContainerRuntimeType::Podman,
        spec.passwd_entry matches Some(entry) ==> entry@ == runtime.identity.container_user@
            + ":x:"@ + decimal(runtime.identity.session_uid as nat) + ":"@ + decimal(
            runtime.identity.session_gid as nat,
        ) + ":"@ + runtime.identity.container_user@ + ":"@ + runtime.identity.container_home@ + ":"@
            + runtime.identity.session_shell@,
        forall|manifest: Seq<char>|
            opt_text(prepared.exposure_manifest) == Some(manifest) ==> #[trigger] spec.labels@.contains_pair(
                HOST_SOCKET_EXPOSURE_MANIFEST_LABEL@,
                manifest,
            ),
{
}

/// A container without an agent sleeps. One with an agent runs it on the agent's
/// own configuration: through the entry point where a bootstrap is configured,
/// which is told of the bootstrap's configuration too, and directly otherwise.
pub proof fn containers_run_their_agent(runtime: Runtime, entrypoint: Seq<char>)
    ensures
        ({
            let command = runtime.run_command(entrypoint);
            let state = runtime.paths.container_state_dir_in_container@;
            let agent = joined_path(state, "container-agent.toml"@);
            let bootstrap = joined_path(state, "container-bootstrap.toml"@);
            &&& !runtime.target.agent_enabled <==> command == seq!["sleep"@, "infinity"@]
            &&& runtime.target.agent_enabled ==> {
                &&& command[1] == "--config"@ && command[2] == agent
                &&& runtime.target.bootstrap_enabled ==> command.len() == 5 && command[0]
                    == entrypoint && command[3] == "--bootstrap-config"@ && command[4] == bootstrap
                &&& !runtime.target.bootstrap_enabled ==> command.len() == 4 && command[0]
                    == "aw-container-agent"@ && command[3] == "run"@
            }
        }),
{
    let command = runtime.run_command(entrypoint);
    assert(runtime.target.agent_enabled ==> command.len() >= 4);
}

/// A container is started with every variable that its target sets, as it sets
/// it; with the tokens it was given, and with its user's numbers where an agent
/// looks after it, unless the target sets those itself; and with no other.
pub proof fn containers_get_their_environment(
    runtime: Runtime,
    identity_token: Option<Seq<char>>,
    control_token: Option<Seq<char>>,
    set: Labels,
)
    ensures
        ({
            let env = runtime.run_env(identity_token, control_token, set);
            let identity = "AW_IDENTITY_TOKEN"@;
            let control = "AW_CONTAINER_CONTROL_TOKEN"@;
            let uid = "AW_AUTHENTICATED_UID"@;
            let gid = "AW_AUTHENTICATED_GID"@;
            &&& forall|key: Seq<char>| #[trigger]
                set.contains_key(key) ==> env.contains_pair(key, set[key])
            &&& !set.contains_key(identity) ==> env.contains_key(identity) == (identity_token
                is Some)
            &&& !set.contains_key(control) ==> env.contains_key(control) == (control_token is Some)
            &&& !set.contains_key(uid) ==> env.contains_key(uid) == runtime.target.agent_enabled
            &&& !set.contains_key(gid) ==> env.contains_key(gid) == runtime.target.agent_enabled
            &&& identity_token matches Some(token) ==> !set.contains_key(identity) ==> env[identity]
                == token
            &&& control_token matches Some(token) ==> !set.contains_key(control) ==> env[control]
                == token
            &&& runtime.target.agent_enabled && !set.contains_key(uid) ==> env[uid] == decimal(
                runtime.identity.user.uid as nat,
            )
            &&& runtime.target.agent_enabled && !set.contains_key(gid) ==> env[gid] == decimal(
                runtime.identity.user.gid as nat,
            )
            &&& forall|key: Seq<char>| #[trigger]
                env.contains_key(key) ==> set.contains_key(key) || key == identity || key == control
                    || key == uid || key == gid
        }),
{
    reveal_strlit("AW_IDENTITY_TOKEN");
    reveal_strlit("AW_CONTAINER_CONTROL_TOKEN");
    reveal_strlit("AW_AUTHENTICATED_UID");
    reveal_strlit("AW_AUTHENTICATED_GID");
    assert("AW_AUTHENTICATED_UID"@[17] == 'U' && "AW_AUTHENTICATED_GID"@[17] == 'G');
    assert("AW_AUTHENTICATED_UID"@.len() == 20 && "AW_AUTHENTICATED_GID"@.len() == 20);
    assert("AW_IDENTITY_TOKEN"@.len() == 17 && "AW_CONTAINER_CONTROL_TOKEN"@.len() == 26);
}

/// A container is started exactly when its environment, its entry point (where
/// one is used) and its arguments could be filled in, and none of the paths that
/// are mounted holds a separator of mount arguments.
pub proof fn containers_are_started_from_sound_inputs(runtime: Runtime, rendered: RenderedTarget)
    ensures
        runtime.run_refused(rendered) is None <==> {
            &&& rendered.container_env is Ok
            &&& rendered.extra_run_args is Ok
            &&& runtime.target.agent_enabled && runtime.target.bootstrap_enabled
                ==> rendered.entrypoint is Ok
            &&& !has_separator(runtime.paths.workspace@)
            &&& !has_separator(runtime.identity.container_home@)
            &&& !has_separator(runtime.paths.workspace_container_path@)
        },
{
}

/// A session sees what its target sets; else what it inherits, of the variables
/// that are to be inherited; else a shell and a search path; and nothing more.
pub proof fn sessions_get_their_environment(
    runtime: Runtime,
    environment: Labels,
    set: Labels,
    key: Seq<char>,
)
    ensures
        ({
            let env = runtime.session_env_map(environment, set);
            let inherits = texts(runtime.target.session_env_inherit@).contains(key)
                && environment.contains_key(key);
            &&& set.contains_key(key) ==> env.contains_pair(key, set[key])
            &&& !set.contains_key(key) && inherits ==> env.contains_pair(key, environment[key])
            &&& !set.contains_key(key) && !inherits ==> {
                &&& env.contains_key(key) <==> key == "SHELL"@ || key == "PATH"@
                &&& key == "SHELL"@ ==> env[key] == "/usr/bin/bash"@
                &&& key == "PATH"@ ==> env[key] == "/usr/local/bin:/usr/bin:/bin:/usr/sbin:/sbin"@
            }
        }),
{
    reveal_strlit("SHELL");
    reveal_strlit("PATH");
    assert("SHELL"@.len() == 5 && "PATH"@.len() == 4);
    let base = Map::empty().insert("SHELL"@, DEFAULT_SESSION_SHELL_ENV@).insert(
        "PATH"@,
        "/usr/local/bin:/usr/bin:/bin:/usr/sbin:/sbin"@,
    );
    inherited_variables(runtime, base, texts(runtime.target.session_env_inherit@), environment, key);
}

proof fn inherited_variables(
    runtime: Runtime,
    base: Labels,
    keys: Seq<Seq<char>>,
    environment: Labels,
    key: Seq<char>,
)
    ensures
        ({
            let env = runtime.inherited_env(base, keys, environment);
            if keys.contains(key) && environment.contains_key(key) {
                env.contains_pair(key, environment[key])
            } else {
                env.contains_key(key) == base.contains_key(key) && env[key] == base[key]
            }
        }),
    decreases keys.len(),
{
    if keys.len() > 0 {
        let front = keys.drop_last();
        inherited_variables(runtime, base, front, environment, key);
        if keys.contains(key) && keys.last() != key {
            let i = choose|i: int| 0 <= i < keys.len() && keys[i] == key;
            assert(front[i] == key);
        }
        if front.contains(key) {
            let i = choose|i: int| 0 <= i < front.len() && front[i] == key;
            assert(keys[i] == key);
        }
        assert(keys[keys.len() - 1] == keys.last());
    }
}

/// A text that mentions the container's process is refused only on a runtime that
/// reports none and where none is known.
pub proof fn processes_can_be_mentioned_where_known(
    runtime: Runtime,
    pid: Option<Seq<char>>,
    mentions: Result<bool, Failure>,
)
    ensures
        pid is Some ==> runtime.pid_refused(pid, mentions) is None,
        runtime.kind != ContainerRuntimeType::AppleContainer ==> runtime.pid_refused(
            pid,
            mentions,
        ) is None,
        mentions == Ok::<bool, Failure>(false) ==> runtime.pid_refused(pid, mentions) is None,
        pid is None && runtime.kind == ContainerRuntimeType::AppleContainer && mentions != Ok::<
            bool,
            Failure,
        >(false) ==> runtime.pid_refused(pid, mentions) is Some,
{
}

/// The variables that texts can mention tell of the user, the target, its
/// container and its directories, and of every entry of the context. The session
/// and the container's process are there where they are known.
pub proof fn variables_tell_of_the_target(
    runtime: Runtime,
    user_state_dir: Seq<char>,
    image_slug: Seq<char>,
    pid: Option<Seq<char>>,
)
    requires
        runtime.context@.dom().finite(),
    ensures
        ({
            let vars = runtime.template_vars(user_state_dir, image_slug, pid);
            &&& vars.contains_pair("user"@, runtime.identity.user.user@)
            &&& vars.contains_pair("uid"@, decimal(runtime.identity.session_uid as nat))
            &&& vars.contains_pair("gid"@, decimal(runtime.identity.session_gid as nat))
            &&& vars.contains_pair("home"@, runtime.identity.user.home@)
            &&& vars.contains_pair("container_user"@, runtime.identity.container_user@)
            &&& vars.contains_pair("container_home"@, runtime.identity.container_home@)
            &&& vars.contains_pair("workspace"@, runtime.paths.workspace@)
            &&& vars.contains_pair("state"@, runtime.paths.workspace_state_dir@)
            &&& vars.contains_pair("state_dir"@, user_state_dir)
            &&& vars.contains_pair("target"@, runtime.identity.target_name@)
            &&& vars.contains_pair("image"@, runtime.target.image@)
            &&& vars.contains_pair("image_slug"@, image_slug)
            &&& vars.contains_pair("container_name"@, runtime.identity.container_name@)
            &&& vars.contains_pair("container_state_dir"@, runtime.paths.container_state_dir@)
            &&& vars.contains_pair("container_state_dir_in_container"@, runtime.paths.container_state_dir_in_container@)
            &&& vars.contains_key("session_id"@) <==> runtime.identity.session_id is Some
            &&& runtime.identity.session_id matches Some(id) ==> vars["session_id"@] == id@
            &&& vars.contains_key("container_pid"@) <==> pid is Some
            &&& pid matches Some(number) ==> vars["container_pid"@] == number
            &&& forall|key: Seq<char>| #[trigger]
                runtime.context@.contains_key(key) ==> vars.contains_pair(
                    "context."@ + key,
                    runtime.context@[key],
                )
        }),
{
    reveal_strlit("user");
    reveal_strlit("uid");
    reveal_strlit("gid");
    reveal_strlit("home");
    reveal_strlit("container_user");
    reveal_strlit("container_home");
    reveal_strlit("workspace");
    reveal_strlit("state");
    reveal_strlit("state_dir");
    reveal_strlit("target");
    reveal_strlit("image");
    reveal_strlit("image_slug");
    reveal_strlit("container_name");
    reveal_strlit("container_state_dir");
    reveal_strlit("container_state_dir_in_container");
    reveal_strlit("session_id");
    reveal_strlit("container_pid");
    reveal_strlit("context.");
    assert("user"@.len() == 4 && "user"@[0] == 'u');
    assert("uid"@.len() == 3 && "uid"@[0] == 'u');
    assert("gid"@.len() == 3 && "gid"@[0] == 'g');
    assert("home"@.len() == 4 && "home"@[0] == 'h');
    assert("container_user"@.len() == 14 && "container_user"@[0] == 'c');
    assert("container_home"@.len() == 14 && "container_home"@[0] == 'c');
    assert("workspace"@.len() == 9 && "workspace"@[0] == 'w');
    assert("state"@.len() == 5 && "state"@[0] == 's');
    assert("state_dir"@.len() == 9 && "state_dir"@[0] == 's');
    assert("target"@.len() == 6 && "target"@[0] == 't');
    assert("image"@.len() == 5 && "image"@[0] == 'i');
    assert("image_slug"@.len() == 10 && "image_slug"@[0] == 'i');
    assert("container_name"@.len() == 14 && "container_name"@[0] == 'c');
    assert("container_state_dir"@.len() == 19 && "container_state_dir"@[0] == 'c');
    assert("container_state_dir_in_container"@.len() == 32 && "container_state_dir_in_container"@[0] == 'c');
    assert("session_id"@.len() == 10 && "session_id"@[0] == 's');
    assert("container_pid"@.len() == 13 && "container_pid"@[0] == 'c');
    assert("container_home"@[10] == 'h' && "container_name"@[10] == 'n');
    assert("container_user"@[10] == 'u' && "container_home"@[10] == 'h');
    assert("container_user"@[10] == 'u' && "container_name"@[10] == 'n');
    let prefix = "context."@;
    assert(prefix.len() == 8 && prefix[0] == 'c' && prefix[4] == 'e');
    assert("container_user"@[4] == 'a' && "container_home"@[4] == 'a' && "container_name"@[4] == 'a'
        && "container_state_dir"@[4] == 'a' && "container_state_dir_in_container"@[4] == 'a'
        && "container_pid"@[4] == 'a');
    let pairs = listing(runtime.context@);
    finite_maps_are_listed(runtime.context@);
    assert forall|i: int, j: int| 0 <= i < j < pairs.len() implies pairs[i].0 != pairs[j].0 by {
        crate::text_map::precedes_irreflexive(pairs[i].0);
    }
    let vars = runtime.template_vars(user_state_dir, image_slug, pid);
    let first = optional_insert(
        Map::empty().insert("user"@, runtime.identity.user.user@).insert(
            "uid"@,
            decimal(runtime.identity.session_uid as nat),
        ).insert("gid"@, decimal(runtime.identity.session_gid as nat)).insert(
            "home"@,
            runtime.identity.user.home@,
        ).insert("container_user"@, runtime.identity.container_user@).insert(
            "container_home"@,
            runtime.identity.container_home@,
        ).insert("workspace"@, runtime.paths.workspace@).insert(
            "state"@,
            runtime.paths.workspace_state_dir@,
        ).insert("state_dir"@, user_state_dir).insert("target"@, runtime.identity.target_name@),
        "session_id"@,
        opt_text(runtime.identity.session_id),
    );
    prefixed_entries(first, prefix, pairs);
    let second = with_prefixed(first, prefix, pairs);
    assert forall|key: Seq<char>| key.len() < 8 || key[0] != 'c' || key[4] == 'a' implies
        !#[trigger] prefix.is_prefix_of(key) by {
        if prefix.is_prefix_of(key) {
            assert(key[0] == prefix[0] && key[4] == prefix[4]);
        }
    }
    assert(second.contains_key("user"@) == first.contains_key("user"@));
    assert(second.contains_key("uid"@) == first.contains_key("uid"@));
    assert(second.contains_key("gid"@) == first.contains_key("gid"@));
    assert(second.contains_key("home"@) == first.contains_key("home"@));
    assert(second.contains_key("container_user"@) == first.contains_key("container_user"@));
    assert(second.contains_key("container_home"@) == first.contains_key("container_home"@));
    assert(second.contains_key("workspace"@) == first.contains_key("workspace"@));
    assert(second.contains_key("state"@) == first.contains_key("state"@));
    assert(second.contains_key("state_dir"@) == first.contains_key("state_dir"@));
    assert(second.contains_key("target"@) == first.contains_key("target"@));
    assert(second.contains_key("image"@) == first.contains_key("image"@));
    assert(second.contains_key("image_slug"@) == first.contains_key("image_slug"@));
    assert(second.contains_key("container_name"@) == first.contains_key("container_name"@));
    assert(second.contains_key("container_state_dir"@) == first.contains_key("container_state_dir"@));
    assert(second.contains_key("container_state_dir_in_container"@) == first.contains_key("container_state_dir_in_container"@));
    assert(second.contains_key("session_id"@) == first.contains_key("session_id"@));
    assert(second.contains_key("container_pid"@) == first.contains_key("container_pid"@));
    assert forall|key: Seq<char>| #[trigger] runtime.context@.contains_key(key) implies vars.contains_pair(
        prefix + key,
        runtime.context@[key],
    ) by {
        assert(has_pair(pairs, key, runtime.context@[key]));
        let i = choose|i: int|
            0 <= i < pairs.len() && #[trigger] pairs[i] == (key, runtime.context@[key]);
        assert(second.contains_key(prefix + pairs[i].0));
        let label = prefix + key;
        assert(label[0] == 'c' && label[4] == 'e' && label.len() >= 8);
    }
}

/// The user of a session is entered with seven fields: the name, no password, the
/// numbers of user and group, the name again, the home and the shell. They can be
/// told apart wherever none of them holds a colon.
pub proof fn users_are_entered_with_their_fields(runtime: Runtime)
    requires
        !runtime.identity.container_user@.contains(':'),
        !runtime.identity.container_home@.contains(':'),
        !runtime.identity.session_shell@.contains(':'),
    ensures
        pieces(runtime.passwd_text(), ':') == seq![
            runtime.identity.container_user@,
            "x"@,
            decimal(runtime.identity.session_uid as nat),
            decimal(runtime.identity.session_gid as nat),
            runtime.identity.container_user@,
            runtime.identity.container_home@,
            runtime.identity.session_shell@,
        ],
{
    let user = runtime.identity.container_user@;
    let uid = decimal(runtime.identity.session_uid as nat);
    let gid = decimal(runtime.identity.session_gid as nat);
    let home = runtime.identity.container_home@;
    let shell = runtime.identity.session_shell@;
    let c = seq![':'];
    reveal_strlit(":x:");
    reveal_strlit(":");
    reveal_strlit("x");
    assert(":"@ =~= c);
    assert(":x:"@ =~= c + "x"@ + c);
    assert(!"x"@.contains(':'));
    numbers_hold_no_colon(runtime.identity.session_uid as nat);
    numbers_hold_no_colon(runtime.identity.session_gid as nat);
    let t5 = home + c + shell;
    let t4 = user + c + t5;
    let t3 = gid + c + t4;
    let t2 = uid + c + t3;
    let t1 = "x"@ + c + t2;
    assert(runtime.passwd_text() =~= user + c + t1);
    first_field(user, t1);
    first_field("x"@, t2);
    first_field(uid, t3);
    first_field(gid, t4);
    first_field(user, t5);
    first_field(home, shell);
    last_field(shell);
    assert(pieces(runtime.passwd_text(), ':') =~= seq![
        user,
        "x"@,
        uid,
        gid,
        user,
        home,
        shell,
    ]);
}

proof fn last_field(field: Seq<char>)
    requires
        !field.contains(':'),
    ensures
        pieces(field, ':') == seq![field],
{
    find_from_bounds(field, ':', 0);
    let i = find_from(field, ':', 0);
    if i < field.len() {
        assert(field.contains(field[i]));
    }
}

proof fn first_field(field: Seq<char>, rest: Seq<char>)
    requires
        !field.contains(':'),
    ensures
        pieces(field + seq![':'] + rest, ':') == seq![field] + pieces(rest, ':'),
{
    last_field(field);
    pieces_of_both(field, rest, ':');
}

proof fn numbers_hold_no_colon(n: nat)
    ensures
        !decimal(n).contains(':'),
    decreases n,
{
    if n >= 10 {
        numbers_hold_no_colon(n / 10);
        let (s, front) = (decimal(n), decimal(n / 10));
        assert forall|i: int| 0 <= i < s.len() implies s[i] != ':' by {
            if i < front.len() {
                assert(s[i] == front[i]);
                assert(front.contains(front[i]));
            }
        }
    }
}

/// Podman maps users by number, so that its bootstrap runs as the root of the
/// container and its commands by the session's numbers; elsewhere both go by the
/// names that are configured.
pub proof fn users_are_numbered_under_podman(runtime: Runtime)
    ensures
        runtime.kind is Podman ==> runtime.bootstrap_user_text() == "0:0"@
            && runtime.exec_user_text() == decimal(runtime.identity.session_uid as nat) + ":"@
            + decimal(runtime.identity.session_gid as nat),
        !(runtime.kind is Podman) ==> runtime.bootstrap_user_text()
            == runtime.identity.bootstrap_user@ && runtime.exec_user_text()
            == runtime.identity.container_user@,
{
}

} // verus!
