//! The SSH port that a container publishes on the host.

use crate::config::{ContainerRuntimeType, LocalSshBackend, LocalSshMode, TargetAccessMethod, TargetMode};
use crate::failure::{either, plain, refusal, spelled_out, under, Chain, Failure};
use crate::gateway::container_spec::{mode_name, PUBLISHED_SSH_RUN_ATTEMPTS};
use crate::gateway::model::TcpEndpoint;
use crate::gateway::state::Runtime;
use crate::runtime::ContainerInspect;
use crate::text::{
    all_digits, cat2, cat3, cat4, cat5, cat7, copy_option, decimal, decimal_text,
    digits_value_bounds, has_text, is_digit, opt_text, parse_port, port_complaint, port_fault,
    quote, quoted, same, same_option, texts, trim, trimmed, trimmed_back, trimmed_front,
    unsigned_value,
};
use crate::text_map::{same_entries, TextMap};
use crate::text_parts::{holds_lowered, lowered};
use crate::unix_path::{
    can_name, entries_have_their_names, entry_name, is_within, join, joined_path, overlaps,
    paths_are_seen_from_their_directory,
};
use vstd::prelude::*;

verus! {

// ---------------------------------------------------------------- what is published

impl Runtime {
    /// Whether clients connect to the published port themselves.
    pub open spec fn direct(self) -> bool {
        self.target.ssh_endpoint_configured && self.target.ssh_backend
            == LocalSshBackend::PublishedPort && self.target.ssh_mode == LocalSshMode::Direct
    }

    /// Whether the gateway keeps the port itself, because the runtime does not
    /// report it.
    pub open spec fn keeps_port(self) -> bool {
        self.kind == ContainerRuntimeType::AppleContainer && self.target.ssh_endpoint_configured
            && self.target.ssh_backend == LocalSshBackend::PublishedPort
    }

    pub open spec fn configured_port(self) -> Option<u16> {
        if self.direct() {
            self.target.ssh_port
        } else {
            None
        }
    }

    pub open spec fn port_path(self) -> Seq<char> {
        joined_path(self.paths.container_state_dir@, "published-ssh-port"@)
    }

    pub open spec fn pending_port_path(self) -> Seq<char> {
        joined_path(self.paths.container_state_dir@, "published-ssh-port.pending"@)
    }

    pub open spec fn endpoint_path(self) -> Seq<char> {
        joined_path(self.paths.container_state_dir@, "published-ssh-endpoint.json"@)
    }

    pub fn direct_published_ssh_enabled(&self) -> (r: bool)
        ensures
            r == self.direct(),
    {
        self.target.ssh_endpoint_configured && self.target.ssh_backend
            == LocalSshBackend::PublishedPort && self.target.ssh_mode == LocalSshMode::Direct
    }

    pub fn uses_apple_published_ssh_port_state(&self) -> (r: bool)
        ensures
            r == self.keeps_port(),
    {
        self.kind == ContainerRuntimeType::AppleContainer && self.target.ssh_endpoint_configured
            && self.target.ssh_backend == LocalSshBackend::PublishedPort
    }

    pub fn needs_explicit_published_ssh_port(&self) -> (r: bool)
        ensures
            r == (self.keeps_port() || self.direct()),
    {
        self.uses_apple_published_ssh_port_state() || self.direct_published_ssh_enabled()
    }

    pub fn configured_direct_published_ssh_port(&self) -> (r: Option<u16>)
        ensures
            r == self.configured_port(),
    {
        if self.direct_published_ssh_enabled() {
            self.target.ssh_port
        } else {
            None
        }
    }

    pub fn published_ssh_port_path(&self) -> (r: String)
        ensures
            r@ == self.port_path(),
    {
        join(self.paths.container_state_dir.as_str(), "published-ssh-port")
    }

    pub fn pending_published_ssh_port_path(&self) -> (r: String)
        ensures
            r@ == self.pending_port_path(),
    {
        join(self.paths.container_state_dir.as_str(), "published-ssh-port.pending")
    }

    pub fn published_ssh_endpoint_path(&self) -> (r: String)
        ensures
            r@ == self.endpoint_path(),
    {
        join(self.paths.container_state_dir.as_str(), "published-ssh-endpoint.json")
    }

    /// The files that are removed with the container.
    pub fn published_ssh_port_state_paths(&self) -> (r: Vec<String>)
        ensures
            texts(r@) == seq![self.port_path(), self.pending_port_path(), self.endpoint_path()],
    {
        let mut out: Vec<String> = Vec::new();
        out.push(self.published_ssh_port_path());
        out.push(self.pending_published_ssh_port_path());
        out.push(self.published_ssh_endpoint_path());
        assert(texts(out@) =~= seq![
            self.port_path(),
            self.pending_port_path(),
            self.endpoint_path(),
        ]);
        out
    }
}

// ---------------------------------------------------------------- reserving a port

/// How a port is reserved for a container that is to be created: which one,
/// with 0 for any that is free, and whether it is noted as pending.
#[derive(Debug, Clone, Copy, PartialEq, Eq, Structural)]
pub struct PortReservation {
    pub port: u16,
    pub note_pending: bool,
}

impl Runtime {
    /// How a port is reserved, where one is needed.
    pub open spec fn reservation(self) -> Option<PortReservation> {
        if self.keeps_port() || self.direct() {
            Some(
                PortReservation {
                    port: match self.configured_port() {
                        Some(port) => port,
                        None => 0u16,
                    },
                    note_pending: self.keeps_port(),
                },
            )
        } else {
            None
        }
    }

    /// How a port is reserved.
    pub fn prepare_published_ssh_host_port_for_create(&self) -> (r: Option<PortReservation>)
        ensures
            r == self.reservation(),
    {
        if !self.needs_explicit_published_ssh_port() {
            return None;
        }
        let port: u16 = match self.configured_direct_published_ssh_port() {
            Some(port) => port,
            None => 0,
        };
        Some(PortReservation { port, note_pending: self.uses_apple_published_ssh_port_state() })
    }

    /// The failure to note a pending port.
    pub fn pending_port_failure(&self, complaint: &str) -> (r: Failure)
        ensures
            r@ == under(
                "write pending published SSH port "@ + self.pending_port_path(),
                plain(complaint@),
            ),
    {
        Failure::msg(complaint).context(
            cat2(
                "write pending published SSH port ",
                self.pending_published_ssh_port_path().as_str(),
            ).as_str(),
        )
    }

    /// The failure to turn a pending port into the published one.
    pub fn promote_failure(&self, complaint: &str) -> (r: Failure)
        ensures
            r@ == under(
                "promote pending published SSH port to "@ + self.port_path(),
                plain(complaint@),
            ),
    {
        Failure::msg(complaint).context(
            cat2(
                "promote pending published SSH port to ",
                self.published_ssh_port_path().as_str(),
            ).as_str(),
        )
    }
}

/// The failure to reserve a port.
pub fn reservation_failure(port: u16, complaint: &str) -> (r: Failure)
    ensures
        r@ == under(
            "allocate loopback published SSH port "@ + decimal(port as nat),
            plain(complaint@),
        ),
{
    Failure::msg(complaint).context(
        cat2(
            "allocate loopback published SSH port ",
            decimal_text(port as u64).as_str(),
        ).as_str(),
    )
}

/// What a file holds that notes a port.
pub open spec fn port_note(port: u16) -> Seq<char> {
    decimal(port as nat) + "\n"@
}

pub fn port_file_content(port: u16) -> (r: String)
    ensures
        r@ == port_note(port),
{
    cat2(decimal_text(port as u64).as_str(), "\n")
}

/// What a file says that notes a port.
#[derive(Debug, Clone, PartialEq, Eq)]
pub enum PortFile {
    Missing,
    Unreadable(String),
    Found(String),
}

/// The port that a file notes.
pub open spec fn noted_port(path: Seq<char>, file: PortFile) -> Result<Option<u16>, Chain> {
    match file {
        PortFile::Missing => Ok(None),
        PortFile::Unreadable(said) => Err(under("read "@ + path, plain(said@))),
        PortFile::Found(content) => match unsigned_value(trimmed(content@)) {
            Some(n) if n <= u16::MAX => Ok(Some(n as u16)),
            _ => Err(
                under(
                    "parse published SSH port "@ + path,
                    plain(port_fault(trimmed(content@))),
                ),
            ),
        },
    }
}

impl Runtime {
    pub fn read_published_ssh_port(&self, file: &PortFile) -> (r: Result<Option<u16>, Failure>)
        ensures
            match noted_port(self.port_path(), *file) {
                Ok(port) => r == Ok::<Option<u16>, Failure>(port),
                Err(chain) => r matches Err(failure) && failure@ == chain,
            },
    {
        let path = self.published_ssh_port_path();
        match file {
            PortFile::Missing => Ok(None),
            PortFile::Unreadable(said) => Err(
                Failure::msg(said.as_str()).context(cat2("read ", path.as_str()).as_str()),
            ),
            PortFile::Found(content) => {
                let text = trim(content.as_str());
                match parse_port(text) {
                    Some(port) => Ok(Some(port)),
                    None => Err(
                        Failure::msg(port_complaint(text).as_str()).context(
                            cat2("parse published SSH port ", path.as_str()).as_str(),
                        ),
                    ),
                }
            },
        }
    }
}

pub(crate) proof fn decimal_has_digits(n: nat)
    ensures
        all_digits(decimal(n)),
        decimal(n).len() > 0,
        is_digit(decimal(n)[0]),
        is_digit(decimal(n).last()),
    decreases n,
{
    if n >= 10 {
        decimal_has_digits(n / 10);
        let (s, t) = (decimal(n), decimal(n / 10));
        assert(s[0] == t[0]);
        assert forall|i: int| 0 <= i < s.len() implies is_digit(#[trigger] s[i]) by {
            if i < t.len() {
                assert(s[i] == t[i]);
            }
        }
    }
}

/// A port that was noted is read back.
pub proof fn noted_ports_are_read_back(path: Seq<char>, port: u16, content: String)
    requires
        content@ == port_note(port),
    ensures
        noted_port(path, PortFile::Found(content)) == Ok::<Option<u16>, Chain>(Some(port)),
{
    reveal_strlit("\n");
    let n = decimal(port as nat);
    decimal_has_digits(port as nat);
    crate::rotating_log::decimal_has_its_value(port as nat);
    let s = content@;
    assert(s =~= n.push('\n'));
    assert(s[0] == n[0]);
    assert(trimmed_front(s) == s);
    assert(s.drop_last() =~= n);
    assert(trimmed_back(n) == n);
    assert(trimmed_back(s) == n);
    assert(unsigned_value(n) == Some(port as int));
}

// ---------------------------------------------------------------- endpoint records

/// The record of a published endpoint, with all that it is valid for.
#[derive(Debug, Clone)]
pub struct PublishedSshEndpointState {
    pub host: String,
    pub port: u16,
    pub container: String,
    pub target: String,
    pub target_mode: String,
    pub runtime_type: String,
    pub access: String,
    pub local_ssh_mode: String,
    pub local_ssh_backend: String,
    pub configured_port: Option<u16>,
    pub session_id: Option<String>,
    pub context: TextMap<String>,
    pub updated_at_ms: u128,
}

pub open spec fn runtime_name(kind: ContainerRuntimeType) -> Seq<char> {
    match kind {
        ContainerRuntimeType::Podman => "podman"@,
        ContainerRuntimeType::Docker => "docker"@,
        ContainerRuntimeType::Colima => "colima"@,
        ContainerRuntimeType::AppleContainer => "apple_container"@,
    }
}

pub fn runtime_type_name(kind: ContainerRuntimeType) -> (r: &'static str)
    ensures
        r@ == runtime_name(kind),
{
    match kind {
        ContainerRuntimeType::Podman => "podman",
        ContainerRuntimeType::Docker => "docker",
        ContainerRuntimeType::Colima => "colima",
        ContainerRuntimeType::AppleContainer => "apple_container",
    }
}

pub fn target_mode_name(mode: TargetMode) -> (r: &'static str)
    ensures
        r@ == mode_name(mode),
{
    match mode {
        TargetMode::Fixed => "fixed",
        TargetMode::Ephemeral => "ephemeral",
    }
}

impl PublishedSshEndpointState {
    /// Whether a record is this runtime's, whatever port was configured.
    pub open spec fn is_of(self, runtime: Runtime) -> bool {
        &&& self.container@ == runtime.identity.container_name@
        &&& self.target@ == runtime.identity.target_name@
        &&& self.target_mode@ == mode_name(runtime.target.mode)
        &&& self.runtime_type@ == runtime_name(runtime.kind)
        &&& self.access@ == runtime.target.access_method.name()
        &&& self.local_ssh_mode@ == "direct"@
        &&& self.local_ssh_backend@ == "published_port"@
        &&& opt_text(self.session_id) == opt_text(runtime.identity.session_id)
        &&& self.context@ == runtime.context@
    }

    /// Whether a record is valid for this runtime.
    pub open spec fn fits(self, runtime: Runtime) -> bool {
        self.is_of(runtime) && self.configured_port == runtime.configured_port()
    }

    pub fn matches_runtime_except_configured_port(&self, runtime: &Runtime) -> (r: bool)
        ensures
            r == self.is_of(*runtime),
    {
        let session_id = match &self.session_id {
            Some(id) => Some(id.as_str()),
            None => None,
        };
        let wanted_id = match &runtime.identity.session_id {
            Some(id) => Some(id.as_str()),
            None => None,
        };
        same(self.container.as_str(), runtime.identity.container_name.as_str()) && same(
            self.target.as_str(),
            runtime.identity.target_name.as_str(),
        ) && same(self.target_mode.as_str(), target_mode_name(runtime.target.mode)) && same(
            self.runtime_type.as_str(),
            runtime_type_name(runtime.kind),
        ) && same(self.access.as_str(), runtime.target.access_method.as_str()) && same(
            self.local_ssh_mode.as_str(),
            "direct",
        ) && same(self.local_ssh_backend.as_str(), "published_port") && same_option(
            session_id,
            wanted_id,
        ) && same_entries(&self.context, &runtime.context)
    }

    pub fn matches_runtime(&self, runtime: &Runtime) -> (r: bool)
        ensures
            r == self.fits(*runtime),
    {
        let wanted = runtime.configured_direct_published_ssh_port();
        let same_port = match (self.configured_port, wanted) {
            (Some(a), Some(b)) => a == b,
            (None, None) => true,
            _ => false,
        };
        self.matches_runtime_except_configured_port(runtime) && same_port
    }
}

impl Runtime {
    /// The record of an endpoint, where clients connect themselves.
    pub fn published_ssh_endpoint_state(&self, endpoint: &TcpEndpoint, updated_at_ms: u128) -> (r:
        Option<PublishedSshEndpointState>)
        ensures
            match r {
                None => !self.direct(),
                Some(state) => self.direct() && state.fits(*self) && state.host@ == endpoint.host@
                    && state.port == endpoint.port && state.updated_at_ms == updated_at_ms,
            },
    {
        if !self.direct_published_ssh_enabled() {
            return None;
        }
        Some(
            PublishedSshEndpointState {
                host: endpoint.host.clone(),
                port: endpoint.port,
                container: self.identity.container_name.clone(),
                target: self.identity.target_name.clone(),
                target_mode: target_mode_name(self.target.mode).to_owned(),
                runtime_type: runtime_type_name(self.kind).to_owned(),
                access: self.target.access_method.as_str().to_owned(),
                local_ssh_mode: "direct".to_owned(),
                local_ssh_backend: "published_port".to_owned(),
                configured_port: self.configured_direct_published_ssh_port(),
                session_id: copy_option(&self.identity.session_id),
                context: self.context.duplicate(),
                updated_at_ms,
            },
        )
    }
}

/// What the file of an endpoint record holds.
#[derive(Debug, Clone)]
pub enum EndpointFile {
    Missing,
    Unreadable(String),
    Malformed(String),
    Found(PublishedSshEndpointState),
}

/// The record in a file.
pub open spec fn recorded(path: Seq<char>, file: EndpointFile) -> Result<
    Option<PublishedSshEndpointState>,
    Chain,
> {
    match file {
        EndpointFile::Missing => Ok(None),
        EndpointFile::Unreadable(said) => Err(under("read "@ + path, plain(said@))),
        EndpointFile::Malformed(said) => Err(under("parse "@ + path, plain(said@))),
        EndpointFile::Found(state) => Ok(Some(state)),
    }
}

pub open spec fn endpoint_of(state: PublishedSshEndpointState) -> (Seq<char>, u16) {
    (state.host@, state.port)
}

impl Runtime {
    fn read_published_ssh_endpoint_state<'a>(&self, file: &'a EndpointFile) -> (r: Result<
        Option<&'a PublishedSshEndpointState>,
        Failure,
    >)
        ensures
            match recorded(self.endpoint_path(), *file) {
                Ok(None) => r matches Ok(None),
                Ok(Some(state)) => r matches Ok(Some(found)) && *found == state,
                Err(chain) => r matches Err(failure) && failure@ == chain,
            },
    {
        let path = self.published_ssh_endpoint_path();
        match file {
            EndpointFile::Missing => Ok(None),
            EndpointFile::Unreadable(said) => Err(
                Failure::msg(said.as_str()).context(cat2("read ", path.as_str()).as_str()),
            ),
            EndpointFile::Malformed(said) => Err(
                Failure::msg(said.as_str()).context(cat2("parse ", path.as_str()).as_str()),
            ),
            EndpointFile::Found(state) => Ok(Some(state)),
        }
    }

    /// The endpoint of a record that is valid for this runtime.
    pub open spec fn matching(self, file: EndpointFile) -> Result<Option<(Seq<char>, u16)>, Chain> {
        match recorded(self.endpoint_path(), file) {
            Err(chain) => Err(chain),
            Ok(Some(state)) if state.fits(self) => Ok(Some(endpoint_of(state))),
            Ok(_) => Ok(None),
        }
    }

    /// The endpoint of a record that would be valid, were another port
    /// configured.
    pub open spec fn mismatching(self, file: EndpointFile) -> Result<
        Option<(Seq<char>, u16)>,
        Chain,
    > {
        if self.configured_port() is None {
            Ok(None)
        } else {
            match recorded(self.endpoint_path(), file) {
                Err(chain) => Err(chain),
                Ok(Some(state)) if state.is_of(self) && state.port
                    != self.configured_port()->0 => Ok(Some(endpoint_of(state))),
                Ok(_) => Ok(None),
            }
        }
    }

    pub fn read_matching_published_ssh_endpoint_state(&self, file: &EndpointFile) -> (r: Result<
        Option<TcpEndpoint>,
        Failure,
    >)
        ensures
            endpoint_outcome(r) == self.matching(*file),
    {
        match self.read_published_ssh_endpoint_state(file) {
            Err(failure) => Err(failure),
            Ok(None) => Ok(None),
            Ok(Some(state)) => if state.matches_runtime(self) {
                Ok(Some(TcpEndpoint { host: state.host.clone(), port: state.port }))
            } else {
                Ok(None)
            },
        }
    }

    pub fn configured_port_mismatch_published_ssh_endpoint_state(&self, file: &EndpointFile) -> (r:
        Result<Option<TcpEndpoint>, Failure>)
        ensures
            endpoint_outcome(r) == self.mismatching(*file),
    {
        let configured: u16 = match self.configured_direct_published_ssh_port() {
            Some(port) => port,
            None => return Ok(None),
        };
        match self.read_published_ssh_endpoint_state(file) {
            Err(failure) => Err(failure),
            Ok(None) => Ok(None),
            Ok(Some(state)) => if state.matches_runtime_except_configured_port(self) && state.port
                != configured {
                Ok(Some(TcpEndpoint { host: state.host.clone(), port: state.port }))
            } else {
                Ok(None)
            },
        }
    }
}

pub open spec fn endpoint_outcome(r: Result<Option<TcpEndpoint>, Failure>) -> Result<
    Option<(Seq<char>, u16)>,
    Chain,
> {
    match r {
        Ok(Some(endpoint)) => Ok(Some(endpoint@)),
        Ok(None) => Ok(None),
        Err(failure) => Err(failure@),
    }
}

/// A record that a runtime made is valid for it, and gives back the endpoint.
pub proof fn records_are_found_again(runtime: Runtime, state: PublishedSshEndpointState)
    requires
        state.fits(runtime),
    ensures
        runtime.matching(EndpointFile::Found(state)) == Ok::<Option<(Seq<char>, u16)>, Chain>(
            Some(endpoint_of(state)),
        ),
{
}

// ---------------------------------------------------------------- checking an endpoint

impl Runtime {
    /// Why an endpoint does not fit the configuration.
    pub open spec fn config_fault(self, endpoint: (Seq<char>, u16)) -> Option<Chain> {
        let target = quoted(self.identity.target_name@);
        if endpoint.0 != "127.0.0.1"@ {
            Some(
                plain(
                    "direct published SSH endpoint for target "@ + target
                        + " resolved to non-loopback host "@ + endpoint.0,
                ),
            )
        } else if self.configured_port() is Some && endpoint.1 != self.configured_port()->0 {
            Some(
                plain(
                    "direct published SSH endpoint for target "@ + target + " uses host port "@
                        + decimal(endpoint.1 as nat) + ", but local_ssh.port is "@ + decimal(
                        self.configured_port()->0 as nat,
                    )
                        + "; remove and recreate the target or update local_ssh.port"@,
                ),
            )
        } else {
            None
        }
    }

    pub fn validate_direct_endpoint_matches_config(&self, endpoint: &TcpEndpoint) -> (r: Result<
        (),
        Failure,
    >)
        ensures
            refusal(r) == self.config_fault(endpoint@),
    {
        let target = quote(self.identity.target_name.as_str());
        if !same(endpoint.host.as_str(), "127.0.0.1") {
            return Err(
                Failure::msg(
                    cat4(
                        "direct published SSH endpoint for target ",
                        target.as_str(),
                        " resolved to non-loopback host ",
                        endpoint.host.as_str(),
                    ).as_str(),
                ),
            );
        }
        if let Some(configured) = self.configured_direct_published_ssh_port() {
            if endpoint.port != configured {
                return Err(
                    Failure::msg(
                        cat7(
                            "direct published SSH endpoint for target ",
                            target.as_str(),
                            " uses host port ",
                            decimal_text(endpoint.port as u64).as_str(),
                            ", but local_ssh.port is ",
                            decimal_text(configured as u64).as_str(),
                            "; remove and recreate the target or update local_ssh.port",
                        ).as_str(),
                    ),
                );
            }
        }
        Ok(())
    }

    /// Why a recorded endpoint does not fit the port that the gateway keeps.
    pub open spec fn state_fault(self, endpoint: (Seq<char>, u16), file: PortFile) -> Option<Chain> {
        let name = self.identity.target_name@;
        if !self.keeps_port() {
            None
        } else {
            match noted_port(self.port_path(), file) {
                Err(chain) => Some(chain),
                Ok(None) => Some(
                    plain(
                        "Apple container target "@ + quoted(name)
                            + " has saved direct SSH endpoint state but "@ + self.port_path()
                            + " is missing; run `aw-gateway up "@ + name
                            + "` or remove and recreate the target"@,
                    ),
                ),
                Ok(Some(port)) => if endpoint.1 == port {
                    None
                } else {
                    Some(
                        plain(
                            "Apple container target "@ + quoted(name)
                                + " saved direct SSH endpoint port "@ + decimal(endpoint.1 as nat)
                                + " does not match authoritative published SSH port "@ + decimal(
                                port as nat,
                            ) + "; run `aw-gateway up "@ + name
                                + "` or remove and recreate the target"@,
                        ),
                    )
                },
            }
        }
    }

    pub fn validate_direct_endpoint_matches_runtime_state(
        &self,
        endpoint: &TcpEndpoint,
        file: &PortFile,
    ) -> (r: Result<(), Failure>)
        ensures
            refusal(r) == self.state_fault(endpoint@, *file),
    {
        if !self.uses_apple_published_ssh_port_state() {
            return Ok(());
        }
        let name = self.identity.target_name.as_str();
        match self.read_published_ssh_port(file) {
            Err(failure) => Err(failure),
            Ok(None) => Err(
                Failure::msg(
                    cat7(
                        "Apple container target ",
                        quote(name).as_str(),
                        " has saved direct SSH endpoint state but ",
                        self.published_ssh_port_path().as_str(),
                        " is missing; run `aw-gateway up ",
                        name,
                        "` or remove and recreate the target",
                    ).as_str(),
                ),
            ),
            Ok(Some(port)) => {
                if endpoint.port == port {
                    return Ok(());
                }
                let head = cat5(
                    "Apple container target ",
                    quote(name).as_str(),
                    " saved direct SSH endpoint port ",
                    decimal_text(endpoint.port as u64).as_str(),
                    " does not match authoritative published SSH port ",
                );
                Err(
                    Failure::msg(
                        cat5(
                            head.as_str(),
                            decimal_text(port as u64).as_str(),
                            "; run `aw-gateway up ",
                            name,
                            "` or remove and recreate the target",
                        ).as_str(),
                    ),
                )
            },
        }
    }

    /// Why a recorded endpoint is not used.
    pub open spec fn record_fault(self, endpoint: (Seq<char>, u16), file: PortFile) -> Option<Chain> {
        either(self.state_fault(endpoint, file), self.config_fault(endpoint))
    }

    fn check_record(&self, endpoint: &TcpEndpoint, file: &PortFile) -> (r: Result<(), Failure>)
        ensures
            refusal(r) == self.record_fault(endpoint@, *file),
    {
        if let Err(failure) = self.validate_direct_endpoint_matches_runtime_state(endpoint, file) {
            return Err(failure);
        }
        self.validate_direct_endpoint_matches_config(endpoint)
    }
}

// ---------------------------------------------------------------- finding an endpoint

/// What is known of a target's published endpoint: what the runtime says, the
/// port that the gateway keeps, and the record of an endpoint.
#[derive(Debug)]
pub struct PublishedFacts {
    pub published: Result<Option<TcpEndpoint>, Failure>,
    pub port_file: PortFile,
    pub endpoint_file: EndpointFile,
}

impl Runtime {
    /// Where the endpoint of a container is known with certainty: the runtime
    /// says it, or, for a container that does not run, the port that the gateway
    /// keeps.
    pub open spec fn certain_source(self, running: bool, facts: PublishedFacts) -> Result<
        Option<(Seq<char>, u16)>,
        Chain,
    > {
        if self.keeps_port() && !running {
            match noted_port(self.port_path(), facts.port_file) {
                Err(chain) => Err(chain),
                Ok(None) => Ok(None),
                Ok(Some(port)) => Ok(Some(("127.0.0.1"@, port))),
            }
        } else {
            endpoint_outcome(facts.published)
        }
    }

    /// The endpoint that is known with certainty and passes all checks.
    pub open spec fn certain(self, running: bool, facts: PublishedFacts) -> Result<
        Option<(Seq<char>, u16)>,
        Chain,
    > {
        match self.certain_source(running, facts) {
            Err(chain) => Err(chain),
            Ok(None) => Ok(None),
            Ok(Some(endpoint)) => {
                let saved = if self.keeps_port() {
                    self.matching(facts.endpoint_file)
                } else {
                    Ok(None)
                };
                match saved {
                    Err(chain) => Err(chain),
                    Ok(found) => {
                        let fault = either(
                            match found {
                                Some(e) => self.state_fault(e, facts.port_file),
                                None => None,
                            },
                            self.config_fault(endpoint),
                        );
                        match fault {
                            Some(chain) => Err(chain),
                            None => Ok(Some(endpoint)),
                        }
                    },
                }
            },
        }
    }

    fn certain_endpoint(&self, running: bool, facts: &PublishedFacts) -> (r: Result<
        Option<TcpEndpoint>,
        Failure,
    >)
        ensures
            endpoint_outcome(r) == self.certain_source(running, *facts),
    {
        if self.uses_apple_published_ssh_port_state() && !running {
            return match self.read_published_ssh_port(&facts.port_file) {
                Err(failure) => Err(failure),
                Ok(None) => Ok(None),
                Ok(Some(port)) => Ok(Some(TcpEndpoint::loopback(port))),
            };
        }
        match &facts.published {
            Err(failure) => Err(failure.duplicate()),
            Ok(None) => Ok(None),
            Ok(Some(endpoint)) => Ok(Some(endpoint.duplicate())),
        }
    }

    /// The endpoint that is known with certainty. It is recorded before it is
    /// used.
    pub fn direct_authoritative_published_ssh_endpoint(
        &self,
        container_running: bool,
        facts: &PublishedFacts,
    ) -> (r: Result<Option<TcpEndpoint>, Failure>)
        ensures
            endpoint_outcome(r) == self.certain(container_running, *facts),
    {
        let endpoint = match self.certain_endpoint(container_running, facts) {
            Err(failure) => return Err(failure),
            Ok(None) => return Ok(None),
            Ok(Some(endpoint)) => endpoint,
        };
        if self.uses_apple_published_ssh_port_state() {
            match self.read_matching_published_ssh_endpoint_state(&facts.endpoint_file) {
                Err(failure) => return Err(failure),
                Ok(None) => {},
                Ok(Some(saved)) => {
                    if let Err(failure) = self.validate_direct_endpoint_matches_runtime_state(
                        &saved,
                        &facts.port_file,
                    ) {
                        return Err(failure);
                    }
                },
            }
        }
        if let Err(failure) = self.validate_direct_endpoint_matches_config(&endpoint) {
            return Err(failure);
        }
        Ok(Some(endpoint))
    }

    /// The endpoint of a record, once it passes all checks.
    pub open spec fn from_record(
        self,
        found: Result<Option<(Seq<char>, u16)>, Chain>,
        file: PortFile,
    ) -> Result<Option<(Seq<char>, u16)>, Chain> {
        match found {
            Err(chain) => Err(chain),
            Ok(None) => Ok(None),
            Ok(Some(endpoint)) => match self.record_fault(endpoint, file) {
                Some(chain) => Err(chain),
                None => Ok(Some(endpoint)),
            },
        }
    }

    fn checked_record(&self, found: Result<Option<TcpEndpoint>, Failure>, file: &PortFile) -> (r:
        Result<Option<TcpEndpoint>, Failure>)
        ensures
            endpoint_outcome(r) == self.from_record(endpoint_outcome(found), *file),
    {
        match found {
            Err(failure) => Err(failure),
            Ok(None) => Ok(None),
            Ok(Some(endpoint)) => match self.check_record(&endpoint, file) {
                Err(failure) => Err(failure),
                Ok(()) => Ok(Some(endpoint)),
            },
        }
    }

    /// The endpoint that is reported with a target's status.
    pub open spec fn status_endpoint(
        self,
        inspect: Option<ContainerInspect>,
        facts: PublishedFacts,
    ) -> Result<Option<(Seq<char>, u16)>, Chain> {
        match inspect {
            Some(seen) if self.direct() => match self.label_refusal(seen.labels()) {
                Some(chain) => Err(chain),
                None => match self.certain(seen.state.running, facts) {
                    Ok(None) => if seen.state.running {
                        Ok(None)
                    } else {
                        self.from_record(self.matching(facts.endpoint_file), facts.port_file)
                    },
                    known => known,
                },
            },
            _ => Ok(None),
        }
    }

    pub fn direct_status_ssh_endpoint(
        &self,
        inspect: Option<&ContainerInspect>,
        facts: &PublishedFacts,
    ) -> (r: Result<Option<TcpEndpoint>, Failure>)
        ensures
            endpoint_outcome(r) == self.status_endpoint(
                match inspect {
                    Some(seen) => Some(*seen),
                    None => None,
                },
                *facts,
            ),
    {
        if !self.direct_published_ssh_enabled() {
            return Ok(None);
        }
        let seen = match inspect {
            Some(seen) => seen,
            None => return Ok(None),
        };
        if let Err(failure) = self.validate_labels(seen) {
            return Err(failure);
        }
        match self.direct_authoritative_published_ssh_endpoint(seen.state.running, facts) {
            Err(failure) => return Err(failure),
            Ok(Some(endpoint)) => return Ok(Some(endpoint)),
            Ok(None) => {},
        }
        if seen.state.running {
            return Ok(None);
        }
        let found = self.read_matching_published_ssh_endpoint_state(&facts.endpoint_file);
        self.checked_record(found, &facts.port_file)
    }

    /// The endpoint that a client is told to connect to.
    pub open spec fn client_endpoint(
        self,
        inspect: Option<ContainerInspect>,
        facts: PublishedFacts,
    ) -> Result<Option<(Seq<char>, u16)>, Chain> {
        let name = self.identity.target_name@;
        if !self.direct() {
            Ok(None)
        } else {
            match inspect {
                None => Ok(
                    match self.configured_port() {
                        Some(port) => Some(("127.0.0.1"@, port)),
                        None => None,
                    },
                ),
                Some(seen) => match self.label_refusal(seen.labels()) {
                    Some(chain) => Err(chain),
                    None => match self.certain(seen.state.running, facts) {
                        Ok(None) => if seen.state.running {
                            Err(
                                plain(
                                    "target "@ + quoted(name)
                                        + " is running but its published SSH endpoint could not be resolved"@,
                                ),
                            )
                        } else {
                            match self.from_record(
                                self.matching(facts.endpoint_file),
                                facts.port_file,
                            ) {
                                Ok(None) => match self.from_record(
                                    self.mismatching(facts.endpoint_file),
                                    facts.port_file,
                                ) {
                                    Err(chain) => Err(chain),
                                    Ok(_) => Err(
                                        plain(
                                            "target "@ + quoted(name)
                                                + " has a stopped container but no matching published SSH endpoint state; run `aw-gateway up "@
                                                + name + "` first"@,
                                        ),
                                    ),
                                },
                                known => known,
                            }
                        },
                        known => known,
                    },
                },
            }
        }
    }

    pub fn direct_client_ssh_endpoint(
        &self,
        inspect: Option<&ContainerInspect>,
        facts: &PublishedFacts,
    ) -> (r: Result<Option<TcpEndpoint>, Failure>)
        ensures
            endpoint_outcome(r) == self.client_endpoint(
                match inspect {
                    Some(seen) => Some(*seen),
                    None => None,
                },
                *facts,
            ),
    {
        if !self.direct_published_ssh_enabled() {
            return Ok(None);
        }
        let name = self.identity.target_name.as_str();
        let seen = match inspect {
            Some(seen) => seen,
            None => return match self.configured_direct_published_ssh_port() {
                Some(port) => Ok(Some(TcpEndpoint::loopback(port))),
                None => Ok(None),
            },
        };
        if let Err(failure) = self.validate_labels(seen) {
            return Err(failure);
        }
        match self.direct_authoritative_published_ssh_endpoint(seen.state.running, facts) {
            Err(failure) => return Err(failure),
            Ok(Some(endpoint)) => return Ok(Some(endpoint)),
            Ok(None) => {},
        }
        if seen.state.running {
            return Err(
                Failure::msg(
                    cat3(
                        "target ",
                        quote(name).as_str(),
                        " is running but its published SSH endpoint could not be resolved",
                    ).as_str(),
                ),
            );
        }
        let found = self.read_matching_published_ssh_endpoint_state(&facts.endpoint_file);
        match self.checked_record(found, &facts.port_file) {
            Err(failure) => return Err(failure),
            Ok(Some(endpoint)) => return Ok(Some(endpoint)),
            Ok(None) => {},
        }
        let other = self.configured_port_mismatch_published_ssh_endpoint_state(
            &facts.endpoint_file,
        );
        match self.checked_record(other, &facts.port_file) {
            Err(failure) => Err(failure),
            Ok(_) => Err(
                Failure::msg(
                    cat5(
                        "target ",
                        quote(name).as_str(),
                        " has a stopped container but no matching published SSH endpoint state; run `aw-gateway up ",
                        name,
                        "` first",
                    ).as_str(),
                ),
            ),
        }
    }

    /// The endpoint of a running container whose port the gateway keeps.
    pub open spec fn kept_endpoint(self, inspect: Option<ContainerInspect>, file: PortFile) -> Result<
        Option<(Seq<char>, u16)>,
        Chain,
    > {
        match inspect {
            None => Ok(None),
            Some(seen) => match self.label_refusal(seen.labels()) {
                Some(chain) => Err(chain),
                None => if !seen.state.running {
                    Ok(None)
                } else {
                    match noted_port(self.port_path(), file) {
                        Err(chain) => Err(chain),
                        Ok(Some(port)) => Ok(Some(("127.0.0.1"@, port))),
                        Ok(None) => Err(
                            plain(
                                "Apple container target "@ + quoted(self.identity.target_name@)
                                    + " is running but "@ + self.port_path()
                                    + " is missing; remove and recreate the target to allocate a published SSH port"@,
                            ),
                        ),
                    }
                },
            },
        }
    }

    pub fn apple_published_ssh_endpoint(
        &self,
        inspect: Option<&ContainerInspect>,
        file: &PortFile,
    ) -> (r: Result<Option<TcpEndpoint>, Failure>)
        ensures
            endpoint_outcome(r) == self.kept_endpoint(
                match inspect {
                    Some(seen) => Some(*seen),
                    None => None,
                },
                *file,
            ),
    {
        let seen = match inspect {
            Some(seen) => seen,
            None => return Ok(None),
        };
        if let Err(failure) = self.validate_labels(seen) {
            return Err(failure);
        }
        if !seen.state.running {
            return Ok(None);
        }
        match self.read_published_ssh_port(file) {
            Err(failure) => Err(failure),
            Ok(Some(port)) => Ok(Some(TcpEndpoint::loopback(port))),
            Ok(None) => Err(
                Failure::msg(
                    cat5(
                        "Apple container target ",
                        quote(self.identity.target_name.as_str()).as_str(),
                        " is running but ",
                        self.published_ssh_port_path().as_str(),
                        " is missing; remove and recreate the target to allocate a published SSH port",
                    ).as_str(),
                ),
            ),
        }
    }
}

/// Clients are sent to the loopback interface only, and to the configured port
/// where one is configured.
pub proof fn clients_are_sent_to_loopback(
    runtime: Runtime,
    inspect: Option<ContainerInspect>,
    facts: PublishedFacts,
)
    ensures
        runtime.client_endpoint(inspect, facts) matches Ok(Some(endpoint)) ==> endpoint.0
            == "127.0.0.1"@ && (runtime.configured_port() is Some ==> endpoint.1
            == runtime.configured_port()->0),
        runtime.status_endpoint(inspect, facts) matches Ok(Some(endpoint)) ==> endpoint.0
            == "127.0.0.1"@ && (runtime.configured_port() is Some ==> endpoint.1
            == runtime.configured_port()->0),
{
}

/// What a client is told of an existing container agrees with its status: where
/// the status knows an endpoint, the client is sent there.
pub proof fn clients_and_status_agree(
    runtime: Runtime,
    seen: ContainerInspect,
    facts: PublishedFacts,
)
    ensures
        runtime.status_endpoint(Some(seen), facts) matches Ok(Some(endpoint))
            ==> runtime.client_endpoint(Some(seen), facts) == Ok::<Option<(Seq<char>, u16)>, Chain>(
            Some(endpoint),
        ),
{
}

// ---------------------------------------------------------------- starting with a port

/// Whether a failure says that a port is taken.
pub open spec fn says_port_taken(message: Seq<char>) -> bool {
    let m = lowered(message);
    ||| has_text(m, "address already in use"@)
    ||| has_text(m, "port is already allocated"@)
    ||| has_text(m, "bind"@) && (has_text(m, "listen"@) || has_text(m, "port"@) || has_text(
        m,
        "in use"@,
    ))
}

pub fn published_port_bind_conflict(error: &Failure) -> (r: bool)
    ensures
        r == says_port_taken(spelled_out(error@)),
{
    let message = error.full_message();
    let m = message.as_str();
    holds_lowered(m, "address already in use") || holds_lowered(m, "port is already allocated") || (
    holds_lowered(m, "bind") && (holds_lowered(m, "listen") || holds_lowered(m, "port")
        || holds_lowered(m, "in use")))
}

/// What follows an attempt to start a container with a reserved port.
#[derive(Debug)]
pub enum RunNext {
    /// It runs: the pending port becomes the published one.
    Promote,
    /// The port was taken: the pending port is dropped, what is left of the
    /// container is removed, and another port is tried.
    Retry,
    /// The pending port is dropped, and the failure is reported.
    GiveUp(Failure),
}

/// What follows an attempt.
pub open spec fn run_follows(attempt: usize, result: Result<(), Failure>) -> RunNext {
    match result {
        Ok(_) => RunNext::Promote,
        Err(failure) => if attempt < 3 && says_port_taken(spelled_out(failure@)) {
            RunNext::Retry
        } else {
            RunNext::GiveUp(failure)
        },
    }
}

/// Tries again where the port was taken, three times in all. Attempts are
/// counted from 1.
pub fn after_published_port_run(attempt: usize, result: Result<(), Failure>) -> (r: RunNext)
    ensures
        r == run_follows(attempt, result),
{
    match result {
        Ok(()) => RunNext::Promote,
        Err(failure) => if attempt < PUBLISHED_SSH_RUN_ATTEMPTS && published_port_bind_conflict(
            &failure,
        ) {
            RunNext::Retry
        } else {
            RunNext::GiveUp(failure)
        },
    }
}

impl Runtime {
    /// Whether what is left of a container is removed, or why it is not.
    pub open spec fn leftover(
        self,
        inspect: Option<ContainerInspect>,
        manifest: Result<(), Failure>,
    ) -> Result<bool, Chain> {
        match inspect {
            None => Ok(false),
            Some(seen) => match self.label_refusal(seen.labels()) {
                Some(chain) => Err(
                    under(
                        "not deleting leftover container "@ + quoted(self.identity.container_name@)
                            + " after failed published SSH port start because labels did not match"@,
                        chain,
                    ),
                ),
                None => match manifest {
                    Err(fault) => Err(fault@),
                    Ok(_) => Ok(true),
                },
            },
        }
    }

    /// Whether what is left of a container after a failed start is removed. It
    /// must be this target's; `manifest` is whether it was made for the same
    /// exposures.
    pub fn leftover_after_failed_run(
        &self,
        inspect: Option<&ContainerInspect>,
        manifest: Result<(), Failure>,
    ) -> (r: Result<bool, Failure>)
        ensures
            self.leftover(
                match inspect {
                    Some(seen) => Some(*seen),
                    None => None,
                },
                manifest,
            ) == match r {
                Ok(removed) => Ok::<bool, Chain>(removed),
                Err(failure) => Err(failure@),
            },
            match inspect {
                None => r == Ok::<bool, Failure>(false),
                Some(seen) => match self.label_refusal(seen.labels()) {
                    Some(chain) => r matches Err(failure) && failure@ == under(
                        "not deleting leftover container "@ + quoted(self.identity.container_name@)
                            + " after failed published SSH port start because labels did not match"@,
                        chain,
                    ),
                    None => match manifest {
                        Err(fault) => r == Err::<bool, Failure>(fault),
                        Ok(_) => r == Ok::<bool, Failure>(true),
                    },
                },
            },
    {
        let seen = match inspect {
            Some(seen) => seen,
            None => return Ok(false),
        };
        if let Err(failure) = self.validate_labels(seen) {
            return Err(
                failure.context(
                    cat3(
                        "not deleting leftover container ",
                        quote(self.identity.container_name.as_str()).as_str(),
                        " after failed published SSH port start because labels did not match",
                    ).as_str(),
                ),
            );
        }
        match manifest {
            Ok(()) => Ok(true),
            Err(failure) => Err(failure),
        }
    }
}

// ---------------------------------------------------------------- laws

/// Clients connect themselves exactly where an endpoint is configured whose port
/// is published and direct. The gateway keeps the port exactly on Apple's runtime,
/// wherever a port is published. A configured port counts exactly where clients
/// connect themselves. A port is reserved where either holds: the configured one,
/// or any; it is noted exactly where the gateway keeps it.
pub proof fn ports_are_published_as_configured(runtime: Runtime)
    ensures
        ({
            let published = runtime.target.ssh_endpoint_configured && runtime.target.ssh_backend
                == LocalSshBackend::PublishedPort;
            let direct = published && runtime.target.ssh_mode == LocalSshMode::Direct;
            let kept = published && runtime.kind == ContainerRuntimeType::AppleContainer;
            &&& runtime.direct() <==> direct
            &&& runtime.keeps_port() <==> kept
            &&& direct ==> runtime.configured_port() == runtime.target.ssh_port
            &&& !direct ==> runtime.configured_port() is None
            &&& runtime.reservation() is Some <==> direct || kept
            &&& runtime.reservation() matches Some(reserved) ==> {
                &&& reserved.note_pending <==> kept
                &&& direct ==> (runtime.target.ssh_port matches Some(port) ==> reserved.port
                    == port)
                &&& !direct || runtime.target.ssh_port is None ==> reserved.port == 0
            }
        }),
{
}

/// A record is valid for one container of one target only: runtimes that it is
/// valid for agree in all that it names.
pub proof fn records_name_their_runtime(
    state: PublishedSshEndpointState,
    one: Runtime,
    other: Runtime,
)
    requires
        state.fits(one),
        state.fits(other),
    ensures
        one.identity.container_name@ == other.identity.container_name@,
        one.identity.target_name@ == other.identity.target_name@,
        one.target.mode == other.target.mode,
        one.kind == other.kind,
        one.target.access_method == other.target.access_method,
        opt_text(one.identity.session_id) == opt_text(other.identity.session_id),
        one.context@ == other.context@,
        one.configured_port() == other.configured_port(),
        state.local_ssh_mode@ == "direct"@,
        state.local_ssh_backend@ == "published_port"@,
{
    reveal_strlit("fixed");
    reveal_strlit("ephemeral");
    reveal_strlit("podman");
    reveal_strlit("docker");
    reveal_strlit("colima");
    reveal_strlit("apple_container");
    reveal_strlit("ssh");
    reveal_strlit("runtime_exec");
    assert("fixed"@.len() == 5 && "ephemeral"@.len() == 9);
    assert("podman"@[0] == 'p' && "docker"@[0] == 'd' && "colima"@[0] == 'c'
        && "apple_container"@[0] == 'a');
    assert("ssh"@.len() == 3 && "runtime_exec"@.len() == 12);
}

/// A record that names a runtime in every respect is valid for it.
pub proof fn records_that_name_a_runtime_are_valid(
    state: PublishedSshEndpointState,
    runtime: Runtime,
)
    requires
        state.container@ == runtime.identity.container_name@,
        state.target@ == runtime.identity.target_name@,
        state.target_mode@ == (if runtime.target.mode == TargetMode::Fixed {
            "fixed"@
        } else {
            "ephemeral"@
        }),
        state.runtime_type@ == (match runtime.kind {
            ContainerRuntimeType::Podman => "podman"@,
            ContainerRuntimeType::Docker => "docker"@,
            ContainerRuntimeType::Colima => "colima"@,
            ContainerRuntimeType::AppleContainer => "apple_container"@,
        }),
        state.access@ == (if runtime.target.access_method == TargetAccessMethod::Ssh {
            "ssh"@
        } else {
            "runtime_exec"@
        }),
        state.local_ssh_mode@ == "direct"@,
        state.local_ssh_backend@ == "published_port"@,
        opt_text(state.session_id) == opt_text(runtime.identity.session_id),
        state.context@ == runtime.context@,
        state.configured_port == runtime.configured_port(),
    ensures
        state.fits(runtime),
{
}

/// A note of a port is read as the number it holds; one that is missing says
/// nothing, and what is no port is refused.
pub proof fn notes_are_read_as_ports(path: Seq<char>, file: PortFile)
    ensures
        noted_port(path, file) == Ok::<Option<u16>, Chain>(None) <==> file is Missing,
        file is Unreadable ==> noted_port(path, file) is Err,
        file matches PortFile::Found(content) ==> {
            &&& noted_port(path, file) is Ok <==> (unsigned_value(trimmed(content@)) matches Some(n)
                && n <= 65535)
            &&& noted_port(path, file) matches Ok(Some(port)) ==> unsigned_value(trimmed(content@))
                == Some(port as int)
        },
{
    if let PortFile::Found(content) = file {
        let text = trimmed(content@);
        let body = if text.len() > 0 && text[0] == '+' {
            text.skip(1)
        } else {
            text
        };
        if all_digits(body) {
            digits_value_bounds(body);
        }
    }
}

/// An endpoint fits exactly when it is on the loopback interface and has the
/// configured port, where one is configured; and, where the gateway keeps the
/// port, when it has the port that is noted.
pub proof fn endpoints_fit_their_configuration(
    runtime: Runtime,
    endpoint: (Seq<char>, u16),
    file: PortFile,
)
    ensures
        runtime.config_fault(endpoint) is None <==> endpoint.0 == "127.0.0.1"@ && (
        runtime.configured_port() is None || runtime.configured_port() == Some(endpoint.1)),
        runtime.state_fault(endpoint, file) is None <==> !runtime.keeps_port() || noted_port(
            runtime.port_path(),
            file,
        ) == Ok::<Option<u16>, Chain>(Some(endpoint.1)),
        runtime.record_fault(endpoint, file) is None <==> runtime.config_fault(endpoint) is None
            && runtime.state_fault(endpoint, file) is None,
{
}

/// A record gives its endpoint exactly where it is valid. One that would be valid
/// were another port configured is found exactly where its port is another than
/// the configured one.
pub proof fn records_give_their_endpoint(runtime: Runtime, state: PublishedSshEndpointState)
    ensures
        ({
            let file = EndpointFile::Found(state);
            let endpoint = (state.host@, state.port);
            &&& state.fits(runtime) ==> runtime.matching(file) == Ok::<
                Option<(Seq<char>, u16)>,
                Chain,
            >(Some(endpoint))
            &&& !state.fits(runtime) ==> runtime.matching(file) == Ok::<
                Option<(Seq<char>, u16)>,
                Chain,
            >(None)
            &&& state.is_of(runtime) && runtime.configured_port() is Some && runtime.configured_port()
                != Some(state.port) ==> runtime.mismatching(file) == Ok::<
                Option<(Seq<char>, u16)>,
                Chain,
            >(Some(endpoint))
            &&& !state.is_of(runtime) || runtime.configured_port() is None
                || runtime.configured_port() == Some(state.port) ==> runtime.mismatching(file)
                == Ok::<Option<(Seq<char>, u16)>, Chain>(None)
            &&& runtime.matching(EndpointFile::Missing) == Ok::<Option<(Seq<char>, u16)>, Chain>(
                None,
            )
        }),
{
}

/// Where clients do not connect themselves there is no endpoint. Where there is no
/// container, a client is sent to the configured port. A container that is not
/// this target's is refused.
pub proof fn endpoints_are_those_of_own_containers(
    runtime: Runtime,
    seen: ContainerInspect,
    facts: PublishedFacts,
)
    ensures
        !runtime.direct() ==> runtime.client_endpoint(Some(seen), facts) == Ok::<
            Option<(Seq<char>, u16)>,
            Chain,
        >(None) && runtime.status_endpoint(Some(seen), facts) == Ok::<
            Option<(Seq<char>, u16)>,
            Chain,
        >(None),
        runtime.status_endpoint(None, facts) == Ok::<Option<(Seq<char>, u16)>, Chain>(None),
        runtime.direct() ==> (runtime.target.ssh_port matches Some(port)
            ==> runtime.client_endpoint(None, facts) == Ok::<Option<(Seq<char>, u16)>, Chain>(
            Some(("127.0.0.1"@, port)),
        )),
        !runtime.direct() || runtime.target.ssh_port is None ==> runtime.client_endpoint(None, facts)
            == Ok::<Option<(Seq<char>, u16)>, Chain>(None),
        runtime.direct() ==> (runtime.label_refusal(seen.labels()) matches Some(chain)
            ==> runtime.client_endpoint(Some(seen), facts) == Err::<
            Option<(Seq<char>, u16)>,
            Chain,
        >(chain) && runtime.status_endpoint(Some(seen), facts) == Err::<
            Option<(Seq<char>, u16)>,
            Chain,
        >(chain)),
{
}

/// What the runtime says of an endpoint counts, where the gateway does not keep the
/// port: it is told where it fits the configuration and refused where it does not.
/// Where the runtime says nothing, a container that runs has no endpoint, and one
/// that stopped has that of its record.
pub proof fn endpoints_are_as_the_runtime_says(
    runtime: Runtime,
    seen: ContainerInspect,
    facts: PublishedFacts,
)
    requires
        runtime.direct(),
        !runtime.keeps_port(),
        runtime.label_refusal(seen.labels()) is None,
    ensures
        ({
            let client = runtime.client_endpoint(Some(seen), facts);
            let status = runtime.status_endpoint(Some(seen), facts);
            &&& facts.published matches Ok(Some(endpoint)) ==> {
                let fits = endpoint.host@ == "127.0.0.1"@ && (runtime.target.ssh_port is None
                    || runtime.target.ssh_port == Some(endpoint.port));
                &&& fits ==> client == Ok::<Option<(Seq<char>, u16)>, Chain>(
                    Some((endpoint.host@, endpoint.port)),
                ) && status == client
                &&& !fits ==> client is Err && status is Err
            }
            &&& facts.published matches Ok(None) ==> seen.state.running ==> client is Err && status
                == Ok::<Option<(Seq<char>, u16)>, Chain>(None)
            &&& facts.published matches Ok(None) ==> !seen.state.running ==> (
            facts.endpoint_file matches EndpointFile::Found(state) ==> {
                let endpoint = (state.host@, state.port);
                &&& state.fits(runtime) && runtime.config_fault(endpoint) is None ==> client == Ok::<
                    Option<(Seq<char>, u16)>,
                    Chain,
                >(Some(endpoint)) && status == client
                &&& !state.fits(runtime) ==> client is Err && status == Ok::<
                    Option<(Seq<char>, u16)>,
                    Chain,
                >(None)
            })
            &&& facts.published is Err ==> client is Err && status is Err
        }),
{
}

/// Where the gateway keeps the port, a container that stopped has the port that is
/// noted, as long as it fits the configuration and no valid record says otherwise.
/// A container that runs has the noted port for its endpoint, and must have one.
pub proof fn kept_ports_are_the_noted_ones(
    runtime: Runtime,
    seen: ContainerInspect,
    facts: PublishedFacts,
    port: u16,
)
    requires
        runtime.keeps_port(),
        runtime.label_refusal(seen.labels()) is None,
        noted_port(runtime.port_path(), facts.port_file) == Ok::<Option<u16>, Chain>(Some(port)),
    ensures
        runtime.direct() && !seen.state.running && (runtime.target.ssh_port is None
            || runtime.target.ssh_port == Some(port)) && runtime.matching(facts.endpoint_file)
            == Ok::<Option<(Seq<char>, u16)>, Chain>(None) ==> runtime.client_endpoint(
            Some(seen),
            facts,
        ) == Ok::<Option<(Seq<char>, u16)>, Chain>(Some(("127.0.0.1"@, port))),
        runtime.kept_endpoint(Some(seen), facts.port_file) == Ok::<
            Option<(Seq<char>, u16)>,
            Chain,
        >(
            if seen.state.running {
                Some(("127.0.0.1"@, port))
            } else {
                None
            },
        ),
        runtime.kept_endpoint(None, facts.port_file) == Ok::<Option<(Seq<char>, u16)>, Chain>(None),
        seen.state.running ==> runtime.kept_endpoint(Some(seen), PortFile::Missing) is Err,
{
}

/// A start is tried again exactly where the port was taken and two attempts at
/// most were made; what fails otherwise is reported as it is, and what succeeds is
/// not tried again.
pub proof fn starts_are_tried_three_times(attempt: usize, result: Result<(), Failure>)
    ensures
        run_follows(attempt, result) is Promote <==> result is Ok,
        run_follows(attempt, result) is Retry <==> (result matches Err(failure) && attempt <= 2
            && says_port_taken(spelled_out(failure@))),
        run_follows(attempt, result) matches RunNext::GiveUp(failure) ==> result == Err::<
            (),
            Failure,
        >(failure),
{
}

/// A failure says that a port is taken where it says so in one of the ways that
/// runtimes have, in capitals or not.
pub proof fn taken_ports_are_recognised(message: Seq<char>)
    ensures
        has_text(lowered(message), "address already in use"@) ==> says_port_taken(message),
        has_text(lowered(message), "port is already allocated"@) ==> says_port_taken(message),
        says_port_taken(message) && !has_text(lowered(message), "address already in use"@)
            && !has_text(lowered(message), "port is already allocated"@) <==> !has_text(
            lowered(message),
            "address already in use"@,
        ) && !has_text(lowered(message), "port is already allocated"@) && has_text(
            lowered(message),
            "bind"@,
        ) && (has_text(lowered(message), "listen"@) || has_text(lowered(message), "port"@)
            || has_text(lowered(message), "in use"@)),
{
}

/// What is left of a container is removed exactly where it is this target's and
/// was made for the same sockets; where nothing is left, nothing is removed.
pub proof fn leftovers_are_removed_when_own(
    runtime: Runtime,
    inspect: Option<ContainerInspect>,
    manifest: Result<(), Failure>,
)
    ensures
        ({
            let r = runtime.leftover(inspect, manifest);
            &&& r == Ok::<bool, Chain>(true) <==> (inspect matches Some(seen)
                && runtime.label_refusal(seen.labels()) is None && manifest is Ok)
            &&& r == Ok::<bool, Chain>(false) <==> inspect is None
        }),
{
}

/// The names of the three files in which a target's port is kept.
proof fn port_files_have_names()
    ensures
        can_name("published-ssh-port"@),
        can_name("published-ssh-port.pending"@),
        can_name("published-ssh-endpoint.json"@),
        "published-ssh-port"@ != "published-ssh-port.pending"@,
        "published-ssh-port"@ != "published-ssh-endpoint.json"@,
        "published-ssh-port.pending"@ != "published-ssh-endpoint.json"@,
{
    reveal_strlit("published-ssh-port");
    reveal_strlit("published-ssh-port.pending");
    reveal_strlit("published-ssh-endpoint.json");
    reveal_strlit("/");
    reveal_strlit(".");
    reveal_strlit("..");
    assert("published-ssh-port"@.len() == 18);
    assert("published-ssh-port.pending"@.len() == 26);
    assert("published-ssh-endpoint.json"@.len() == 27);
    assert("/"@.len() == 1 && "."@.len() == 1 && ".."@.len() == 2);
    assert(!"published-ssh-port"@.contains('/'));
    assert(!"published-ssh-port.pending"@.contains('/'));
    assert(!"published-ssh-endpoint.json"@.contains('/'));
}

/// The port of a target, the one that is being tried and the record of its endpoint
/// are kept in three files of their own, in the container's state directory.
pub proof fn ports_are_kept_in_files_of_their_own(runtime: Runtime)
    requires
        runtime.paths.container_state_dir@.len() > 0,
    ensures
        ({
            let dir = runtime.paths.container_state_dir@;
            let (port, pending, endpoint) = (
                runtime.port_path(),
                runtime.pending_port_path(),
                runtime.endpoint_path(),
            );
            &&& is_within(port, dir) && is_within(pending, dir) && is_within(endpoint, dir)
            &&& entry_name(port) == Some("published-ssh-port"@)
            &&& entry_name(pending) == Some("published-ssh-port.pending"@)
            &&& entry_name(endpoint) == Some("published-ssh-endpoint.json"@)
            &&& !overlaps(port, pending) && !overlaps(port, endpoint) && !overlaps(
                pending,
                endpoint,
            )
        }),
{
    let dir = runtime.paths.container_state_dir@;
    port_files_have_names();
    entries_have_their_names(dir, "published-ssh-port"@, "published-ssh-port.pending"@);
    entries_have_their_names(dir, "published-ssh-port.pending"@, "published-ssh-endpoint.json"@);
    entries_have_their_names(dir, "published-ssh-endpoint.json"@, "published-ssh-port"@);
    assert("published-ssh-port"@[0] == 'p') by {
        reveal_strlit("published-ssh-port");
    }
    assert("published-ssh-port.pending"@[0] == 'p') by {
        reveal_strlit("published-ssh-port.pending");
    }
    assert("published-ssh-endpoint.json"@[0] == 'p') by {
        reveal_strlit("published-ssh-endpoint.json");
    }
    paths_are_seen_from_their_directory(dir, "published-ssh-port"@);
    paths_are_seen_from_their_directory(dir, "published-ssh-port.pending"@);
    paths_are_seen_from_their_directory(dir, "published-ssh-endpoint.json"@);
}

/// Every runtime and every mode has a word of its own.
pub proof fn runtimes_and_modes_have_their_words(kind: ContainerRuntimeType, mode: TargetMode)
    ensures
        runtime_name(kind) == "podman"@ <==> kind is Podman,
        runtime_name(kind) == "docker"@ <==> kind is Docker,
        runtime_name(kind) == "colima"@ <==> kind is Colima,
        runtime_name(kind) == "apple_container"@ <==> kind is AppleContainer,
        mode_name(mode) == "fixed"@ <==> mode is Fixed,
        mode_name(mode) == "ephemeral"@ <==> mode is Ephemeral,
{
    reveal_strlit("podman");
    reveal_strlit("docker");
    reveal_strlit("colima");
    reveal_strlit("apple_container");
    reveal_strlit("fixed");
    reveal_strlit("ephemeral");
    assert("podman"@[0] == 'p' && "docker"@[0] == 'd' && "colima"@[0] == 'c'
        && "apple_container"@[0] == 'a');
    assert("fixed"@[0] == 'f' && "ephemeral"@[0] == 'e');
}

} // verus!
