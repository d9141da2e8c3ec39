//! What the container runtime says of a container, and what it is asked to run.

use crate::failure::{either, refusal, Chain, Failure, FailureKind};
use crate::gateway::host_socket_exposures::{ContainerMountSpec, HostSocketExposureSpec};
use crate::text::{cat2, opt_text, quote, quoted, same, texts};
use crate::text_map::{finite_maps_are_listed, listing, lists, TextMap};
use vstd::prelude::*;

verus! {

#[derive(Debug, Clone, Copy, PartialEq, Eq, Structural)]
pub struct ContainerState {
    pub running: bool,
    pub pid: Option<u32>,
}

#[derive(Debug, Clone, PartialEq, Eq)]
pub struct ContainerConfig {
    pub labels: TextMap<String>,
}

/// An existing container.
#[derive(Debug, Clone, PartialEq, Eq)]
pub struct ContainerInspect {
    pub id: String,
    pub name: String,
    pub state: ContainerState,
    pub config: ContainerConfig,
}

impl ContainerInspect {
    /// The labels of the container.
    pub open spec fn labels(&self) -> Map<Seq<char>, Seq<char>> {
        self.config.labels@
    }
}

/// What a container is started with.
#[derive(Debug, Clone)]
pub struct ContainerRunSpec {
    pub name: String,
    pub hostname: String,
    pub image: String,
    pub workspace: String,
    pub workspace_container_path: String,
    pub container_home: String,
    pub container_user: String,
    pub passwd_entry: Option<String>,
    pub state_dir_in_container: String,
    pub mounts: Vec<ContainerMountSpec>,
    pub host_socket_exposures: Vec<HostSocketExposureSpec>,
    pub env: TextMap<String>,
    pub labels: TextMap<String>,
    pub publish_ssh: bool,
    pub published_ssh_host_port: Option<u16>,
    pub extra_run_args: Vec<String>,
    pub command: Vec<String>,
}

/// A command that is run in a running container.
#[derive(Debug, Clone)]
pub struct ContainerExecSpec {
    pub stdin_tty: bool,
    pub stdout_tty: bool,
    pub user: String,
    pub cwd: Option<String>,
    pub env: TextMap<String>,
    pub container_name: String,
    pub command: Vec<String>,
}

pub struct ExecModel {
    pub stdin_tty: bool,
    pub stdout_tty: bool,
    pub user: Seq<char>,
    pub cwd: Option<Seq<char>>,
    pub env: Map<Seq<char>, Seq<char>>,
    pub container_name: Seq<char>,
    pub command: Seq<Seq<char>>,
}

impl View for ContainerExecSpec {
    type V = ExecModel;

    open spec fn view(&self) -> ExecModel {
        ExecModel {
            stdin_tty: self.stdin_tty,
            stdout_tty: self.stdout_tty,
            user: self.user@,
            cwd: opt_text(self.cwd),
            env: self.env@,
            container_name: self.container_name@,
            command: texts(self.command@),
        }
    }
}

/// What is wrong with one label of a container.
pub open spec fn one_label_fault(
    key: Seq<char>,
    value: Seq<char>,
    labels: Map<Seq<char>, Seq<char>>,
) -> Option<Chain> {
    if !labels.contains_key(key) {
        Some(seq![(FailureKind::GatewayLabel, "container missing required label "@ + quoted(key))])
    } else if labels[key] != value {
        Some(seq![(FailureKind::GatewayLabel, "container label mismatch for "@ + key)])
    } else {
        None
    }
}

/// The first label that a container lacks or has with another value.
pub open spec fn label_fault(
    expected: Seq<(Seq<char>, Seq<char>)>,
    labels: Map<Seq<char>, Seq<char>>,
) -> Option<Chain>
    decreases expected.len(),
{
    if expected.len() == 0 {
        None
    } else {
        either(
            one_label_fault(expected[0].0, expected[0].1, labels),
            label_fault(expected.skip(1), labels),
        )
    }
}

/// Whether every entry of the first map is in the second.
pub open spec fn includes(
    labels: Map<Seq<char>, Seq<char>>,
    expected: Map<Seq<char>, Seq<char>>,
) -> bool {
    forall|key: Seq<char>| #[trigger]
        expected.contains_key(key) ==> labels.contains_key(key) && labels[key] == expected[key]
}

proof fn no_label_fault_at(
    expected: Seq<(Seq<char>, Seq<char>)>,
    labels: Map<Seq<char>, Seq<char>>,
    i: int,
)
    requires
        label_fault(expected, labels) is None,
        0 <= i < expected.len(),
    ensures
        one_label_fault(expected[i].0, expected[i].1, labels) is None,
    decreases expected.len(),
{
    if i > 0 {
        no_label_fault_at(expected.skip(1), labels, i - 1);
    }
}

proof fn no_label_fault(expected: Seq<(Seq<char>, Seq<char>)>, labels: Map<Seq<char>, Seq<char>>)
    requires
        forall|i: int|
            0 <= i < expected.len() ==> one_label_fault(
                (#[trigger] expected[i]).0,
                expected[i].1,
                labels,
            ) is None,
    ensures
        label_fault(expected, labels) is None,
    decreases expected.len(),
{
    if expected.len() > 0 {
        assert(one_label_fault(expected[0].0, expected[0].1, labels) is None);
        assert forall|i: int| 0 <= i < expected.skip(1).len() implies one_label_fault(
            (#[trigger] expected.skip(1)[i]).0,
            expected.skip(1)[i].1,
            labels,
        ) is None by {
            assert(expected.skip(1)[i] == expected[i + 1]);
        }
        no_label_fault(expected.skip(1), labels);
    }
}

/// A container is accepted exactly when it has every expected label with its
/// expected value, whatever other labels it has.
pub proof fn labels_accepted_iff_included(
    expected: Map<Seq<char>, Seq<char>>,
    labels: Map<Seq<char>, Seq<char>>,
)
    requires
        expected.dom().finite(),
    ensures
        label_fault(listing(expected), labels) is None <==> includes(labels, expected),
{
    finite_maps_are_listed(expected);
    listed_labels_are_included(expected, labels);
}

proof fn listed_labels_are_included(
    expected: Map<Seq<char>, Seq<char>>,
    labels: Map<Seq<char>, Seq<char>>,
)
    requires
        lists(listing(expected), expected),
    ensures
        label_fault(listing(expected), labels) is None <==> includes(labels, expected),
{
    let s = listing(expected);
    if label_fault(s, labels) is None {
        assert forall|key: Seq<char>| #[trigger] expected.contains_key(key) implies labels.contains_key(
            key,
        ) && labels[key] == expected[key] by {
            let i = choose|i: int| 0 <= i < s.len() && #[trigger] s[i] == (key, expected[key]);
            no_label_fault_at(s, labels, i);
        }
    }
    if includes(labels, expected) {
        assert forall|i: int| 0 <= i < s.len() implies one_label_fault(
            (#[trigger] s[i]).0,
            s[i].1,
            labels,
        ) is None by {
            assert(expected.contains_key(s[i].0));
        }
        no_label_fault(s, labels);
    }
}

/// Refuses a container that lacks an expected label or has it with another value.
pub fn validate_gateway_labels(inspect: &ContainerInspect, expected: &TextMap<String>) -> (r: Result<
    (),
    Failure,
>)
    ensures
        refusal(r) == label_fault(listing(expected@), inspect.labels()),
        r is Ok <==> includes(inspect.labels(), expected@),
{
    let n: usize = expected.len();
    let ghost all = listing(expected@);
    let mut i: usize = 0;
    assert(all.skip(0) =~= all);
    proof {
        listed_labels_are_included(expected@, inspect.labels());
    }
    while i < n
        invariant
            i <= n == all.len(),
            all == listing(expected@),
            label_fault(all, inspect.labels()) == label_fault(
                all.skip(i as int),
                inspect.labels(),
            ),
            label_fault(all, inspect.labels()) is None <==> includes(
                inspect.labels(),
                expected@,
            ),
        decreases n - i,
    {
        assert(all.skip(i as int).skip(1) =~= all.skip(i + 1));
        let (key, value) = expected.entry(i);
        match inspect.config.labels.get(key.as_str()) {
            None => {
                let message = cat2(
                    "container missing required label ",
                    quote(key.as_str()).as_str(),
                );
                return Err(Failure::typed(FailureKind::GatewayLabel, message.as_str()));
            },
            Some(actual) => {
                if !same(actual.as_str(), value.as_str()) {
                    let message = cat2("container label mismatch for ", key.as_str());
                    return Err(Failure::typed(FailureKind::GatewayLabel, message.as_str()));
                }
            },
        }
        i += 1;
    }
    Ok(())
}

/// A container that is refused for its labels is refused as one that the gateway
/// does not own; what is told names the label, and says whether it is missing or
/// has another value.
pub proof fn labels_are_refused_by_name(
    expected: Map<Seq<char>, Seq<char>>,
    labels: Map<Seq<char>, Seq<char>>,
    key: Seq<char>,
    value: Seq<char>,
)
    requires
        expected.dom().finite(),
    ensures
        label_fault(listing(expected), labels) matches Some(chain) ==> chain.len() == 1
            && chain[0].0 == FailureKind::GatewayLabel,
        one_label_fault(key, value, labels) is None <==> labels.contains_key(key) && labels[key]
            == value,
        !labels.contains_key(key) ==> (one_label_fault(key, value, labels) matches Some(chain)
            && chain[0].1 == "container missing required label "@ + quoted(key)),
        labels.contains_key(key) && labels[key] != value ==> (one_label_fault(
            key,
            value,
            labels,
        ) matches Some(chain) && chain[0].1 == "container label mismatch for "@ + key),
{
    label_faults_have_their_kind(listing(expected), labels);
}

proof fn label_faults_have_their_kind(
    expected: Seq<(Seq<char>, Seq<char>)>,
    labels: Map<Seq<char>, Seq<char>>,
)
    ensures
        label_fault(expected, labels) matches Some(chain) ==> chain.len() == 1 && chain[0].0
            == FailureKind::GatewayLabel,
    decreases expected.len(),
{
    if expected.len() > 0 {
        label_faults_have_their_kind(expected.skip(1), labels);
    }
}

} // verus!
