//! What is reported of sessions and containers.

use crate::config::TargetMode;
use crate::gateway::container_spec::{context_of_labels, stored_context, Labels};
use crate::gateway::model::{AllStatusEntry, SessionStatus};
use crate::gateway::ownership::{
    launches_are_recorded_for_ephemeral_targets, new_containers_are_labelled,
};
use crate::gateway::state::Runtime;
use crate::text::{copy_option, decimal, opt_str, opt_text, same};
use crate::text_map::TextMap;
use vstd::prelude::*;

verus! {

// ---------------------------------------------------------------- sessions

/// The launch of the session with an id; of the first session with a launch
/// where no id is given.
pub open spec fn launch_of(session_id: Option<Seq<char>>, sessions: Seq<SessionStatus>) -> Option<
    Seq<char>,
>
    decreases sessions.len(),
{
    if sessions.len() == 0 {
        None
    } else {
        match session_id {
            Some(id) => if sessions[0].id@ == id {
                opt_text(sessions[0].launch)
            } else {
                launch_of(session_id, sessions.skip(1))
            },
            None => if sessions[0].launch is Some {
                opt_text(sessions[0].launch)
            } else {
                launch_of(session_id, sessions.skip(1))
            },
        }
    }
}

pub fn status_launch(session_id: Option<&str>, sessions: &Vec<SessionStatus>) -> (r: Option<String>)
    ensures
        opt_text(r) == launch_of(opt_str(session_id), sessions@),
{
    let ghost all = sessions@;
    let ghost wanted = opt_str(session_id);
    let mut i: usize = 0;
    assert(all.skip(0) =~= all);
    while i < sessions.len()
        invariant
            i <= sessions.len(),
            all == sessions@,
            wanted == opt_str(session_id),
            launch_of(wanted, all) == launch_of(wanted, all.skip(i as int)),
        decreases sessions.len() - i,
    {
        assert(all.skip(i as int).skip(1) =~= all.skip(i + 1));
        assert(all.skip(i as int)[0] == all[i as int]);
        let hit = match session_id {
            Some(id) => same(sessions[i].id.as_str(), id),
            None => sessions[i].launch.is_some(),
        };
        if hit {
            return copy_option(&sessions[i].launch);
        }
        i += 1;
    }
    None
}

// ---------------------------------------------------------------- containers

/// A container that the runtime lists as managed.
#[derive(Debug, Clone)]
pub struct ManagedContainer {
    pub name: String,
    pub image: String,
    pub running: bool,
    pub labels: TextMap<String>,
}

/// A configured target: its mode, and the name of its container where that is
/// known.
#[derive(Debug, Clone)]
pub struct ConfiguredTarget {
    pub mode: TargetMode,
    pub container_name: Option<String>,
}

impl View for ConfiguredTarget {
    type V = (TargetMode, Option<Seq<char>>);

    open spec fn view(&self) -> (TargetMode, Option<Seq<char>>) {
        (self.mode, opt_text(self.container_name))
    }
}

pub type Targets = Map<Seq<char>, (TargetMode, Option<Seq<char>>)>;

pub struct StatusModel {
    pub target: Seq<char>,
    pub session_id: Option<Seq<char>>,
    pub launch: Option<Seq<char>>,
    pub mode: Seq<char>,
    pub user: Seq<char>,
    pub uid: Seq<char>,
    pub image: Seq<char>,
    pub container: Seq<char>,
    pub context: Labels,
    pub status: Seq<char>,
}

impl View for AllStatusEntry {
    type V = StatusModel;

    open spec fn view(&self) -> StatusModel {
        StatusModel {
            target: self.target@,
            session_id: opt_text(self.session_id),
            launch: opt_text(self.launch),
            mode: self.mode@,
            user: self.user@,
            uid: self.uid@,
            image: self.image@,
            container: self.container@,
            context: self.context@,
            status: self.status@,
        }
    }
}

/// The value of a label, or another text.
pub open spec fn label_or(labels: Labels, key: Seq<char>, other: Seq<char>) -> Seq<char> {
    if labels.contains_key(key) {
        labels[key]
    } else {
        other
    }
}

pub open spec fn label_at(labels: Labels, key: Seq<char>) -> Option<Seq<char>> {
    if labels.contains_key(key) {
        Some(labels[key])
    } else {
        None
    }
}

/// The mode of a container that has no label for it: known only where it fits a
/// configured target.
pub open spec fn inferred_mode(
    targets: Targets,
    target: Seq<char>,
    container_name: Seq<char>,
    has_session: bool,
) -> Seq<char> {
    if !targets.contains_key(target) {
        "unknown"@
    } else {
        match targets[target].0 {
            TargetMode::Fixed => if targets[target].1 == Some(container_name) {
                "fixed"@
            } else {
                "unknown"@
            },
            TargetMode::Ephemeral => if has_session {
                "ephemeral"@
            } else {
                "unknown"@
            },
        }
    }
}

/// What is reported of a managed container. A launch is reported for ephemeral
/// containers only: others are used by many launches.
pub open spec fn status_of(targets: Targets, c: ManagedContainer) -> StatusModel {
    let labels = c.labels@;
    let target = label_or(labels, "io.aw-gateway.target"@, "unknown"@);
    let session_id = label_at(labels, "io.aw-gateway.session_id"@);
    let mode = label_or(
        labels,
        "io.aw-gateway.mode"@,
        inferred_mode(targets, target, c.name@, session_id is Some),
    );
    StatusModel {
        target,
        session_id,
        launch: if mode == "ephemeral"@ {
            label_at(labels, "io.aw-gateway.launch"@)
        } else {
            None
        },
        mode,
        user: label_or(labels, "io.aw-gateway.user"@, ""@),
        uid: label_or(labels, "io.aw-gateway.uid"@, ""@),
        image: label_or(labels, "io.aw-gateway.image"@, c.image@),
        container: label_or(labels, "io.aw-gateway.container_id"@, c.name@),
        context: stored_context(labels),
        status: if c.running {
            "running"@
        } else {
            "stopped"@
        },
    }
}

fn label(labels: &TextMap<String>, key: &str) -> (r: Option<String>)
    ensures
        opt_text(r) == label_at(labels@, key@),
{
    match labels.get(key) {
        Some(value) => Some(value.clone()),
        None => None,
    }
}

fn label_or_else(labels: &TextMap<String>, key: &str, other: &str) -> (r: String)
    ensures
        r@ == label_or(labels@, key@, other@),
{
    match labels.get(key) {
        Some(value) => value.clone(),
        None => other.to_owned(),
    }
}

fn infer_status_all_mode(
    targets: &TextMap<ConfiguredTarget>,
    target: &str,
    container_name: &str,
    has_session: bool,
) -> (r: String)
    ensures
        r@ == inferred_mode(targets@, target@, container_name@, has_session),
{
    let known = match targets.get(target) {
        None => return "unknown".to_owned(),
        Some(known) => known,
    };
    match known.mode {
        TargetMode::Fixed => match &known.container_name {
            Some(expected) => if same(expected.as_str(), container_name) {
                "fixed".to_owned()
            } else {
                "unknown".to_owned()
            },
            None => "unknown".to_owned(),
        },
        TargetMode::Ephemeral => if has_session {
            "ephemeral".to_owned()
        } else {
            "unknown".to_owned()
        },
    }
}

/// What is reported of a managed container.
pub fn status_all_entry(
    targets: &TextMap<ConfiguredTarget>,
    container: &ManagedContainer,
) -> (r: AllStatusEntry)
    ensures
        r@ == status_of(targets@, *container),
{
    let labels = &container.labels;
    let target = label_or_else(labels, "io.aw-gateway.target", "unknown");
    let session_id = label(labels, "io.aw-gateway.session_id");
    let inferred = infer_status_all_mode(
        targets,
        target.as_str(),
        container.name.as_str(),
        session_id.is_some(),
    );
    let mode = label_or_else(labels, "io.aw-gateway.mode", inferred.as_str());
    let launch = if same(mode.as_str(), "ephemeral") {
        label(labels, "io.aw-gateway.launch")
    } else {
        None
    };
    let status = if container.running {
        "running".to_owned()
    } else {
        "stopped".to_owned()
    };
    AllStatusEntry {
        target,
        session_id,
        launch,
        mode,
        user: label_or_else(labels, "io.aw-gateway.user", ""),
        uid: label_or_else(labels, "io.aw-gateway.uid", ""),
        image: label_or_else(labels, "io.aw-gateway.image", container.image.as_str()),
        container: label_or_else(labels, "io.aw-gateway.container_id", container.name.as_str()),
        context: context_of_labels(labels),
        status,
    }
}

/// What is reported of all managed containers, in their order.
pub fn status_all_entries(
    targets: &TextMap<ConfiguredTarget>,
    containers: &Vec<ManagedContainer>,
) -> (r: Vec<AllStatusEntry>)
    ensures
        r@.len() == containers@.len(),
        forall|i: int|
            0 <= i < r@.len() ==> (#[trigger] r@[i])@ == status_of(targets@, containers@[i]),
{
    let mut out: Vec<AllStatusEntry> = Vec::new();
    let mut i: usize = 0;
    while i < containers.len()
        invariant
            i <= containers.len(),
            out@.len() == i,
            forall|j: int|
                0 <= j < i ==> (#[trigger] out@[j])@ == status_of(targets@, containers@[j]),
        decreases containers.len() - i,
    {
        out.push(status_all_entry(targets, &containers[i]));
        i += 1;
    }
    out
}

/// A launch that a label records is reported only where the mode is ephemeral.
pub proof fn launches_are_reported_for_ephemeral_containers(targets: Targets, c: ManagedContainer)
    ensures
        status_of(targets, c).launch is Some ==> status_of(targets, c).mode == "ephemeral"@,
{
}

/// The launch of a target is that of the session that is asked for; where none is
/// asked for, that of the first session which has one. Where there is no such
/// session there is no launch.
pub proof fn launches_are_those_of_sessions(
    session_id: Option<Seq<char>>,
    sessions: Seq<SessionStatus>,
    k: int,
)
    requires
        0 <= k <= sessions.len(),
        forall|i: int|
            0 <= i < k ==> match session_id {
                Some(id) => (#[trigger] sessions[i]).id@ != id,
                None => sessions[i].launch is None,
            },
        k < sessions.len() ==> match session_id {
            Some(id) => sessions[k].id@ == id,
            None => sessions[k].launch is Some,
        },
    ensures
        k < sessions.len() ==> launch_of(session_id, sessions) == opt_text(sessions[k].launch),
        k == sessions.len() ==> launch_of(session_id, sessions) is None,
    decreases sessions.len(),
{
    if k > 0 {
        let rest = sessions.skip(1);
        assert(sessions[0] == sessions[0int]);
        assert forall|i: int| 0 <= i < k - 1 implies match session_id {
            Some(id) => (#[trigger] rest[i]).id@ != id,
            None => rest[i].launch is None,
        } by {
            assert(rest[i] == sessions[i + 1]);
        }
        launches_are_those_of_sessions(session_id, rest, k - 1);
    }
}

/// What is reported of a container is what it was labelled with when it was made,
/// and whether it runs.
pub proof fn containers_are_reported_as_labelled(
    targets: Targets,
    c: ManagedContainer,
    runtime: Runtime,
    manifest: Option<Seq<char>>,
)
    requires
        runtime.context@.dom().finite(),
        c.labels@ == runtime.all_labels(manifest),
    ensures
        ({
            let status = status_of(targets, c);
            &&& status.target == runtime.identity.target_name@
            &&& status.user == runtime.identity.user.user@
            &&& status.uid == decimal(runtime.identity.user.uid as nat)
            &&& status.image == runtime.target.image@
            &&& status.container == runtime.identity.container_name@
            &&& status.context == runtime.context@
            &&& status.session_id == opt_text(runtime.identity.session_id)
            &&& runtime.target.mode == TargetMode::Fixed ==> status.mode == "fixed"@
                && status.launch is None
            &&& runtime.target.mode == TargetMode::Ephemeral ==> status.mode == "ephemeral"@
                && status.launch == opt_text(runtime.identity.launch_name)
            &&& c.running ==> status.status == "running"@
            &&& !c.running ==> status.status == "stopped"@
        }),
{
    new_containers_are_labelled(runtime, manifest);
    launches_are_recorded_for_ephemeral_targets(runtime, manifest);
    reveal_strlit("fixed");
    reveal_strlit("ephemeral");
    assert("fixed"@.len() == 5 && "ephemeral"@.len() == 9);
}

/// Of a container without labels the runtime's own words are reported. Its mode is
/// known only where it fits a configured target: by its name where the target is
/// fixed, by having a session where it is ephemeral.
pub proof fn unlabelled_containers_are_reported(targets: Targets, c: ManagedContainer)
    ensures
        ({
            let status = status_of(targets, c);
            let labels = c.labels@;
            let known = targets.contains_key(status.target);
            &&& !labels.contains_key("io.aw-gateway.target"@) ==> status.target == "unknown"@
            &&& !labels.contains_key("io.aw-gateway.image"@) ==> status.image == c.image@
            &&& !labels.contains_key("io.aw-gateway.container_id"@) ==> status.container == c.name@
            &&& !labels.contains_key("io.aw-gateway.user"@) ==> status.user.len() == 0
            &&& !labels.contains_key("io.aw-gateway.uid"@) ==> status.uid.len() == 0
            &&& !labels.contains_key("io.aw-gateway.session_id"@) ==> status.session_id is None
            &&& !labels.contains_key("io.aw-gateway.launch"@) ==> status.launch is None
            &&& labels.contains_key("io.aw-gateway.mode"@) ==> status.mode
                == labels["io.aw-gateway.mode"@]
            &&& !labels.contains_key("io.aw-gateway.mode"@) ==> {
                &&& status.mode == "fixed"@ <==> known && targets[status.target].0
                    == TargetMode::Fixed && targets[status.target].1 == Some(c.name@)
                &&& status.mode == "ephemeral"@ <==> known && targets[status.target].0
                    == TargetMode::Ephemeral && status.session_id is Some
                &&& status.mode == "fixed"@ || status.mode == "ephemeral"@ || status.mode
                    == "unknown"@
            }
        }),
{
    reveal_strlit("");
    reveal_strlit("fixed");
    reveal_strlit("ephemeral");
    reveal_strlit("unknown");
    assert("fixed"@.len() == 5 && "ephemeral"@.len() == 9 && "unknown"@.len() == 7);
}

} // verus!
