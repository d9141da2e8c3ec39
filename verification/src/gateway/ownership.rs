//! A container belongs to the runtime that made it.

use crate::gateway::container_spec::{
    stored_context, Labels, CONTEXT_LABEL_PREFIX, WORKSPACE_SOURCE_LABEL,
    WORKSPACE_STATE_CONTAINER_LABEL, WORKSPACE_STATE_HOST_LABEL, WORKSPACE_TARGET_LABEL,
};
use crate::gateway::host_socket_exposures::HOST_SOCKET_EXPOSURE_MANIFEST_LABEL;
use crate::gateway::state::Runtime;
use crate::config::{TargetAccessMethod, TargetMode};
use crate::runtime::{includes, labels_accepted_iff_included};
use crate::text_map::{
    finite_maps_are_listed, has_pair, listing, lists, with_prefixed,
};
use crate::unix_path::{components, joined_path};
use vstd::prelude::*;

verus! {

/// What prefixed entries add to a map.
pub(crate) proof fn prefixed_entries(base: Labels, prefix: Seq<char>, pairs: Seq<(Seq<char>, Seq<char>)>)
    requires
        base.dom().finite(),
        forall|i: int, j: int| 0 <= i < j < pairs.len() ==> pairs[i].0 != pairs[j].0,
    ensures
        ({
            let m = with_prefixed(base, prefix, pairs);
            &&& m.dom().finite()
            &&& forall|i: int|
                0 <= i < pairs.len() ==> m.contains_key(prefix + (#[trigger] pairs[i]).0) && m[prefix
                    + pairs[i].0] == pairs[i].1
            &&& forall|key: Seq<char>| #[trigger]
                m.contains_key(key) ==> base.contains_key(key) || exists|i: int|
                    0 <= i < pairs.len() && key == prefix + (#[trigger] pairs[i]).0
            &&& forall|key: Seq<char>|
                !prefix.is_prefix_of(key) ==> (#[trigger] m.contains_key(key) == base.contains_key(
                    key,
                )) && m[key] == base[key]
        }),
    decreases pairs.len(),
{
    let m = with_prefixed(base, prefix, pairs);
    if pairs.len() > 0 {
        let front = pairs.drop_last();
        assert forall|i: int, j: int| 0 <= i < j < front.len() implies front[i].0 != front[j].0 by {
            assert(pairs[i].0 != pairs[j].0);
        }
        prefixed_entries(base, prefix, front);
        let before = with_prefixed(base, prefix, front);
        let last = pairs.last();
        let k = prefix + last.0;
        assert(m == before.insert(k, last.1));
        assert forall|i: int| 0 <= i < pairs.len() implies m.contains_key(
            prefix + (#[trigger] pairs[i]).0,
        ) && m[prefix + pairs[i].0] == pairs[i].1 by {
            if i < front.len() {
                assert(front[i] == pairs[i]);
                let other = prefix + pairs[i].0;
                if other == k {
                    assert(other.skip(prefix.len() as int) =~= pairs[i].0);
                    assert(k.skip(prefix.len() as int) =~= last.0);
                    assert(pairs[i].0 != pairs[pairs.len() - 1].0);
                }
            }
        }
        assert forall|key: Seq<char>| #[trigger] m.contains_key(key) implies base.contains_key(key)
            || exists|i: int| 0 <= i < pairs.len() && key == prefix + (#[trigger] pairs[i]).0 by {
            if key == k {
                assert(key == prefix + pairs[pairs.len() - 1].0);
            } else if !base.contains_key(key) {
                let i = choose|i: int|
                    0 <= i < front.len() && key == prefix + (#[trigger] front[i]).0;
                assert(front[i] == pairs[i]);
            }
        }
        assert forall|key: Seq<char>| !prefix.is_prefix_of(key) implies (#[trigger] m.contains_key(
            key,
        ) == base.contains_key(key)) && m[key] == base[key] by {
            if key == k {
                assert(prefix =~= k.subrange(0, prefix.len() as int));
            }
        }
    }
}

/// A label that says nothing of what a container is recognised by.
spec fn is_extra(runtime: Runtime, key: Seq<char>) -> bool {
    !CONTEXT_LABEL_PREFIX@.is_prefix_of(key) && !runtime.stable_labels().contains_key(key)
}

/// Labels by which a container is recognised as this runtime's.
spec fn recognised(runtime: Runtime, labels: Labels) -> bool {
    includes(labels, runtime.stable_labels()) && stored_context(labels) == runtime.context@
}

proof fn extra_labels_do_no_harm(
    runtime: Runtime,
    labels: Labels,
    key: Seq<char>,
    value: Seq<char>,
)
    requires
        recognised(runtime, labels),
        is_extra(runtime, key),
    ensures
        recognised(runtime, labels.insert(key, value)),
{
    let now = labels.insert(key, value);
    let prefix = CONTEXT_LABEL_PREFIX@;
    assert forall|k: Seq<char>| now.contains_key(prefix + k) == #[trigger] labels.contains_key(
        prefix + k,
    ) && now[prefix + k] == labels[prefix + k] by {
        assert(prefix =~= (prefix + k).subrange(0, prefix.len() as int));
        assert(prefix.is_prefix_of(prefix + k));
    }
    assert(stored_context(now) =~= stored_context(labels));
}

/// The labels that a container is recognised by are its owner's and those of its
/// context, and no label is both.
proof fn stable_labels_taken_apart(runtime: Runtime)
    requires
        lists(listing(runtime.context@), runtime.context@),
    ensures
        ({
            let prefix = CONTEXT_LABEL_PREFIX@;
            let pairs = listing(runtime.context@);
            let stable = runtime.stable_labels();
            &&& stable.dom().finite()
            &&& forall|i: int|
                0 <= i < pairs.len() ==> stable.contains_key(prefix + (#[trigger] pairs[i]).0)
                    && stable[prefix + pairs[i].0] == pairs[i].1
            &&& forall|key: Seq<char>| #[trigger]
                stable.contains_key(key) ==> runtime.owner_labels().contains_key(key) || exists|
                    i: int,
                |
                    0 <= i < pairs.len() && key == prefix + (#[trigger] pairs[i]).0
            &&& forall|key: Seq<char>|
                !prefix.is_prefix_of(key) ==> (#[trigger] stable.contains_key(key)
                    == runtime.owner_labels().contains_key(key)) && stable[key]
                    == runtime.owner_labels()[key]
            &&& forall|key: Seq<char>| #[trigger]
                runtime.owner_labels().contains_key(key) ==> !prefix.is_prefix_of(key)
        }),
{
    reveal_strlit("io.aw-gateway.gateway");
    reveal_strlit("io.aw-gateway.user");
    reveal_strlit("io.aw-gateway.uid");
    reveal_strlit("io.aw-gateway.target");
    reveal_strlit("io.aw-gateway.container_id");
    reveal_strlit("io.aw-gateway.context.");
    let prefix = CONTEXT_LABEL_PREFIX@;
    let owner = runtime.owner_labels();
    let pairs = listing(runtime.context@);
    assert forall|i: int, j: int| 0 <= i < j < pairs.len() implies pairs[i].0 != pairs[j].0 by {
        crate::text_map::precedes_irreflexive(pairs[i].0);
    }
    prefixed_entries(owner, prefix, pairs);
    assert forall|key: Seq<char>| #[trigger] owner.contains_key(key) implies !prefix.is_prefix_of(
        key,
    ) by {
        assert(prefix[14] == 'c' && prefix[18] == 'e');
        if prefix.is_prefix_of(key) {
            assert(key[14] == prefix[14] && key[18] == prefix[18]);
        }
    }
}

/// What the labels that a container is recognised by say of its context, and
/// which labels are not among them.
proof fn stable_labels_are_known(runtime: Runtime)
    requires
        lists(listing(runtime.context@), runtime.context@),
    ensures
        runtime.stable_labels().dom().finite(),
        stored_context(runtime.stable_labels()) == runtime.context@,
        forall|key: Seq<char>|
            !CONTEXT_LABEL_PREFIX@.is_prefix_of(key) && key.len() > 14 && key[14] != 'g' && key[14]
                != 'u' && key[14] != 't' && key[14] != 'c'
                ==> !#[trigger] runtime.stable_labels().contains_key(key),
{
    stable_labels_taken_apart(runtime);
    reveal_strlit("io.aw-gateway.gateway");
    reveal_strlit("io.aw-gateway.user");
    reveal_strlit("io.aw-gateway.uid");
    reveal_strlit("io.aw-gateway.target");
    reveal_strlit("io.aw-gateway.container_id");
    let prefix = CONTEXT_LABEL_PREFIX@;
    let base = runtime.owner_labels();
    let pairs = listing(runtime.context@);
    let stable = runtime.stable_labels();
    let s = stored_context(stable);
    assert forall|key: Seq<char>| #[trigger] s.contains_key(key)
        == runtime.context@.contains_key(key) by {
        let label = prefix + key;
        assert(prefix =~= label.subrange(0, prefix.len() as int));
        if s.contains_key(key) {
            assert(stable.contains_key(label));
            assert(!base.contains_key(label));
            let i = choose|i: int|
                0 <= i < pairs.len() && label == prefix + (#[trigger] pairs[i]).0;
            assert((prefix + pairs[i].0).skip(prefix.len() as int) =~= pairs[i].0);
            assert(label.skip(prefix.len() as int) =~= key);
            assert(runtime.context@.contains_key(pairs[i].0));
        }
        if runtime.context@.contains_key(key) {
            assert(has_pair(pairs, key, runtime.context@[key]));
            let i = choose|i: int|
                0 <= i < pairs.len() && #[trigger] pairs[i] == (key, runtime.context@[key]);
            assert(stable.contains_key(prefix + pairs[i].0));
        }
    }
    assert forall|key: Seq<char>| #[trigger] runtime.context@.contains_key(key) implies s[key]
        == runtime.context@[key] by {
        assert(has_pair(pairs, key, runtime.context@[key]));
        let i = choose|i: int|
            0 <= i < pairs.len() && #[trigger] pairs[i] == (key, runtime.context@[key]);
        assert(stable[prefix + pairs[i].0] == pairs[i].1);
    }
    assert(s.dom() =~= runtime.context@.dom());
    assert(s =~= runtime.context@);
}

/// The labels that a container is recognised by name its owner.
proof fn stable_labels_name_the_owner(runtime: Runtime)
    requires
        lists(listing(runtime.context@), runtime.context@),
    ensures
        includes(runtime.stable_labels(), runtime.owner_labels()),
{
    stable_labels_taken_apart(runtime);
}

/// The owner's labels are five different ones.
proof fn owner_labels_are_apart(runtime: Runtime)
    ensures
        ({
            let owner = runtime.owner_labels();
            &&& owner.contains_pair("io.aw-gateway.gateway"@, "true"@)
            &&& owner.contains_pair("io.aw-gateway.user"@, runtime.identity.user.user@)
            &&& owner.contains_pair(
                "io.aw-gateway.uid"@,
                crate::text::decimal(runtime.identity.user.uid as nat),
            )
            &&& owner.contains_pair("io.aw-gateway.target"@, runtime.identity.target_name@)
            &&& owner.contains_pair(
                "io.aw-gateway.container_id"@,
                runtime.identity.container_name@,
            )
        }),
{
    reveal_strlit("io.aw-gateway.gateway");
    reveal_strlit("io.aw-gateway.user");
    reveal_strlit("io.aw-gateway.uid");
    reveal_strlit("io.aw-gateway.target");
    reveal_strlit("io.aw-gateway.container_id");
    assert("io.aw-gateway.gateway"@.len() == 21 && "io.aw-gateway.user"@.len() == 18
        && "io.aw-gateway.uid"@.len() == 17 && "io.aw-gateway.target"@.len() == 20
        && "io.aw-gateway.container_id"@.len() == 26);
}

/// The other labels are extra ones.
proof fn other_labels_are_extra(runtime: Runtime)
    requires
        lists(listing(runtime.context@), runtime.context@),
    ensures
        is_extra(runtime, "io.aw-gateway.image"@),
        is_extra(runtime, "io.aw-gateway.access"@),
        is_extra(runtime, "io.aw-gateway.mode"@),
        is_extra(runtime, "io.aw-gateway.session_id"@),
        is_extra(runtime, "io.aw-gateway.launch"@),
        is_extra(runtime, WORKSPACE_SOURCE_LABEL@),
        is_extra(runtime, WORKSPACE_TARGET_LABEL@),
        is_extra(runtime, WORKSPACE_STATE_HOST_LABEL@),
        is_extra(runtime, WORKSPACE_STATE_CONTAINER_LABEL@),
        is_extra(runtime, HOST_SOCKET_EXPOSURE_MANIFEST_LABEL@),
{
    stable_labels_are_known(runtime);
    reveal_strlit("io.aw-gateway.context.");
    reveal_strlit("io.aw-gateway.image");
    reveal_strlit("io.aw-gateway.access");
    reveal_strlit("io.aw-gateway.mode");
    reveal_strlit("io.aw-gateway.session_id");
    reveal_strlit("io.aw-gateway.launch");
    reveal_strlit("io.aw-gateway.workspace.source");
    reveal_strlit("io.aw-gateway.workspace.target");
    reveal_strlit("io.aw-gateway.workspace.state_host");
    reveal_strlit("io.aw-gateway.workspace.state_container");
    reveal_strlit("io.aw-gateway.host-socket-exposures.v1");
    let prefix = CONTEXT_LABEL_PREFIX@;
    assert(prefix[14] == 'c');
    assert forall|key: Seq<char>| key.len() > 14 && #[trigger] key[14] != 'c' implies !prefix.is_prefix_of(
        key,
    ) by {
        if prefix.is_prefix_of(key) {
            assert(key[14] == prefix[14]);
        }
    }
}

/// A container that is started with this runtime's labels is accepted by it.
pub proof fn own_containers_are_accepted(runtime: Runtime, manifest: Option<Seq<char>>)
    requires
        runtime.context@.dom().finite(),
    ensures
        runtime.label_refusal(runtime.all_labels(manifest)) is None,
{
    finite_maps_are_listed(runtime.context@);
    stable_labels_are_known(runtime);
    other_labels_are_extra(runtime);
    let stable = runtime.stable_labels();
    let all = runtime.all_labels(manifest);
    assert(recognised(runtime, stable));
    let a = stable.insert("io.aw-gateway.image"@, runtime.target.image@);
    extra_labels_do_no_harm(runtime, stable, "io.aw-gateway.image"@, runtime.target.image@);
    let access = runtime.target.access_method.name();
    let b = a.insert("io.aw-gateway.access"@, access);
    extra_labels_do_no_harm(runtime, a, "io.aw-gateway.access"@, access);
    let mode = crate::gateway::container_spec::mode_name(runtime.target.mode);
    let c = b.insert("io.aw-gateway.mode"@, mode);
    extra_labels_do_no_harm(runtime, b, "io.aw-gateway.mode"@, mode);
    let source = runtime.paths.workspace@;
    let target = runtime.paths.workspace_container_path@;
    let host = runtime.paths.workspace_state_dir@;
    let inside = runtime.paths.workspace_state_dir_in_container@;
    let d = c.insert(WORKSPACE_SOURCE_LABEL@, source);
    extra_labels_do_no_harm(runtime, c, WORKSPACE_SOURCE_LABEL@, source);
    let e = d.insert(WORKSPACE_TARGET_LABEL@, target);
    extra_labels_do_no_harm(runtime, d, WORKSPACE_TARGET_LABEL@, target);
    let f = e.insert(WORKSPACE_STATE_HOST_LABEL@, host);
    extra_labels_do_no_harm(runtime, e, WORKSPACE_STATE_HOST_LABEL@, host);
    let g = f.insert(WORKSPACE_STATE_CONTAINER_LABEL@, inside);
    extra_labels_do_no_harm(runtime, f, WORKSPACE_STATE_CONTAINER_LABEL@, inside);
    let layout = runtime.layout_labels();
    assert(c.union_prefer_right(layout) =~= g);
    let with_session = match runtime.identity.session_id {
        Some(id) => g.insert("io.aw-gateway.session_id"@, id@),
        None => g,
    };
    if let Some(id) = runtime.identity.session_id {
        extra_labels_do_no_harm(runtime, g, "io.aw-gateway.session_id"@, id@);
    }
    let with_launch = match runtime.identity.launch_name {
        Some(name) if runtime.target.mode == TargetMode::Ephemeral => with_session.insert(
            "io.aw-gateway.launch"@,
            name@,
        ),
        _ => with_session,
    };
    if let Some(name) = runtime.identity.launch_name {
        extra_labels_do_no_harm(runtime, with_session, "io.aw-gateway.launch"@, name@);
    }
    if let Some(text) = manifest {
        extra_labels_do_no_harm(
            runtime,
            with_launch,
            HOST_SOCKET_EXPOSURE_MANIFEST_LABEL@,
            text,
        );
    }
    assert(recognised(runtime, all));
    finite_maps_are_listed(stable);
    labels_accepted_iff_included(stable, all);
    assert(runtime.stable_fault(all) is None);
    later_labels_stay(runtime, manifest);
    assert(layout.dom().finite());
    finite_maps_are_listed(layout);
    labels_accepted_iff_included(layout, all);
}

/// Labels that a gateway wrote for this user, this target and this context, under
/// this container's name.
pub open spec fn names_owner(runtime: Runtime, labels: Labels) -> bool {
    &&& labels.contains_pair("io.aw-gateway.gateway"@, "true"@)
    &&& labels.contains_pair("io.aw-gateway.user"@, runtime.identity.user.user@)
    &&& labels.contains_pair(
        "io.aw-gateway.uid"@,
        crate::text::decimal(runtime.identity.user.uid as nat),
    )
    &&& labels.contains_pair("io.aw-gateway.target"@, runtime.identity.target_name@)
    &&& labels.contains_pair("io.aw-gateway.container_id"@, runtime.identity.container_name@)
    &&& stored_context(labels) == runtime.context@
}

/// A container that is accepted was made by a gateway for this user, this target
/// and this context, under this name.
pub proof fn accepted_containers_are_ones_own(runtime: Runtime, labels: Labels)
    requires
        runtime.context@.dom().finite(),
        runtime.label_refusal(labels) is None,
    ensures
        names_owner(runtime, labels),
{
    finite_maps_are_listed(runtime.context@);
    stable_labels_are_known(runtime);
    stable_labels_name_the_owner(runtime);
    owner_labels_are_apart(runtime);
    labels_accepted_iff_included(runtime.stable_labels(), labels);
}

/// What is written after the way in and the layout leaves them as they are.
proof fn later_labels_stay(runtime: Runtime, manifest: Option<Seq<char>>)
    ensures
        ({
            let all = runtime.all_labels(manifest);
            &&& all.contains_key("io.aw-gateway.access"@)
            &&& all["io.aw-gateway.access"@] == runtime.target.access_method.name()
            &&& includes(all, runtime.layout_labels())
        }),
{
    reveal_strlit("io.aw-gateway.access");
    reveal_strlit("io.aw-gateway.mode");
    reveal_strlit("io.aw-gateway.session_id");
    reveal_strlit("io.aw-gateway.launch");
    reveal_strlit("io.aw-gateway.workspace.source");
    reveal_strlit("io.aw-gateway.workspace.target");
    reveal_strlit("io.aw-gateway.workspace.state_host");
    reveal_strlit("io.aw-gateway.workspace.state_container");
    reveal_strlit("io.aw-gateway.host-socket-exposures.v1");
    let access = "io.aw-gateway.access"@;
    assert(access[14] == 'a');
    assert("io.aw-gateway.mode"@[14] == 'm');
    assert("io.aw-gateway.session_id"@[14] == 's');
    assert("io.aw-gateway.launch"@[14] == 'l');
    assert(WORKSPACE_SOURCE_LABEL@[14] == 'w');
    assert(WORKSPACE_TARGET_LABEL@[14] == 'w');
    assert(WORKSPACE_STATE_HOST_LABEL@[14] == 'w');
    assert(WORKSPACE_STATE_CONTAINER_LABEL@[14] == 'w');
    assert(HOST_SOCKET_EXPOSURE_MANIFEST_LABEL@[14] == 'h');
    let layout = runtime.layout_labels();
    assert(forall|key: Seq<char>| #[trigger] layout.contains_key(key) ==> key[14] == 'w');
}

/// A container records a launch only where it is made for one session: others
/// are used by many launches.
pub proof fn launches_are_recorded_for_ephemeral_targets(
    runtime: Runtime,
    manifest: Option<Seq<char>>,
)
    requires
        runtime.context@.dom().finite(),
    ensures
        runtime.all_labels(manifest).contains_key("io.aw-gateway.launch"@) <==> runtime.target.mode
            == TargetMode::Ephemeral && runtime.identity.launch_name is Some,
{
    finite_maps_are_listed(runtime.context@);
    other_labels_are_extra(runtime);
    reveal_strlit("io.aw-gateway.image");
    reveal_strlit("io.aw-gateway.access");
    reveal_strlit("io.aw-gateway.mode");
    reveal_strlit("io.aw-gateway.session_id");
    reveal_strlit("io.aw-gateway.launch");
    reveal_strlit("io.aw-gateway.workspace.source");
    reveal_strlit("io.aw-gateway.workspace.target");
    reveal_strlit("io.aw-gateway.workspace.state_host");
    reveal_strlit("io.aw-gateway.workspace.state_container");
    reveal_strlit("io.aw-gateway.host-socket-exposures.v1");
    assert("io.aw-gateway.image"@[14] == 'i');
    assert("io.aw-gateway.access"@[14] == 'a');
    assert("io.aw-gateway.mode"@[14] == 'm');
    assert("io.aw-gateway.session_id"@[14] == 's');
    assert("io.aw-gateway.launch"@[14] == 'l');
    assert(WORKSPACE_SOURCE_LABEL@[14] == 'w');
    assert(WORKSPACE_TARGET_LABEL@[14] == 'w');
    assert(WORKSPACE_STATE_HOST_LABEL@[14] == 'w');
    assert(WORKSPACE_STATE_CONTAINER_LABEL@[14] == 'w');
    assert(HOST_SOCKET_EXPOSURE_MANIFEST_LABEL@[14] == 'h');
}

/// What a new container is labelled with: its owner, its image, how it is
/// entered, how long it stays, how its workspace is mounted, and its session, its
/// launch and its sockets where it has them.
pub proof fn new_containers_are_labelled(runtime: Runtime, manifest: Option<Seq<char>>)
    requires
        runtime.context@.dom().finite(),
    ensures
        ({
            let all = runtime.all_labels(manifest);
            &&& names_owner(runtime, all)
            &&& all.contains_pair("io.aw-gateway.image"@, runtime.target.image@)
            &&& all.contains_pair(
                "io.aw-gateway.access"@,
                match runtime.target.access_method {
                    TargetAccessMethod::Ssh => "ssh"@,
                    TargetAccessMethod::RuntimeExec => "runtime_exec"@,
                },
            )
            &&& runtime.target.mode == TargetMode::Fixed ==> all.contains_pair(
                "io.aw-gateway.mode"@,
                "fixed"@,
            )
            &&& runtime.target.mode == TargetMode::Ephemeral ==> all.contains_pair(
                "io.aw-gateway.mode"@,
                "ephemeral"@,
            )
            &&& laid_out_as(runtime, all)
            &&& runtime.identity.session_id matches Some(id) ==> all.contains_pair(
                "io.aw-gateway.session_id"@,
                id@,
            )
            &&& runtime.identity.session_id is None ==> !all.contains_key(
                "io.aw-gateway.session_id"@,
            )
            &&& runtime.target.mode == TargetMode::Ephemeral
                ==> (runtime.identity.launch_name matches Some(name) ==> all.contains_pair(
                "io.aw-gateway.launch"@,
                name@,
            ))
            &&& manifest matches Some(text) ==> all.contains_pair(
                "io.aw-gateway.host-socket-exposures.v1"@,
                text,
            )
            &&& manifest is None ==> !all.contains_key("io.aw-gateway.host-socket-exposures.v1"@)
        }),
{
    own_containers_are_accepted(runtime, manifest);
    accepted_containers_are_ones_own(runtime, runtime.all_labels(manifest));
    finite_maps_are_listed(runtime.context@);
    other_labels_are_extra(runtime);
    later_labels_stay(runtime, manifest);
    layout_labels_are_apart(runtime);
    reveal_strlit("io.aw-gateway.image");
    reveal_strlit("io.aw-gateway.access");
    reveal_strlit("io.aw-gateway.mode");
    reveal_strlit("io.aw-gateway.session_id");
    reveal_strlit("io.aw-gateway.launch");
    reveal_strlit("io.aw-gateway.workspace.source");
    reveal_strlit("io.aw-gateway.workspace.target");
    reveal_strlit("io.aw-gateway.workspace.state_host");
    reveal_strlit("io.aw-gateway.workspace.state_container");
    reveal_strlit("io.aw-gateway.host-socket-exposures.v1");
    assert("io.aw-gateway.image"@[14] == 'i');
    assert("io.aw-gateway.access"@[14] == 'a');
    assert("io.aw-gateway.mode"@[14] == 'm');
    assert("io.aw-gateway.session_id"@[14] == 's');
    assert("io.aw-gateway.launch"@[14] == 'l');
    assert(WORKSPACE_SOURCE_LABEL@[14] == 'w');
    assert(WORKSPACE_TARGET_LABEL@[14] == 'w');
    assert(WORKSPACE_STATE_HOST_LABEL@[14] == 'w');
    assert(WORKSPACE_STATE_CONTAINER_LABEL@[14] == 'w');
    assert(HOST_SOCKET_EXPOSURE_MANIFEST_LABEL@[14] == 'h');
}

/// Labels that say that the workspace is mounted where this runtime mounts it.
pub open spec fn laid_out_as(runtime: Runtime, labels: Labels) -> bool {
    &&& labels.contains_pair("io.aw-gateway.workspace.source"@, runtime.paths.workspace@)
    &&& labels.contains_pair(
        "io.aw-gateway.workspace.target"@,
        runtime.paths.workspace_container_path@,
    )
    &&& labels.contains_pair(
        "io.aw-gateway.workspace.state_host"@,
        runtime.paths.workspace_state_dir@,
    )
    &&& labels.contains_pair(
        "io.aw-gateway.workspace.state_container"@,
        runtime.paths.workspace_state_dir_in_container@,
    )
}

/// Labels that say nothing of where the workspace is mounted.
pub open spec fn leaves_layout_open(labels: Labels) -> bool {
    &&& !labels.contains_key("io.aw-gateway.workspace.source"@)
    &&& !labels.contains_key("io.aw-gateway.workspace.target"@)
    &&& !labels.contains_key("io.aw-gateway.workspace.state_host"@)
    &&& !labels.contains_key("io.aw-gateway.workspace.state_container"@)
}

proof fn layout_labels_are_apart(runtime: Runtime)
    ensures
        laid_out_as(runtime, runtime.layout_labels()),
        forall|labels: Labels|
            includes(labels, runtime.layout_labels()) <==> #[trigger] laid_out_as(runtime, labels),
{
    reveal_strlit("io.aw-gateway.workspace.source");
    reveal_strlit("io.aw-gateway.workspace.target");
    reveal_strlit("io.aw-gateway.workspace.state_host");
    reveal_strlit("io.aw-gateway.workspace.state_container");
    assert(WORKSPACE_SOURCE_LABEL@[24] == 's' && WORKSPACE_TARGET_LABEL@[24] == 't');
    assert(WORKSPACE_SOURCE_LABEL@.len() == 30 && WORKSPACE_TARGET_LABEL@.len() == 30);
    assert(WORKSPACE_STATE_HOST_LABEL@.len() == 34);
    assert(WORKSPACE_STATE_CONTAINER_LABEL@.len() == 39);
    let layout = runtime.layout_labels();
    assert forall|labels: Labels| includes(labels, layout) <==> #[trigger] laid_out_as(
        runtime,
        labels,
    ) by {
        if includes(labels, layout) {
            assert(layout.contains_key(WORKSPACE_SOURCE_LABEL@));
            assert(layout.contains_key(WORKSPACE_TARGET_LABEL@));
            assert(layout.contains_key(WORKSPACE_STATE_HOST_LABEL@));
            assert(layout.contains_key(WORKSPACE_STATE_CONTAINER_LABEL@));
        }
    }
}

/// A container is used exactly when it is one's own, is entered as the target is
/// entered now, and has its workspace where the target has it now. One that does
/// not say how it is entered is entered by SSH. One that does not say where its
/// workspace is has it in its home.
pub proof fn containers_are_used_when_they_fit(runtime: Runtime, labels: Labels)
    requires
        runtime.context@.dom().finite(),
    ensures
        runtime.label_refusal(labels) is None <==> {
            &&& names_owner(runtime, labels)
            &&& if labels.contains_key("io.aw-gateway.access"@) {
                labels["io.aw-gateway.access"@] == match runtime.target.access_method {
                    TargetAccessMethod::Ssh => "ssh"@,
                    TargetAccessMethod::RuntimeExec => "runtime_exec"@,
                }
            } else {
                runtime.target.access_method == TargetAccessMethod::Ssh
            }
            &&& laid_out_as(runtime, labels) || leaves_layout_open(labels) && components(
                runtime.paths.workspace_container_path@,
            ) == components(runtime.identity.container_home@) && components(
                runtime.paths.workspace_state_dir_in_container@,
            ) == components(joined_path(runtime.identity.container_home@, ".aw-gateway"@))
        },
{
    finite_maps_are_listed(runtime.context@);
    stable_labels_are_known(runtime);
    stable_labels_name_the_owner(runtime);
    stable_labels_taken_apart(runtime);
    owner_labels_are_apart(runtime);
    labels_accepted_iff_included(runtime.stable_labels(), labels);
    let layout = runtime.layout_labels();
    assert(layout.dom().finite());
    finite_maps_are_listed(layout);
    labels_accepted_iff_included(layout, labels);
    layout_labels_are_apart(runtime);
    let prefix = CONTEXT_LABEL_PREFIX@;
    let pairs = listing(runtime.context@);
    let stable = runtime.stable_labels();
    if names_owner(runtime, labels) {
        assert forall|key: Seq<char>| #[trigger] stable.contains_key(key) implies labels.contains_key(
            key,
        ) && labels[key] == stable[key] by {
            if runtime.owner_labels().contains_key(key) {
                assert(!prefix.is_prefix_of(key));
            } else {
                let i = choose|i: int|
                    0 <= i < pairs.len() && key == prefix + (#[trigger] pairs[i]).0;
                assert(runtime.context@.contains_key(pairs[i].0));
                assert(stored_context(labels).contains_key(pairs[i].0));
            }
        }
        assert(includes(labels, stable));
    }
}

} // verus!
