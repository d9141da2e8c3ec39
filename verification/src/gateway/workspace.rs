//! The workspace of a session: where it is, and when it is deleted.

use crate::config::WorkspaceCleanup;
use crate::failure::{either, outcome, plain, refusal, under, Chain, Failure};
use crate::gateway::container_spec::{optional_insert, Labels};
use crate::gateway::model::SessionOutcome;
use crate::gateway::state::Runtime;
use crate::paths::{resolve_workspace, workspace_path, UserContext};
use crate::text::{
    byte_len, cat2, cat3, contains, decimal, decimal_text, has_text, list_has, opt_str, quote,
    quoted,
};
use crate::gateway::ownership::prefixed_entries;
use crate::text_map::{finite_maps_are_listed, has_pair, listing, with_prefixed, TextMap};
use crate::unix_path::{components, components_of, entry_name, file_name, same_path};
use vstd::prelude::*;
use vstd::utf8::encode_utf8;

verus! {

// ---------------------------------------------------------------- when

/// Whether a policy deletes the workspace of a session that ended so. A session
/// that was canceled did not fail.
pub open spec fn deletes(policy: WorkspaceCleanup, outcome: SessionOutcome) -> bool {
    match policy {
        WorkspaceCleanup::Never => false,
        WorkspaceCleanup::Success => outcome != SessionOutcome::Failure,
        WorkspaceCleanup::Always => true,
    }
}

/// What is done after a session, one step at a time.
#[derive(Debug, Clone, Copy, PartialEq, Eq, Structural)]
pub enum CleanupStep {
    AcquireLock,
    ListSessions,
    RemoveWorkspace,
    Finished,
}

/// The step after the end of a session, where its workspace may be deleted.
pub open spec fn cleanup_begun(policy: WorkspaceCleanup, outcome: SessionOutcome) -> CleanupStep {
    if deletes(policy, outcome) {
        CleanupStep::AcquireLock
    } else {
        CleanupStep::Finished
    }
}

/// The step after the lock was asked for.
pub open spec fn cleanup_locked(acquired: bool) -> CleanupStep {
    if acquired {
        CleanupStep::ListSessions
    } else {
        CleanupStep::Finished
    }
}

/// The step after the sessions under way were counted.
pub open spec fn cleanup_counted(active: Option<usize>) -> CleanupStep {
    if active == Some(0usize) {
        CleanupStep::RemoveWorkspace
    } else {
        CleanupStep::Finished
    }
}

/// Whether cleaning up comes to deleting the workspace.
pub open spec fn cleanup_deletes(
    policy: WorkspaceCleanup,
    outcome: SessionOutcome,
    acquired: bool,
    active: Option<usize>,
) -> bool {
    &&& cleanup_begun(policy, outcome) is AcquireLock
    &&& cleanup_locked(acquired) is ListSessions
    &&& cleanup_counted(active) is RemoveWorkspace
}

/// A workspace is deleted after a session exactly where the policy says so, the
/// lock was had, and it is known that no session is under way. The policy says so
/// always, or never, or for every session that did not fail. No step is left out,
/// and what does not go on is finished.
pub proof fn workspaces_are_deleted_by_policy(
    policy: WorkspaceCleanup,
    outcome: SessionOutcome,
    acquired: bool,
    active: Option<usize>,
)
    ensures
        cleanup_deletes(policy, outcome, acquired, active) <==> acquired && active is Some
            && active->0 == 0 && (policy == WorkspaceCleanup::Always || policy
            == WorkspaceCleanup::Success && (outcome == SessionOutcome::Success || outcome
            == SessionOutcome::Canceled)),
        cleanup_begun(policy, outcome) is AcquireLock || cleanup_begun(policy, outcome) is Finished,
        cleanup_locked(acquired) is ListSessions || cleanup_locked(acquired) is Finished,
        cleanup_counted(active) is RemoveWorkspace || cleanup_counted(active) is Finished,
{
}

impl Runtime {
    /// Whether removing the container takes its workspace along.
    pub open spec fn removes_explicitly(self) -> bool {
        self.target.workspace_cleanup != WorkspaceCleanup::Never && self.identity.session_id is Some
    }

    pub fn should_cleanup_workspace(&self, outcome: SessionOutcome) -> (r: bool)
        ensures
            r == deletes(self.target.workspace_cleanup, outcome),
    {
        match self.target.workspace_cleanup {
            WorkspaceCleanup::Never => false,
            WorkspaceCleanup::Success => outcome != SessionOutcome::Failure,
            WorkspaceCleanup::Always => true,
        }
    }

    /// What follows the end of a session.
    pub fn begin_workspace_cleanup(&self, outcome: SessionOutcome) -> (r: CleanupStep)
        ensures
            r == cleanup_begun(self.target.workspace_cleanup, outcome),
    {
        if self.should_cleanup_workspace(outcome) {
            CleanupStep::AcquireLock
        } else {
            CleanupStep::Finished
        }
    }

    /// Whether removing a target explicitly deletes the workspace, too.
    pub fn removes_workspace_explicitly(&self) -> (r: bool)
        ensures
            r == self.removes_explicitly(),
    {
        match self.target.workspace_cleanup {
            WorkspaceCleanup::Never => false,
            _ => self.identity.session_id.is_some(),
        }
    }
}

/// Without the lock nothing is deleted.
pub fn after_cleanup_lock(acquired: bool) -> (r: CleanupStep)
    ensures
        r == cleanup_locked(acquired),
{
    if acquired {
        CleanupStep::ListSessions
    } else {
        CleanupStep::Finished
    }
}

/// While sessions are under way, or may be, nothing is deleted.
pub fn after_cleanup_sessions(active: Option<usize>) -> (r: CleanupStep)
    ensures
        r == cleanup_counted(active),
{
    match active {
        Some(n) => if n == 0 {
            CleanupStep::RemoveWorkspace
        } else {
            CleanupStep::Finished
        },
        None => CleanupStep::Finished,
    }
}

// ---------------------------------------------------------------- which

/// Whether a path has a component that means another directory.
pub open spec fn has_dots(path: Seq<char>) -> bool {
    components(path).contains("."@) || components(path).contains(".."@)
}

pub open spec fn leaf_of(path: Seq<char>) -> Seq<char> {
    match entry_name(path) {
        Some(name) => name,
        None => ""@,
    }
}

/// Why a workspace is not deleted: it must be a directory of the session alone,
/// recognisable by the session's id in its name.
pub open spec fn cleanup_fault(
    workspace: Seq<char>,
    home: Seq<char>,
    session_id: Seq<char>,
    configured: Option<Seq<char>>,
) -> Option<Chain> {
    if workspace.len() == 0 {
        Some(plain("workspace_cleanup resolved workspace must not be empty"@))
    } else if has_dots(workspace) {
        Some(
            plain(
                "workspace_cleanup path must not contain '.' or '..' components: "@ + workspace,
            ),
        )
    } else if components(workspace) == components("/"@) {
        Some(plain("workspace_cleanup refuses to delete /"@))
    } else if components(workspace) == components(home) {
        Some(plain("workspace_cleanup refuses to delete user home directory "@ + workspace))
    } else if encode_utf8(session_id).len() < 3 {
        Some(
            plain(
                "workspace_cleanup session_id "@ + quoted(session_id)
                    + " must be at least 3 characters"@,
            ),
        )
    } else if !has_text(leaf_of(workspace), session_id) {
        Some(
            plain(
                "workspace_cleanup path "@ + workspace + " leaf must contain session_id "@
                    + quoted(session_id),
            ),
        )
    } else if configured is Some && components(configured->0).contains("aw-gateway"@)
        && !components(workspace).contains("aw-gateway"@) {
        Some(
            plain(
                "workspace_cleanup path "@ + workspace
                    + " is outside the configured aw-gateway workspace root"@,
            ),
        )
    } else {
        None
    }
}

pub fn validate_workspace_cleanup_path(
    workspace: &str,
    home: &str,
    session_id: &str,
    configured_workspace: Option<&str>,
) -> (r: Result<(), Failure>)
    ensures
        refusal(r) == cleanup_fault(
            workspace@,
            home@,
            session_id@,
            opt_str(configured_workspace),
        ),
{
    if workspace.unicode_len() == 0 {
        return Err(Failure::msg("workspace_cleanup resolved workspace must not be empty"));
    }
    let parts = components_of(workspace);
    if list_has(&parts, ".") || list_has(&parts, "..") {
        return Err(
            Failure::msg(
                cat2(
                    "workspace_cleanup path must not contain '.' or '..' components: ",
                    workspace,
                ).as_str(),
            ),
        );
    }
    if same_path(workspace, "/") {
        return Err(Failure::msg("workspace_cleanup refuses to delete /"));
    }
    if same_path(workspace, home) {
        return Err(
            Failure::msg(
                cat2(
                    "workspace_cleanup refuses to delete user home directory ",
                    workspace,
                ).as_str(),
            ),
        );
    }
    if byte_len(session_id) < 3 {
        return Err(
            Failure::msg(
                cat3(
                    "workspace_cleanup session_id ",
                    quote(session_id).as_str(),
                    " must be at least 3 characters",
                ).as_str(),
            ),
        );
    }
    let leaf = match file_name(workspace) {
        Some(name) => name,
        None => "".to_owned(),
    };
    if !contains(leaf.as_str(), session_id) {
        let head = cat3(
            "workspace_cleanup path ",
            workspace,
            " leaf must contain session_id ",
        );
        return Err(Failure::msg(cat2(head.as_str(), quote(session_id).as_str()).as_str()));
    }
    if let Some(configured) = configured_workspace {
        if list_has(&components_of(configured), "aw-gateway") && !list_has(&parts, "aw-gateway") {
            return Err(
                Failure::msg(
                    cat3(
                        "workspace_cleanup path ",
                        workspace,
                        " is outside the configured aw-gateway workspace root",
                    ).as_str(),
                ),
            );
        }
    }
    Ok(())
}

proof fn contained_text_fits(s: Seq<char>, needle: Seq<char>)
    requires
        has_text(s, needle),
    ensures
        needle.len() <= s.len(),
{
}

/// What is deleted is never the root, never the home directory, and always has
/// a name of its own with the session's id in it.
pub proof fn deleted_workspaces_are_sessions_own(
    workspace: Seq<char>,
    home: Seq<char>,
    session_id: Seq<char>,
    configured: Option<Seq<char>>,
)
    requires
        cleanup_fault(workspace, home, session_id, configured) is None,
    ensures
        components(workspace) != components("/"@),
        components(workspace) != components(home),
        !has_dots(workspace),
        entry_name(workspace) matches Some(name) && has_text(name, session_id),
        session_id.len() > 0,
{
    assert(session_id.len() > 0) by {
        if session_id.len() == 0 {
            assert(encode_utf8(session_id).len() == 0) by {
                reveal_with_fuel(encode_utf8, 1);
            }
        }
    }
    contained_text_fits(leaf_of(workspace), session_id);
    reveal_strlit("");
}

// ---------------------------------------------------------------- deleting

/// What stands at the path of a workspace.
#[derive(Debug, Clone, PartialEq, Eq)]
pub enum WorkspaceEntry {
    Missing,
    Symlink,
    Directory,
    OtherFile,
    Unreadable(String),
}

pub open spec fn unreadable_fault(path: Seq<char>, said: Seq<char>) -> Chain {
    under("inspect workspace cleanup path "@ + path, plain(said))
}

impl Runtime {
    /// Why the workspace of this runtime may not be deleted. `configured` is the
    /// text that it was resolved from.
    pub open spec fn workspace_fault(self, configured: Seq<char>, entry: WorkspaceEntry) -> Option<
        Chain,
    > {
        let path = self.paths.workspace@;
        if self.target.workspace_cleanup == WorkspaceCleanup::Never {
            None
        } else {
            match self.identity.session_id {
                None => Some(plain("workspace_cleanup requires an ephemeral session id"@)),
                Some(id) => either(
                    cleanup_fault(path, self.identity.user.home@, id@, Some(configured)),
                    match entry {
                        WorkspaceEntry::Symlink => Some(
                            plain(
                                "workspace_cleanup path "@ + path + " must not be a symlink"@,
                            ),
                        ),
                        WorkspaceEntry::Unreadable(said) => Some(unreadable_fault(path, said@)),
                        _ => None,
                    },
                ),
            }
        }
    }

    pub fn check_workspace_cleanup(&self, configured: &str, entry: &WorkspaceEntry) -> (r: Result<
        (),
        Failure,
    >)
        ensures
            refusal(r) == self.workspace_fault(configured@, *entry),
    {
        match self.target.workspace_cleanup {
            WorkspaceCleanup::Never => return Ok(()),
            _ => {},
        }
        let path = self.paths.workspace.as_str();
        let session_id = match &self.identity.session_id {
            Some(id) => id.as_str(),
            None => return Err(
                Failure::msg("workspace_cleanup requires an ephemeral session id"),
            ),
        };
        if let Err(failure) = validate_workspace_cleanup_path(
            path,
            self.identity.user.home.as_str(),
            session_id,
            Some(configured),
        ) {
            return Err(failure);
        }
        match entry {
            WorkspaceEntry::Symlink => Err(
                Failure::msg(
                    cat3("workspace_cleanup path ", path, " must not be a symlink").as_str(),
                ),
            ),
            WorkspaceEntry::Unreadable(said) => Err(
                Failure::msg(said.as_str()).context(
                    cat2("inspect workspace cleanup path ", path).as_str(),
                ),
            ),
            _ => Ok(()),
        }
    }

    /// Whether there is a directory to delete, after a second look.
    pub open spec fn removal(
        self,
        configured: Seq<char>,
        first: WorkspaceEntry,
        second: WorkspaceEntry,
    ) -> Result<bool, Chain> {
        let path = self.paths.workspace@;
        match self.workspace_fault(configured, first) {
            Some(chain) => Err(chain),
            None => match second {
                WorkspaceEntry::Missing => Ok(false),
                WorkspaceEntry::Directory => Ok(true),
                WorkspaceEntry::Symlink => Err(
                    plain("workspace cleanup path "@ + path + " must not be a symlink"@),
                ),
                WorkspaceEntry::OtherFile => Err(
                    plain("workspace cleanup path "@ + path + " exists but is not a directory"@),
                ),
                WorkspaceEntry::Unreadable(said) => Err(unreadable_fault(path, said@)),
            },
        }
    }

    /// Whether there is a directory to delete. What stands at the path is looked
    /// at twice: before and after everything else was checked.
    pub fn remove_session_workspace(
        &self,
        configured: &str,
        first: &WorkspaceEntry,
        second: &WorkspaceEntry,
    ) -> (r: Result<bool, Failure>)
        ensures
            match self.removal(configured@, *first, *second) {
                Ok(delete) => r == Ok::<bool, Failure>(delete),
                Err(chain) => r matches Err(failure) && failure@ == chain,
            },
    {
        if let Err(failure) = self.check_workspace_cleanup(configured, first) {
            return Err(failure);
        }
        let path = self.paths.workspace.as_str();
        match second {
            WorkspaceEntry::Missing => Ok(false),
            WorkspaceEntry::Directory => Ok(true),
            WorkspaceEntry::Symlink => Err(
                Failure::msg(
                    cat3("workspace cleanup path ", path, " must not be a symlink").as_str(),
                ),
            ),
            WorkspaceEntry::OtherFile => Err(
                Failure::msg(
                    cat3("workspace cleanup path ", path, " exists but is not a directory").as_str(),
                ),
            ),
            WorkspaceEntry::Unreadable(said) => Err(
                Failure::msg(said.as_str()).context(
                    cat2("inspect workspace cleanup path ", path).as_str(),
                ),
            ),
        }
    }
}

/// A link is never followed: only a directory is deleted.
pub proof fn only_directories_are_deleted(
    runtime: Runtime,
    configured: Seq<char>,
    first: WorkspaceEntry,
    second: WorkspaceEntry,
)
    ensures
        runtime.removal(configured, first, second) == Ok::<bool, Chain>(true) ==> second is Directory
            && (runtime.target.workspace_cleanup != WorkspaceCleanup::Never ==> !(first is Symlink)),
{
}

/// A workspace may be deleted exactly when it is a directory other than the root
/// and the home, named plainly, whose own name holds a session id of some length,
/// and below the gateway's directory wherever it was configured below one.
pub proof fn workspaces_of_sessions_may_be_deleted(
    workspace: Seq<char>,
    home: Seq<char>,
    session_id: Seq<char>,
    configured: Option<Seq<char>>,
)
    ensures
        cleanup_fault(workspace, home, session_id, configured) is None <==> {
            &&& workspace.len() > 0
            &&& !components(workspace).contains("."@)
            &&& !components(workspace).contains(".."@)
            &&& components(workspace) != components("/"@)
            &&& components(workspace) != components(home)
            &&& encode_utf8(session_id).len() >= 3
            &&& has_text(
                if entry_name(workspace) is Some {
                    entry_name(workspace)->0
                } else {
                    Seq::empty()
                },
                session_id,
            )
            &&& configured matches Some(path) ==> components(path).contains("aw-gateway"@)
                ==> components(workspace).contains("aw-gateway"@)
        },
{
    reveal_strlit("");
    assert(""@ =~= Seq::<char>::empty());
}

/// There is something to delete exactly where a directory stands, and nothing
/// where nothing stands; a link, another file or what cannot be read is refused.
/// Where a policy deletes workspaces, the session, its workspace's path and the
/// first look must allow it too.
pub proof fn removals_look_twice(
    runtime: Runtime,
    configured: Seq<char>,
    first: WorkspaceEntry,
    second: WorkspaceEntry,
)
    ensures
        ({
            let r = runtime.removal(configured, first, second);
            let allowed = runtime.target.workspace_cleanup == WorkspaceCleanup::Never || {
                &&& runtime.identity.session_id is Some
                &&& cleanup_fault(
                    runtime.paths.workspace@,
                    runtime.identity.user.home@,
                    runtime.identity.session_id->0@,
                    Some(configured),
                ) is None
                &&& !(first is Symlink) && !(first is Unreadable)
            };
            &&& r == Ok::<bool, Chain>(true) <==> allowed && second is Directory
            &&& r == Ok::<bool, Chain>(false) <==> allowed && second is Missing
            &&& r is Err <==> !allowed || second is Symlink || second is OtherFile || second
                is Unreadable
        }),
{
}

// ---------------------------------------------------------------- where

/// What stands for what in the text of a workspace's path.
pub open spec fn workspace_vars_map(
    user: UserContext,
    target_name: Seq<char>,
    image: Seq<char>,
    image_slug: Seq<char>,
    session_id: Option<Seq<char>>,
    context: Labels,
) -> Labels {
    with_prefixed(
        optional_insert(
            Map::empty().insert("user"@, user.user@).insert(
                "uid"@,
                decimal(user.uid as nat),
            ).insert("gid"@, decimal(user.gid as nat)).insert("home"@, user.home@).insert(
                "target"@,
                target_name,
            ).insert("image"@, image).insert("image_slug"@, image_slug),
            "session_id"@,
            session_id,
        ),
        "context."@,
        listing(context),
    )
}

pub fn workspace_vars(
    user: &UserContext,
    target_name: &str,
    image: &str,
    image_slug: &str,
    session_id: Option<&str>,
    context: &TextMap<String>,
) -> (r: TextMap<String>)
    ensures
        r@ == workspace_vars_map(
            *user,
            target_name@,
            image@,
            image_slug@,
            opt_str(session_id),
            context@,
        ),
{
    let mut vars: TextMap<String> = TextMap::new();
    vars.insert("user".to_owned(), user.user.clone());
    vars.insert("uid".to_owned(), decimal_text(user.uid as u64));
    vars.insert("gid".to_owned(), decimal_text(user.gid as u64));
    vars.insert("home".to_owned(), user.home.clone());
    vars.insert("target".to_owned(), target_name.to_owned());
    vars.insert("image".to_owned(), image.to_owned());
    vars.insert("image_slug".to_owned(), image_slug.to_owned());
    if let Some(id) = session_id {
        vars.insert("session_id".to_owned(), id.to_owned());
    }
    vars.extend_prefixed("context.", context);
    vars
}

/// The workspace of a target, from the text of its path as it was filled in.
pub fn resolve_target_workspace(user: &UserContext, rendered: Result<String, Failure>) -> (r: Result<
    String,
    Failure,
>)
    ensures
        outcome(r) == match rendered {
            Ok(path) => Ok::<Seq<char>, Chain>(workspace_path(user.home@, path@)),
            Err(failure) => Err(failure@),
        },
{
    match rendered {
        Ok(path) => Ok(resolve_workspace(user.home.as_str(), path.as_str())),
        Err(failure) => Err(failure),
    }
}

/// The text of a workspace's path can mention the user, the target, its image,
/// every entry of the context, and the session where there is one.
pub proof fn workspace_variables_tell_of_the_target(
    user: UserContext,
    target_name: Seq<char>,
    image: Seq<char>,
    image_slug: Seq<char>,
    session_id: Option<Seq<char>>,
    context: Labels,
)
    requires
        context.dom().finite(),
    ensures
        ({
            let vars = workspace_vars_map(
                user,
                target_name,
                image,
                image_slug,
                session_id,
                context,
            );
            &&& vars.contains_pair("user"@, user.user@)
            &&& vars.contains_pair("uid"@, decimal(user.uid as nat))
            &&& vars.contains_pair("gid"@, decimal(user.gid as nat))
            &&& vars.contains_pair("home"@, user.home@)
            &&& vars.contains_pair("target"@, target_name)
            &&& vars.contains_pair("image"@, image)
            &&& vars.contains_pair("image_slug"@, image_slug)
            &&& vars.contains_key("session_id"@) <==> session_id is Some
            &&& session_id matches Some(id) ==> vars["session_id"@] == id
            &&& forall|key: Seq<char>| #[trigger]
                context.contains_key(key) ==> vars.contains_pair("context."@ + key, context[key])
        }),
{
    reveal_strlit("user");
    reveal_strlit("uid");
    reveal_strlit("gid");
    reveal_strlit("home");
    reveal_strlit("target");
    reveal_strlit("image");
    reveal_strlit("image_slug");
    reveal_strlit("session_id");
    reveal_strlit("context.");
    assert("user"@.len() == 4 && "user"@[0] == 'u');
    assert("uid"@.len() == 3 && "uid"@[0] == 'u');
    assert("gid"@.len() == 3 && "gid"@[0] == 'g');
    assert("home"@.len() == 4 && "home"@[0] == 'h');
    assert("target"@.len() == 6);
    assert("image"@.len() == 5);
    assert("image_slug"@.len() == 10 && "image_slug"@[0] == 'i');
    assert("session_id"@.len() == 10 && "session_id"@[0] == 's');
    let prefix = "context."@;
    assert(prefix.len() == 8 && prefix[0] == 'c');
    let pairs = listing(context);
    finite_maps_are_listed(context);
    assert forall|i: int, j: int| 0 <= i < j < pairs.len() implies pairs[i].0 != pairs[j].0 by {
        crate::text_map::precedes_irreflexive(pairs[i].0);
    }
    let first = optional_insert(
        Map::empty().insert("user"@, user.user@).insert("uid"@, decimal(user.uid as nat)).insert(
            "gid"@,
            decimal(user.gid as nat),
        ).insert("home"@, user.home@).insert("target"@, target_name).insert("image"@, image).insert(
            "image_slug"@,
            image_slug,
        ),
        "session_id"@,
        session_id,
    );
    prefixed_entries(first, prefix, pairs);
    let vars = with_prefixed(first, prefix, pairs);
    assert forall|key: Seq<char>| key.len() < 8 || key[0] != 'c' implies !#[trigger] prefix.is_prefix_of(
        key,
    ) by {
        if prefix.is_prefix_of(key) {
            assert(key[0] == prefix[0]);
        }
    }
    assert(vars.contains_key("user"@) && vars.contains_key("uid"@) && vars.contains_key("gid"@));
    assert(vars.contains_key("home"@) && vars.contains_key("target"@) && vars.contains_key(
        "image"@,
    ) && vars.contains_key("image_slug"@));
    assert(vars.contains_key("session_id"@) == first.contains_key("session_id"@));
    assert forall|key: Seq<char>| #[trigger] context.contains_key(key) implies vars.contains_pair(
        prefix + key,
        context[key],
    ) by {
        assert(has_pair(pairs, key, context[key]));
        let i = choose|i: int| 0 <= i < pairs.len() && #[trigger] pairs[i] == (key, context[key]);
        assert(vars.contains_key(prefix + pairs[i].0));
    }
}

/// Before a session, a workspace that a policy may delete is refused exactly where
/// it could not be deleted: without a session, at a path that may not be deleted,
/// or where a link or something unreadable stands. Without such a policy it is
/// not looked at. On removal it goes along exactly where there are both.
pub proof fn workspaces_are_checked_where_a_policy_deletes(
    runtime: Runtime,
    configured: Seq<char>,
    entry: WorkspaceEntry,
)
    ensures
        runtime.workspace_fault(configured, entry) is None <==> runtime.target.workspace_cleanup
            == WorkspaceCleanup::Never || {
            &&& runtime.identity.session_id matches Some(id) && cleanup_fault(
                runtime.paths.workspace@,
                runtime.identity.user.home@,
                id@,
                Some(configured),
            ) is None
            &&& !(entry is Symlink) && !(entry is Unreadable)
        },
        runtime.removes_explicitly() <==> runtime.identity.session_id is Some && (
        runtime.target.workspace_cleanup == WorkspaceCleanup::Always
            || runtime.target.workspace_cleanup == WorkspaceCleanup::Success),
{
}

} // verus!
