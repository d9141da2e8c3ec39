//! Choosing targets, installing keys and configuring clients.

use crate::config::LocalSshMode;
use crate::failure::{outcome, plain, under, Chain, Failure};
use crate::gateway::container_spec::Labels;
use crate::gateway::state::Runtime;
use crate::text::{
    byte_len, cat2, cat3, cat4, cat5, decimal, decimal_text, join, joined, opt_str, quote, quoted,
    same, strip_prefix, strip_suffix, texts, trim, trimmed,
};
use crate::text_map::{listing, TextMap};
use crate::unix_path;
use crate::unix_path::joined_path;
use vstd::prelude::*;
use vstd::utf8::encode_utf8;

verus! {

pub const MAX_PUBLIC_KEY_BYTES: usize = 16384;

// ---------------------------------------------------------------- selections

/// An image without what may be left out of its name.
pub open spec fn normalized_image(value: Seq<char>) -> Seq<char> {
    let name = trimmed(value);
    let local = if "localhost/"@.is_prefix_of(name) {
        name.skip("localhost/"@.len() as int)
    } else {
        name
    };
    if ":latest"@.is_suffix_of(local) {
        local.take(local.len() - ":latest"@.len())
    } else {
        local
    }
}

pub fn normalize_image_selection(value: &str) -> (r: String)
    ensures
        r@ == normalized_image(value@),
{
    let name = trim(value);
    let local = match strip_prefix(name, "localhost/") {
        Some(rest) => rest,
        None => name,
    };
    match strip_suffix(local, ":latest") {
        Some(rest) => rest.to_owned(),
        None => local.to_owned(),
    }
}

/// The targets whose image has a normalized name, in their order. Targets are
/// given with their images.
pub open spec fn with_image(
    targets: Seq<(Seq<char>, Seq<char>)>,
    image: Seq<char>,
) -> Seq<Seq<char>>
    decreases targets.len(),
{
    if targets.len() == 0 {
        Seq::empty()
    } else {
        let before = with_image(targets.drop_last(), image);
        if normalized_image(targets.last().1) == image {
            before.push(targets.last().0)
        } else {
            before
        }
    }
}

/// The target that a selection means: its name, or the image of one target.
pub open spec fn selected(
    default_target: Seq<char>,
    targets: Labels,
    selection: Option<Seq<char>>,
) -> Result<Seq<char>, Chain> {
    let wanted = match selection {
        Some(name) => name,
        None => default_target,
    };
    let matching = with_image(listing(targets), normalized_image(wanted));
    if targets.contains_key(wanted) {
        Ok(wanted)
    } else if matching.len() == 1 {
        Ok(matching[0])
    } else if matching.len() == 0 {
        Err(plain("unknown target or configured image "@ + quoted(wanted)))
    } else {
        Err(
            plain(
                "selection "@ + quoted(wanted) + " matches multiple targets: "@ + joined(
                    matching,
                    ", "@,
                ),
            ),
        )
    }
}

pub fn resolve_target_selection(
    default_target: &str,
    targets: &TextMap<String>,
    selection: Option<&str>,
) -> (r: Result<String, Failure>)
    ensures
        outcome(r) == selected(default_target@, targets@, opt_str(selection)),
{
    let wanted = match selection {
        Some(name) => name,
        None => default_target,
    };
    if targets.contains_key(wanted) {
        return Ok(wanted.to_owned());
    }
    let image = normalize_image_selection(wanted);
    let n: usize = targets.len();
    let ghost all = listing(targets@);
    let mut matching: Vec<String> = Vec::new();
    let mut i: usize = 0;
    assert(all.take(0) =~= Seq::<(Seq<char>, Seq<char>)>::empty());
    assert(texts(matching@) =~= Seq::<Seq<char>>::empty());
    while i < n
        invariant
            i <= n == all.len(),
            all == listing(targets@),
            texts(matching@) == with_image(all.take(i as int), image@),
        decreases n - i,
    {
        let (name, configured) = targets.entry(i);
        proof {
            assert(all.take(i + 1).drop_last() =~= all.take(i as int));
            assert(all.take(i + 1).last() == all[i as int]);
        }
        let normalized = normalize_image_selection(configured.as_str());
        if same(normalized.as_str(), image.as_str()) {
            let ghost before = texts(matching@);
            matching.push(name.clone());
            assert(texts(matching@) =~= before.push(name@));
        }
        i += 1;
    }
    assert(all.take(i as int) =~= all);
    assert(texts(matching@).len() == matching@.len());
    if matching.len() == 1 {
        assert(texts(matching@)[0] == matching@[0]@);
        return Ok(matching[0].clone());
    }
    if matching.len() == 0 {
        return Err(
            Failure::msg(
                cat2("unknown target or configured image ", quote(wanted).as_str()).as_str(),
            ),
        );
    }
    Err(
        Failure::msg(
            cat4(
                "selection ",
                quote(wanted).as_str(),
                " matches multiple targets: ",
                join(&matching, ", ").as_str(),
            ).as_str(),
        ),
    )
}

proof fn with_image_names_targets(targets: Seq<(Seq<char>, Seq<char>)>, image: Seq<char>)
    ensures
        forall|k: int|
            0 <= k < with_image(targets, image).len() ==> exists|i: int|
                0 <= i < targets.len() && (#[trigger] targets[i]).0 == #[trigger] with_image(
                    targets,
                    image,
                )[k] && normalized_image(targets[i].1) == image,
    decreases targets.len(),
{
    if targets.len() > 0 {
        with_image_names_targets(targets.drop_last(), image);
        let before = with_image(targets.drop_last(), image);
        let now = with_image(targets, image);
        assert forall|k: int| 0 <= k < now.len() implies exists|i: int|
            0 <= i < targets.len() && (#[trigger] targets[i]).0 == #[trigger] now[k]
                && normalized_image(targets[i].1) == image by {
            if k < before.len() {
                assert(now[k] == before[k]);
                let i = choose|i: int|
                    0 <= i < targets.drop_last().len() && (#[trigger] targets.drop_last()[i]).0
                        == before[k] && normalized_image(targets.drop_last()[i].1) == image;
                assert(targets[i] == targets.drop_last()[i]);
            } else {
                assert(targets[targets.len() - 1].0 == now[k]);
            }
        }
    }
}

/// A selection means a configured target, or is refused.
pub proof fn selections_are_configured(
    default_target: Seq<char>,
    targets: Labels,
    selection: Option<Seq<char>>,
)
    requires
        targets.dom().finite(),
    ensures
        selected(default_target, targets, selection) matches Ok(name) ==> targets.contains_key(name),
{
    let wanted = match selection {
        Some(name) => name,
        None => default_target,
    };
    let all = listing(targets);
    let image = normalized_image(wanted);
    crate::text_map::finite_maps_are_listed(targets);
    with_image_names_targets(all, image);
    if !targets.contains_key(wanted) && with_image(all, image).len() == 1 {
        let name = with_image(all, image)[0];
        let i = choose|i: int|
            0 <= i < all.len() && (#[trigger] all[i]).0 == name && normalized_image(all[i].1)
                == image;
        assert(targets.contains_key(all[i].0));
    }
}

/// The registry of the machine itself and the newest tag go without saying: a
/// plain name means the same with either, or both, or white space around it.
pub proof fn image_names_are_normalized(name: Seq<char>)
    requires
        trimmed(name) == name,
        name.len() > 0,
        !"localhost/"@.is_prefix_of(name),
        !":latest"@.is_suffix_of(name),
    ensures
        normalized_image(name) == name,
        normalized_image("localhost/"@ + name) == name,
        normalized_image(name + ":latest"@) == name,
        normalized_image("localhost/"@ + name + ":latest"@) == name,
{
    reveal_strlit("localhost/");
    reveal_strlit(":latest");
    let head = "localhost/"@;
    let end = ":latest"@;
    use_trimmed_ends(name);
    assert(head[0] == 'l' && end[6] == 't' && end[0] == ':');
    let a = head + name;
    plain_ends_are_trimmed(a);
    assert(a.subrange(0, 10) =~= head);
    assert(a.skip(10) =~= name);
    let b = name + end;
    plain_ends_are_trimmed(b);
    assert(b.subrange(b.len() - 7, b.len() as int) =~= end);
    assert(b.take(b.len() - 7) =~= name);
    if head.is_prefix_of(b) {
        assert(b.subrange(0, 10) =~= head);
        if name.len() >= 10 {
            assert(name.subrange(0, 10) =~= head);
        } else {
            let n = name.len() as int;
            assert(b[n] == ':' && head[n] == b[n]);
            assert(head[0] == 'l' && head[1] == 'o' && head[2] == 'c' && head[3] == 'a' && head[4]
                == 'l' && head[5] == 'h' && head[6] == 'o' && head[7] == 's' && head[8] == 't'
                && head[9] == '/');
        }
    }
    let c = head + name + end;
    plain_ends_are_trimmed(c);
    assert(c.subrange(0, 10) =~= head);
    assert(c.skip(10) =~= b);
}

proof fn plain_ends_are_trimmed(s: Seq<char>)
    requires
        s.len() > 0,
        !crate::text::is_white(s[0]),
        !crate::text::is_white(s.last()),
    ensures
        trimmed(s) == s,
{
}

/// Whether a target has the image that a selection may mean.
pub open spec fn has_image(targets: Labels, target: Seq<char>, wanted: Seq<char>) -> bool {
    targets.contains_key(target) && normalized_image(targets[target]) == normalized_image(wanted)
}

/// Without a selection the default counts. A selection means the target of that
/// name; where there is none, the one target that has it as its image. It is
/// refused where no target has it, or more than one.
#[verifier::rlimit(40)]
pub proof fn selections_mean_one_target(
    default_target: Seq<char>,
    targets: Labels,
    wanted: Seq<char>,
)
    requires
        targets.dom().finite(),
    ensures
        selected(default_target, targets, None) == selected(
            default_target,
            targets,
            Some(default_target),
        ),
        targets.contains_key(wanted) ==> selected(default_target, targets, Some(wanted)) == Ok::<
            Seq<char>,
            Chain,
        >(wanted),
        !targets.contains_key(wanted) ==> {
            let r = selected(default_target, targets, Some(wanted));
            &&& r matches Ok(name) ==> has_image(targets, name, wanted) && forall|other: Seq<char>|
                #[trigger]
                has_image(targets, other, wanted) ==> other == name
            &&& (exists|only: Seq<char>|
                #![trigger targets.contains_key(only)]
                has_image(targets, only, wanted) && forall|other: Seq<char>| #[trigger]
                    has_image(targets, other, wanted) ==> other == only) ==> r is Ok
        },
{
    let all = listing(targets);
    let image = normalized_image(wanted);
    crate::text_map::finite_maps_are_listed(targets);
    let matching = with_image(all, image);
    with_image_names_targets(all, image);
    with_image_names_all(all, image);
    assert forall|i: int, j: int| 0 <= i < j < all.len() implies all[i].0 != all[j].0 by {
        crate::text_map::precedes_irreflexive(all[i].0);
    }
    with_image_names_once(all, image);
    if !targets.contains_key(wanted) {
        assert forall|other: Seq<char>| #[trigger] has_image(
            targets,
            other,
            wanted,
        ) implies matching.contains(other) by {
            assert(crate::text_map::has_pair(all, other, targets[other]));
            let i = choose|i: int|
                0 <= i < all.len() && #[trigger] all[i] == (other, targets[other]);
        }
        assert forall|k: int| 0 <= k < matching.len() implies has_image(
            targets,
            #[trigger] matching[k],
            wanted,
        ) by {
            let i = choose|i: int|
                0 <= i < all.len() && (#[trigger] all[i]).0 == matching[k] && normalized_image(
                    all[i].1,
                ) == image;
            assert(targets.contains_key(all[i].0));
        }
        if exists|only: Seq<char>|
            #![trigger targets.contains_key(only)]
            has_image(targets, only, wanted) && forall|other: Seq<char>| #[trigger]
                has_image(targets, other, wanted) ==> other == only {
            let only = choose|only: Seq<char>|
                #![trigger targets.contains_key(only)]
                has_image(targets, only, wanted) && forall|other: Seq<char>| #[trigger]
                    has_image(targets, other, wanted) ==> other == only;
            assert(matching.contains(only));
            if matching.len() > 1 {
                assert(matching[0] == only && matching[1] == only);
                assert(matching[0] != matching[1]);
            }
        }
    }
}

proof fn with_image_names_all(targets: Seq<(Seq<char>, Seq<char>)>, image: Seq<char>)
    ensures
        forall|i: int|
            0 <= i < targets.len() && normalized_image((#[trigger] targets[i]).1) == image
                ==> with_image(targets, image).contains(targets[i].0),
    decreases targets.len(),
{
    if targets.len() > 0 {
        let front = targets.drop_last();
        with_image_names_all(front, image);
        let before = with_image(front, image);
        let now = with_image(targets, image);
        assert forall|i: int|
            0 <= i < targets.len() && normalized_image((#[trigger] targets[i]).1)
                == image implies now.contains(targets[i].0) by {
            if i < front.len() {
                assert(front[i] == targets[i]);
                let k = choose|k: int| 0 <= k < before.len() && before[k] == targets[i].0;
                assert(now[k] == targets[i].0);
            } else {
                assert(now[before.len() as int] == targets[i].0);
            }
        }
    }
}

proof fn with_image_names_once(targets: Seq<(Seq<char>, Seq<char>)>, image: Seq<char>)
    requires
        forall|i: int, j: int| 0 <= i < j < targets.len() ==> targets[i].0 != targets[j].0,
    ensures
        forall|i: int, j: int|
            0 <= i < j < with_image(targets, image).len() ==> with_image(targets, image)[i]
                != with_image(targets, image)[j],
    decreases targets.len(),
{
    if targets.len() > 0 {
        let front = targets.drop_last();
        assert forall|i: int, j: int| 0 <= i < j < front.len() implies front[i].0 != front[j].0 by {
            assert(targets[i].0 != targets[j].0);
        }
        with_image_names_once(front, image);
        with_image_names_targets(front, image);
        let before = with_image(front, image);
        let now = with_image(targets, image);
        assert forall|i: int, j: int| 0 <= i < j < now.len() implies now[i] != now[j] by {
            assert(now[i] == before[i]);
            if j < before.len() {
                assert(now[j] == before[j]);
            } else {
                let a = choose|a: int|
                    0 <= a < front.len() && (#[trigger] front[a]).0 == before[i]
                        && normalized_image(front[a].1) == image;
                assert(targets[a].0 != targets[targets.len() - 1].0);
            }
        }
    }
}

// ---------------------------------------------------------------- the default

/// The default selection of the configuration.
pub fn configured_default_display(default_target: &str) -> (r: String)
    ensures
        r@ == default_target@,
{
    default_target.to_owned()
}

/// What the file of the user's default selection holds.
#[derive(Debug)]
pub enum DefaultFile {
    Missing,
    Unreadable(String),
    Found(String),
}

/// The user's default selection, where there is one.
pub open spec fn stored_default(path: Seq<char>, file: DefaultFile) -> Option<
    Result<Seq<char>, Chain>,
> {
    match file {
        DefaultFile::Missing => None,
        DefaultFile::Unreadable(said) => Some(Err(under("read "@ + path, plain(said@)))),
        DefaultFile::Found(content) => if trimmed(content@).len() == 0 {
            Some(Err(plain("default selection file "@ + path + " is empty"@)))
        } else {
            Some(Ok(trimmed(content@)))
        },
    }
}

pub fn read_default_selection(path: &str, file: DefaultFile) -> (r: Option<Result<String, Failure>>)
    ensures
        match r {
            None => stored_default(path@, file) is None,
            Some(read) => stored_default(path@, file) == Some(outcome(read)),
        },
{
    match file {
        DefaultFile::Missing => None,
        DefaultFile::Unreadable(said) => Some(
            Err(Failure::msg(said.as_str()).context(cat2("read ", path).as_str())),
        ),
        DefaultFile::Found(content) => {
            let value = trim(content.as_str());
            if value.unicode_len() == 0 {
                Some(
                    Err(
                        Failure::msg(cat3("default selection file ", path, " is empty").as_str()),
                    ),
                )
            } else {
                Some(Ok(value.to_owned()))
            }
        },
    }
}

/// A selection that means a target, or why it does not.
pub open spec fn valid_default(
    default_target: Seq<char>,
    targets: Labels,
    selection: Seq<char>,
) -> Result<Seq<char>, Chain> {
    match selected(default_target, targets, Some(selection)) {
        Ok(_) => Ok(selection),
        Err(chain) => Err(under("validate default selection "@ + quoted(selection), chain)),
    }
}

fn validate_default(default_target: &str, targets: &TextMap<String>, selection: &str) -> (r: Result<
    String,
    Failure,
>)
    ensures
        outcome(r) == valid_default(default_target@, targets@, selection@),
{
    match resolve_target_selection(default_target, targets, Some(selection)) {
        Ok(_) => Ok(selection.to_owned()),
        Err(failure) => Err(
            failure.context(
                cat2("validate default selection ", quote(selection).as_str()).as_str(),
            ),
        ),
    }
}

/// What the user's default becomes: the selection itself and the file's
/// content.
pub fn set_default(default_target: &str, targets: &TextMap<String>, selection: &str) -> (r: Result<
    (String, String),
    Failure,
>)
    ensures
        match valid_default(default_target@, targets@, selection@) {
            Ok(name) => r matches Ok((shown, content)) && shown@ == name && content@ == name
                + "\n"@,
            Err(chain) => r matches Err(failure) && failure@ == chain,
        },
{
    match validate_default(default_target, targets, selection) {
        Ok(shown) => {
            let content = cat2(shown.as_str(), "\n");
            Ok((shown, content))
        },
        Err(failure) => Err(failure),
    }
}

/// The selection that counts by default: the user's before the configuration's.
pub fn show_default(
    default_target: &str,
    targets: &TextMap<String>,
    path: &str,
    file: DefaultFile,
) -> (r: Result<String, Failure>)
    ensures
        outcome(r) == match stored_default(path@, file) {
            Some(Err(chain)) => Err::<Seq<char>, Chain>(chain),
            Some(Ok(selection)) => valid_default(default_target@, targets@, selection),
            None => valid_default(default_target@, targets@, default_target@),
        },
{
    let selection = match read_default_selection(path, file) {
        Some(Err(failure)) => return Err(failure),
        Some(Ok(selection)) => selection,
        None => configured_default_display(default_target),
    };
    validate_default(default_target, targets, selection.as_str())
}

/// A selection becomes the default exactly as it was given, and exactly where it
/// means a target. A file without text is no default, nor is one that cannot be
/// read; where there is no file there is none.
pub proof fn defaults_are_selections(
    default_target: Seq<char>,
    targets: Labels,
    selection: Seq<char>,
    path: Seq<char>,
    file: DefaultFile,
)
    ensures
        valid_default(default_target, targets, selection) is Ok <==> selected(
            default_target,
            targets,
            Some(selection),
        ) is Ok,
        valid_default(default_target, targets, selection) matches Ok(shown) ==> shown == selection,
        stored_default(path, file) is None <==> file is Missing,
        file is Unreadable ==> stored_default(path, file)->0 is Err,
        file matches DefaultFile::Found(content) ==> {
            let stored = stored_default(path, file)->0;
            &&& stored is Ok <==> trimmed(content@).len() > 0
            &&& stored matches Ok(text) ==> text == trimmed(content@)
        },
{
}

/// A default that was set is shown.
pub proof fn defaults_that_are_set_are_shown(
    default_target: Seq<char>,
    targets: Labels,
    selection: Seq<char>,
    path: Seq<char>,
    content: String,
)
    requires
        valid_default(default_target, targets, selection) is Ok,
        content@ == selection + "\n"@,
        trimmed(selection) == selection,
        selection.len() > 0,
    ensures
        stored_default(path, DefaultFile::Found(content)) == Some(
            Ok::<Seq<char>, Chain>(selection),
        ),
{
    reveal_strlit("\n");
    let s = content@;
    trimmed_with_line_feed(selection);
    assert(s =~= selection.push('\n'));
}

/// The line feed behind a text is trimmed away with what else is white.
pub proof fn trimmed_with_line_feed(s: Seq<char>)
    requires
        trimmed(s) == s,
        s.len() > 0,
    ensures
        trimmed(s.push('\n')) == s,
{
    use_trimmed_ends(s);
    let t = s.push('\n');
    assert(t[0] == s[0]);
    assert(crate::text::trimmed_front(t) == t);
    assert(t.last() == '\n');
    assert(t.drop_last() =~= s);
    assert(crate::text::trimmed_back(t) == crate::text::trimmed_back(s));
    assert(crate::text::trimmed_back(s) == s);
}

proof fn use_trimmed_ends(s: Seq<char>)
    requires
        trimmed(s) == s,
        s.len() > 0,
    ensures
        !crate::text::is_white(s[0]),
        !crate::text::is_white(s.last()),
{
    crate::text::trimmed_front_shrinks(s);
    let f = crate::text::trimmed_front(s);
    crate::text::trimmed_back_shrinks(f);
    if crate::text::is_white(s[0]) {
        assert(f.len() < s.len());
    }
    assert(f == s);
    if crate::text::is_white(s.last()) {
        crate::text::trimmed_back_shrinks(s.drop_last());
    }
}

// ---------------------------------------------------------------- keys

pub open spec fn key_word(added: bool) -> Seq<char> {
    if added {
        "added"@
    } else {
        "duplicate"@
    }
}

pub fn key_status(added: bool) -> (r: &'static str)
    ensures
        r@ == key_word(added),
{
    if added {
        "added"
    } else {
        "duplicate"
    }
}

/// What is said of a key that was installed on the host and in the container.
pub fn key_report(host_added: bool, container: Result<bool, Failure>) -> (r: Result<String, Failure>)
    ensures
        outcome(r) == match container {
            Ok(added) => Ok::<Seq<char>, Chain>(
                "host="@ + key_word(host_added) + "; container="@ + key_word(added),
            ),
            Err(failure) => Err(
                under("host="@ + key_word(host_added) + "; container install failed"@, failure@),
            ),
        },
{
    match container {
        Ok(added) => Ok(cat4("host=", key_status(host_added), "; container=", key_status(added))),
        Err(failure) => Err(
            failure.context(
                cat3("host=", key_status(host_added), "; container install failed").as_str(),
            ),
        ),
    }
}

/// The public key in an input, which must not be large.
pub fn accept_public_key(input: &str) -> (r: Result<String, Failure>)
    ensures
        outcome(r) == (if encode_utf8(input@).len() > 16384 {
            Err::<Seq<char>, Chain>(plain("SSH public key input exceeds 16384 bytes"@))
        } else {
            match crate::gateway::identity::key_fault(input@) {
                Some(chain) => Err(chain),
                None => Ok(crate::gateway::identity::one_line(input@)),
            }
        }),
{
    if byte_len(input) > MAX_PUBLIC_KEY_BYTES {
        return Err(Failure::msg("SSH public key input exceeds 16384 bytes"));
    }
    crate::gateway::identity::validate_public_key_content(input)
}

// ---------------------------------------------------------------- client configuration

/// The lines that name an identity file.
pub open spec fn identity_lines(identity_file: Option<Seq<char>>) -> Seq<char> {
    match identity_file {
        Some(path) => "    IdentityFile "@ + path + "\n    IdentitiesOnly yes\n"@,
        None => ""@,
    }
}

pub fn ssh_identity_lines(identity_file: Option<&str>) -> (r: String)
    ensures
        r@ == identity_lines(opt_str(identity_file)),
{
    match identity_file {
        Some(path) => cat3("    IdentityFile ", path, "\n    IdentitiesOnly yes\n"),
        None => "".to_owned(),
    }
}

/// The parts of the configuration that a client's file is made of. Texts that
/// are filled in come as they were filled in.
#[derive(Debug)]
pub struct ClientConfigInputs {
    pub alias: Result<String, Failure>,
    pub host_name: Result<String, Failure>,
    pub host: String,
    pub gateway_path: String,
    /// How local clients reach the target, where that is configured.
    pub local_mode: Option<LocalSshMode>,
    pub local_host: String,
    pub local_port: Result<u16, Failure>,
}

/// One entry of an SSH client's configuration.
pub open spec fn client_entry(
    alias: Seq<char>,
    host_name: Seq<char>,
    port: Option<Seq<char>>,
    identity: Seq<char>,
    proxy: Option<Seq<char>>,
) -> Seq<char> {
    "Host "@ + alias + "\n    HostName "@ + host_name + "\n"@ + (match port {
        Some(port) => "    Port "@ + port + "\n"@,
        None => ""@,
    }) + identity + "    StrictHostKeyChecking no\n    UserKnownHostsFile /dev/null\n"@ + (
    match proxy {
        Some(command) => "    ProxyCommand "@ + command + "\n"@,
        None => ""@,
    })
}

fn entry(
    alias: &str,
    host_name: &str,
    port: Option<&str>,
    identity: &str,
    proxy: Option<&str>,
) -> (r: String)
    ensures
        r@ == client_entry(alias@, host_name@, opt_str(port), identity@, opt_str(proxy)),
{
    let head = cat5("Host ", alias, "\n    HostName ", host_name, "\n");
    let port_line = match port {
        Some(port) => cat3("    Port ", port, "\n"),
        None => "".to_owned(),
    };
    let proxy_line = match proxy {
        Some(command) => cat3("    ProxyCommand ", command, "\n"),
        None => "".to_owned(),
    };
    cat5(
        head.as_str(),
        port_line.as_str(),
        identity,
        "    StrictHostKeyChecking no\n    UserKnownHostsFile /dev/null\n",
        proxy_line.as_str(),
    )
}

impl Runtime {
    /// The file of a client of the target: it connects to the local listener,
    /// or through the gateway, which is run here or on the host.
    pub open spec fn client_config(
        self,
        inputs: ClientConfigInputs,
        identity_file: Option<Seq<char>>,
    ) -> Result<Seq<char>, Chain> {
        let identity = identity_lines(identity_file);
        match (inputs.alias, inputs.host_name) {
            (Err(failure), _) => Err(failure@),
            (Ok(_), Err(failure)) => Err(failure@),
            (Ok(alias), Ok(host_name)) => match inputs.local_mode {
                Some(LocalSshMode::Listen) => match inputs.local_port {
                    Err(failure) => Err(failure@),
                    Ok(port) => Ok(
                        client_entry(
                            alias@,
                            inputs.local_host@,
                            Some(decimal(port as nat)),
                            identity,
                            None,
                        ),
                    ),
                },
                Some(LocalSshMode::ProxyCommand) => Ok(
                    client_entry(
                        alias@,
                        host_name@,
                        None,
                        identity,
                        Some(inputs.gateway_path@ + " connect "@ + self.identity.target_name@),
                    ),
                ),
                _ => Ok(
                    client_entry(
                        alias@,
                        host_name@,
                        None,
                        identity,
                        Some(
                            "ssh -T "@ + inputs.host@ + " "@ + inputs.gateway_path@ + " connect "@
                                + self.identity.target_name@,
                        ),
                    ),
                ),
            },
        }
    }

    pub fn render_client_config(&self, inputs: ClientConfigInputs, identity_file: Option<&str>) -> (r:
        Result<String, Failure>)
        ensures
            outcome(r) == self.client_config(inputs, opt_str(identity_file)),
    {
        let alias = match inputs.alias {
            Ok(alias) => alias,
            Err(failure) => return Err(failure),
        };
        let host_name = match inputs.host_name {
            Ok(host_name) => host_name,
            Err(failure) => return Err(failure),
        };
        let identity = ssh_identity_lines(identity_file);
        let target = self.identity.target_name.as_str();
        match inputs.local_mode {
            Some(LocalSshMode::Listen) => {
                let port: u16 = match inputs.local_port {
                    Ok(port) => port,
                    Err(failure) => return Err(failure),
                };
                let number = decimal_text(port as u64);
                Ok(
                    entry(
                        alias.as_str(),
                        inputs.local_host.as_str(),
                        Some(number.as_str()),
                        identity.as_str(),
                        None,
                    ),
                )
            },
            Some(LocalSshMode::ProxyCommand) => {
                let command = cat3(inputs.gateway_path.as_str(), " connect ", target);
                Ok(
                    entry(
                        alias.as_str(),
                        host_name.as_str(),
                        None,
                        identity.as_str(),
                        Some(command.as_str()),
                    ),
                )
            },
            _ => {
                let through = cat4("ssh -T ", inputs.host.as_str(), " ", inputs.gateway_path.as_str());
                let command = cat3(through.as_str(), " connect ", target);
                Ok(
                    entry(
                        alias.as_str(),
                        host_name.as_str(),
                        None,
                        identity.as_str(),
                        Some(command.as_str()),
                    ),
                )
            },
        }
    }

    /// The identity file of a client, in a directory whose name was filled in.
    pub fn default_client_identity_file(&self, directory: Result<String, Failure>) -> (r: Result<
        String,
        Failure,
    >)
        ensures
            outcome(r) == match directory {
                Ok(dir) => Ok::<Seq<char>, Chain>(joined_path(dir@, self.client_key_name())),
                Err(failure) => Err(failure@),
            },
    {
        match directory {
            Ok(dir) => Ok(
                unix_path::join(dir.as_str(), self.client_private_key_name().as_str()),
            ),
            Err(failure) => Err(failure),
        }
    }

    /// What stands for what in the texts of a client's file, over what stands
    /// for what elsewhere.
    pub fn client_vars(&self, vars: TextMap<String>, host: &str) -> (r: TextMap<String>)
        ensures
            r@ == vars@.insert("target"@, self.identity.target_name@).insert("host"@, host@),
    {
        let mut vars = vars;
        vars.insert("target".to_owned(), self.identity.target_name.clone());
        vars.insert("host".to_owned(), host.to_owned());
        vars
    }
}

/// Inputs that were filled in, and in the mode of a listener a port to connect to.
pub open spec fn is_filled_in(inputs: ClientConfigInputs) -> bool {
    &&& inputs.alias is Ok
    &&& inputs.host_name is Ok
    &&& inputs.local_mode == Some(LocalSshMode::Listen) ==> inputs.local_port is Ok
}

/// A client's file is written exactly where everything in it is known.
pub proof fn client_configs_need_their_texts(
    runtime: Runtime,
    inputs: ClientConfigInputs,
    identity_file: Option<Seq<char>>,
)
    ensures
        runtime.client_config(inputs, identity_file) is Ok <==> is_filled_in(inputs),
{
}

/// A client of a target with a local listener connects to the host and the port
/// of the listener, whatever the container's host is called and wherever the
/// gateway is.
pub proof fn clients_connect_to_the_listener(
    runtime: Runtime,
    inputs: ClientConfigInputs,
    other: ClientConfigInputs,
    identity_file: Option<Seq<char>>,
)
    requires
        is_filled_in(inputs),
        inputs.local_mode == Some(LocalSshMode::Listen),
    ensures
        ({
            let file = runtime.client_config(inputs, identity_file)->Ok_0;
            &&& ("Host "@ + inputs.alias->Ok_0@ + "\n    HostName "@ + inputs.local_host@
                + "\n    Port "@ + decimal(inputs.local_port->Ok_0 as nat) + "\n"@).is_prefix_of(
                file,
            )
            &&& "    StrictHostKeyChecking no\n    UserKnownHostsFile /dev/null\n"@.is_suffix_of(
                file,
            )
            &&& is_filled_in(other) && other.local_mode == inputs.local_mode && other.alias
                == inputs.alias && other.local_host == inputs.local_host && other.local_port
                == inputs.local_port ==> runtime.client_config(other, identity_file) == Ok::<
                Seq<char>,
                Chain,
            >(file)
        }),
{
    let alias = inputs.alias->Ok_0@;
    let port = decimal(inputs.local_port->Ok_0 as nat);
    let head = "Host "@ + alias + "\n    HostName "@ + inputs.local_host@ + "\n"@;
    let file = runtime.client_config(inputs, identity_file)->Ok_0;
    let keys = "    StrictHostKeyChecking no\n    UserKnownHostsFile /dev/null\n"@;
    let identity = identity_lines(identity_file);
    reveal_strlit("");
    reveal_strlit("\n    Port ");
    reveal_strlit("\n");
    reveal_strlit("    Port ");
    let front = "Host "@ + alias + "\n    HostName "@ + inputs.local_host@ + "\n    Port "@ + port
        + "\n"@;
    assert(front =~= head + ("    Port "@ + port + "\n"@));
    assert(file =~= front + identity + keys);
    assert(front.is_prefix_of(file)) by {
        assert(file.subrange(0, front.len() as int) =~= front);
    }
    assert(keys.is_suffix_of(file)) by {
        assert(file.subrange(file.len() - keys.len(), file.len() as int) =~= keys);
    }
}

/// A client of any other target connects to the container's host through the
/// gateway, whatever a listener would be bound to. The gateway is run here, or on
/// its host over SSH, and is told to connect to the target.
pub proof fn other_clients_connect_through_the_gateway(
    runtime: Runtime,
    inputs: ClientConfigInputs,
    other: ClientConfigInputs,
    identity_file: Option<Seq<char>>,
)
    requires
        is_filled_in(inputs),
        inputs.local_mode != Some(LocalSshMode::Listen),
    ensures
        ({
            let file = runtime.client_config(inputs, identity_file)->Ok_0;
            let connect = inputs.gateway_path@ + " connect "@ + runtime.identity.target_name@
                + "\n"@;
            let here = inputs.local_mode == Some(LocalSshMode::ProxyCommand);
            &&& ("Host "@ + inputs.alias->Ok_0@ + "\n    HostName "@ + inputs.host_name->Ok_0@
                + "\n"@).is_prefix_of(file)
            &&& here ==> ("    ProxyCommand "@ + connect).is_suffix_of(file)
            &&& !here ==> ("    ProxyCommand ssh -T "@ + inputs.host@ + " "@
                + connect).is_suffix_of(file)
            &&& is_filled_in(other) && other.local_mode == inputs.local_mode && other.alias
                == inputs.alias && other.host_name == inputs.host_name && other.gateway_path
                == inputs.gateway_path && (here || other.host == inputs.host)
                ==> runtime.client_config(other, identity_file) == Ok::<Seq<char>, Chain>(file)
        }),
{
    let alias = inputs.alias->Ok_0@;
    let target = runtime.identity.target_name@;
    let head = "Host "@ + alias + "\n    HostName "@ + inputs.host_name->Ok_0@ + "\n"@;
    let file = runtime.client_config(inputs, identity_file)->Ok_0;
    let keys = "    StrictHostKeyChecking no\n    UserKnownHostsFile /dev/null\n"@;
    let identity = identity_lines(identity_file);
    let connect = inputs.gateway_path@ + " connect "@ + target + "\n"@;
    reveal_strlit("");
    reveal_strlit("    ProxyCommand ");
    reveal_strlit("ssh -T ");
    reveal_strlit("    ProxyCommand ssh -T ");
    let here = inputs.local_mode == Some(LocalSshMode::ProxyCommand);
    let last = if here {
        "    ProxyCommand "@ + connect
    } else {
        "    ProxyCommand ssh -T "@ + inputs.host@ + " "@ + connect
    };
    if here {
        assert("    ProxyCommand "@ + (inputs.gateway_path@ + " connect "@ + target) + "\n"@
            =~= last);
    } else {
        assert("    ProxyCommand "@ + ("ssh -T "@ + inputs.host@ + " "@ + inputs.gateway_path@
            + " connect "@ + target) + "\n"@ =~= last);
    }
    assert(file =~= head + identity + keys + last);
    assert(head.is_prefix_of(file)) by {
        assert(file.subrange(0, head.len() as int) =~= head);
    }
    assert(last.is_suffix_of(file)) by {
        assert(file.subrange(file.len() - last.len(), file.len() as int) =~= last);
    }
}

/// An identity file adds its two lines to a client's file and changes nothing else
/// in it.
pub proof fn identity_files_add_their_lines(
    runtime: Runtime,
    inputs: ClientConfigInputs,
    path: Seq<char>,
)
    requires
        is_filled_in(inputs),
    ensures
        exists|head: Seq<char>, rest: Seq<char>|
            #![trigger head + rest]
            runtime.client_config(inputs, None) == Ok::<Seq<char>, Chain>(head + rest)
                && runtime.client_config(inputs, Some(path)) == Ok::<Seq<char>, Chain>(
                head + ("    IdentityFile "@ + path + "\n    IdentitiesOnly yes\n"@) + rest,
            ),
{
    let listens = inputs.local_mode == Some(LocalSshMode::Listen);
    let alias = inputs.alias->Ok_0@;
    let host = if listens {
        inputs.local_host@
    } else {
        inputs.host_name->Ok_0@
    };
    reveal_strlit("");
    let port_line = if listens {
        "    Port "@ + decimal(inputs.local_port->Ok_0 as nat) + "\n"@
    } else {
        ""@
    };
    let head = "Host "@ + alias + "\n    HostName "@ + host + "\n"@ + port_line;
    let without = runtime.client_config(inputs, None)->Ok_0;
    let with = runtime.client_config(inputs, Some(path))->Ok_0;
    let rest = without.skip(head.len() as int);
    let lines = "    IdentityFile "@ + path + "\n    IdentitiesOnly yes\n"@;
    assert(without.subrange(0, head.len() as int) =~= head);
    assert(without =~= head + rest);
    assert(with =~= head + lines + rest);
}

/// A key that was added is reported as added, and one that was there as a
/// duplicate.
pub proof fn keys_are_reported_as_added_or_not(added: bool)
    ensures
        key_word(added) == "added"@ <==> added,
        key_word(added) == "duplicate"@ <==> !added,
{
    reveal_strlit("added");
    reveal_strlit("duplicate");
    assert("added"@.len() == 5 && "duplicate"@.len() == 9);
}

} // verus!
