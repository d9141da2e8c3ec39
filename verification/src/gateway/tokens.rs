//! Secrets in files: tokens and the key pair of a target.

use crate::failure::{outcome, plain, refusal, under, unless, Chain, Failure};
use crate::gateway::client::trimmed_with_line_feed;
use crate::gateway::session::lower_hex_is_short;
use crate::gateway::state::Runtime;
use crate::random::{is_lower_hex, random_hex_token};
use crate::text::{
    byte_len, cat2, cat3, cat4, cat5, find_from, find_from_bounds, hex, hex_char, hex_text, octal,
    octal_text, opt_str, texts, trim, trimmed,
};
use crate::text_parts::{lines, lines_of};
use crate::unix_path::{
    can_name, entries_have_their_names, entry_name, is_within, join, joined_path, overlaps,
    paths_are_seen_from_their_directory,
};
use vstd::prelude::*;
use vstd::utf8::encode_utf8;

verus! {

// ---------------------------------------------------------------- token files

/// Refuses a secret that others can read.
pub open spec fn mode_fault(path: Seq<char>, mode: u32) -> Option<Chain> {
    unless(
        (mode & 0o777) & 0o077 == 0,
        "secret file "@ + path + " has unsafe mode "@ + octal((mode & 0o777) as nat)
            + "; expected 0600 or stricter"@,
    )
}

pub fn validate_secret_file_permissions(path: &str, mode: u32) -> (r: Result<(), Failure>)
    ensures
        refusal(r) == mode_fault(path@, mode),
{
    let bits: u32 = mode & 0o777;
    if bits & 0o077 != 0 {
        let message = cat5(
            "secret file ",
            path,
            " has unsafe mode ",
            octal_text(bits).as_str(),
            "; expected 0600 or stricter",
        );
        return Err(Failure::msg(message.as_str()));
    }
    Ok(())
}

/// The token that a text holds: one line of at most 4096 bytes. `what` says
/// which token it is.
pub open spec fn token_of(what: Seq<char>, path: Seq<char>, content: Seq<char>) -> Result<
    Seq<char>,
    Chain,
> {
    let token = trimmed(content);
    let subject = what + " token file "@ + path;
    if token.len() == 0 {
        Err(plain(subject + " is empty"@))
    } else if encode_utf8(token).len() > 4096 {
        Err(plain(subject + " is too large"@))
    } else if lines(token).len() != 1 {
        Err(plain(subject + " must contain exactly one line"@))
    } else {
        Ok(token)
    }
}

fn validate_token_content(what: &str, path: &str, content: &str) -> (r: Result<String, Failure>)
    ensures
        outcome(r) == token_of(what@, path@, content@),
{
    let token = trim(content);
    let subject = cat3(what, " token file ", path);
    if token.unicode_len() == 0 {
        return Err(Failure::msg(cat2(subject.as_str(), " is empty").as_str()));
    }
    if byte_len(token) > 4096 {
        return Err(Failure::msg(cat2(subject.as_str(), " is too large").as_str()));
    }
    let all = lines_of(token);
    assert(texts(all@).len() == all@.len());
    if all.len() != 1 {
        return Err(
            Failure::msg(cat2(subject.as_str(), " must contain exactly one line").as_str()),
        );
    }
    Ok(token.to_owned())
}

pub fn validate_identity_token_content(content: &str, path: &str) -> (r: Result<String, Failure>)
    ensures
        outcome(r) == token_of("identity"@, path@, content@),
{
    validate_token_content("identity", path, content)
}

pub fn validate_control_token_content(content: &str, path: &str) -> (r: Result<String, Failure>)
    ensures
        outcome(r) == token_of("control"@, path@, content@),
{
    validate_token_content("control", path, content)
}

/// What a file of a secret holds. `mode` is what the system says of its mode.
#[derive(Debug)]
pub enum SecretFile {
    Missing(String),
    Unreadable(String),
    Found { content: String, mode: Result<u32, String> },
}

/// The token in a file that must be private.
pub open spec fn private_token(
    what: Seq<char>,
    path: Seq<char>,
    content: Seq<char>,
    mode: Result<u32, String>,
) -> Result<Seq<char>, Chain> {
    match mode {
        Err(said) => Err(plain(said@)),
        Ok(mode) => match mode_fault(path, mode) {
            Some(chain) => Err(chain),
            None => token_of(what, path, content),
        },
    }
}

fn read_private_token(what: &str, path: &str, content: &str, mode: Result<u32, String>) -> (r:
    Result<String, Failure>)
    ensures
        outcome(r) == private_token(what@, path@, content@, mode),
{
    match mode {
        Err(said) => Err(Failure::msg(said.as_str())),
        Ok(mode) => {
            if let Err(failure) = validate_secret_file_permissions(path, mode) {
                return Err(failure);
            }
            validate_token_content(what, path, content)
        },
    }
}

/// Where a token comes from.
#[derive(Debug, Clone, PartialEq, Eq)]
pub enum TokenSource {
    Existing(String),
    /// A new one is to be made.
    Create,
}

/// Where the identity token comes from; it is made where it comes from nowhere.
pub open spec fn identity_source(
    environment: Option<Seq<char>>,
    path: Seq<char>,
    file: SecretFile,
) -> Result<Option<Seq<char>>, Chain> {
    match environment {
        Some(value) => match token_of("identity"@, "AW_IDENTITY_TOKEN"@, value) {
            Ok(token) => Ok(Some(token)),
            Err(chain) => Err(chain),
        },
        None => match file {
            SecretFile::Missing(_) => Ok(None),
            SecretFile::Unreadable(said) => Err(under("read "@ + path, plain(said@))),
            SecretFile::Found { content, mode } => match private_token(
                "identity"@,
                path,
                content@,
                mode,
            ) {
                Ok(token) => Ok(Some(token)),
                Err(chain) => Err(chain),
            },
        },
    }
}

/// Where the control token comes from; it is made where it comes from nowhere.
pub open spec fn control_source(path: Seq<char>, file: SecretFile) -> Result<
    Option<Seq<char>>,
    Chain,
> {
    match file {
        SecretFile::Missing(_) => Ok(None),
        SecretFile::Unreadable(said) => Err(under("read "@ + path, plain(said@))),
        SecretFile::Found { content, mode } => if trimmed(content@).len() == 0 {
            Ok(None)
        } else {
            match private_token("control"@, path, content@, mode) {
                Ok(token) => Ok(Some(token)),
                Err(chain) => Err(chain),
            }
        },
    }
}

/// What a source of a token amounts to.
pub open spec fn source_outcome(r: Result<TokenSource, Failure>) -> Result<
    Option<Seq<char>>,
    Chain,
> {
    match r {
        Ok(TokenSource::Existing(token)) => Ok(Some(token@)),
        Ok(TokenSource::Create) => Ok(None),
        Err(failure) => Err(failure@),
    }
}

/// The identity token: the environment's before the file's. `environment` is
/// the value of `AW_IDENTITY_TOKEN`.
pub fn ensure_identity_token(environment: Option<&str>, path: &str, file: SecretFile) -> (r: Result<
    TokenSource,
    Failure,
>)
    ensures
        source_outcome(r) == identity_source(opt_str(environment), path@, file),
{
    if let Some(value) = environment {
        return match validate_identity_token_content(value, "AW_IDENTITY_TOKEN") {
            Ok(token) => Ok(TokenSource::Existing(token)),
            Err(failure) => Err(failure),
        };
    }
    match file {
        SecretFile::Missing(_) => Ok(TokenSource::Create),
        SecretFile::Unreadable(said) => Err(
            Failure::msg(said.as_str()).context(cat2("read ", path).as_str()),
        ),
        SecretFile::Found { content, mode } => match read_private_token(
            "identity",
            path,
            content.as_str(),
            mode,
        ) {
            Ok(token) => Ok(TokenSource::Existing(token)),
            Err(failure) => Err(failure),
        },
    }
}

/// How creating a file that must not exist yet ended.
#[derive(Debug)]
pub enum CreateEnd {
    Written,
    WriteFailed(String),
    CreateFailed(String),
    /// Another process was faster; this is what it left.
    AlreadyThere(SecretFile),
}

/// The identity token after the attempt to store a new one: where another
/// process was faster, its token counts.
pub fn identity_token_after_create(path: &str, token: String, end: CreateEnd) -> (r: Result<
    String,
    Failure,
>)
    ensures
        outcome(r) == match end {
            CreateEnd::Written => Ok::<Seq<char>, Chain>(token@),
            CreateEnd::WriteFailed(said) => Err(under("write "@ + path@, plain(said@))),
            CreateEnd::CreateFailed(said) => Err(under("create "@ + path@, plain(said@))),
            CreateEnd::AlreadyThere(file) => match file {
                SecretFile::Missing(said) => Err(under("read "@ + path@, plain(said@))),
                SecretFile::Unreadable(said) => Err(under("read "@ + path@, plain(said@))),
                SecretFile::Found { content, mode } => private_token(
                    "identity"@,
                    path@,
                    content@,
                    mode,
                ),
            },
        },
{
    match end {
        CreateEnd::Written => Ok(token),
        CreateEnd::WriteFailed(said) => Err(
            Failure::msg(said.as_str()).context(cat2("write ", path).as_str()),
        ),
        CreateEnd::CreateFailed(said) => Err(
            Failure::msg(said.as_str()).context(cat2("create ", path).as_str()),
        ),
        CreateEnd::AlreadyThere(file) => match file {
            SecretFile::Missing(said) => Err(
                Failure::msg(said.as_str()).context(cat2("read ", path).as_str()),
            ),
            SecretFile::Unreadable(said) => Err(
                Failure::msg(said.as_str()).context(cat2("read ", path).as_str()),
            ),
            SecretFile::Found { content, mode } => read_private_token(
                "identity",
                path,
                content.as_str(),
                mode,
            ),
        },
    }
}

/// The control token in its file, which must be there.
pub fn read_control_token_file(path: &str, file: SecretFile) -> (r: Result<String, Failure>)
    ensures
        outcome(r) == match file {
            SecretFile::Missing(said) => Err::<Seq<char>, Chain>(
                under("read "@ + path@, plain(said@)),
            ),
            SecretFile::Unreadable(said) => Err(under("read "@ + path@, plain(said@))),
            SecretFile::Found { content, mode } => private_token(
                "control"@,
                path@,
                content@,
                mode,
            ),
        },
{
    match file {
        SecretFile::Missing(said) => Err(
            Failure::msg(said.as_str()).context(cat2("read ", path).as_str()),
        ),
        SecretFile::Unreadable(said) => Err(
            Failure::msg(said.as_str()).context(cat2("read ", path).as_str()),
        ),
        SecretFile::Found { content, mode } => read_private_token(
            "control",
            path,
            content.as_str(),
            mode,
        ),
    }
}

/// The control token: the one in its file, or a new one where the file is
/// missing or blank.
pub fn ensure_control_token(path: &str, file: SecretFile) -> (r: Result<TokenSource, Failure>)
    ensures
        source_outcome(r) == control_source(path@, file),
{
    match file {
        SecretFile::Missing(_) => Ok(TokenSource::Create),
        SecretFile::Unreadable(said) => Err(
            Failure::msg(said.as_str()).context(cat2("read ", path).as_str()),
        ),
        SecretFile::Found { content, mode } => {
            if trim(content.as_str()).unicode_len() == 0 {
                return Ok(TokenSource::Create);
            }
            match read_private_token("control", path, content.as_str(), mode) {
                Ok(token) => Ok(TokenSource::Existing(token)),
                Err(failure) => Err(failure),
            }
        },
    }
}

/// A new control token, and the line that is stored for it.
pub fn new_control_token() -> (r: Result<(String, String), Failure>)
    ensures
        r matches Ok((token, stored)) ==> token@.len() == 64 && is_lower_hex(token@) && stored@
            == token@ + "\n"@,
        r matches Err(failure) ==> exists|complaint: Seq<char>|
            failure@ == #[trigger] under("get random bytes"@, plain(complaint)),
{
    match random_hex_token() {
        Ok(token) => {
            let stored = cat2(token.as_str(), "\n");
            Ok((token, stored))
        },
        Err(failure) => Err(failure),
    }
}

// ---------------------------------------------------------------- identity tokens

/// Random bytes with the marks of a random identifier.
pub open spec fn marked(bytes: Seq<u8>) -> Seq<u8> {
    bytes.update(6, (bytes[6] & 0x0f) | 0x40).update(8, (bytes[8] & 0x3f) | 0x80)
}

/// The text of an identifier: its digits in five groups.
pub open spec fn identifier(bytes: Seq<u8>) -> Seq<char> {
    hex(bytes.subrange(0, 4)) + "-"@ + hex(bytes.subrange(4, 6)) + "-"@ + hex(
        bytes.subrange(6, 8),
    ) + "-"@ + hex(bytes.subrange(8, 10)) + "-"@ + hex(bytes.subrange(10, 16))
}

fn digits(bytes: &Vec<u8>, from: usize, to: usize) -> (r: String)
    requires
        from <= to <= bytes@.len(),
    ensures
        r@ == hex(bytes@.subrange(from as int, to as int)),
{
    let mut part: Vec<u8> = Vec::new();
    let mut i: usize = from;
    while i < to
        invariant
            from <= i <= to <= bytes@.len(),
            part@ == bytes@.subrange(from as int, i as int),
        decreases to - i,
    {
        part.push(bytes[i]);
        assert(part@ =~= bytes@.subrange(from as int, i + 1));
        i += 1;
    }
    hex_text(part.as_slice())
}

/// The identity token that sixteen random bytes make.
pub fn identity_token_text(bytes: &Vec<u8>) -> (r: String)
    requires
        bytes@.len() == 16,
    ensures
        r@ == identifier(marked(bytes@)),
{
    let mut b: Vec<u8> = bytes.clone();
    let sixth: u8 = (b[6] & 0x0f) | 0x40;
    b.set(6, sixth);
    let eighth: u8 = (b[8] & 0x3f) | 0x80;
    b.set(8, eighth);
    assert(b@ =~= marked(bytes@));
    let head = cat5(
        digits(&b, 0, 4).as_str(),
        "-",
        digits(&b, 4, 6).as_str(),
        "-",
        digits(&b, 6, 8).as_str(),
    );
    let tail = cat4("-", digits(&b, 8, 10).as_str(), "-", digits(&b, 10, 16).as_str());
    let r = cat2(head.as_str(), tail.as_str());
    assert(r@ =~= identifier(marked(bytes@)));
    r
}

proof fn two_bytes(bytes: Seq<u8>)
    requires
        bytes.len() == 2,
    ensures
        hex(bytes).len() == 4,
        hex(bytes)[0] == hex_char(bytes[0] as int / 16),
{
    reveal_with_fuel(hex, 4);
    assert(bytes.drop_last().drop_last() =~= Seq::<u8>::empty());
    assert(bytes.drop_last().last() == bytes[0]);
}

/// An identity token has 36 characters, the mark of its kind at the fifteenth,
/// and the mark of its variant at the twentieth.
pub proof fn identity_tokens_are_marked(bytes: Seq<u8>)
    requires
        bytes.len() == 16,
    ensures
        ({
            let text = identifier(marked(bytes));
            &&& text.len() == 36
            &&& text[14] == '4'
            &&& text[19] == '8' || text[19] == '9' || text[19] == 'a' || text[19] == 'b'
        }),
{
    let m = marked(bytes);
    let (x, y) = (bytes[6], bytes[8]);
    assert(((x & 0x0f) | 0x40) / 16 == 4) by (bit_vector);
    assert(8 <= ((y & 0x3f) | 0x80) / 16 && ((y & 0x3f) | 0x80) / 16 <= 11) by (bit_vector);
    reveal_strlit("-");
    crate::random::hex_is_lower_hex(m.subrange(0, 4));
    crate::random::hex_is_lower_hex(m.subrange(4, 6));
    crate::random::hex_is_lower_hex(m.subrange(10, 16));
    two_bytes(m.subrange(6, 8));
    two_bytes(m.subrange(8, 10));
    let text = identifier(m);
    assert(text[14] == hex(m.subrange(6, 8))[0]);
    assert(text[19] == hex(m.subrange(8, 10))[0]);
    assert(m[6] as int / 16 == 4);
    assert(8 <= m[8] as int / 16 <= 11);
}

// ---------------------------------------------------------------- the key pair

impl Runtime {
    pub open spec fn ssh_dir_path(self) -> Seq<char> {
        joined_path(self.paths.workspace_state_dir@, "ssh"@)
    }

    pub open spec fn private_key_path(self) -> Seq<char> {
        joined_path(self.ssh_dir_path(), "inner_ed25519"@)
    }

    pub open spec fn public_key_path(self) -> Seq<char> {
        joined_path(self.ssh_dir_path(), "inner_ed25519.pub"@)
    }

    pub open spec fn keys_path(self) -> Seq<char> {
        joined_path(self.ssh_dir_path(), "authorized_keys"@)
    }

    pub fn ssh_dir(&self) -> (r: String)
        ensures
            r@ == self.ssh_dir_path(),
    {
        join(self.paths.workspace_state_dir.as_str(), "ssh")
    }

    pub fn inner_private_key(&self) -> (r: String)
        ensures
            r@ == self.private_key_path(),
    {
        join(self.ssh_dir().as_str(), "inner_ed25519")
    }

    pub fn inner_public_key(&self) -> (r: String)
        ensures
            r@ == self.public_key_path(),
    {
        join(self.ssh_dir().as_str(), "inner_ed25519.pub")
    }

    pub fn inner_authorized_keys(&self) -> (r: String)
        ensures
            r@ == self.keys_path(),
    {
        join(self.ssh_dir().as_str(), "authorized_keys")
    }

    pub fn control_token_path(&self) -> (r: String)
        ensures
            r@ == joined_path(self.paths.container_state_dir@, "control.token"@),
    {
        join(self.paths.container_state_dir.as_str(), "control.token")
    }

    pub open spec fn client_key_name(self) -> Seq<char> {
        "aw-"@ + self.identity.user.user@ + "-"@ + self.identity.target_name@ + "_inner_ed25519"@
    }

    pub fn client_private_key_name(&self) -> (r: String)
        ensures
            r@ == self.client_key_name(),
    {
        cat5(
            "aw-",
            self.identity.user.user.as_str(),
            "-",
            self.identity.target_name.as_str(),
            "_inner_ed25519",
        )
    }

    /// The directory and the files of what is handed to a client: the private
    /// key, the public key and the configuration.
    pub fn client_bundle_paths(&self) -> (r: (String, String, String, String))
        ensures
            ({
                let dir = joined_path(
                    joined_path(joined_path(self.paths.workspace_state_dir@, "ssh"@), "bundle"@),
                    self.identity.target_name@,
                );
                &&& r.0@ == dir
                &&& r.1@ == joined_path(dir, self.client_key_name())
                &&& r.2@ == joined_path(dir, self.client_key_name() + ".pub"@)
                &&& r.3@ == joined_path(dir, "ssh_config"@)
            }),
    {
        let bundle = join(self.ssh_dir().as_str(), "bundle");
        let dir = join(bundle.as_str(), self.identity.target_name.as_str());
        let name = self.client_private_key_name();
        let private = join(dir.as_str(), name.as_str());
        let public = join(dir.as_str(), cat2(name.as_str(), ".pub").as_str());
        let config = join(dir.as_str(), "ssh_config");
        (dir, private, public, config)
    }
}

/// What is done to have a key pair.
#[derive(Debug, Clone, Copy, PartialEq, Eq, Structural)]
pub struct KeypairPlan {
    /// An old pair is removed first.
    pub remove_old: bool,
    pub step: KeypairStep,
}

#[derive(Debug, Clone, Copy, PartialEq, Eq, Structural)]
pub enum KeypairStep {
    Generate,
    /// The private key is checked; the public key is derived where it is
    /// missing.
    Check { derive_public: bool },
}

/// What is done to have a pair.
pub open spec fn pair_plan(rotate: bool, private_exists: bool, public_exists: bool) -> KeypairPlan {
    KeypairPlan {
        remove_old: rotate,
        step: if private_exists && !rotate {
            KeypairStep::Check { derive_public: !public_exists }
        } else {
            KeypairStep::Generate
        },
    }
}

/// A pair is generated where there is none, or where a new one is asked for.
pub fn keypair_plan(rotate: bool, private_exists: bool, public_exists: bool) -> (r: KeypairPlan)
    ensures
        r == pair_plan(rotate, private_exists, public_exists),
{
    let step = if private_exists && !rotate {
        KeypairStep::Check { derive_public: !public_exists }
    } else {
        KeypairStep::Generate
    };
    KeypairPlan { remove_old: rotate, step }
}

/// The arguments with which `ssh-keygen` makes a pair.
pub fn keygen_arguments(path: &str, user: &str, target: &str) -> (r: Vec<String>)
    ensures
        texts(r@) == seq![
            "-q"@,
            "-t"@,
            "ed25519"@,
            "-N"@,
            ""@,
            "-C"@,
            "aw-gateway:"@ + user@ + ":"@ + target@,
            "-f"@,
            path@,
        ],
{
    let mut args: Vec<String> = Vec::new();
    args.push("-q".to_owned());
    args.push("-t".to_owned());
    args.push("ed25519".to_owned());
    args.push("-N".to_owned());
    args.push("".to_owned());
    args.push("-C".to_owned());
    args.push(cat4("aw-gateway:", user, ":", target));
    args.push("-f".to_owned());
    args.push(path.to_owned());
    assert(texts(args@) =~= seq![
        "-q"@,
        "-t"@,
        "ed25519"@,
        "-N"@,
        ""@,
        "-C"@,
        "aw-gateway:"@ + user@ + ":"@ + target@,
        "-f"@,
        path@,
    ]);
    args
}

/// What `ssh-keygen` was asked to do.
#[derive(Debug, Clone, PartialEq, Eq)]
pub enum KeygenTask {
    Generate,
    Validate { path: String, target: String },
    Derive { path: String },
}

/// How `ssh-keygen` ended.
#[derive(Debug, Clone, PartialEq, Eq)]
pub enum KeygenEnd {
    NotRun(String),
    Exited { success: bool, stderr: String },
}

/// What is wrong with the way `ssh-keygen` ended.
pub open spec fn keygen_fault(task: KeygenTask, end: KeygenEnd) -> Option<Chain> {
    match end {
        KeygenEnd::NotRun(said) => Some(
            under(
                match task {
                    KeygenTask::Generate => "run ssh-keygen"@,
                    KeygenTask::Validate { path, .. } => "validate private key "@ + path@,
                    KeygenTask::Derive { path } => "derive public key from "@ + path@,
                },
                plain(said@),
            ),
        ),
        KeygenEnd::Exited { success, stderr } => if success {
            None
        } else {
            Some(
                plain(
                    (match task {
                        KeygenTask::Generate => "ssh-keygen failed: "@,
                        KeygenTask::Validate { path, target } => "inner private key "@ + path@
                            + " is not usable; rerun `aw-gateway client-bundle "@ + target@
                            + " --rotate-key`: "@,
                        KeygenTask::Derive { .. } => "failed to derive public key: "@,
                    }) + trimmed(stderr@),
                ),
            )
        },
    }
}

pub fn keygen_result(task: KeygenTask, end: KeygenEnd) -> (r: Result<(), Failure>)
    ensures
        refusal(r) == keygen_fault(task, end),
{
    match end {
        KeygenEnd::NotRun(said) => {
            let context = match &task {
                KeygenTask::Generate => "run ssh-keygen".to_owned(),
                KeygenTask::Validate { path, .. } => cat2("validate private key ", path.as_str()),
                KeygenTask::Derive { path } => cat2("derive public key from ", path.as_str()),
            };
            Err(Failure::msg(said.as_str()).context(context.as_str()))
        },
        KeygenEnd::Exited { success, stderr } => {
            if success {
                return Ok(());
            }
            let head = match &task {
                KeygenTask::Generate => "ssh-keygen failed: ".to_owned(),
                KeygenTask::Validate { path, target } => cat5(
                    "inner private key ",
                    path.as_str(),
                    " is not usable; rerun `aw-gateway client-bundle ",
                    target.as_str(),
                    " --rotate-key`: ",
                ),
                KeygenTask::Derive { .. } => "failed to derive public key: ".to_owned(),
            };
            Err(Failure::msg(cat2(head.as_str(), trim(stderr.as_str())).as_str()))
        },
    }
}

// ---------------------------------------------------------------- laws

/// A secret is read exactly when neither its group nor others may do anything
/// with its file.
pub proof fn secrets_are_private(path: Seq<char>, mode: u32)
    ensures
        mode_fault(path, mode) is None <==> mode & 0o077 == 0,
{
    assert((mode & 0o777) & 0o077 == mode & 0o077) by (bit_vector);
}

/// A text holds a token exactly when it is one line of at most 4096 bytes, without
/// the white space around it; the token is that line. One that is read from a file
/// must be private too.
pub proof fn tokens_are_single_lines(
    what: Seq<char>,
    path: Seq<char>,
    content: Seq<char>,
    mode: Result<u32, String>,
)
    ensures
        token_of(what, path, content) is Ok <==> trimmed(content).len() > 0 && encode_utf8(
            trimmed(content),
        ).len() <= 4096 && lines(trimmed(content)).len() == 1,
        token_of(what, path, content) matches Ok(token) ==> token == trimmed(content),
        private_token(what, path, content, mode) is Ok <==> mode is Ok && mode->Ok_0 & 0o077 == 0
            && token_of(what, path, content) is Ok,
        private_token(what, path, content, mode) matches Ok(token) ==> token == trimmed(content),
{
    if let Ok(mode) = mode {
        secrets_are_private(path, mode);
    }
}

/// The environment's identity token counts before the file's. A token is made
/// exactly where there is neither, or, for the control token, where the file is
/// missing or blank: a file that cannot be read, is not private or holds no token
/// is refused, and what it holds is never replaced.
pub proof fn tokens_are_made_where_missing(
    environment: Option<Seq<char>>,
    path: Seq<char>,
    file: SecretFile,
)
    ensures
        environment matches Some(value) ==> (identity_source(environment, path, file) matches Ok(
            source,
        ) ==> source == Some(trimmed(value))),
        environment is Some ==> identity_source(environment, path, file) != Ok::<
            Option<Seq<char>>,
            Chain,
        >(None),
        environment is None ==> {
            let source = identity_source(environment, path, file);
            &&& source == Ok::<Option<Seq<char>>, Chain>(None) <==> file is Missing
            &&& file is Unreadable ==> source is Err
            &&& file matches SecretFile::Found { content, mode } ==> (source is Ok <==> private_token(
                "identity"@,
                path,
                content@,
                mode,
            ) is Ok)
            &&& file matches SecretFile::Found { content, mode } ==> (source matches Ok(token)
                ==> token == Some(trimmed(content@)))
        },
        ({
            let source = control_source(path, file);
            &&& source == Ok::<Option<Seq<char>>, Chain>(None) <==> file is Missing || (file matches
                SecretFile::Found { content, .. } && trimmed(content@).len() == 0)
            &&& file is Unreadable ==> source is Err
            &&& file matches SecretFile::Found { content, mode } ==> (source matches Ok(Some(token))
                ==> token == trimmed(content@) && mode is Ok && mode->Ok_0 & 0o077 == 0)
        }),
{
    if let SecretFile::Found { content, mode } = file {
        tokens_are_single_lines("identity"@, path, content@, mode);
        tokens_are_single_lines("control"@, path, content@, mode);
    }
}

/// A control token that was stored is read back.
pub proof fn stored_control_tokens_are_read_back(path: Seq<char>, token: Seq<char>, mode: u32)
    requires
        token.len() == 64,
        is_lower_hex(token),
        mode & 0o077 == 0,
    ensures
        private_token("control"@, path, token + "\n"@, Ok::<u32, String>(mode)) == Ok::<
            Seq<char>,
            Chain,
        >(token),
{
    secrets_are_private(path, mode);
    reveal_strlit("\n");
    assert(token + "\n"@ =~= token.push('\n'));
    assert(('0' <= token[0] && token[0] <= '9') || ('a' <= token[0] && token[0] <= 'f'));
    assert(('0' <= token[63] && token[63] <= '9') || ('a' <= token[63] && token[63] <= 'f'));
    assert(token.last() == token[63]);
    assert(trimmed(token) == token);
    trimmed_with_line_feed(token);
    lower_hex_is_short(token);
    find_from_bounds(token, '\n', 0);
    let at = find_from(token, '\n', 0);
    if at < token.len() {
        assert(('0' <= token[at] && token[at] <= '9') || ('a' <= token[at] && token[at] <= 'f'));
    }
    assert(lines(token).len() == 1);
}

/// A pair of keys is made exactly where none is there or a new one is asked for,
/// and an old one is removed only where a new one is asked for. A pair that stays
/// is checked, and its public key is derived exactly where it is missing.
pub proof fn pairs_are_made_where_missing(rotate: bool, private_exists: bool, public_exists: bool)
    ensures
        ({
            let plan = pair_plan(rotate, private_exists, public_exists);
            &&& plan.remove_old <==> rotate
            &&& plan.step is Generate <==> rotate || !private_exists
            &&& plan.step matches KeypairStep::Check { derive_public } ==> (derive_public
                <==> !public_exists)
        }),
{
}

/// `ssh-keygen` did its work exactly where it ran and said that it succeeded.
pub proof fn keygen_succeeds_by_its_word(task: KeygenTask, end: KeygenEnd)
    ensures
        keygen_fault(task, end) is None <==> (end matches KeygenEnd::Exited { success, .. }
            && success),
{
}

proof fn key_files_have_names()
    ensures
        can_name("inner_ed25519"@),
        can_name("inner_ed25519.pub"@),
        can_name("authorized_keys"@),
        can_name("ssh"@),
        "inner_ed25519"@ + ".pub"@ == "inner_ed25519.pub"@,
        "inner_ed25519"@ != "inner_ed25519.pub"@,
        "inner_ed25519"@ != "authorized_keys"@,
        "inner_ed25519.pub"@ != "authorized_keys"@,
{
    reveal_strlit("inner_ed25519");
    reveal_strlit("inner_ed25519.pub");
    reveal_strlit("authorized_keys");
    reveal_strlit("ssh");
    reveal_strlit(".pub");
    reveal_strlit("/");
    reveal_strlit(".");
    reveal_strlit("..");
    assert("inner_ed25519"@.len() == 13 && "inner_ed25519.pub"@.len() == 17
        && "authorized_keys"@.len() == 15 && "ssh"@.len() == 3);
    assert("/"@.len() == 1 && "."@.len() == 1 && ".."@.len() == 2);
    assert(!"inner_ed25519"@.contains('/'));
    assert(!"inner_ed25519.pub"@.contains('/'));
    assert(!"authorized_keys"@.contains('/'));
    assert(!"ssh"@.contains('/'));
    assert("inner_ed25519"@ + ".pub"@ =~= "inner_ed25519.pub"@);
}

/// A public key stands beside its private key, under its name and `.pub`. The
/// private key, the public key and the keys that are let in are three files of one
/// directory.
pub proof fn public_keys_stand_beside_private_ones(runtime: Runtime)
    requires
        runtime.paths.workspace_state_dir@.len() > 0,
    ensures
        runtime.public_key_path() == runtime.private_key_path() + ".pub"@,
        is_within(runtime.private_key_path(), runtime.ssh_dir_path()),
        is_within(runtime.keys_path(), runtime.ssh_dir_path()),
        is_within(runtime.ssh_dir_path(), runtime.paths.workspace_state_dir@),
        entry_name(runtime.private_key_path()) == Some("inner_ed25519"@),
        entry_name(runtime.keys_path()) == Some("authorized_keys"@),
        !overlaps(runtime.private_key_path(), runtime.public_key_path()),
        !overlaps(runtime.private_key_path(), runtime.keys_path()),
        !overlaps(runtime.public_key_path(), runtime.keys_path()),
{
    key_files_have_names();
    let home = runtime.paths.workspace_state_dir@;
    let dir = runtime.ssh_dir_path();
    reveal_strlit("ssh");
    reveal_strlit("inner_ed25519");
    reveal_strlit("inner_ed25519.pub");
    reveal_strlit("authorized_keys");
    reveal_strlit("/");
    assert("ssh"@[0] == 's' && "inner_ed25519"@[0] == 'i' && "authorized_keys"@[0] == 'a'
        && "inner_ed25519.pub"@[0] == 'i');
    paths_are_seen_from_their_directory(home, "ssh"@);
    assert(dir.len() > 0);
    paths_are_seen_from_their_directory(dir, "inner_ed25519"@);
    paths_are_seen_from_their_directory(dir, "authorized_keys"@);
    entries_have_their_names(dir, "inner_ed25519"@, "inner_ed25519.pub"@);
    entries_have_their_names(dir, "authorized_keys"@, "inner_ed25519.pub"@);
    entries_have_their_names(dir, "inner_ed25519"@, "authorized_keys"@);
    assert(overlaps(runtime.keys_path(), runtime.public_key_path()) == overlaps(
        runtime.public_key_path(),
        runtime.keys_path(),
    ));
    assert(runtime.private_key_path() + ".pub"@ =~= runtime.public_key_path());
}

/// The key that a client is handed is named after the user and the target.
pub proof fn client_keys_are_named_after_user_and_target(runtime: Runtime)
    ensures
        "aw-"@.is_prefix_of(runtime.client_key_name()),
        "_inner_ed25519"@.is_suffix_of(runtime.client_key_name()),
        runtime.client_key_name() == "aw-"@ + (runtime.identity.user.user@ + "-"@
            + runtime.identity.target_name@) + "_inner_ed25519"@,
{
    let name = runtime.client_key_name();
    let (front, back) = ("aw-"@, "_inner_ed25519"@);
    assert(name =~= front + (runtime.identity.user.user@ + "-"@ + runtime.identity.target_name@)
        + back);
    assert(name.subrange(0, front.len() as int) =~= front);
    assert(name.subrange(name.len() - back.len(), name.len() as int) =~= back);
}

/// What goes wrong with the key program is told by what it was run for: where it
/// could not be run at all, and where it failed, with its own words behind.
pub proof fn keygen_failures_are_told_by_task(
    path: String,
    target: String,
    said: String,
    stderr: String,
)
    ensures
        ({
            let not_run = KeygenEnd::NotRun(said);
            let failed = KeygenEnd::Exited { success: false, stderr };
            let check = KeygenTask::Validate { path, target };
            let derive = KeygenTask::Derive { path };
            let own = trimmed(stderr@);
            &&& keygen_fault(KeygenTask::Generate, not_run) == Some(
                under("run ssh-keygen"@, plain(said@)),
            )
            &&& keygen_fault(check, not_run) == Some(
                under("validate private key "@ + path@, plain(said@)),
            )
            &&& keygen_fault(derive, not_run) == Some(
                under("derive public key from "@ + path@, plain(said@)),
            )
            &&& keygen_fault(KeygenTask::Generate, failed) == Some(
                plain("ssh-keygen failed: "@ + own),
            )
            &&& keygen_fault(derive, failed) == Some(
                plain("failed to derive public key: "@ + own),
            )
            &&& keygen_fault(check, failed) == Some(
                plain(
                    "inner private key "@ + path@
                        + " is not usable; rerun `aw-gateway client-bundle "@ + target@
                        + " --rotate-key`: "@ + own,
                ),
            )
        }),
{
}

} // verus!
