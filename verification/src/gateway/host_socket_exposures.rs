//! Host sockets that a container may use, and the manifest that pins them.
//!
//! A target can expose Unix sockets of the host inside its container. Before a
//! container starts, every exposure is checked against every other path that
//! the gateway manages: an exposed socket neither lies in one of them nor
//! contains one. The accepted exposures are summed up in a manifest, which the
//! container carries as a label.

use crate::config::ContainerRuntimeType;
use crate::failure::{either, failed, outcome, plain, refusal, under, unless, Chain, Failure};
use crate::random::{hex_is_lower_hex, is_lower_hex};
use crate::runtime::ContainerInspect;
use crate::text::{
    byte_len, cat2, cat3, cat4, cat5, cat7, decimal, decimal_text, has_char, hex, hex_text,
    opt_str, quote, quoted, same, texts,
};
use crate::text_map::{listing, precedes, TextMap};
use crate::unix_path::{
    add_path, entry_name, file_name, is_absolute, is_absolute_path, is_normalized, join,
    joined_path, normalized, overlaps, paths_overlap, with_path,
};
use sha2::{Digest, Sha256};
use vstd::prelude::*;
use vstd::utf8::encode_utf8;

verus! {

pub const HOST_SOCKET_EXPOSURE_MANIFEST_LABEL: &'static str =
    "io.aw-gateway.host-socket-exposures.v1";

/// The longest path that a Unix socket can have inside a Linux container.
pub const LINUX_UNIX_SOCKET_PATH_MAX_BYTES: usize = 107;

// ---------------------------------------------------------------- values

/// How a container reaches an exposed socket.
#[derive(Debug, Clone, Copy, PartialEq, Eq, Structural)]
pub enum HostSocketExposureRealization {
    /// The path is looked up again for each connection.
    PathReconnect,
    /// The socket that stood at the path when the container started.
    PinnedInode,
}

impl HostSocketExposureRealization {
    pub open spec fn name(self) -> Seq<char> {
        match self {
            HostSocketExposureRealization::PathReconnect => "path_reconnect"@,
            HostSocketExposureRealization::PinnedInode => "pinned_inode"@,
        }
    }

    pub fn as_str(&self) -> (r: &'static str)
        ensures
            r@ == self.name(),
    {
        match self {
            HostSocketExposureRealization::PathReconnect => "path_reconnect",
            HostSocketExposureRealization::PinnedInode => "pinned_inode",
        }
    }
}

/// Which file an exposed path names.
#[derive(Debug, Clone, Copy, PartialEq, Eq, Structural)]
pub struct UnixSourceIdentity {
    pub device: u64,
    pub inode: u64,
    pub uid: u32,
    pub gid: u32,
    pub mode: u32,
}

/// What the host says of the file at a path, without following a final link.
#[derive(Debug, Clone, Copy, PartialEq, Eq, Structural)]
pub struct SourceMetadata {
    pub is_socket: bool,
    pub device: u64,
    pub inode: u64,
    pub uid: u32,
    pub gid: u32,
    pub mode: u32,
}

/// A path of the host and what resolving it gave: the path without links, or
/// the host's complaint.
#[derive(Debug)]
pub struct HostPath {
    pub path: String,
    pub canonical: Result<String, String>,
}

/// A mount that the target asks for.
#[derive(Debug)]
pub struct RequestedMount {
    pub source: HostPath,
    pub target: String,
    pub readonly: bool,
}

/// A mount that the container gets.
#[derive(Debug, Clone, PartialEq, Eq)]
pub struct ContainerMountSpec {
    pub source: String,
    pub target: String,
    pub readonly: bool,
}

/// An exposure that the target asks for under a name: its texts with their
/// variables filled in, and what the host said of the path.
#[derive(Debug)]
pub struct RequestedExposure {
    pub host_path: Result<String, Failure>,
    /// The directory of the host path without links.
    pub parent: Result<String, String>,
    pub container_path: Result<String, Failure>,
    pub user: Result<String, Failure>,
    /// Whether the user is an acceptable name.
    pub user_check: Result<(), Failure>,
    pub metadata: Result<SourceMetadata, String>,
    /// The name of the relabelling mode, `None` where there is none.
    pub selinux_relabel: String,
}

impl View for RequestedExposure {
    type V = RequestedExposure;

    open spec fn view(&self) -> RequestedExposure {
        *self
    }
}

/// An exposure that the container gets.
#[derive(Debug, Clone, PartialEq, Eq)]
pub struct HostSocketExposureSpec {
    pub name: String,
    pub host_path: String,
    pub container_path: String,
    pub readiness_user: String,
    pub selinux_relabel: String,
    pub realization: HostSocketExposureRealization,
    pub source_identity: UnixSourceIdentity,
}

/// What a container is started with beyond its image.
#[derive(Debug, Clone)]
pub struct PreparedContainerInputs {
    pub mounts: Vec<ContainerMountSpec>,
    pub host_socket_exposures: Vec<HostSocketExposureSpec>,
    pub exposure_manifest: Option<String>,
}

// ---------------------------------------------------------------- models

pub struct MountModel {
    pub source: Seq<char>,
    pub target: Seq<char>,
    pub readonly: bool,
}

pub struct ExposureModel {
    pub name: Seq<char>,
    pub host_path: Seq<char>,
    pub container_path: Seq<char>,
    pub readiness_user: Seq<char>,
    pub selinux_relabel: Seq<char>,
    pub realization: HostSocketExposureRealization,
    pub source_identity: UnixSourceIdentity,
}

pub struct PreparedModel {
    pub mounts: Seq<MountModel>,
    pub host_socket_exposures: Seq<ExposureModel>,
    pub exposure_manifest: Option<Seq<char>>,
}

impl View for ContainerMountSpec {
    type V = MountModel;

    open spec fn view(&self) -> MountModel {
        MountModel { source: self.source@, target: self.target@, readonly: self.readonly }
    }
}

impl View for HostSocketExposureSpec {
    type V = ExposureModel;

    open spec fn view(&self) -> ExposureModel {
        ExposureModel {
            name: self.name@,
            host_path: self.host_path@,
            container_path: self.container_path@,
            readiness_user: self.readiness_user@,
            selinux_relabel: self.selinux_relabel@,
            realization: self.realization,
            source_identity: self.source_identity,
        }
    }
}

pub open spec fn mount_models(v: Seq<ContainerMountSpec>) -> Seq<MountModel> {
    Seq::new(v.len(), |i: int| v[i]@)
}

pub open spec fn exposure_models(v: Seq<HostSocketExposureSpec>) -> Seq<ExposureModel> {
    Seq::new(v.len(), |i: int| v[i]@)
}

impl View for PreparedContainerInputs {
    type V = PreparedModel;

    open spec fn view(&self) -> PreparedModel {
        PreparedModel {
            mounts: mount_models(self.mounts@),
            host_socket_exposures: exposure_models(self.host_socket_exposures@),
            exposure_manifest: crate::text::opt_text(self.exposure_manifest),
        }
    }
}

/// The paths that no exposure may touch.
pub struct Surroundings {
    pub workspace_host: Seq<char>,
    pub workspace_container: Seq<char>,
    pub container_home: Seq<char>,
    pub control_host: Option<Seq<char>>,
    pub control_container: Option<Seq<char>>,
    pub mounts: Seq<MountModel>,
}

pub open spec fn text_of(r: Result<String, Failure>) -> Seq<char> {
    match r {
        Ok(s) => s@,
        Err(_) => Seq::empty(),
    }
}

pub open spec fn found(r: Result<String, String>) -> Seq<char> {
    match r {
        Ok(s) => s@,
        Err(_) => Seq::empty(),
    }
}

/// The refusal of a host path that could not be resolved.
pub open spec fn unresolved<T>(r: Result<T, String>, doing: Seq<char>) -> Option<Chain> {
    match r {
        Ok(_) => None,
        Err(complaint) => Some(under(doing, plain(complaint@))),
    }
}

// ---------------------------------------------------------------- single checks

pub open spec fn not_normalized(label: Seq<char>, path: Seq<char>) -> Option<Chain> {
    either(
        unless(is_absolute_path(path), label + " must render to an absolute path"@),
        unless(is_normalized(path), label + " must be a normalized absolute non-root path"@),
    )
}

/// Refuses a container path that is not absolute, is the root, or has an empty,
/// `.` or `..` part.
pub fn validate_normalized_container_path(label: &str, path: &str) -> (r: Result<(), Failure>)
    ensures
        refusal(r) == not_normalized(label@, path@),
{
    if !is_absolute(path) {
        return Err(Failure::msg(cat2(label, " must render to an absolute path").as_str()));
    }
    if !normalized(path) {
        return Err(
            Failure::msg(cat2(label, " must be a normalized absolute non-root path").as_str()),
        );
    }
    Ok(())
}

pub open spec fn overlap_refusal(
    a_label: Seq<char>,
    a: Seq<char>,
    b_label: Seq<char>,
    b: Seq<char>,
) -> Option<Chain> {
    unless(
        !overlaps(a, b),
        a_label + " "@ + a + " overlaps "@ + b_label + " "@ + b
            + "; exact socket exposure paths must not be contained by or contain other managed paths"@,
    )
}

/// Refuses two paths of which one is or contains the other.
pub fn reject_path_overlap(a_label: &str, a: &str, b_label: &str, b: &str) -> (r: Result<
    (),
    Failure,
>)
    ensures
        refusal(r) == overlap_refusal(a_label@, a@, b_label@, b@),
{
    if paths_overlap(a, b) {
        let mut message = cat7(a_label, " ", a, " overlaps ", b_label, " ", b);
        message.append(
            "; exact socket exposure paths must not be contained by or contain other managed paths",
        );
        return Err(Failure::msg(message.as_str()));
    }
    Ok(())
}

pub open spec fn too_long(label: Seq<char>, path: Seq<char>, maximum: int) -> Option<Chain> {
    unless(
        encode_utf8(path).len() <= maximum,
        label + " "@ + path + " is too long for a Unix domain socket: "@ + decimal(
            encode_utf8(path).len(),
        ) + " bytes exceeds "@ + decimal(maximum as nat),
    )
}

/// Refuses a path with more bytes than a socket address holds.
pub fn validate_socket_path_length(label: &str, path: &str, maximum: usize) -> (r: Result<
    (),
    Failure,
>)
    ensures
        refusal(r) == too_long(label@, path@, maximum as int),
{
    let length: usize = byte_len(path);
    if length > maximum {
        let n = decimal_text(length as u64);
        let m = decimal_text(maximum as u64);
        let message = cat7(
            label,
            " ",
            path,
            " is too long for a Unix domain socket: ",
            n.as_str(),
            " bytes exceeds ",
            m.as_str(),
        );
        return Err(Failure::msg(message.as_str()));
    }
    Ok(())
}

pub open spec fn has_separator(path: Seq<char>) -> bool {
    path.contains(':') || path.contains(',')
}

pub open spec fn separators_refused(label: Seq<char>, path: Seq<char>) -> Option<Chain> {
    unless(!has_separator(path), label + " must not render with ':' or ','"@)
}

/// Refuses a path that holds a separator of runtime arguments.
pub fn validate_runtime_path_separators(label: &str, path: &str) -> (r: Result<(), Failure>)
    ensures
        refusal(r) == separators_refused(label@, path@),
{
    if has_char(path, ':') || has_char(path, ',') {
        return Err(Failure::msg(cat2(label, " must not render with ':' or ','").as_str()));
    }
    Ok(())
}

pub open spec fn final_entry_refused(
    label: Seq<char>,
    path: Seq<char>,
    parent: Result<String, String>,
) -> Option<Chain> {
    either(
        unless(entry_name(path) is Some, label + " "@ + path + " must name a filesystem entry"@),
        unresolved(parent, "canonicalize parent for "@ + label + " "@ + path),
    )
}

/// The path with its directory resolved and its last part as it is, so that a
/// final link is not followed.
pub open spec fn final_entry(path: Seq<char>, parent: Result<String, String>) -> Seq<char> {
    joined_path(found(parent), entry_name(path)->0)
}

pub fn canonicalize_final_without_following(
    path: &str,
    label: &str,
    parent: &Result<String, String>,
) -> (r: Result<String, Failure>)
    ensures
        failed(r) == final_entry_refused(label@, path@, *parent),
        r matches Ok(s) ==> s@ == final_entry(path@, *parent),
{
    let name = match file_name(path) {
        Some(name) => name,
        None => {
            let message = cat4(label, " ", path, " must name a filesystem entry");
            return Err(Failure::msg(message.as_str()));
        },
    };
    match parent {
        Ok(parent) => Ok(join(parent.as_str(), name.as_str())),
        Err(complaint) => {
            let doing = cat4("canonicalize parent for ", label, " ", path);
            Err(Failure::msg(complaint.as_str()).context(doing.as_str()))
        },
    }
}

/// The kinds of files that a mount can come from.
#[derive(Debug, Clone, Copy, PartialEq, Eq, Structural)]
pub enum SourceFileType {
    Regular,
    Directory,
    Symlink,
    Socket,
    Special,
}

pub open spec fn mount_source_refused(
    label: Seq<char>,
    path: Seq<char>,
    file_type: Result<SourceFileType, String>,
) -> Option<Chain> {
    either(
        unresolved(file_type, "stat "@ + label + " "@ + path),
        match file_type {
            Ok(SourceFileType::Symlink) => Some(
                plain(label + " "@ + path + " must not be a symlink"@),
            ),
            Ok(SourceFileType::Socket) => Some(
                plain(
                    label + " "@ + path
                        + " is a Unix socket; configure it through host_socket_exposures"@,
                ),
            ),
            Ok(SourceFileType::Special) => Some(
                plain(label + " "@ + path + " must be a regular file or directory"@),
            ),
            _ => None,
        },
    )
}

/// Resolves the source of an ordinary mount, which is a regular file or a
/// directory, and is reached without following a final link.
pub fn canonicalize_generic_mount_source(
    path: &str,
    label: &str,
    parent: &Result<String, String>,
    file_type: &Result<SourceFileType, String>,
) -> (r: Result<String, Failure>)
    ensures
        failed(r) == either(
            final_entry_refused(label@, path@, *parent),
            mount_source_refused(label@, final_entry(path@, *parent), *file_type),
        ),
        r matches Ok(s) ==> s@ == final_entry(path@, *parent),
{
    let path = match canonicalize_final_without_following(path, label, parent) {
        Ok(path) => path,
        Err(failure) => return Err(failure),
    };
    match file_type {
        Err(complaint) => {
            let doing = cat4("stat ", label, " ", path.as_str());
            Err(Failure::msg(complaint.as_str()).context(doing.as_str()))
        },
        Ok(SourceFileType::Symlink) => Err(
            Failure::msg(cat4(label, " ", path.as_str(), " must not be a symlink").as_str()),
        ),
        Ok(SourceFileType::Socket) => {
            let why = " is a Unix socket; configure it through host_socket_exposures";
            Err(Failure::msg(cat4(label, " ", path.as_str(), why).as_str()))
        },
        Ok(SourceFileType::Special) => {
            let why = " must be a regular file or directory";
            Err(Failure::msg(cat4(label, " ", path.as_str(), why).as_str()))
        },
        Ok(SourceFileType::Regular) | Ok(SourceFileType::Directory) => Ok(path),
    }
}

pub open spec fn not_a_socket(
    name: Seq<char>,
    path: Seq<char>,
    metadata: Result<SourceMetadata, String>,
) -> Option<Chain> {
    let label = "host_socket_exposures."@ + name + ".host_path "@;
    either(
        unresolved(metadata, "stat "@ + label + path),
        match metadata {
            Ok(m) => unless(m.is_socket, label + path + " must be a Unix socket"@),
            Err(_) => None,
        },
    )
}

/// The identity of a source: its file, its owner and its permission bits.
pub open spec fn identity_of(m: SourceMetadata) -> UnixSourceIdentity {
    UnixSourceIdentity {
        device: m.device,
        inode: m.inode,
        uid: m.uid,
        gid: m.gid,
        mode: m.mode & 0o777,
    }
}

/// The identity of the socket at a path.
pub fn unix_socket_identity(
    path: &str,
    name: &str,
    metadata: &Result<SourceMetadata, String>,
) -> (r: Result<UnixSourceIdentity, Failure>)
    ensures
        failed(r) == not_a_socket(name@, path@, *metadata),
        r matches Ok(identity) ==> metadata is Ok && identity == identity_of(metadata->Ok_0),
{
    let label = cat3("host_socket_exposures.", name, ".host_path ");
    match metadata {
        Err(complaint) => {
            let doing = cat3("stat ", label.as_str(), path);
            Err(Failure::msg(complaint.as_str()).context(doing.as_str()))
        },
        Ok(m) => {
            if !m.is_socket {
                return Err(
                    Failure::msg(cat3(label.as_str(), path, " must be a Unix socket").as_str()),
                );
            }
            Ok(
                UnixSourceIdentity {
                    device: m.device,
                    inode: m.inode,
                    uid: m.uid,
                    gid: m.gid,
                    mode: m.mode & 0o777,
                },
            )
        },
    }
}

// ---------------------------------------------------------------- one exposure

pub open spec fn host_label(name: Seq<char>) -> Seq<char> {
    "host_socket_exposures."@ + name + ".host_path"@
}

pub open spec fn container_label(name: Seq<char>) -> Seq<char> {
    "host_socket_exposures."@ + name + ".container_path"@
}

/// The refusal of a path by the first path of a list that it overlaps.
pub open spec fn first_overlap(
    label: Seq<char>,
    path: Seq<char>,
    other_label: Seq<char>,
    others: Seq<Seq<char>>,
) -> Option<Chain>
    decreases others.len(),
{
    if others.len() == 0 {
        None
    } else {
        either(
            overlap_refusal(label, path, other_label, others[0]),
            first_overlap(label, path, other_label, others.skip(1)),
        )
    }
}

/// The refusal of an exposure by the first mount that it overlaps on either side.
pub open spec fn first_mount_overlap(
    name: Seq<char>,
    host: Seq<char>,
    container: Seq<char>,
    mounts: Seq<MountModel>,
) -> Option<Chain>
    decreases mounts.len(),
{
    if mounts.len() == 0 {
        None
    } else {
        either(
            overlap_refusal(
                host_label(name),
                host,
                "container mount source"@,
                mounts[0].source,
            ),
            either(
                overlap_refusal(
                    container_label(name),
                    container,
                    "container mount target"@,
                    mounts[0].target,
                ),
                first_mount_overlap(name, host, container, mounts.skip(1)),
            ),
        )
    }
}

/// The paths of a list in the order of paths.
pub open spec fn in_path_order(paths: Seq<Seq<char>>) -> Seq<Seq<char>>
    decreases paths.len(),
{
    if paths.len() == 0 {
        Seq::empty()
    } else {
        with_path(in_path_order(paths.drop_last()), paths.last())
    }
}

pub open spec fn host_paths(done: Seq<ExposureModel>) -> Seq<Seq<char>> {
    done.map_values(|e: ExposureModel| e.host_path)
}

pub open spec fn container_paths(done: Seq<ExposureModel>) -> Seq<Seq<char>> {
    done.map_values(|e: ExposureModel| e.container_path)
}

/// What is wrong with a requested exposure taken by itself.
#[verifier::opaque]
pub open spec fn unfit(name: Seq<char>, r: RequestedExposure, host_limit: int) -> Option<Chain> {
    let rendered = text_of(r.host_path);
    let host = final_entry(rendered, r.parent);
    let container = text_of(r.container_path);
    either(
        failed(r.host_path),
        either(
            unless(
                is_absolute_path(rendered),
                host_label(name) + " must render to an absolute path"@,
            ),
            either(
                final_entry_refused(host_label(name), rendered, r.parent),
                either(
                    failed(r.container_path),
                    either(
                        not_normalized(container_label(name), container),
                        either(
                            separators_refused(host_label(name), host),
                            either(
                                separators_refused(container_label(name), container),
                                either(
                                    too_long("host socket exposure host path"@, host, host_limit),
                                    either(
                                        failed(r.user),
                                        either(
                                            failed(r.user_check),
                                            either(
                                                too_long(
                                                    "host socket exposure container path"@,
                                                    container,
                                                    LINUX_UNIX_SOCKET_PATH_MAX_BYTES as int,
                                                ),
                                                not_a_socket(name, host, r.metadata),
                                            ),
                                        ),
                                    ),
                                ),
                            ),
                        ),
                    ),
                ),
            ),
        ),
    )
}

/// What an exposure collides with: exposures before it, or the surroundings.
#[verifier::opaque]
pub open spec fn collision(
    name: Seq<char>,
    host: Seq<char>,
    container: Seq<char>,
    done: Seq<ExposureModel>,
    around: Surroundings,
) -> Option<Chain> {
    either(
        first_overlap(
            host_label(name),
            host,
            "another host socket exposure path"@,
            in_path_order(host_paths(done)),
        ),
        either(
            first_overlap(
                container_label(name),
                container,
                "another host socket exposure path"@,
                in_path_order(container_paths(done)),
            ),
            either(
                overlap_refusal(
                    host_label(name),
                    host,
                    "workspace host path"@,
                    around.workspace_host,
                ),
                either(
                    match around.control_host {
                        Some(control) => overlap_refusal(
                            host_label(name),
                            host,
                            "control socket host directory"@,
                            control,
                        ),
                        None => None,
                    },
                    either(
                        overlap_refusal(
                            container_label(name),
                            container,
                            "workspace container path"@,
                            around.workspace_container,
                        ),
                        either(
                            overlap_refusal(
                                container_label(name),
                                container,
                                "container home"@,
                                around.container_home,
                            ),
                            either(
                                match around.control_container {
                                    Some(control) => overlap_refusal(
                                        container_label(name),
                                        container,
                                        "control socket container directory"@,
                                        control,
                                    ),
                                    None => None,
                                },
                                first_mount_overlap(name, host, container, around.mounts),
                            ),
                        ),
                    ),
                ),
            ),
        ),
    )
}

/// The exposure that a request stands for.
pub open spec fn granted(
    name: Seq<char>,
    r: RequestedExposure,
    realization: HostSocketExposureRealization,
) -> ExposureModel {
    ExposureModel {
        name,
        host_path: final_entry(text_of(r.host_path), r.parent),
        container_path: text_of(r.container_path),
        readiness_user: text_of(r.user),
        selinux_relabel: r.selinux_relabel@,
        realization,
        source_identity: identity_of(r.metadata->Ok_0),
    }
}

#[verifier::opaque]
pub open spec fn admitted(
    name: Seq<char>,
    r: RequestedExposure,
    realization: HostSocketExposureRealization,
    done: Seq<ExposureModel>,
    around: Surroundings,
    host_limit: int,
) -> Result<ExposureModel, Chain> {
    let model = granted(name, r, realization);
    match either(
        unfit(name, r, host_limit),
        collision(name, model.host_path, model.container_path, done, around),
    ) {
        Some(chain) => Err(chain),
        None => Ok(model),
    }
}

fn reject_overlap_with_all(label: &str, path: &str, other_label: &str, others: &Vec<String>) -> (r:
    Result<(), Failure>)
    ensures
        refusal(r) == first_overlap(label@, path@, other_label@, texts(others@)),
{
    let ghost all = texts(others@);
    let mut i: usize = 0;
    assert(all.skip(0) =~= all);
    while i < others.len()
        invariant
            i <= others.len(),
            all == texts(others@),
            first_overlap(label@, path@, other_label@, all) == first_overlap(
                label@,
                path@,
                other_label@,
                all.skip(i as int),
            ),
        decreases others.len() - i,
    {
        assert(all.skip(i as int).skip(1) =~= all.skip(i + 1));
        if let Err(failure) = reject_path_overlap(label, path, other_label, others[i].as_str()) {
            return Err(failure);
        }
        i += 1;
    }
    Ok(())
}

fn reject_overlap_with_mounts(
    name: &str,
    host: &str,
    container: &str,
    mounts: &Vec<ContainerMountSpec>,
) -> (r: Result<(), Failure>)
    ensures
        refusal(r) == first_mount_overlap(name@, host@, container@, mount_models(mounts@)),
{
    let host_label = cat3("host_socket_exposures.", name, ".host_path");
    let container_label = cat3("host_socket_exposures.", name, ".container_path");
    let ghost all = mount_models(mounts@);
    let mut i: usize = 0;
    assert(all.skip(0) =~= all);
    while i < mounts.len()
        invariant
            i <= mounts.len(),
            all == mount_models(mounts@),
            host_label@ == self::host_label(name@),
            container_label@ == self::container_label(name@),
            first_mount_overlap(name@, host@, container@, all) == first_mount_overlap(
                name@,
                host@,
                container@,
                all.skip(i as int),
            ),
        decreases mounts.len() - i,
    {
        assert(all.skip(i as int).skip(1) =~= all.skip(i + 1));
        if let Err(failure) = reject_path_overlap(
            host_label.as_str(),
            host,
            "container mount source",
            mounts[i].source.as_str(),
        ) {
            return Err(failure);
        }
        if let Err(failure) = reject_path_overlap(
            container_label.as_str(),
            container,
            "container mount target",
            mounts[i].target.as_str(),
        ) {
            return Err(failure);
        }
        i += 1;
    }
    Ok(())
}

/// The paths that exposures are held against, with their links resolved.
pub struct ManagedPaths {
    pub workspace_host: String,
    pub workspace_container: String,
    pub container_home: String,
    pub control_host: Option<String>,
    pub control_container: Option<String>,
    pub mounts: Vec<ContainerMountSpec>,
}

impl View for ManagedPaths {
    type V = Surroundings;

    open spec fn view(&self) -> Surroundings {
        Surroundings {
            workspace_host: self.workspace_host@,
            workspace_container: self.workspace_container@,
            container_home: self.container_home@,
            control_host: crate::text::opt_text(self.control_host),
            control_container: crate::text::opt_text(self.control_container),
            mounts: mount_models(self.mounts@),
        }
    }
}

fn reject_collision(
    name: &str,
    host: &str,
    container: &str,
    taken_hosts: &Vec<String>,
    taken_containers: &Vec<String>,
    around: &ManagedPaths,
    Ghost(done): Ghost<Seq<ExposureModel>>,
) -> (r: Result<(), Failure>)
    requires
        texts(taken_hosts@) == in_path_order(host_paths(done)),
        texts(taken_containers@) == in_path_order(container_paths(done)),
    ensures
        refusal(r) == collision(name@, host@, container@, done, around@),
{
    reveal(collision);
    let host_label = cat3("host_socket_exposures.", name, ".host_path");
    let container_label = cat3("host_socket_exposures.", name, ".container_path");
    if let Err(failure) = reject_overlap_with_all(
        host_label.as_str(),
        host,
        "another host socket exposure path",
        taken_hosts,
    ) {
        return Err(failure);
    }
    if let Err(failure) = reject_overlap_with_all(
        container_label.as_str(),
        container,
        "another host socket exposure path",
        taken_containers,
    ) {
        return Err(failure);
    }
    if let Err(failure) = reject_path_overlap(
        host_label.as_str(),
        host,
        "workspace host path",
        around.workspace_host.as_str(),
    ) {
        return Err(failure);
    }
    if let Some(control) = &around.control_host {
        if let Err(failure) = reject_path_overlap(
            host_label.as_str(),
            host,
            "control socket host directory",
            control.as_str(),
        ) {
            return Err(failure);
        }
    }
    if let Err(failure) = reject_path_overlap(
        container_label.as_str(),
        container,
        "workspace container path",
        around.workspace_container.as_str(),
    ) {
        return Err(failure);
    }
    if let Err(failure) = reject_path_overlap(
        container_label.as_str(),
        container,
        "container home",
        around.container_home.as_str(),
    ) {
        return Err(failure);
    }
    if let Some(control) = &around.control_container {
        if let Err(failure) = reject_path_overlap(
            container_label.as_str(),
            container,
            "control socket container directory",
            control.as_str(),
        ) {
            return Err(failure);
        }
    }
    reject_overlap_with_mounts(name, host, container, &around.mounts)
}

fn fit_exposure(
    name: String,
    r: RequestedExposure,
    realization: HostSocketExposureRealization,
    host_limit: usize,
) -> (out: Result<HostSocketExposureSpec, Failure>)
    ensures
        failed(out) == unfit(name@, r, host_limit as int),
        out matches Ok(spec) ==> spec@ == granted(name@, r, realization),
{
    reveal(unfit);
    let host_label = cat3("host_socket_exposures.", name.as_str(), ".host_path");
    let container_label = cat3("host_socket_exposures.", name.as_str(), ".container_path");
    let rendered = match r.host_path {
        Ok(path) => path,
        Err(failure) => return Err(failure),
    };
    if !is_absolute(rendered.as_str()) {
        return Err(
            Failure::msg(
                cat2(host_label.as_str(), " must render to an absolute path").as_str(),
            ),
        );
    }
    let host = match canonicalize_final_without_following(
        rendered.as_str(),
        host_label.as_str(),
        &r.parent,
    ) {
        Ok(path) => path,
        Err(failure) => return Err(failure),
    };
    let container = match r.container_path {
        Ok(path) => path,
        Err(failure) => return Err(failure),
    };
    if let Err(failure) = validate_normalized_container_path(
        container_label.as_str(),
        container.as_str(),
    ) {
        return Err(failure);
    }
    if let Err(failure) = validate_runtime_path_separators(host_label.as_str(), host.as_str()) {
        return Err(failure);
    }
    if let Err(failure) = validate_runtime_path_separators(
        container_label.as_str(),
        container.as_str(),
    ) {
        return Err(failure);
    }
    if let Err(failure) = validate_socket_path_length(
        "host socket exposure host path",
        host.as_str(),
        host_limit,
    ) {
        return Err(failure);
    }
    let readiness_user = match r.user {
        Ok(user) => user,
        Err(failure) => return Err(failure),
    };
    if let Err(failure) = r.user_check {
        return Err(failure);
    }
    if let Err(failure) = validate_socket_path_length(
        "host socket exposure container path",
        container.as_str(),
        LINUX_UNIX_SOCKET_PATH_MAX_BYTES,
    ) {
        return Err(failure);
    }
    let source_identity = match unix_socket_identity(
        host.as_str(),
        name.as_str(),
        &r.metadata,
    ) {
        Ok(identity) => identity,
        Err(failure) => return Err(failure),
    };
    Ok(
        HostSocketExposureSpec {
            name,
            host_path: host,
            container_path: container,
            readiness_user,
            selinux_relabel: r.selinux_relabel,
            realization,
            source_identity,
        },
    )
}

// ---------------------------------------------------------------- the manifest

/// The eight bytes of a number, most significant first.
pub open spec fn be_bytes(n: u64) -> Seq<u8> {
    seq![
        (n / 0x100_0000_0000_0000) as u8,
        ((n / 0x1_0000_0000_0000) % 256) as u8,
        ((n / 0x100_0000_0000) % 256) as u8,
        ((n / 0x1_0000_0000) % 256) as u8,
        ((n / 0x100_0000) % 256) as u8,
        ((n / 0x1_0000) % 256) as u8,
        ((n / 0x100) % 256) as u8,
        (n % 256) as u8,
    ]
}

/// A text as the manifest holds it: the number of its bytes, then the bytes.
#[verifier::opaque]
pub open spec fn field_bytes(text: Seq<char>) -> Seq<u8> {
    be_bytes(encode_utf8(text).len() as u64) + encode_utf8(text)
}

/// What the manifest holds of the socket behind an exposure.
pub open spec fn source_bytes(e: ExposureModel) -> Seq<u8> {
    match e.realization {
        HostSocketExposureRealization::PinnedInode => be_bytes(e.source_identity.device)
            + be_bytes(e.source_identity.inode),
        HostSocketExposureRealization::PathReconnect => Seq::empty(),
    }
}

#[verifier::opaque]
pub open spec fn exposure_bytes(e: ExposureModel) -> Seq<u8> {
    field_bytes(e.name) + (field_bytes(e.host_path) + (field_bytes(e.container_path) + (field_bytes(
        e.selinux_relabel,
    ) + (field_bytes(e.realization.name()) + source_bytes(e)))))
}

pub open spec fn exposures_bytes(all: Seq<ExposureModel>) -> Seq<u8>
    decreases all.len(),
{
    if all.len() == 0 {
        Seq::empty()
    } else {
        exposures_bytes(all.drop_last()) + exposure_bytes(all.last())
    }
}

/// The bytes that the manifest sums up.
pub open spec fn manifest_bytes(all: Seq<ExposureModel>) -> Seq<u8> {
    encode_utf8("aw-gateway-host-socket-exposures\0v1\0"@) + exposures_bytes(all)
}

/// The SHA-256 digest of some bytes.
pub uninterp spec fn sha256_digest(data: Seq<u8>) -> Seq<u8>;

/// `sha2::Sha256::digest`: the 32 bytes of the digest depend on the data alone.
#[verifier::external_body]
fn sha256(data: &Vec<u8>) -> (r: Vec<u8>)
    ensures
        r@ == sha256_digest(data@),
        r@.len() == 32,
{
    Sha256::digest(data.as_slice()).to_vec()
}

pub open spec fn manifest_text(all: Seq<ExposureModel>) -> Seq<char> {
    "sha256:"@ + hex(sha256_digest(manifest_bytes(all)))
}

/// The form of a manifest.
pub open spec fn is_manifest(text: Seq<char>) -> bool {
    &&& text.len() == 71
    &&& text.take(7) == "sha256:"@
    &&& is_lower_hex(text.skip(7))
}

fn push_number(out: &mut Vec<u8>, n: u64)
    ensures
        final(out)@ == old(out)@ + be_bytes(n),
{
    let ghost before = out@;
    out.push((n / 0x100_0000_0000_0000) as u8);
    out.push(((n / 0x1_0000_0000_0000) % 256) as u8);
    out.push(((n / 0x100_0000_0000) % 256) as u8);
    out.push(((n / 0x1_0000_0000) % 256) as u8);
    out.push(((n / 0x100_0000) % 256) as u8);
    out.push(((n / 0x1_0000) % 256) as u8);
    out.push(((n / 0x100) % 256) as u8);
    out.push((n % 256) as u8);
    assert(out@ =~= before + be_bytes(n));
}

fn push_bytes(out: &mut Vec<u8>, bytes: &[u8])
    ensures
        final(out)@ == old(out)@ + bytes@,
{
    let ghost before = out@;
    let mut i: usize = 0;
    while i < bytes.len()
        invariant
            i <= bytes.len(),
            out@ == before + bytes@.take(i as int),
        decreases bytes.len() - i,
    {
        out.push(bytes[i]);
        assert(out@ =~= before + bytes@.take(i + 1));
        i += 1;
    }
    assert(bytes@.take(i as int) =~= bytes@);
}

fn hash_field(out: &mut Vec<u8>, text: &str)
    ensures
        final(out)@ == old(out)@ + field_bytes(text@),
{
    reveal(field_bytes);
    let bytes = text.as_bytes();
    push_number(out, bytes.len() as u64);
    push_bytes(out, bytes);
    assert(out@ =~= old(out)@ + field_bytes(text@));
}

fn push_exposure(out: &mut Vec<u8>, exposure: &HostSocketExposureSpec)
    ensures
        final(out)@ == old(out)@ + exposure_bytes(exposure@),
{
    reveal(exposure_bytes);
    hash_field(out, exposure.name.as_str());
    hash_field(out, exposure.host_path.as_str());
    hash_field(out, exposure.container_path.as_str());
    hash_field(out, exposure.selinux_relabel.as_str());
    hash_field(out, exposure.realization.as_str());
    if exposure.realization == HostSocketExposureRealization::PinnedInode {
        push_number(out, exposure.source_identity.device);
        push_number(out, exposure.source_identity.inode);
    }
    assert(out@ =~= old(out)@ + exposure_bytes(exposure@));
}

/// The manifest of a list of exposures: `sha256:` and 64 lower-case hexadecimal
/// digits.
pub fn exposure_manifest(exposures: &Vec<HostSocketExposureSpec>) -> (r: String)
    ensures
        r@ == manifest_text(exposure_models(exposures@)),
        is_manifest(r@),
{
    let ghost all = exposure_models(exposures@);
    let mut data: Vec<u8> = Vec::new();
    push_bytes(&mut data, "aw-gateway-host-socket-exposures\0v1\0".as_bytes());
    let ghost head = data@;
    let mut i: usize = 0;
    assert(all.take(0) =~= Seq::empty());
    assert(data@ =~= head + exposures_bytes(all.take(0)));
    while i < exposures.len()
        invariant
            i <= exposures.len(),
            all == exposure_models(exposures@),
            data@ == head + exposures_bytes(all.take(i as int)),
        decreases exposures.len() - i,
    {
        push_exposure(&mut data, &exposures[i]);
        proof {
            assert(all.take(i + 1).drop_last() =~= all.take(i as int));
            assert(data@ =~= head + exposures_bytes(all.take(i + 1)));
        }
        i += 1;
    }
    assert(all.take(i as int) =~= all);
    assert(data@ =~= manifest_bytes(all));
    let digest = sha256(&data);
    let digits = hex_text(digest.as_slice());
    proof {
        hex_is_lower_hex(digest@);
        reveal_strlit("sha256:");
        assert(("sha256:"@ + digits@).skip(7) =~= digits@);
        assert(("sha256:"@ + digits@).take(7) =~= "sha256:"@);
    }
    cat2("sha256:", digits.as_str())
}

// ---------------------------------------------------------------- all exposures

/// The exposures granted to a list of requests after those already granted.
pub open spec fn all_granted(
    requests: Seq<(Seq<char>, RequestedExposure)>,
    done: Seq<ExposureModel>,
    realization: HostSocketExposureRealization,
    around: Surroundings,
    host_limit: int,
) -> Result<Seq<ExposureModel>, Chain>
    decreases requests.len(),
{
    if requests.len() == 0 {
        Ok(done)
    } else {
        match admitted(
            requests[0].0,
            requests[0].1,
            realization,
            done,
            around,
            host_limit,
        ) {
            Err(chain) => Err(chain),
            Ok(model) => all_granted(
                requests.skip(1),
                done.push(model),
                realization,
                around,
                host_limit,
            ),
        }
    }
}

/// The names of the exposures that a target asks for.
pub open spec fn asked_names(requests: Seq<(Seq<char>, RequestedExposure)>) -> Seq<Seq<char>> {
    requests.map_values(|r: (Seq<char>, RequestedExposure)| r.0)
}

/// The names of the exposures that a container gets.
pub open spec fn exposure_names(all: Seq<ExposureModel>) -> Seq<Seq<char>> {
    all.map_values(|e: ExposureModel| e.name)
}

/// Names in their order, none of them twice.
pub open spec fn names_ascend(names: Seq<Seq<char>>) -> bool {
    forall|i: int, j: int|
        0 <= i < j < names.len() ==> precedes(#[trigger] names[i], #[trigger] names[j])
}

proof fn granted_names_are_kept(
    requests: Seq<(Seq<char>, RequestedExposure)>,
    done: Seq<ExposureModel>,
    realization: HostSocketExposureRealization,
    around: Surroundings,
    host_limit: int,
)
    requires
        all_granted(requests, done, realization, around, host_limit) is Ok,
    ensures
        exposure_names(all_granted(requests, done, realization, around, host_limit)->Ok_0)
            == exposure_names(done) + asked_names(requests),
    decreases requests.len(),
{
    if requests.len() == 0 {
        assert(exposure_names(done) + asked_names(requests) =~= exposure_names(done));
    } else {
        reveal(admitted);
        let e = granted(requests[0].0, requests[0].1, realization);
        granted_names_are_kept(requests.skip(1), done.push(e), realization, around, host_limit);
        assert(exposure_names(done.push(e)) + asked_names(requests.skip(1)) =~= exposure_names(done)
            + asked_names(requests));
    }
}

/// What is wrong with the mounts from position `from` on.
pub open spec fn mounts_refused(mounts: Seq<RequestedMount>, from: int) -> Option<Chain>
    decreases mounts.len() - from,
{
    if from >= mounts.len() {
        None
    } else {
        either(
            unresolved(
                mounts[from].source.canonical,
                "canonicalize container mount source #"@ + decimal(from as nat) + " "@
                    + mounts[from].source.path@,
            ),
            either(
                not_normalized(
                    "container mount target #"@ + decimal(from as nat),
                    mounts[from].target@,
                ),
                mounts_refused(mounts, from + 1),
            ),
        )
    }
}

/// The mounts as they were asked for.
pub open spec fn mounts_as_asked(mounts: Seq<RequestedMount>) -> Seq<MountModel> {
    mounts.map_values(
        |m: RequestedMount|
            MountModel { source: m.source.path@, target: m.target@, readonly: m.readonly },
    )
}

/// The mounts with their sources resolved.
pub open spec fn mounts_resolved(mounts: Seq<RequestedMount>) -> Seq<MountModel> {
    mounts.map_values(
        |m: RequestedMount|
            MountModel { source: found(m.source.canonical), target: m.target@, readonly: m.readonly },
    )
}

/// What a target asks for, and the paths that the gateway manages around it.
#[derive(Debug)]
pub struct ExposureRequest {
    pub exposures: TextMap<RequestedExposure>,
    pub runtime_kind: ContainerRuntimeType,
    pub mounts: Vec<RequestedMount>,
    pub workspace_host: HostPath,
    pub workspace_container: String,
    pub container_home: String,
    pub control_host: Option<HostPath>,
    pub control_container: Option<String>,
    /// The longest path that a Unix socket can have on the host.
    pub host_limit: usize,
}

impl ExposureRequest {
    /// What is wrong with the managed paths themselves.
    pub open spec fn misplaced(self) -> Option<Chain> {
        either(
            unresolved(
                self.workspace_host.canonical,
                "canonicalize workspace host path "@ + self.workspace_host.path@,
            ),
            either(
                match self.control_host {
                    Some(control) => unresolved(
                        control.canonical,
                        "canonicalize control socket host directory "@ + control.path@,
                    ),
                    None => None,
                },
                either(
                    mounts_refused(self.mounts@, 0),
                    either(
                        not_normalized("workspace container path"@, self.workspace_container@),
                        either(
                            not_normalized("container home"@, self.container_home@),
                            either(
                                match self.control_container {
                                    Some(control) => not_normalized(
                                        "control socket container directory"@,
                                        control@,
                                    ),
                                    None => None,
                                },
                                unless(
                                    self.runtime_kind != ContainerRuntimeType::Colima,
                                    "host_socket_exposures are not supported with the colima runtime"@,
                                ),
                            ),
                        ),
                    ),
                ),
            ),
        )
    }

    pub open spec fn realization(self) -> HostSocketExposureRealization {
        match self.runtime_kind {
            ContainerRuntimeType::AppleContainer => HostSocketExposureRealization::PathReconnect,
            _ => HostSocketExposureRealization::PinnedInode,
        }
    }

    pub open spec fn surroundings(self) -> Surroundings {
        Surroundings {
            workspace_host: found(self.workspace_host.canonical),
            workspace_container: self.workspace_container@,
            container_home: self.container_home@,
            control_host: match self.control_host {
                Some(control) => Some(found(control.canonical)),
                None => None,
            },
            control_container: crate::text::opt_text(self.control_container),
            mounts: mounts_resolved(self.mounts@),
        }
    }

    /// What the container gets, or why it gets nothing.
    pub open spec fn answer(self) -> Result<PreparedModel, Chain> {
        if listing(self.exposures@).len() == 0 {
            Ok(
                PreparedModel {
                    mounts: mounts_as_asked(self.mounts@),
                    host_socket_exposures: Seq::empty(),
                    exposure_manifest: None,
                },
            )
        } else {
            match self.misplaced() {
                Some(chain) => Err(chain),
                None => match all_granted(
                    listing(self.exposures@),
                    Seq::empty(),
                    self.realization(),
                    self.surroundings(),
                    self.host_limit as int,
                ) {
                    Err(chain) => Err(chain),
                    Ok(all) => Ok(
                        PreparedModel {
                            mounts: mounts_resolved(self.mounts@),
                            host_socket_exposures: all,
                            exposure_manifest: Some(manifest_text(all)),
                        },
                    ),
                },
            }
        }
    }
}

fn mounts_unresolved(mounts: Vec<RequestedMount>) -> (r: Vec<ContainerMountSpec>)
    ensures
        mount_models(r@) == mounts_as_asked(mounts@),
{
    let mut out: Vec<ContainerMountSpec> = Vec::new();
    let mut i: usize = 0;
    while i < mounts.len()
        invariant
            i <= mounts.len(),
            mount_models(out@) == mounts_as_asked(mounts@).take(i as int),
        decreases mounts.len() - i,
    {
        let ghost before = mount_models(out@);
        let mount = ContainerMountSpec {
            source: mounts[i].source.path.clone(),
            target: mounts[i].target.clone(),
            readonly: mounts[i].readonly,
        };
        out.push(mount);
        assert(mount_models(out@) =~= before.push(mount@));
        assert(mount_models(out@) =~= mounts_as_asked(mounts@).take(i + 1));
        i += 1;
    }
    assert(mounts_as_asked(mounts@).take(i as int) =~= mounts_as_asked(mounts@));
    out
}

fn resolve_mounts(mounts: &Vec<RequestedMount>) -> (r: Result<Vec<ContainerMountSpec>, Failure>)
    ensures
        failed(r) == mounts_refused(mounts@, 0),
        r matches Ok(v) ==> mount_models(v@) == mounts_resolved(mounts@),
{
    let mut out: Vec<ContainerMountSpec> = Vec::new();
    let mut i: usize = 0;
    while i < mounts.len()
        invariant
            i <= mounts.len(),
            mounts_refused(mounts@, 0) == mounts_refused(mounts@, i as int),
            mount_models(out@) == mounts_resolved(mounts@).take(i as int),
        decreases mounts.len() - i,
    {
        let ghost before = mount_models(out@);
        let index = decimal_text(i as u64);
        let source = match &mounts[i].source.canonical {
            Ok(path) => path.clone(),
            Err(complaint) => {
                let doing = cat4(
                    "canonicalize container mount source #",
                    index.as_str(),
                    " ",
                    mounts[i].source.path.as_str(),
                );
                return Err(Failure::msg(complaint.as_str()).context(doing.as_str()));
            },
        };
        let label = cat2("container mount target #", index.as_str());
        if let Err(failure) = validate_normalized_container_path(
            label.as_str(),
            mounts[i].target.as_str(),
        ) {
            return Err(failure);
        }
        let mount = ContainerMountSpec {
            source,
            target: mounts[i].target.clone(),
            readonly: mounts[i].readonly,
        };
        out.push(mount);
        assert(mount_models(out@) =~= before.push(mount@));
        assert(mount_models(out@) =~= mounts_resolved(mounts@).take(i + 1));
        i += 1;
    }
    assert(mounts_resolved(mounts@).take(i as int) =~= mounts_resolved(mounts@));
    Ok(out)
}

/// Checks the managed paths, and gives them with their links resolved.
fn resolve_surroundings(request: &ExposureRequest) -> (r: Result<ManagedPaths, Failure>)
    ensures
        failed(r) == request.misplaced(),
        r matches Ok(paths) ==> paths@ == request.surroundings(),
{
    let workspace_host = match &request.workspace_host.canonical {
        Ok(path) => path.clone(),
        Err(complaint) => {
            let doing = cat2(
                "canonicalize workspace host path ",
                request.workspace_host.path.as_str(),
            );
            return Err(Failure::msg(complaint.as_str()).context(doing.as_str()));
        },
    };
    let control_host = match &request.control_host {
        Some(control) => match &control.canonical {
            Ok(path) => Some(path.clone()),
            Err(complaint) => {
                let doing = cat2(
                    "canonicalize control socket host directory ",
                    control.path.as_str(),
                );
                return Err(Failure::msg(complaint.as_str()).context(doing.as_str()));
            },
        },
        None => None,
    };
    let mounts = match resolve_mounts(&request.mounts) {
        Ok(mounts) => mounts,
        Err(failure) => return Err(failure),
    };
    if let Err(failure) = validate_normalized_container_path(
        "workspace container path",
        request.workspace_container.as_str(),
    ) {
        return Err(failure);
    }
    if let Err(failure) = validate_normalized_container_path(
        "container home",
        request.container_home.as_str(),
    ) {
        return Err(failure);
    }
    if let Some(control) = &request.control_container {
        if let Err(failure) = validate_normalized_container_path(
            "control socket container directory",
            control.as_str(),
        ) {
            return Err(failure);
        }
    }
    if request.runtime_kind == ContainerRuntimeType::Colima {
        return Err(
            Failure::msg("host_socket_exposures are not supported with the colima runtime"),
        );
    }
    Ok(
        ManagedPaths {
            workspace_host,
            workspace_container: request.workspace_container.clone(),
            container_home: request.container_home.clone(),
            control_host,
            control_container: request.control_container.clone(),
            mounts,
        },
    )
}

proof fn taken_paths_grow(done: Seq<ExposureModel>, e: ExposureModel)
    ensures
        in_path_order(host_paths(done.push(e))) == with_path(
            in_path_order(host_paths(done)),
            e.host_path,
        ),
        in_path_order(container_paths(done.push(e))) == with_path(
            in_path_order(container_paths(done)),
            e.container_path,
        ),
{
    let more = done.push(e);
    assert(host_paths(more).drop_last() =~= host_paths(done));
    assert(container_paths(more).drop_last() =~= container_paths(done));
    assert(host_paths(more).last() == e.host_path);
    assert(container_paths(more).last() == e.container_path);
}

fn admit_exposure(
    name: String,
    request: RequestedExposure,
    realization: HostSocketExposureRealization,
    host_limit: usize,
    taken_hosts: &Vec<String>,
    taken_containers: &Vec<String>,
    around: &ManagedPaths,
    Ghost(done): Ghost<Seq<ExposureModel>>,
) -> (r: Result<HostSocketExposureSpec, Failure>)
    requires
        texts(taken_hosts@) == in_path_order(host_paths(done)),
        texts(taken_containers@) == in_path_order(container_paths(done)),
    ensures
        outcome(r) == admitted(name@, request, realization, done, around@, host_limit as int),
{
    reveal(admitted);
    let exposure = match fit_exposure(name, request, realization, host_limit) {
        Ok(exposure) => exposure,
        Err(failure) => return Err(failure),
    };
    if let Err(failure) = reject_collision(
        exposure.name.as_str(),
        exposure.host_path.as_str(),
        exposure.container_path.as_str(),
        taken_hosts,
        taken_containers,
        around,
        Ghost(done),
    ) {
        return Err(failure);
    }
    Ok(exposure)
}

/// Decides which host sockets a container gets.
///
/// Without exposures the mounts pass through as they are. Otherwise every
/// managed path is resolved, each exposure in turn is checked by itself and
/// against everything around it, and the first complaint ends the preparation.
pub fn prepare_host_socket_exposures(request: ExposureRequest) -> (r: Result<
    PreparedContainerInputs,
    Failure,
>)
    ensures
        outcome(r) == request.answer(),
        r matches Ok(prepared) ==> exposure_names(prepared@.host_socket_exposures) == asked_names(
            listing(request.exposures@),
        ),
        r matches Ok(prepared) ==> names_ascend(exposure_names(prepared@.host_socket_exposures)),
{
    if request.exposures.len() == 0 {
        let prepared = PreparedContainerInputs {
            mounts: mounts_unresolved(request.mounts),
            host_socket_exposures: Vec::new(),
            exposure_manifest: None,
        };
        assert(prepared@.host_socket_exposures =~= Seq::empty());
        assert(exposure_names(prepared@.host_socket_exposures) =~= asked_names(
            listing(request.exposures@),
        ));
        return Ok(prepared);
    }
    let around = match resolve_surroundings(&request) {
        Ok(around) => around,
        Err(failure) => return Err(failure),
    };
    let realization = match request.runtime_kind {
        ContainerRuntimeType::AppleContainer => HostSocketExposureRealization::PathReconnect,
        _ => HostSocketExposureRealization::PinnedInode,
    };
    let host_limit: usize = request.host_limit;
    let mut taken_hosts: Vec<String> = Vec::new();
    let mut taken_containers: Vec<String> = Vec::new();
    let mut exposures: Vec<HostSocketExposureSpec> = Vec::new();
    let ghost answer = request.answer();
    let ghost requests = listing(request.exposures@);
    let ghost asked = asked_names(requests);
    let mut pending = request.exposures;
    let ghost goal = all_granted(requests, Seq::empty(), realization, around@, host_limit as int);
    proof {
        assert forall|i: int, j: int| 0 <= i < j < asked.len() implies precedes(
            #[trigger] asked[i],
            #[trigger] asked[j],
        ) by {
            assert(precedes(requests[i].0, requests[j].0));
        }
        if goal is Ok {
            granted_names_are_kept(requests, Seq::empty(), realization, around@, host_limit as int);
            assert(exposure_names(Seq::empty()) + asked =~= asked);
        }
    }
    assert(exposure_models(exposures@) =~= Seq::empty());
    assert(host_paths(Seq::empty()) =~= Seq::empty());
    assert(container_paths(Seq::empty()) =~= Seq::empty());
    assert(texts(taken_hosts@) =~= Seq::empty());
    assert(texts(taken_containers@) =~= Seq::empty());
    assert(goal is Err ==> answer == Err::<PreparedModel, Chain>(goal->Err_0));
    loop
        invariant
            answer == request.answer(),
            names_ascend(asked),
            goal is Ok ==> exposure_names(goal->Ok_0) == asked,
            goal is Err ==> answer == Err::<PreparedModel, Chain>(goal->Err_0),
            goal == all_granted(
                listing(pending@),
                exposure_models(exposures@),
                realization,
                around@,
                host_limit as int,
            ),
            texts(taken_hosts@) == in_path_order(host_paths(exposure_models(exposures@))),
            texts(taken_containers@) == in_path_order(container_paths(exposure_models(exposures@))),
        ensures
            listing(pending@).len() == 0,
        decreases listing(pending@).len(),
    {
        let ghost done = exposure_models(exposures@);
        let (name, next) = match pending.pop_first() {
            Some(first) => first,
            None => break,
        };
        let exposure = match admit_exposure(
            name,
            next,
            realization,
            host_limit,
            &taken_hosts,
            &taken_containers,
            &around,
            Ghost(done),
        ) {
            Ok(exposure) => exposure,
            Err(failure) => return Err(failure),
        };
        add_path(&mut taken_hosts, exposure.host_path.clone());
        add_path(&mut taken_containers, exposure.container_path.clone());
        proof {
            taken_paths_grow(done, exposure@);
        }
        exposures.push(exposure);
        assert(exposure_models(exposures@) =~= done.push(exposure@));
    }
    let manifest = exposure_manifest(&exposures);
    Ok(
        PreparedContainerInputs {
            mounts: around.mounts,
            host_socket_exposures: exposures,
            exposure_manifest: Some(manifest),
        },
    )
}

// ---------------------------------------------------------------- existing containers

pub open spec fn manifest_mismatch(
    container: Seq<char>,
    expected: Option<Seq<char>>,
    actual: Option<Seq<char>>,
) -> Option<Chain> {
    let name = "container "@ + quoted(container);
    match (expected, actual) {
        (None, None) => None,
        (Some(_), None) => Some(
            plain(
                name
                    + " is missing the host socket exposure manifest; remove and recreate the container"@,
            ),
        ),
        (None, Some(_)) => Some(
            plain(
                name
                    + " has host socket exposures but the target does not; remove and recreate the container"@,
            ),
        ),
        (Some(e), Some(a)) => unless(
            e == a,
            name
                + " host socket exposure manifest does not match the effective target; remove and recreate the container"@,
        ),
    }
}

/// Refuses a container whose manifest is not the one that the target has now.
pub fn validate_exposure_manifest_values(
    container_name: &str,
    expected: Option<&str>,
    actual: Option<&str>,
) -> (r: Result<(), Failure>)
    ensures
        refusal(r) == manifest_mismatch(container_name@, opt_str(expected), opt_str(actual)),
{
    let name = cat2("container ", quote(container_name).as_str());
    match (expected, actual) {
        (None, None) => Ok(()),
        (Some(_), None) => {
            let why =
                " is missing the host socket exposure manifest; remove and recreate the container";
            Err(Failure::msg(cat2(name.as_str(), why).as_str()))
        },
        (None, Some(_)) => {
            let why =
                " has host socket exposures but the target does not; remove and recreate the container";
            Err(Failure::msg(cat2(name.as_str(), why).as_str()))
        },
        (Some(e), Some(a)) => {
            if same(e, a) {
                return Ok(());
            }
            let why =
                " host socket exposure manifest does not match the effective target; remove and recreate the container";
            Err(Failure::msg(cat2(name.as_str(), why).as_str()))
        },
    }
}

pub open spec fn label_of(inspect: ContainerInspect, key: Seq<char>) -> Option<Seq<char>> {
    if inspect.labels().contains_key(key) {
        Some(inspect.labels()[key])
    } else {
        None
    }
}

/// Holds the manifest label of a container against prepared inputs.
pub fn validate_exposure_manifest(
    container_name: &str,
    inspect: &ContainerInspect,
    prepared: &PreparedContainerInputs,
) -> (r: Result<(), Failure>)
    ensures
        refusal(r) == manifest_mismatch(
            container_name@,
            prepared@.exposure_manifest,
            label_of(*inspect, HOST_SOCKET_EXPOSURE_MANIFEST_LABEL@),
        ),
{
    let actual = match inspect.config.labels.get(HOST_SOCKET_EXPOSURE_MANIFEST_LABEL) {
        Some(value) => Some(value.as_str()),
        None => None,
    };
    let expected = match &prepared.exposure_manifest {
        Some(value) => Some(value.as_str()),
        None => None,
    };
    validate_exposure_manifest_values(container_name, expected, actual)
}

/// The state of one exposure as the gateway reports it.
#[derive(Debug, Clone, PartialEq, Eq)]
pub struct HostSocketExposureStatus {
    pub name: String,
    pub realization: String,
    pub ready: bool,
    pub failure_category: Option<String>,
}

pub struct ExposureStatusModel {
    pub name: Seq<char>,
    pub realization: Seq<char>,
    pub ready: bool,
    pub failure_category: Option<Seq<char>>,
}

impl View for HostSocketExposureStatus {
    type V = ExposureStatusModel;

    open spec fn view(&self) -> ExposureStatusModel {
        ExposureStatusModel {
            name: self.name@,
            realization: self.realization@,
            ready: self.ready,
            failure_category: crate::text::opt_text(self.failure_category),
        }
    }
}

pub open spec fn status_models(v: Seq<HostSocketExposureStatus>) -> Seq<ExposureStatusModel> {
    Seq::new(v.len(), |i: int| v[i]@)
}

/// An exposure that is not ready, and why.
pub open spec fn not_ready(
    name: Seq<char>,
    realization: Seq<char>,
    category: Seq<char>,
) -> ExposureStatusModel {
    ExposureStatusModel { name, realization, ready: false, failure_category: Some(category) }
}

pub open spec fn is_ready(name: Seq<char>, realization: Seq<char>) -> ExposureStatusModel {
    ExposureStatusModel { name, realization, ready: true, failure_category: None }
}

/// How exposures are realized on a runtime.
pub open spec fn realization_name(kind: ContainerRuntimeType) -> Seq<char> {
    match kind {
        ContainerRuntimeType::AppleContainer => "path_reconnect"@,
        _ => "pinned_inode"@,
    }
}

fn realization_text(kind: ContainerRuntimeType) -> (r: String)
    ensures
        r@ == realization_name(kind),
{
    match kind {
        ContainerRuntimeType::AppleContainer => "path_reconnect".to_owned(),
        _ => "pinned_inode".to_owned(),
    }
}

/// A target without exposures still reports a container that was started with some.
pub fn removed_config_manifest_status(
    inspect: Option<&ContainerInspect>,
    runtime_kind: ContainerRuntimeType,
) -> (r: Vec<HostSocketExposureStatus>)
    ensures
        status_models(r@) == match inspect {
            Some(inspect) if inspect.labels().contains_key(
                HOST_SOCKET_EXPOSURE_MANIFEST_LABEL@,
            ) => seq![
                not_ready(
                    "container_manifest"@,
                    realization_name(runtime_kind),
                    "recreate_required"@,
                ),
            ],
            _ => Seq::empty(),
        },
{
    let mut out: Vec<HostSocketExposureStatus> = Vec::new();
    if let Some(inspect) = inspect {
        if inspect.config.labels.contains_key(HOST_SOCKET_EXPOSURE_MANIFEST_LABEL) {
            out.push(
                HostSocketExposureStatus {
                    name: "container_manifest".to_owned(),
                    realization: realization_text(runtime_kind),
                    ready: false,
                    failure_category: Some("recreate_required".to_owned()),
                },
            );
            assert(status_models(out@) =~= seq![
                not_ready(
                    "container_manifest"@,
                    realization_name(runtime_kind),
                    "recreate_required"@,
                ),
            ]);
            return out;
        }
    }
    assert(status_models(out@) =~= Seq::empty());
    out
}

/// Exposures whose sources could not be prepared.
pub fn unavailable_exposure_statuses(names: &Vec<String>, runtime_kind: ContainerRuntimeType) -> (r:
    Vec<HostSocketExposureStatus>)
    ensures
        status_models(r@) == texts(names@).map_values(
            |name: Seq<char>|
                not_ready(name, realization_name(runtime_kind), "source_unavailable"@),
        ),
{
    let mut out: Vec<HostSocketExposureStatus> = Vec::new();
    let mut i: usize = 0;
    while i < names.len()
        invariant
            i <= names.len(),
            out@.len() == i,
            forall|j: int|
                0 <= j < i ==> (#[trigger] out@[j])@ == not_ready(
                    names@[j]@,
                    realization_name(runtime_kind),
                    "source_unavailable"@,
                ),
        decreases names.len() - i,
    {
        out.push(
            HostSocketExposureStatus {
                name: names[i].clone(),
                realization: realization_text(runtime_kind),
                ready: false,
                failure_category: Some("source_unavailable".to_owned()),
            },
        );
        i += 1;
    }
    assert(status_models(out@) =~= texts(names@).map_values(
        |name: Seq<char>| not_ready(name, realization_name(runtime_kind), "source_unavailable"@),
    ));
    out
}

/// Why no exposure of a container can be ready, whatever its endpoints say.
pub open spec fn common_failure(
    container: Seq<char>,
    inspect: Option<ContainerInspect>,
    manifest: Option<Seq<char>>,
) -> Option<Seq<char>> {
    match inspect {
        None => Some("container_absent"@),
        Some(inspect) => if manifest_mismatch(
            container,
            manifest,
            label_of(inspect, HOST_SOCKET_EXPOSURE_MANIFEST_LABEL@),
        ) is Some {
            Some("recreate_required"@)
        } else if !inspect.state.running {
            Some("container_stopped"@)
        } else {
            None
        },
    }
}

pub open spec fn deref_inspect(inspect: Option<&ContainerInspect>) -> Option<ContainerInspect> {
    match inspect {
        Some(inspect) => Some(*inspect),
        None => None,
    }
}

/// Why no exposure can be ready; `None` where the endpoints decide.
pub fn exposure_common_failure(
    container_name: &str,
    inspect: Option<&ContainerInspect>,
    prepared: &PreparedContainerInputs,
) -> (r: Option<String>)
    ensures
        crate::text::opt_text(r) == common_failure(
            container_name@,
            deref_inspect(inspect),
            prepared@.exposure_manifest,
        ),
{
    match inspect {
        None => Some("container_absent".to_owned()),
        Some(inspect) => if validate_exposure_manifest(container_name, inspect, prepared).is_err() {
            Some("recreate_required".to_owned())
        } else if !inspect.state.running {
            Some("container_stopped".to_owned())
        } else {
            None
        },
    }
}

/// The status of one exposure of an existing container.
pub open spec fn exposure_status(
    e: ExposureModel,
    common: Option<Seq<char>>,
    endpoint_ready: bool,
) -> ExposureStatusModel {
    match common {
        Some(category) => not_ready(e.name, e.realization.name(), category),
        None => if endpoint_ready {
            is_ready(e.name, e.realization.name())
        } else {
            not_ready(e.name, e.realization.name(), "guest_endpoint_unavailable"@)
        },
    }
}

/// The statuses of prepared exposures.
pub open spec fn prepared_statuses(
    container: Seq<char>,
    inspect: Option<ContainerInspect>,
    prepared: PreparedModel,
    endpoints_ready: Seq<bool>,
) -> Seq<ExposureStatusModel> {
    Seq::new(
        prepared.host_socket_exposures.len(),
        |i: int|
            exposure_status(
                prepared.host_socket_exposures[i],
                common_failure(container, inspect, prepared.exposure_manifest),
                endpoints_ready[i],
            ),
    )
}

/// The statuses of prepared exposures, given what checking each endpoint gave.
pub fn prepared_exposure_statuses(
    container_name: &str,
    inspect: Option<&ContainerInspect>,
    prepared: &PreparedContainerInputs,
    endpoints_ready: &Vec<bool>,
) -> (r: Vec<HostSocketExposureStatus>)
    requires
        endpoints_ready@.len() == prepared.host_socket_exposures@.len(),
    ensures
        status_models(r@) == prepared_statuses(
            container_name@,
            deref_inspect(inspect),
            prepared@,
            endpoints_ready@,
        ),
{
    let common = exposure_common_failure(container_name, inspect, prepared);
    let exposures = &prepared.host_socket_exposures;
    let mut out: Vec<HostSocketExposureStatus> = Vec::new();
    let mut i: usize = 0;
    while i < exposures.len()
        invariant
            i <= exposures.len(),
            endpoints_ready@.len() == exposures@.len(),
            out@.len() == i,
            forall|j: int|
                0 <= j < i ==> (#[trigger] out@[j])@ == exposure_status(
                    exposures@[j]@,
                    crate::text::opt_text(common),
                    endpoints_ready@[j],
                ),
        decreases exposures.len() - i,
    {
        let failure_category = match &common {
            Some(category) => Some(category.clone()),
            None => if endpoints_ready[i] {
                None
            } else {
                Some("guest_endpoint_unavailable".to_owned())
            },
        };
        out.push(
            HostSocketExposureStatus {
                name: exposures[i].name.clone(),
                realization: exposures[i].realization.as_str().to_owned(),
                ready: failure_category.is_none(),
                failure_category,
            },
        );
        i += 1;
    }
    assert(status_models(out@) =~= prepared_statuses(
        container_name@,
        deref_inspect(inspect),
        prepared@,
        endpoints_ready@,
    ));
    out
}

/// How the exposures of a target stand: without configured ones, only a container
/// that was made with some is told of; without prepared ones, every configured
/// one lacks its source.
pub open spec fn current_statuses(
    kind: ContainerRuntimeType,
    container: Seq<char>,
    names: Seq<Seq<char>>,
    inspect: Option<ContainerInspect>,
    prepared: Option<PreparedModel>,
    endpoints_ready: Seq<bool>,
) -> Seq<ExposureStatusModel> {
    if names.len() == 0 {
        match inspect {
            Some(inspect) if inspect.labels().contains_key(
                HOST_SOCKET_EXPOSURE_MANIFEST_LABEL@,
            ) => seq![
                not_ready("container_manifest"@, realization_name(kind), "recreate_required"@),
            ],
            _ => Seq::empty(),
        }
    } else {
        match prepared {
            Some(prepared) => prepared_statuses(container, inspect, prepared, endpoints_ready),
            None => names.map_values(
                |name: Seq<char>| not_ready(name, realization_name(kind), "source_unavailable"@),
            ),
        }
    }
}

/// Tells how the exposures of a target stand. `names` are the configured ones,
/// `prepared` is what a container is to be made with, where that can be said,
/// and `endpoints_ready` is what checking each prepared one gave.
pub fn current_host_socket_exposure_statuses(
    runtime_kind: ContainerRuntimeType,
    container_name: &str,
    names: &Vec<String>,
    inspect: Option<&ContainerInspect>,
    prepared: Option<&PreparedContainerInputs>,
    endpoints_ready: &Vec<bool>,
) -> (r: Vec<HostSocketExposureStatus>)
    requires
        prepared matches Some(prepared) ==> endpoints_ready@.len()
            == prepared.host_socket_exposures@.len(),
    ensures
        status_models(r@) == current_statuses(
            runtime_kind,
            container_name@,
            texts(names@),
            deref_inspect(inspect),
            match prepared {
                Some(prepared) => Some(prepared@),
                None => None,
            },
            endpoints_ready@,
        ),
{
    if names.len() == 0 {
        return removed_config_manifest_status(inspect, runtime_kind);
    }
    match prepared {
        Some(prepared) => prepared_exposure_statuses(
            container_name,
            inspect,
            prepared,
            endpoints_ready,
        ),
        None => unavailable_exposure_statuses(names, runtime_kind),
    }
}

/// An exposure is ready only in a container that runs, that was made with the
/// same exposures, and where its endpoint answered.
pub proof fn ready_exposures_can_be_used(
    container: Seq<char>,
    inspect: Option<ContainerInspect>,
    prepared: PreparedModel,
    endpoints_ready: Seq<bool>,
    i: int,
)
    requires
        0 <= i < prepared.host_socket_exposures.len(),
        prepared_statuses(container, inspect, prepared, endpoints_ready)[i].ready,
    ensures
        endpoints_ready[i],
        inspect is Some,
        inspect->0.state.running,
        label_of(inspect->0, HOST_SOCKET_EXPOSURE_MANIFEST_LABEL@) == prepared.exposure_manifest,
{
}

// ---------------------------------------------------------------- endpoint checks

/// The two things an endpoint must be inside the container.
#[derive(Debug, Clone, Copy, PartialEq, Eq, Structural)]
pub enum EndpointProbe {
    IsSocket,
    IsWritable,
}

impl EndpointProbe {
    pub open spec fn flag(self) -> Seq<char> {
        match self {
            EndpointProbe::IsSocket => "-S"@,
            EndpointProbe::IsWritable => "-w"@,
        }
    }

    pub open spec fn description(self) -> Seq<char> {
        match self {
            EndpointProbe::IsSocket => "a Unix socket"@,
            EndpointProbe::IsWritable => "accessible"@,
        }
    }

    /// The command that runs the probe inside the container.
    pub fn command(self, container_path: &str) -> (r: Vec<String>)
        ensures
            texts(r@) == seq!["/bin/test"@, self.flag(), container_path@],
    {
        let flag = match self {
            EndpointProbe::IsSocket => "-S".to_owned(),
            EndpointProbe::IsWritable => "-w".to_owned(),
        };
        let mut out: Vec<String> = Vec::new();
        out.push("/bin/test".to_owned());
        out.push(flag);
        out.push(container_path.to_owned());
        assert(texts(out@) =~= seq!["/bin/test"@, self.flag(), container_path@]);
        out
    }
}

/// What an endpoint check does next.
#[derive(Debug)]
pub enum EndpointStep {
    Probe(EndpointProbe),
    /// Wait for the retry interval or what is left of the time, then go on.
    Wait(EndpointProbe),
    Ready,
    Failed(Failure),
}

pub open spec fn step_after_probe(
    probe: EndpointProbe,
    exit: Result<i32, Failure>,
    name: Seq<char>,
    user: Seq<char>,
    step: EndpointStep,
) -> bool {
    match exit {
        Err(failure) => step matches EndpointStep::Failed(f) && f@ == under(
            "check host socket exposure "@ + quoted(name) + " container endpoint as "@ + quoted(
                user,
            ),
            failure@,
        ),
        Ok(code) => if code != 0 {
            step == EndpointStep::Wait(probe)
        } else if probe == EndpointProbe::IsSocket {
            step == EndpointStep::Probe(EndpointProbe::IsWritable)
        } else {
            step == EndpointStep::Ready
        },
    }
}

/// Goes on after a probe has run: both probes must exit with 0, a failed one is
/// tried again, and a probe that could not run ends the check.
pub fn after_probe(
    probe: EndpointProbe,
    exit: Result<i32, Failure>,
    exposure: &HostSocketExposureSpec,
) -> (step: EndpointStep)
    ensures
        step_after_probe(probe, exit, exposure.name@, exposure.readiness_user@, step),
{
    match exit {
        Err(failure) => {
            let doing = cat4(
                "check host socket exposure ",
                quote(exposure.name.as_str()).as_str(),
                " container endpoint as ",
                quote(exposure.readiness_user.as_str()).as_str(),
            );
            EndpointStep::Failed(failure.context(doing.as_str()))
        },
        Ok(code) => if code != 0 {
            EndpointStep::Wait(probe)
        } else {
            match probe {
                EndpointProbe::IsSocket => EndpointStep::Probe(EndpointProbe::IsWritable),
                EndpointProbe::IsWritable => EndpointStep::Ready,
            }
        },
    }
}

/// Goes on after a wait: from the first probe while there is time, and with the
/// failed check otherwise.
pub fn after_wait(probe: EndpointProbe, expired: bool, exposure: &HostSocketExposureSpec) -> (step:
    EndpointStep)
    ensures
        !expired ==> step == EndpointStep::Probe(EndpointProbe::IsSocket),
        expired ==> (step matches EndpointStep::Failed(f) && f@ == plain(
            "host socket exposure "@ + quoted(exposure.name@) + " container endpoint failed the "@
                + probe.description() + " check as configured readiness user "@ + quoted(
                exposure.readiness_user@,
            ),
        )),
{
    if !expired {
        return EndpointStep::Probe(EndpointProbe::IsSocket);
    }
    let description = match probe {
        EndpointProbe::IsSocket => "a Unix socket",
        EndpointProbe::IsWritable => "accessible",
    };
    let mut message = cat5(
        "host socket exposure ",
        quote(exposure.name.as_str()).as_str(),
        " container endpoint failed the ",
        description,
        " check as configured readiness user ",
    );
    message.append(quote(exposure.readiness_user.as_str()).as_str());
    EndpointStep::Failed(Failure::msg(message.as_str()))
}

// ---------------------------------------------------------------- laws

/// Two exposures that overlap on neither side.
pub open spec fn apart(a: ExposureModel, b: ExposureModel) -> bool {
    !overlaps(a.host_path, b.host_path) && !overlaps(a.container_path, b.container_path)
}

/// An exposure that touches nothing around it.
pub open spec fn clear_of(e: ExposureModel, around: Surroundings) -> bool {
    &&& !overlaps(e.host_path, around.workspace_host)
    &&& around.control_host is Some ==> !overlaps(e.host_path, around.control_host->0)
    &&& !overlaps(e.container_path, around.workspace_container)
    &&& !overlaps(e.container_path, around.container_home)
    &&& around.control_container is Some ==> !overlaps(
        e.container_path,
        around.control_container->0,
    )
    &&& forall|i: int|
        0 <= i < around.mounts.len() ==> !overlaps(
            e.host_path,
            (#[trigger] around.mounts[i]).source,
        ) && !overlaps(e.container_path, around.mounts[i].target)
}

/// An exposure whose paths can be handed to a runtime and to a socket call.
pub open spec fn well_placed(e: ExposureModel, host_limit: int) -> bool {
    &&& is_normalized(e.container_path)
    &&& !has_separator(e.host_path) && !has_separator(e.container_path)
    &&& encode_utf8(e.host_path).len() <= host_limit
    &&& encode_utf8(e.container_path).len() <= LINUX_UNIX_SOCKET_PATH_MAX_BYTES
}

proof fn first_overlap_none(
    label: Seq<char>,
    path: Seq<char>,
    other_label: Seq<char>,
    others: Seq<Seq<char>>,
    i: int,
)
    requires
        first_overlap(label, path, other_label, others) is None,
        0 <= i < others.len(),
    ensures
        !overlaps(path, others[i]),
    decreases others.len(),
{
    if i > 0 {
        first_overlap_none(label, path, other_label, others.skip(1), i - 1);
    }
}

proof fn first_mount_overlap_none(
    name: Seq<char>,
    host: Seq<char>,
    container: Seq<char>,
    mounts: Seq<MountModel>,
    i: int,
)
    requires
        first_mount_overlap(name, host, container, mounts) is None,
        0 <= i < mounts.len(),
    ensures
        !overlaps(host, mounts[i].source),
        !overlaps(container, mounts[i].target),
    decreases mounts.len(),
{
    if i > 0 {
        first_mount_overlap_none(name, host, container, mounts.skip(1), i - 1);
    }
}

proof fn with_path_keeps(paths: Seq<Seq<char>>, path: Seq<char>, kept: Seq<char>)
    requires
        paths.contains(kept) || kept == path,
    ensures
        with_path(paths, path).contains(kept),
    decreases paths.len(),
{
    if paths.len() == 0 {
        assert(with_path(paths, path)[0] == path);
    } else if crate::unix_path::path_precedes(path, paths.last()) {
        let inner = with_path(paths.drop_last(), path);
        let outer = inner.push(paths.last());
        if kept == paths.last() {
            assert(outer.last() == kept);
        } else {
            if paths.contains(kept) {
                let k = choose|k: int| 0 <= k < paths.len() && paths[k] == kept;
                assert(paths.drop_last()[k] == kept);
            }
            with_path_keeps(paths.drop_last(), path, kept);
            let k = choose|k: int| 0 <= k < inner.len() && inner[k] == kept;
            assert(outer[k] == kept);
        }
    } else {
        let outer = paths.push(path);
        if kept == path {
            assert(outer.last() == kept);
        } else {
            let k = choose|k: int| 0 <= k < paths.len() && paths[k] == kept;
            assert(outer[k] == kept);
        }
    }
}

proof fn in_path_order_keeps(paths: Seq<Seq<char>>, i: int)
    requires
        0 <= i < paths.len(),
    ensures
        in_path_order(paths).contains(paths[i]),
    decreases paths.len(),
{
    if i < paths.len() - 1 {
        in_path_order_keeps(paths.drop_last(), i);
        assert(paths.drop_last()[i] == paths[i]);
    }
    with_path_keeps(in_path_order(paths.drop_last()), paths.last(), paths[i]);
}

proof fn no_collision(e: ExposureModel, done: Seq<ExposureModel>, around: Surroundings)
    requires
        collision(e.name, e.host_path, e.container_path, done, around) is None,
    ensures
        clear_of(e, around),
        forall|i: int| 0 <= i < done.len() ==> apart(e, #[trigger] done[i]),
{
    reveal(collision);
    let another = "another host socket exposure path"@;
    assert forall|i: int| 0 <= i < done.len() implies apart(e, #[trigger] done[i]) by {
        let hosts = host_paths(done);
        in_path_order_keeps(hosts, i);
        let k = choose|k: int|
            0 <= k < in_path_order(hosts).len() && in_path_order(hosts)[k] == hosts[i];
        first_overlap_none(host_label(e.name), e.host_path, another, in_path_order(hosts), k);
        let containers = container_paths(done);
        in_path_order_keeps(containers, i);
        let k = choose|k: int|
            0 <= k < in_path_order(containers).len() && in_path_order(containers)[k]
                == containers[i];
        first_overlap_none(
            container_label(e.name),
            e.container_path,
            another,
            in_path_order(containers),
            k,
        );
    }
    assert forall|i: int| 0 <= i < around.mounts.len() implies !overlaps(
        e.host_path,
        (#[trigger] around.mounts[i]).source,
    ) && !overlaps(e.container_path, around.mounts[i].target) by {
        first_mount_overlap_none(e.name, e.host_path, e.container_path, around.mounts, i);
    }
}

proof fn all_granted_sound(
    requests: Seq<(Seq<char>, RequestedExposure)>,
    done: Seq<ExposureModel>,
    realization: HostSocketExposureRealization,
    around: Surroundings,
    host_limit: int,
)
    requires
        all_granted(requests, done, realization, around, host_limit) is Ok,
        forall|i: int, j: int|
            0 <= i < j < done.len() ==> apart(#[trigger] done[j], #[trigger] done[i]),
        forall|i: int|
            0 <= i < done.len() ==> clear_of(#[trigger] done[i], around) && well_placed(
                done[i],
                host_limit,
            ),
    ensures
        ({
            let all = all_granted(requests, done, realization, around, host_limit)->Ok_0;
            &&& all.len() == done.len() + requests.len()
            &&& forall|i: int, j: int|
                0 <= i < j < all.len() ==> apart(#[trigger] all[j], #[trigger] all[i])
            &&& forall|i: int|
                0 <= i < all.len() ==> clear_of(#[trigger] all[i], around) && well_placed(
                    all[i],
                    host_limit,
                )
        }),
    decreases requests.len(),
{
    if requests.len() > 0 {
        reveal(admitted);
        reveal(unfit);
        let e = granted(requests[0].0, requests[0].1, realization);
        no_collision(e, done, around);
        assert(well_placed(e, host_limit));
        let more = done.push(e);
        assert forall|i: int, j: int| 0 <= i < j < more.len() implies apart(
            #[trigger] more[j],
            #[trigger] more[i],
        ) by {
            if j < done.len() {
                assert(apart(done[j], done[i]));
            }
        }
        all_granted_sound(requests.skip(1), more, realization, around, host_limit);
    }
}

/// Exposures that are granted together overlap neither each other nor a path
/// that the gateway manages, and every one of their paths can be used as it is.
pub proof fn granted_exposures_are_disjoint(request: ExposureRequest)
    requires
        request.answer() is Ok,
        listing(request.exposures@).len() > 0,
    ensures
        ({
            let all = request.answer()->Ok_0.host_socket_exposures;
            let around = request.surroundings();
            &&& all.len() == listing(request.exposures@).len()
            &&& forall|i: int, j: int|
                0 <= i < j < all.len() ==> apart(#[trigger] all[j], #[trigger] all[i])
            &&& forall|i: int|
                0 <= i < all.len() ==> clear_of(#[trigger] all[i], around) && well_placed(
                    all[i],
                    request.host_limit as int,
                )
        }),
{
    all_granted_sound(
        listing(request.exposures@),
        Seq::empty(),
        request.realization(),
        request.surroundings(),
        request.host_limit as int,
    );
}

/// Two exposures that a manifest does not tell apart: who checks readiness, and
/// the owner and permissions of the socket, make no difference, nor does the
/// socket's identity where the path is looked up for each connection.
pub open spec fn alike(a: ExposureModel, b: ExposureModel) -> bool {
    &&& a.name == b.name
    &&& a.host_path == b.host_path
    &&& a.container_path == b.container_path
    &&& a.selinux_relabel == b.selinux_relabel
    &&& a.realization == b.realization
    &&& a.realization == HostSocketExposureRealization::PinnedInode ==> a.source_identity.device
        == b.source_identity.device && a.source_identity.inode == b.source_identity.inode
}

/// Lists of exposures that are alike have the same manifest.
pub proof fn manifest_ignores_readiness_user(a: Seq<ExposureModel>, b: Seq<ExposureModel>)
    requires
        a.len() == b.len(),
        forall|i: int| 0 <= i < a.len() ==> alike(#[trigger] a[i], b[i]),
    ensures
        manifest_bytes(a) == manifest_bytes(b),
        manifest_text(a) == manifest_text(b),
    decreases a.len(),
{
    reveal(exposure_bytes);
    if a.len() > 0 {
        assert(alike(a.last(), b.last()));
        manifest_bytes_alike(a.drop_last(), b.drop_last());
    } else {
        assert(a =~= b);
    }
}

proof fn manifest_bytes_alike(a: Seq<ExposureModel>, b: Seq<ExposureModel>)
    requires
        a.len() == b.len(),
        forall|i: int| 0 <= i < a.len() ==> alike(#[trigger] a[i], b[i]),
    ensures
        exposures_bytes(a) == exposures_bytes(b),
    decreases a.len(),
{
    reveal(exposure_bytes);
    if a.len() > 0 {
        assert(alike(a.last(), b.last()));
        manifest_bytes_alike(a.drop_last(), b.drop_last());
    }
}

proof fn be_bytes_injective(n: u64, m: u64)
    requires
        be_bytes(n) == be_bytes(m),
    ensures
        n == m,
{
    let x = be_bytes(n);
    let y = be_bytes(m);
    assert(x[0] == y[0] && x[1] == y[1] && x[2] == y[2] && x[3] == y[3]);
    assert(x[4] == y[4] && x[5] == y[5] && x[6] == y[6] && x[7] == y[7]);
    let (a0, b0) = (n / 0x100_0000_0000_0000, m / 0x100_0000_0000_0000);
    assert(a0 < 256 && b0 < 256);
    assert(n == m) by (bit_vector)
        requires
            n / 0x100_0000_0000_0000 == m / 0x100_0000_0000_0000,
            (n / 0x1_0000_0000_0000) % 256 == (m / 0x1_0000_0000_0000) % 256,
            (n / 0x100_0000_0000) % 256 == (m / 0x100_0000_0000) % 256,
            (n / 0x1_0000_0000) % 256 == (m / 0x1_0000_0000) % 256,
            (n / 0x100_0000) % 256 == (m / 0x100_0000) % 256,
            (n / 0x1_0000) % 256 == (m / 0x1_0000) % 256,
            (n / 0x100) % 256 == (m / 0x100) % 256,
            n % 256 == m % 256,
    ;
}

proof fn number_then_rest(n: u64, m: u64, x: Seq<u8>, y: Seq<u8>)
    requires
        be_bytes(n) + x == be_bytes(m) + y,
    ensures
        n == m,
        x == y,
{
    let left = be_bytes(n) + x;
    let right = be_bytes(m) + y;
    assert(left.take(8) =~= be_bytes(n));
    assert(right.take(8) =~= be_bytes(m));
    be_bytes_injective(n, m);
    assert(left.skip(8) =~= x);
    assert(right.skip(8) =~= y);
}

proof fn field_then_rest(a: Seq<char>, b: Seq<char>, x: Seq<u8>, y: Seq<u8>)
    requires
        field_bytes(a) + x == field_bytes(b) + y,
        encode_utf8(a).len() <= u64::MAX,
        encode_utf8(b).len() <= u64::MAX,
    ensures
        a == b,
        x == y,
{
    reveal(field_bytes);
    let (p, q) = (encode_utf8(a), encode_utf8(b));
    assert(field_bytes(a) + x =~= be_bytes(p.len() as u64) + (p + x));
    assert(field_bytes(b) + y =~= be_bytes(q.len() as u64) + (q + y));
    number_then_rest(p.len() as u64, q.len() as u64, p + x, q + y);
    assert((p + x).take(p.len() as int) =~= p);
    assert((q + y).take(q.len() as int) =~= q);
    assert((p + x).skip(p.len() as int) =~= x);
    assert((q + y).skip(q.len() as int) =~= y);
    vstd::utf8::encode_utf8_decode_utf8(a);
    vstd::utf8::encode_utf8_decode_utf8(b);
}

/// Texts whose byte counts fit in the eight bytes that precede them.
pub open spec fn countable(e: ExposureModel) -> bool {
    &&& encode_utf8(e.name).len() <= u64::MAX
    &&& encode_utf8(e.host_path).len() <= u64::MAX
    &&& encode_utf8(e.container_path).len() <= u64::MAX
    &&& encode_utf8(e.selinux_relabel).len() <= u64::MAX
}

proof fn realization_names_short(r: HostSocketExposureRealization)
    ensures
        encode_utf8(r.name()).len() <= u64::MAX,
        HostSocketExposureRealization::PathReconnect.name()
            != HostSocketExposureRealization::PinnedInode.name(),
{
    reveal_strlit("path_reconnect");
    reveal_strlit("pinned_inode");
    vstd::utf8::is_ascii_chars_encode_utf8(r.name());
    assert("path_reconnect"@.len() != "pinned_inode"@.len());
}

proof fn regroup(a: Seq<u8>, b: Seq<u8>, c: Seq<u8>)
    ensures
        (a + b) + c == a + (b + c),
{
    assert((a + b) + c =~= a + (b + c));
}

proof fn exposure_then_rest(a: ExposureModel, b: ExposureModel, x: Seq<u8>, y: Seq<u8>)
    requires
        exposure_bytes(a) + x == exposure_bytes(b) + y,
        countable(a),
        countable(b),
    ensures
        alike(a, b),
        x == y,
{
    reveal(exposure_bytes);
    let (a5, b5) = (source_bytes(a), source_bytes(b));
    let (a4, b4) = (
        field_bytes(a.realization.name()) + a5,
        field_bytes(b.realization.name()) + b5,
    );
    let (a3, b3) = (field_bytes(a.selinux_relabel) + a4, field_bytes(b.selinux_relabel) + b4);
    let (a2, b2) = (field_bytes(a.container_path) + a3, field_bytes(b.container_path) + b3);
    let (a1, b1) = (field_bytes(a.host_path) + a2, field_bytes(b.host_path) + b2);
    regroup(field_bytes(a.name), a1, x);
    regroup(field_bytes(b.name), b1, y);
    field_then_rest(a.name, b.name, a1 + x, b1 + y);
    regroup(field_bytes(a.host_path), a2, x);
    regroup(field_bytes(b.host_path), b2, y);
    field_then_rest(a.host_path, b.host_path, a2 + x, b2 + y);
    regroup(field_bytes(a.container_path), a3, x);
    regroup(field_bytes(b.container_path), b3, y);
    field_then_rest(a.container_path, b.container_path, a3 + x, b3 + y);
    regroup(field_bytes(a.selinux_relabel), a4, x);
    regroup(field_bytes(b.selinux_relabel), b4, y);
    field_then_rest(a.selinux_relabel, b.selinux_relabel, a4 + x, b4 + y);
    regroup(field_bytes(a.realization.name()), a5, x);
    regroup(field_bytes(b.realization.name()), b5, y);
    realization_names_short(a.realization);
    realization_names_short(b.realization);
    field_then_rest(a.realization.name(), b.realization.name(), a5 + x, b5 + y);
    source_then_rest(a, b, x, y);
}

proof fn source_then_rest(a: ExposureModel, b: ExposureModel, x: Seq<u8>, y: Seq<u8>)
    requires
        a.realization == b.realization,
        source_bytes(a) + x == source_bytes(b) + y,
    ensures
        a.realization == HostSocketExposureRealization::PinnedInode ==> a.source_identity.device
            == b.source_identity.device && a.source_identity.inode == b.source_identity.inode,
        x == y,
{
    if a.realization == HostSocketExposureRealization::PinnedInode {
        let (da, db) = (a.source_identity.device, b.source_identity.device);
        let (ia, ib) = (a.source_identity.inode, b.source_identity.inode);
        regroup(be_bytes(da), be_bytes(ia), x);
        regroup(be_bytes(db), be_bytes(ib), y);
        number_then_rest(da, db, be_bytes(ia) + x, be_bytes(ib) + y);
        number_then_rest(ia, ib, x, y);
    } else {
        assert(source_bytes(a) + x =~= x);
        assert(source_bytes(b) + y =~= y);
    }
}

proof fn exposures_bytes_front(all: Seq<ExposureModel>)
    requires
        all.len() > 0,
    ensures
        exposures_bytes(all) == exposure_bytes(all[0]) + exposures_bytes(all.skip(1)),
        exposures_bytes(all).len() > 0,
    decreases all.len(),
{
    exposure_bytes_some(all[0]);
    let (first, last) = (exposure_bytes(all[0]), exposure_bytes(all.last()));
    if all.len() == 1 {
        assert(all.drop_last() =~= Seq::empty());
        assert(all.skip(1) =~= Seq::empty());
        assert(Seq::<u8>::empty() + first =~= first + Seq::<u8>::empty());
    } else {
        exposures_bytes_front(all.drop_last());
        assert(all.drop_last().skip(1) =~= all.skip(1).drop_last());
        regroup(first, exposures_bytes(all.skip(1).drop_last()), last);
    }
}

proof fn exposure_bytes_some(e: ExposureModel)
    ensures
        exposure_bytes(e).len() > 0,
{
    reveal(exposure_bytes);
    reveal(field_bytes);
}

proof fn exposures_bytes_injective(a: Seq<ExposureModel>, b: Seq<ExposureModel>)
    requires
        exposures_bytes(a) == exposures_bytes(b),
        forall|i: int| 0 <= i < a.len() ==> countable(#[trigger] a[i]),
        forall|i: int| 0 <= i < b.len() ==> countable(#[trigger] b[i]),
    ensures
        a.len() == b.len(),
        forall|i: int| 0 <= i < a.len() ==> alike(#[trigger] a[i], b[i]),
    decreases a.len(),
{
    if a.len() > 0 {
        exposures_bytes_front(a);
    }
    if b.len() > 0 {
        exposures_bytes_front(b);
    }
    if a.len() > 0 && b.len() > 0 {
        exposure_then_rest(a[0], b[0], exposures_bytes(a.skip(1)), exposures_bytes(b.skip(1)));
        exposures_bytes_injective(a.skip(1), b.skip(1));
        assert forall|i: int| 0 <= i < a.len() implies alike(#[trigger] a[i], b[i]) by {
            if i > 0 {
                assert(alike(a.skip(1)[i - 1], b.skip(1)[i - 1]));
            }
        }
    }
}

/// The bytes that a manifest sums up tell apart all exposures that are not
/// alike: two lists with the same bytes are alike entry by entry. In particular
/// the bytes change with the inode of a pinned socket.
pub proof fn manifest_tells_exposures_apart(a: Seq<ExposureModel>, b: Seq<ExposureModel>)
    requires
        manifest_bytes(a) == manifest_bytes(b),
        forall|i: int| 0 <= i < a.len() ==> countable(#[trigger] a[i]),
        forall|i: int| 0 <= i < b.len() ==> countable(#[trigger] b[i]),
    ensures
        a.len() == b.len(),
        forall|i: int| 0 <= i < a.len() ==> alike(#[trigger] a[i], b[i]),
{
    let head = encode_utf8("aw-gateway-host-socket-exposures\0v1\0"@);
    assert(manifest_bytes(a).skip(head.len() as int) =~= exposures_bytes(a));
    assert(manifest_bytes(b).skip(head.len() as int) =~= exposures_bytes(b));
    exposures_bytes_injective(a, b);
}

// ---------------------------------------------------------------- what is granted

/// An exposure can be had by itself exactly where its paths and its user were filled
/// in soundly, its host path can be reached and names a socket, and both paths can be
/// handed to a runtime and to a socket call.
pub proof fn exposures_are_fit_by_themselves(
    name: Seq<char>,
    r: RequestedExposure,
    host_limit: int,
)
    ensures
        unfit(name, r, host_limit) is None <==> {
            &&& r.host_path is Ok && r.container_path is Ok && r.user is Ok && r.user_check is Ok
            &&& is_absolute_path(r.host_path->Ok_0@)
            &&& entry_name(r.host_path->Ok_0@) is Some && r.parent is Ok
            &&& is_absolute_path(r.container_path->Ok_0@) && is_normalized(r.container_path->Ok_0@)
            &&& ({
                let host = joined_path(r.parent->Ok_0@, entry_name(r.host_path->Ok_0@)->0);
                &&& !host.contains(':') && !host.contains(',')
                &&& encode_utf8(host).len() <= host_limit
            })
            &&& !r.container_path->Ok_0@.contains(':') && !r.container_path->Ok_0@.contains(',')
            &&& encode_utf8(r.container_path->Ok_0@).len() <= 107
            &&& r.metadata matches Ok(m) && m.is_socket
        },
{
    reveal(unfit);
}

/// What is granted is what was asked for: under its name, the socket at the host path
/// without following a final link, at the container path, for the user, relabelled as
/// asked, and known by its file, its owner and its permissions.
pub open spec fn is_as_asked(
    e: ExposureModel,
    name: Seq<char>,
    r: RequestedExposure,
    kind: ContainerRuntimeType,
) -> bool {
    &&& e.name == name
    &&& r.host_path matches Ok(path) && r.parent matches Ok(parent) && entry_name(path@) matches Some(
        entry,
    ) && e.host_path == joined_path(parent@, entry)
    &&& r.container_path matches Ok(path) && e.container_path == path@
    &&& r.user matches Ok(user) && e.readiness_user == user@
    &&& e.selinux_relabel == r.selinux_relabel@
    &&& kind == ContainerRuntimeType::AppleContainer <==> e.realization
        == HostSocketExposureRealization::PathReconnect
    &&& r.metadata matches Ok(m) && {
        &&& m.is_socket
        &&& e.source_identity.device == m.device && e.source_identity.inode == m.inode
        &&& e.source_identity.uid == m.uid && e.source_identity.gid == m.gid
        &&& e.source_identity.mode == m.mode & 0o777
    }
}

proof fn granted_one_by_one(
    requests: Seq<(Seq<char>, RequestedExposure)>,
    done: Seq<ExposureModel>,
    realization: HostSocketExposureRealization,
    around: Surroundings,
    host_limit: int,
)
    requires
        all_granted(requests, done, realization, around, host_limit) is Ok,
    ensures
        ({
            let all = all_granted(requests, done, realization, around, host_limit)->Ok_0;
            &&& all.len() == done.len() + requests.len()
            &&& forall|i: int| 0 <= i < done.len() ==> #[trigger] all[i] == done[i]
            &&& forall|k: int|
                #![trigger requests[k]]
                0 <= k < requests.len() ==> all[done.len() + k] == granted(
                    requests[k].0,
                    requests[k].1,
                    realization,
                ) && unfit(requests[k].0, requests[k].1, host_limit) is None
        }),
    decreases requests.len(),
{
    if requests.len() > 0 {
        reveal(admitted);
        let e = granted(requests[0].0, requests[0].1, realization);
        let rest = requests.skip(1);
        let more = done.push(e);
        granted_one_by_one(rest, more, realization, around, host_limit);
        let all = all_granted(requests, done, realization, around, host_limit)->Ok_0;
        assert forall|i: int| 0 <= i < done.len() implies #[trigger] all[i] == done[i] by {
            assert(all[i] == more[i]);
        }
        assert forall|k: int|
            #![trigger requests[k]]
            0 <= k < requests.len() implies all[done.len() + k] == granted(
            requests[k].0,
            requests[k].1,
            realization,
        ) && unfit(requests[k].0, requests[k].1, host_limit) is None by {
            if k == 0 {
                assert(all[done.len() as int] == more[done.len() as int]);
            } else {
                assert(rest[k - 1] == requests[k]);
                assert(all[more.len() + (k - 1)] == granted(
                    rest[k - 1].0,
                    rest[k - 1].1,
                    realization,
                ));
            }
        }
    }
}

/// A container gets the exposures that its target asks for, in the order of their
/// names and each as it was asked for, and the mounts that were asked for. Where it
/// gets exposures, their sources are resolved and a manifest sums them up.
pub proof fn exposures_are_granted_as_asked(request: ExposureRequest)
    requires
        request.answer() is Ok,
    ensures
        ({
            let got = request.answer()->Ok_0;
            let asked = listing(request.exposures@);
            &&& got.host_socket_exposures.len() == asked.len()
            &&& forall|i: int|
                0 <= i < asked.len() ==> is_as_asked(
                    #[trigger] got.host_socket_exposures[i],
                    asked[i].0,
                    asked[i].1,
                    request.runtime_kind,
                )
            &&& got.exposure_manifest is Some <==> asked.len() > 0
            &&& got.exposure_manifest matches Some(text) ==> text == manifest_text(
                got.host_socket_exposures,
            )
            &&& got.mounts.len() == request.mounts@.len()
            &&& forall|i: int|
                0 <= i < got.mounts.len() ==> {
                    &&& (#[trigger] got.mounts[i]).target == request.mounts@[i].target@
                    &&& got.mounts[i].readonly == request.mounts@[i].readonly
                    &&& asked.len() == 0 ==> got.mounts[i].source == request.mounts@[i].source.path@
                    &&& asked.len() > 0 ==> (request.mounts@[i].source.canonical matches Ok(path)
                        && got.mounts[i].source == path@)
                }
        }),
{
    let asked = listing(request.exposures@);
    if asked.len() > 0 {
        let got = request.answer()->Ok_0;
        granted_one_by_one(
            asked,
            Seq::empty(),
            request.realization(),
            request.surroundings(),
            request.host_limit as int,
        );
        assert forall|i: int| 0 <= i < asked.len() implies is_as_asked(
            #[trigger] got.host_socket_exposures[i],
            asked[i].0,
            asked[i].1,
            request.runtime_kind,
        ) by {
            let _ = asked[i];
            exposures_are_fit_by_themselves(asked[i].0, asked[i].1, request.host_limit as int);
        }
        assert forall|i: int| 0 <= i < request.mounts@.len() implies (
        #[trigger] request.mounts@[i]).source.canonical is Ok by {
            sound_mounts_resolve(request.mounts@, 0, i);
        }
    }
}

proof fn sound_mounts_resolve(mounts: Seq<RequestedMount>, from: int, i: int)
    requires
        0 <= from <= i < mounts.len(),
        mounts_refused(mounts, from) is None,
    ensures
        mounts[i].source.canonical is Ok,
        is_normalized(mounts[i].target@),
    decreases i - from,
{
    if from < i {
        sound_mounts_resolve(mounts, from + 1, i);
    }
}

/// The managed paths are those of the request: its workspace, its home and its
/// control sockets on both sides, with links resolved on the host, and its mounts.
pub proof fn surroundings_are_the_requests_own(request: ExposureRequest)
    requires
        request.misplaced() is None,
    ensures
        ({
            let around = request.surroundings();
            &&& request.workspace_host.canonical matches Ok(path) && around.workspace_host == path@
            &&& around.workspace_container == request.workspace_container@
            &&& around.container_home == request.container_home@
            &&& around.control_host is Some <==> request.control_host is Some
            &&& request.control_host matches Some(control) ==> (control.canonical matches Ok(path)
                && around.control_host == Some(path@))
            &&& around.control_container == crate::text::opt_text(request.control_container)
            &&& around.mounts.len() == request.mounts@.len()
            &&& forall|i: int|
                0 <= i < around.mounts.len() ==> (request.mounts@[i].source.canonical matches Ok(path)
                    && (#[trigger] around.mounts[i]).source == path@ && around.mounts[i].target
                    == request.mounts@[i].target@)
        }),
{
    assert forall|i: int| 0 <= i < request.mounts@.len() implies (
    #[trigger] request.mounts@[i]).source.canonical is Ok by {
        sound_mounts_resolve(request.mounts@, 0, i);
    }
}

/// Exposures are refused before they are looked at exactly where a managed path
/// cannot be resolved or is not normalized, or where the runtime cannot have them.
pub proof fn managed_paths_must_be_sound(request: ExposureRequest)
    ensures
        request.misplaced() is None <==> {
            &&& request.workspace_host.canonical is Ok
            &&& request.control_host matches Some(control) ==> control.canonical is Ok
            &&& mounts_refused(request.mounts@, 0) is None
            &&& is_absolute_path(request.workspace_container@) && is_normalized(
                request.workspace_container@,
            )
            &&& is_absolute_path(request.container_home@) && is_normalized(request.container_home@)
            &&& request.control_container matches Some(control) ==> is_absolute_path(control@)
                && is_normalized(control@)
            &&& request.runtime_kind != ContainerRuntimeType::Colima
        },
{
}

/// An exposure is admitted exactly where it is fit by itself, overlaps none that was
/// admitted before it, and touches nothing around it.
pub proof fn exposures_are_admitted(
    name: Seq<char>,
    r: RequestedExposure,
    realization: HostSocketExposureRealization,
    done: Seq<ExposureModel>,
    around: Surroundings,
    host_limit: int,
)
    ensures
        ({
            let e = granted(name, r, realization);
            &&& admitted(name, r, realization, done, around, host_limit) is Ok <==> {
                &&& unfit(name, r, host_limit) is None
                &&& clear_of(e, around)
                &&& forall|i: int| 0 <= i < done.len() ==> apart(e, #[trigger] done[i])
            }
            &&& admitted(name, r, realization, done, around, host_limit) matches Ok(model) ==> model
                == e
        }),
{
    reveal(admitted);
    let e = granted(name, r, realization);
    if admitted(name, r, realization, done, around, host_limit) is Ok {
        no_collision(e, done, around);
    }
    if clear_of(e, around) && forall|i: int| 0 <= i < done.len() ==> apart(e, #[trigger] done[i]) {
        reveal(collision);
        let hosts = host_paths(done);
        let containers = container_paths(done);
        assert forall|i: int| 0 <= i < hosts.len() implies !overlaps(
            e.host_path,
            #[trigger] hosts[i],
        ) by {
            assert(apart(e, done[i]));
        }
        assert forall|i: int| 0 <= i < containers.len() implies !overlaps(
            e.container_path,
            #[trigger] containers[i],
        ) by {
            assert(apart(e, done[i]));
        }
        apart_paths_pass(
            host_label(name),
            e.host_path,
            "another host socket exposure path"@,
            hosts,
        );
        apart_paths_pass(
            container_label(name),
            e.container_path,
            "another host socket exposure path"@,
            containers,
        );
        apart_mounts_pass(name, e.host_path, e.container_path, around.mounts);
    }
}

proof fn apart_paths_pass(
    label: Seq<char>,
    path: Seq<char>,
    other_label: Seq<char>,
    paths: Seq<Seq<char>>,
)
    requires
        forall|i: int| 0 <= i < paths.len() ==> !overlaps(path, #[trigger] paths[i]),
    ensures
        first_overlap(label, path, other_label, in_path_order(paths)) is None,
{
    let ordered = in_path_order(paths);
    assert forall|i: int| 0 <= i < ordered.len() implies !overlaps(path, #[trigger] ordered[i]) by {
        in_path_order_adds_nothing(paths, ordered[i]);
        let k = choose|k: int| 0 <= k < paths.len() && paths[k] == ordered[i];
        assert(!overlaps(path, paths[k]));
    }
    no_overlap_passes(label, path, other_label, ordered);
}

proof fn no_overlap_passes(
    label: Seq<char>,
    path: Seq<char>,
    other_label: Seq<char>,
    others: Seq<Seq<char>>,
)
    requires
        forall|i: int| 0 <= i < others.len() ==> !overlaps(path, #[trigger] others[i]),
    ensures
        first_overlap(label, path, other_label, others) is None,
    decreases others.len(),
{
    if others.len() > 0 {
        let rest = others.skip(1);
        assert forall|i: int| 0 <= i < rest.len() implies !overlaps(path, #[trigger] rest[i]) by {
            assert(rest[i] == others[i + 1]);
        }
        no_overlap_passes(label, path, other_label, rest);
    }
}

proof fn apart_mounts_pass(
    name: Seq<char>,
    host: Seq<char>,
    container: Seq<char>,
    mounts: Seq<MountModel>,
)
    requires
        forall|i: int|
            0 <= i < mounts.len() ==> !overlaps(host, (#[trigger] mounts[i]).source) && !overlaps(
                container,
                mounts[i].target,
            ),
    ensures
        first_mount_overlap(name, host, container, mounts) is None,
    decreases mounts.len(),
{
    if mounts.len() > 0 {
        let rest = mounts.skip(1);
        assert forall|i: int| 0 <= i < rest.len() implies !overlaps(
            host,
            (#[trigger] rest[i]).source,
        ) && !overlaps(container, rest[i].target) by {
            assert(rest[i] == mounts[i + 1]);
        }
        apart_mounts_pass(name, host, container, rest);
    }
}

proof fn with_path_adds_nothing(paths: Seq<Seq<char>>, path: Seq<char>, held: Seq<char>)
    requires
        with_path(paths, path).contains(held),
    ensures
        paths.contains(held) || held == path,
    decreases paths.len(),
{
    let now = with_path(paths, path);
    let k = choose|k: int| 0 <= k < now.len() && now[k] == held;
    if paths.len() > 0 && crate::unix_path::path_precedes(path, paths.last()) {
        let front = paths.drop_last();
        let inner = with_path(front, path);
        if k < inner.len() {
            assert(inner[k] == held);
            assert(inner.contains(held));
            with_path_adds_nothing(front, path, held);
            if front.contains(held) {
                let i = choose|i: int| 0 <= i < front.len() && front[i] == held;
                assert(paths[i] == held);
            }
        } else {
            assert(paths[paths.len() - 1] == held);
        }
    } else if k < paths.len() {
        assert(paths[k] == held);
    }
}

proof fn in_path_order_adds_nothing(paths: Seq<Seq<char>>, held: Seq<char>)
    requires
        in_path_order(paths).contains(held),
    ensures
        paths.contains(held),
    decreases paths.len(),
{
    if paths.len() > 0 {
        let front = paths.drop_last();
        with_path_adds_nothing(in_path_order(front), paths.last(), held);
        if held == paths.last() {
            assert(paths[paths.len() - 1] == held);
        } else {
            in_path_order_adds_nothing(front, held);
            let i = choose|i: int| 0 <= i < front.len() && front[i] == held;
            assert(paths[i] == held);
        }
    }
}

/// The source of an ordinary mount is a regular file or a directory; a link, a socket
/// or a special file is refused, and so is what cannot be inspected or does not name
/// an entry.
pub proof fn mounts_come_from_files(
    label: Seq<char>,
    path: Seq<char>,
    parent: Result<String, String>,
    file_type: Result<SourceFileType, String>,
)
    ensures
        mount_source_refused(label, path, file_type) is None <==> file_type == Ok::<
            SourceFileType,
            String,
        >(SourceFileType::Regular) || file_type == Ok::<SourceFileType, String>(
            SourceFileType::Directory,
        ),
        final_entry_refused(label, path, parent) is None <==> entry_name(path) is Some && parent
            is Ok,
{
}

/// A container is kept exactly where its manifest is the one that its target has now:
/// the same one, or none on either side.
pub proof fn manifests_must_agree(
    container: Seq<char>,
    expected: Option<Seq<char>>,
    actual: Option<Seq<char>>,
)
    ensures
        manifest_mismatch(container, expected, actual) is None <==> expected == actual,
{
}

/// Why an exposure is not ready: there is no container, it was made with others, it
/// does not run, or its endpoint did not answer, in this order; an exposure is ready
/// exactly where none of these holds.
pub proof fn exposures_are_ready_or_explained(
    container: Seq<char>,
    inspect: Option<ContainerInspect>,
    prepared: PreparedModel,
    endpoints_ready: Seq<bool>,
    i: int,
)
    requires
        0 <= i < prepared.host_socket_exposures.len(),
    ensures
        ({
            let all = prepared_statuses(container, inspect, prepared, endpoints_ready);
            let status = all[i];
            let agrees = inspect matches Some(seen) && label_of(
                seen,
                "io.aw-gateway.host-socket-exposures.v1"@,
            ) == prepared.exposure_manifest;
            &&& all.len() == prepared.host_socket_exposures.len()
            &&& status.name == prepared.host_socket_exposures[i].name
            &&& status.realization == prepared.host_socket_exposures[i].realization.name()
            &&& status.ready <==> agrees && inspect->0.state.running && endpoints_ready[i]
            &&& status.ready <==> status.failure_category is None
            &&& inspect is None ==> status.failure_category == Some("container_absent"@)
            &&& inspect is Some && !agrees ==> status.failure_category == Some(
                "recreate_required"@,
            )
            &&& agrees && !inspect->0.state.running ==> status.failure_category == Some(
                "container_stopped"@,
            )
            &&& agrees && inspect->0.state.running && !endpoints_ready[i]
                ==> status.failure_category == Some("guest_endpoint_unavailable"@)
        }),
{
}

/// A target's exposures are reported one by one: as prepared, or each without its
/// source where they could not be. A target without exposures reports nothing, but for
/// a container that was made with some and must be made again.
pub proof fn configured_exposures_are_reported(
    kind: ContainerRuntimeType,
    container: Seq<char>,
    names: Seq<Seq<char>>,
    inspect: Option<ContainerInspect>,
    prepared: Option<PreparedModel>,
    endpoints_ready: Seq<bool>,
)
    ensures
        ({
            let all = current_statuses(kind, container, names, inspect, prepared, endpoints_ready);
            let left_over = inspect matches Some(seen) && seen.labels().contains_key(
                "io.aw-gateway.host-socket-exposures.v1"@,
            );
            &&& names.len() == 0 && !left_over ==> all.len() == 0
            &&& names.len() == 0 && left_over ==> all.len() == 1 && all[0].name
                == "container_manifest"@ && !all[0].ready && all[0].failure_category == Some(
                "recreate_required"@,
            )
            &&& names.len() > 0 && prepared is None ==> all.len() == names.len() && forall|i: int|
                0 <= i < all.len() ==> (#[trigger] all[i]).name == names[i] && !all[i].ready
                    && all[i].failure_category == Some("source_unavailable"@)
            &&& names.len() > 0 ==> (prepared matches Some(inputs) ==> all == prepared_statuses(
                container,
                inspect,
                inputs,
                endpoints_ready,
            ))
        }),
        kind == ContainerRuntimeType::AppleContainer ==> realization_name(kind)
            == HostSocketExposureRealization::PathReconnect.name(),
        kind != ContainerRuntimeType::AppleContainer ==> realization_name(kind)
            == HostSocketExposureRealization::PinnedInode.name(),
        HostSocketExposureRealization::PathReconnect.name() == "path_reconnect"@,
        HostSocketExposureRealization::PinnedInode.name() == "pinned_inode"@,
{
}

/// An endpoint is ready exactly once it was found to be a socket and then to be
/// writable; a probe that says no is tried again, and one that could not run ends the
/// check.
pub proof fn endpoints_are_probed_twice(
    probe: EndpointProbe,
    exit: Result<i32, Failure>,
    name: Seq<char>,
    user: Seq<char>,
    step: EndpointStep,
)
    requires
        step_after_probe(probe, exit, name, user, step),
    ensures
        step is Ready <==> probe == EndpointProbe::IsWritable && exit == Ok::<i32, Failure>(0),
        step matches EndpointStep::Probe(next) ==> next == EndpointProbe::IsWritable && probe
            == EndpointProbe::IsSocket && exit == Ok::<i32, Failure>(0),
        step is Wait <==> (exit matches Ok(code) && code != 0),
        step matches EndpointStep::Wait(again) ==> again == probe,
        step is Failed <==> exit is Err,
        EndpointProbe::IsSocket.flag() == "-S"@,
        EndpointProbe::IsWritable.flag() == "-w"@,
{
}

/// A label is the value that a container has under its name, and there is none
/// where the container has none.
pub proof fn labels_are_looked_up_by_name(inspect: ContainerInspect, key: Seq<char>)
    ensures
        label_of(inspect, key) is Some <==> inspect.labels().contains_key(key),
        label_of(inspect, key) matches Some(value) ==> inspect.labels().contains_pair(key, value),
{
}

/// An endpoint is asked first whether it is a socket and second whether it can be
/// written, and what fails is told by what was asked.
pub proof fn probes_are_told_apart(probe: EndpointProbe)
    ensures
        probe.description() == "a Unix socket"@ <==> probe is IsSocket,
        probe.description() == "accessible"@ <==> probe is IsWritable,
{
    reveal_strlit("a Unix socket");
    reveal_strlit("accessible");
    assert("a Unix socket"@.len() == 13 && "accessible"@.len() == 10);
}

/// A probe that could not be run fails with its reason behind the exposure and the
/// user that it was run for.
pub proof fn probes_that_fail_are_told(
    probe: EndpointProbe,
    failure: Failure,
    name: Seq<char>,
    user: Seq<char>,
    step: EndpointStep,
)
    requires
        step_after_probe(probe, Err(failure), name, user, step),
    ensures
        step matches EndpointStep::Failed(f) && f@.len() == failure@.len() + 1 && f@.skip(1)
            == failure@ && f@[0].1 == "check host socket exposure "@ + quoted(name)
            + " container endpoint as "@ + quoted(user),
{
    if let EndpointStep::Failed(f) = step {
        assert(f@.skip(1) =~= failure@);
    }
}

/// A manifest names its digest and holds it in 64 digits; nothing else is one.
pub proof fn manifests_hold_a_digest(digits: Seq<char>)
    ensures
        is_manifest("sha256:"@ + digits) <==> digits.len() == 64 && is_lower_hex(digits),
{
    reveal_strlit("sha256:");
    let text = "sha256:"@ + digits;
    assert(text.take(7) =~= "sha256:"@);
    assert(text.skip(7) =~= digits);
}

} // verus!
