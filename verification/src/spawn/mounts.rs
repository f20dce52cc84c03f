//! How the guest creates each mount of its tree: the filesystem options of
//! the synthetic filesystems and the flags that capture a bind mount.

use super::errors::{PostSpawnGuest, PostSpawnGuestOther};
use crate::meowix::stat::{is_directory_mode, is_regular_mode, S_IFDIR, S_IFMT, S_IFREG};
use super::fmt::{decimal, format_decimal};
use crate::mounts::{mount_attr_bits, BindMount, MountInner, ProcHidepid, ProcPidNamespace, ProcSubset};
use crate::text::literal;
use vstd::prelude::*;
use vstd::string::StringSliceAdditionalSpecFns;

verus! {

/// `OPEN_TREE_CLONE`.
pub const OPEN_TREE_CLONE: u32 = 0x1;

/// Flag asking `open_tree(2)` for a new mount namespace holding the tree.
pub const OPEN_TREE_NAMESPACE: u32 = 0x2;

/// `OPEN_TREE_CLOEXEC`.
pub const OPEN_TREE_CLOEXEC: u32 = 0x80000;

/// `AT_EMPTY_PATH`.
pub const AT_EMPTY_PATH: u32 = 0x1000;

/// `AT_RECURSIVE`.
pub const AT_RECURSIVE: u32 = 0x8000;

/// Size of the buffer that holds the `size=` option of a tmpfs: the digits
/// of a [`u32`], a unit suffix and the terminator.
pub const TMPFS_SIZE_CAPACITY: usize = 12;

/// A filesystem the guest creates with `fsopen(2)`.
#[derive(PartialEq, Eq, Structural, Copy, Clone, Debug)]
pub enum FsType {
    /// `proc`.
    Proc,
    /// `mqueue`.
    Mqueue,
    /// `tmpfs`.
    Tmpfs,
}

/// How to create a synthetic filesystem: its type, the string options set
/// with `fsconfig(2)` in order, the pid namespace descriptor to set, and
/// the mount attributes of `fsmount(2)`.
#[derive(Clone, Debug)]
pub struct FilesystemPlan {
    /// The filesystem type.
    pub fstype: FsType,
    /// The string options, key and value.
    pub options: Vec<(Vec<u8>, Vec<u8>)>,
    /// The `pidns` option, a descriptor.
    pub pid_namespace: Option<i32>,
    /// The `MOUNT_ATTR_*` flags.
    pub mount_attr: u32,
}

/// The options as byte strings.
pub open spec fn options_view(options: Seq<(Vec<u8>, Vec<u8>)>) -> Seq<(Seq<u8>, Seq<u8>)> {
    options.map_values(|o: (Vec<u8>, Vec<u8>)| (o.0@, o.1@))
}

/// The value of the `hidepid=` option.
pub open spec fn hidepid_text(hidepid: ProcHidepid) -> Seq<u8> {
    match hidepid {
        ProcHidepid::Off => "off".spec_bytes(),
        ProcHidepid::NoAccess => "noaccess".spec_bytes(),
        ProcHidepid::Invisible => "invisible".spec_bytes(),
        ProcHidepid::Ptraceable => "ptraceable".spec_bytes(),
    }
}

/// The `mode=` option of a tmpfs: the permission bits, `0o7777` of them, as
/// four octal digits.
pub open spec fn tmpfs_mode_text(bits: u32) -> Seq<u8> {
    let p = bits % 4096;
    seq![(48 + p / 512) as u8, (48 + (p / 64) % 8) as u8, (48 + (p / 8) % 8) as u8, (48 + p % 8) as u8]
}

/// The `mode=` text of a tmpfs is four octal digits whose value is the
/// permission, set-id and sticky bits of the mode.
pub proof fn lemma_tmpfs_mode_is_octal(bits: u32)
    ensures
        tmpfs_mode_text(bits).len() == 4,
        forall|i: int| 0 <= i < 4 ==> 48 <= #[trigger] tmpfs_mode_text(bits)[i] <= 55,
        (tmpfs_mode_text(bits)[0] - 48) * 512 + (tmpfs_mode_text(bits)[1] - 48) * 64 + (
        tmpfs_mode_text(bits)[2] - 48) * 8 + (tmpfs_mode_text(bits)[3] - 48) == bits % 4096,
{
    let p = (bits % 4096) as int;
    assert(p / 512 < 8);
    assert(p == (p / 512) * 512 + ((p / 64) % 8) * 64 + ((p / 8) % 8) * 8 + p % 8) by (nonlinear_arith)
        requires
            0 <= p < 4096,
    ;
}

/// How a synthetic filesystem of a mount is created: `None` for mounts that
/// are not filesystems of their own; an error when the size of a tmpfs does
/// not fit its C string buffer or holds a nul byte.
pub open spec fn spec_filesystem(inner: MountInner) -> Option<
    Result<(FsType, Seq<(Seq<u8>, Seq<u8>)>, Option<i32>, u32), PostSpawnGuest>,
> {
    match inner {
        MountInner::Procfs { hidepid, gid, subset, namespace, attributes } => Some(
            Ok(
                (
                    FsType::Proc,
                    seq![("hidepid".spec_bytes(), hidepid_text(hidepid))] + (match gid {
                        Some(g) => seq![("gid".spec_bytes(), decimal(g.spec_raw() as int))],
                        None => Seq::empty(),
                    }) + (if subset == ProcSubset::Pid {
                        seq![("subset".spec_bytes(), "pid".spec_bytes())]
                    } else {
                        Seq::empty()
                    }),
                    match namespace {
                        ProcPidNamespace::Fd(fd) => Some(fd),
                        ProcPidNamespace::Guest => None,
                    },
                    mount_attr_bits(attributes),
                ),
            ),
        ),
        MountInner::Mqueue { attributes } => Some(
            Ok((FsType::Mqueue, Seq::empty(), None, mount_attr_bits(attributes))),
        ),
        MountInner::Tmpfs { size, owner, permissions, attributes } => match size {
            Some(s) => if s@.len() >= TMPFS_SIZE_CAPACITY {
                Some(Err(PostSpawnGuest::CStrBufferTooSmall))
            } else if s@.contains(0u8) {
                Some(Err(PostSpawnGuest::FromBytesWithNulError))
            } else {
                Some(
                    Ok(
                        (
                            FsType::Tmpfs,
                            seq![
                                ("size".spec_bytes(), s@),
                                ("mode".spec_bytes(), tmpfs_mode_text(permissions.bits)),
                            ],
                            None,
                            mount_attr_bits(attributes),
                        ),
                    ),
                )
            },
            None => Some(
                Ok(
                    (
                        FsType::Tmpfs,
                        seq![("mode".spec_bytes(), tmpfs_mode_text(permissions.bits))],
                        None,
                        mount_attr_bits(attributes),
                    ),
                ),
            ),
        },
        _ => None,
    }
}

/// The view of a plan.
pub open spec fn plan_view(p: FilesystemPlan) -> (FsType, Seq<(Seq<u8>, Seq<u8>)>, Option<i32>, u32) {
    (p.fstype, options_view(p.options@), p.pid_namespace, p.mount_attr)
}

/// Formats the `mode=` option of a tmpfs.
pub fn tmpfs_mode(bits: u32) -> (text: Vec<u8>)
    ensures
        text@ == tmpfs_mode_text(bits),
{
    let p = bits % 4096;
    let text = vec![
        (48 + p / 512) as u8,
        (48 + (p / 64) % 8) as u8,
        (48 + (p / 8) % 8) as u8,
        (48 + p % 8) as u8,
    ];
    assert(text@ =~= tmpfs_mode_text(bits));
    text
}

/// Whether bytes hold a nul byte.
fn holds_nul(bytes: &Vec<u8>) -> (r: bool)
    ensures
        r == bytes@.contains(0u8),
{
    let mut i: usize = 0;
    while i < bytes.len()
        invariant
            i <= bytes@.len(),
            forall|j: int| 0 <= j < i ==> bytes@[j] != 0u8,
        decreases bytes@.len() - i,
    {
        if bytes[i] == 0u8 {
            return true;
        }
        i = i + 1;
    }
    false
}

/// How the synthetic filesystem of a mount is created.
pub fn filesystem_plan(inner: &MountInner) -> (r: Option<Result<FilesystemPlan, PostSpawnGuest>>)
    ensures
        match spec_filesystem(*inner) {
            None => r is None,
            Some(Err(e)) => r == Some(Err::<FilesystemPlan, PostSpawnGuest>(e)),
            Some(Ok(p)) => r matches Some(Ok(plan)) && plan_view(plan) == p,
        },
{
    match inner {
        MountInner::Procfs { hidepid, gid, subset, namespace, attributes } => {
            let mut options: Vec<(Vec<u8>, Vec<u8>)> = Vec::new();
            let value = match hidepid {
                ProcHidepid::Off => literal("off"),
                ProcHidepid::NoAccess => literal("noaccess"),
                ProcHidepid::Invisible => literal("invisible"),
                ProcHidepid::Ptraceable => literal("ptraceable"),
            };
            options.push((literal("hidepid"), value));
            let ghost o1 = options_view(options@);
            if let Some(g) = gid {
                options.push((literal("gid"), format_decimal(g.into_raw() as i128)));
            }
            let ghost o2 = options_view(options@);
            if *subset == ProcSubset::Pid {
                options.push((literal("subset"), literal("pid")));
            }
            let pid_namespace = match namespace {
                ProcPidNamespace::Fd(fd) => Some(*fd),
                ProcPidNamespace::Guest => None,
            };
            let plan = FilesystemPlan {
                fstype: FsType::Proc,
                options,
                pid_namespace,
                mount_attr: attributes.into_mount_attr(),
            };
            assert(options_view(plan.options@) =~= spec_filesystem(*inner)->Some_0->Ok_0.1);
            Some(Ok(plan))
        },
        MountInner::Mqueue { attributes } => {
            let plan = FilesystemPlan {
                fstype: FsType::Mqueue,
                options: Vec::new(),
                pid_namespace: None,
                mount_attr: attributes.into_mount_attr(),
            };
            assert(options_view(plan.options@) =~= Seq::empty());
            Some(Ok(plan))
        },
        MountInner::Tmpfs { size, owner, permissions, attributes } => {
            let mut options: Vec<(Vec<u8>, Vec<u8>)> = Vec::new();
            if let Some(s) = size {
                if s.len() >= TMPFS_SIZE_CAPACITY {
                    return Some(Err(PostSpawnGuest::CStrBufferTooSmall));
                }
                if holds_nul(s) {
                    return Some(Err(PostSpawnGuest::FromBytesWithNulError));
                }
                options.push((literal("size"), vstd::slice::slice_to_vec(s.as_slice())));
            }
            options.push((literal("mode"), tmpfs_mode(permissions.bits)));
            let plan = FilesystemPlan {
                fstype: FsType::Tmpfs,
                options,
                pid_namespace: None,
                mount_attr: attributes.into_mount_attr(),
            };
            assert(options_view(plan.options@) =~= spec_filesystem(*inner)->Some_0->Ok_0.1);
            Some(Ok(plan))
        },
        _ => None,
    }
}

/// How a bind mount is captured: the descriptor `open_tree(2)` clones a
/// namespace from, the file's name and descriptor for a file, the mount
/// attributes, whether the capture is recursive, and the flags of the two
/// `open_tree(2)` calls: the one that makes a namespace of the source and the
/// one that clones the tree inside it.
#[derive(Clone, Debug)]
pub struct BindPlan {
    /// Descriptor whose tree becomes a namespace.
    pub source_fd: i32,
    /// For a file, its name and its descriptor, to check the captured file.
    pub file: Option<(Vec<u8>, i32)>,
    /// The `MOUNT_ATTR_*` flags.
    pub mount_attr: u32,
    /// Whether the mounts below come along.
    pub is_recursive: bool,
    /// Flags of the `open_tree(2)` that makes the namespace.
    pub namespace_flags: u32,
    /// Flags of the `open_tree_attr(2)` that clones the tree.
    pub clone_flags: u32,
}

/// The flag of recursion, when recursive.
pub open spec fn recursive_flag(recursive: bool) -> u32 {
    if recursive {
        AT_RECURSIVE
    } else {
        0
    }
}

/// How a bind mount is captured; `None` for mounts that are not bind
/// mounts. Files are captured without recursion.
pub open spec fn spec_bind(inner: MountInner) -> Option<(i32, Option<(Seq<u8>, i32)>, u32, bool, u32, u32)> {
    match inner {
        MountInner::Bind(BindMount::File { dirfd, name, fd, attributes }) => Some(
            (
                dirfd,
                Some((name@, fd)),
                mount_attr_bits(attributes),
                false,
                OPEN_TREE_NAMESPACE | OPEN_TREE_CLOEXEC | AT_EMPTY_PATH,
                OPEN_TREE_CLONE | OPEN_TREE_CLOEXEC,
            ),
        ),
        MountInner::Bind(BindMount::Directory { fd, attributes, is_recursive }) => Some(
            (
                fd,
                None,
                mount_attr_bits(attributes),
                is_recursive,
                OPEN_TREE_NAMESPACE | OPEN_TREE_CLOEXEC | AT_EMPTY_PATH | recursive_flag(is_recursive),
                OPEN_TREE_CLONE | OPEN_TREE_CLOEXEC | recursive_flag(is_recursive),
            ),
        ),
        _ => None,
    }
}

/// The view of a bind plan.
pub open spec fn bind_view(p: BindPlan) -> (i32, Option<(Seq<u8>, i32)>, u32, bool, u32, u32) {
    (
        p.source_fd,
        match p.file {
            Some((name, fd)) => Some((name@, fd)),
            None => None,
        },
        p.mount_attr,
        p.is_recursive,
        p.namespace_flags,
        p.clone_flags,
    )
}

/// How a bind mount is captured.
pub fn bind_plan(inner: &MountInner) -> (r: Option<BindPlan>)
    ensures
        match spec_bind(*inner) {
            None => r is None,
            Some(p) => r matches Some(plan) && bind_view(plan) == p,
        },
{
    match inner {
        MountInner::Bind(BindMount::File { dirfd, name, fd, attributes }) => Some(
            BindPlan {
                source_fd: *dirfd,
                file: Some((vstd::slice::slice_to_vec(name.as_slice()), *fd)),
                mount_attr: attributes.into_mount_attr(),
                is_recursive: false,
                namespace_flags: OPEN_TREE_NAMESPACE | OPEN_TREE_CLOEXEC | AT_EMPTY_PATH,
                clone_flags: OPEN_TREE_CLONE | OPEN_TREE_CLOEXEC,
            },
        ),
        MountInner::Bind(BindMount::Directory { fd, attributes, is_recursive }) => {
            let recursive = if *is_recursive {
                AT_RECURSIVE
            } else {
                0
            };
            Some(
                BindPlan {
                    source_fd: *fd,
                    file: None,
                    mount_attr: attributes.into_mount_attr(),
                    is_recursive: *is_recursive,
                    namespace_flags: OPEN_TREE_NAMESPACE | OPEN_TREE_CLOEXEC | AT_EMPTY_PATH
                        | recursive,
                    clone_flags: OPEN_TREE_CLONE | OPEN_TREE_CLOEXEC | recursive,
                },
            )
        },
        _ => None,
    }
}

/// What a resolved mount puts at its destination in the guest's root.
#[derive(PartialEq, Eq, Structural, Copy, Clone, Debug)]
pub enum PlacementKind {
    /// A detached mount of a directory.
    DirectoryMount,
    /// A detached mount of a file.
    FileMount,
    /// A file created with given contents.
    File,
    /// An empty directory.
    Directory,
    /// A symlink.
    Symlink,
}

/// What to do at a destination.
#[derive(PartialEq, Eq, Structural, Copy, Clone, Debug)]
pub enum Placement {
    /// Mount onto what is already there.
    UseExisting,
    /// Create a directory there.
    CreateDirectory,
    /// Create a file there.
    CreateFile,
    /// Create a symlink there.
    CreateSymlink,
}

/// What to do at a destination, from what goes there and the mode of what
/// is there already (`None` when nothing is): a mount needs a mount point
/// of its own kind and creates one where there is none; a synthetic file,
/// directory or symlink must not replace anything.
pub open spec fn spec_placement(kind: PlacementKind, existing: Option<u32>) -> Result<
    Placement,
    PostSpawnGuest,
> {
    match (kind, existing) {
        (PlacementKind::DirectoryMount, None) => Ok(Placement::CreateDirectory),
        (PlacementKind::DirectoryMount, Some(mode)) => if mode & S_IFMT == S_IFDIR {
            Ok(Placement::UseExisting)
        } else {
            Err(PostSpawnGuest::Other(PostSpawnGuestOther::InvalidDirectoryMountPoint))
        },
        (PlacementKind::FileMount, None) => Ok(Placement::CreateFile),
        (PlacementKind::FileMount, Some(mode)) => if mode & S_IFMT == S_IFREG {
            Ok(Placement::UseExisting)
        } else {
            Err(PostSpawnGuest::Other(PostSpawnGuestOther::InvalidRegularFileMountPoint))
        },
        (PlacementKind::File, None) => Ok(Placement::CreateFile),
        (PlacementKind::Directory, None) => Ok(Placement::CreateDirectory),
        (PlacementKind::Symlink, None) => Ok(Placement::CreateSymlink),
        (_, Some(_)) => Err(PostSpawnGuest::Other(PostSpawnGuestOther::DestinationExists)),
    }
}

/// Decides what to do at a destination.
pub fn placement(kind: PlacementKind, existing: Option<u32>) -> (r: Result<
    Placement,
    PostSpawnGuest,
>)
    ensures
        r == spec_placement(kind, existing),
{
    match (kind, existing) {
        (PlacementKind::DirectoryMount, None) => Ok(Placement::CreateDirectory),
        (PlacementKind::DirectoryMount, Some(mode)) => if is_directory_mode(mode) {
            Ok(Placement::UseExisting)
        } else {
            Err(PostSpawnGuest::Other(PostSpawnGuestOther::InvalidDirectoryMountPoint))
        },
        (PlacementKind::FileMount, None) => Ok(Placement::CreateFile),
        (PlacementKind::FileMount, Some(mode)) => if is_regular_mode(mode) {
            Ok(Placement::UseExisting)
        } else {
            Err(PostSpawnGuest::Other(PostSpawnGuestOther::InvalidRegularFileMountPoint))
        },
        (PlacementKind::File, None) => Ok(Placement::CreateFile),
        (PlacementKind::Directory, None) => Ok(Placement::CreateDirectory),
        (PlacementKind::Symlink, None) => Ok(Placement::CreateSymlink),
        (_, Some(_)) => Err(PostSpawnGuest::Other(PostSpawnGuestOther::DestinationExists)),
    }
}

/// A procfs is mounted with `hidepid=` set to the configured mode (`off`,
/// `noaccess`, `invisible` or `ptraceable`) as its first option, with
/// `subset=pid` exactly when only the process directories are shown, in the
/// pid namespace of the given descriptor when one is given.
pub proof fn lemma_procfs_options(
    hidepid: ProcHidepid,
    gid: Option<crate::meowix::ids::Gid>,
    subset: ProcSubset,
    namespace: ProcPidNamespace,
    attributes: crate::mounts::MountAttributes,
)
    ensures
        spec_filesystem(MountInner::Procfs { hidepid, gid, subset, namespace, attributes }) matches Some(
            Ok((fstype, options, pidns, _)),
        ) && fstype == FsType::Proc && options[0] == ("hidepid".spec_bytes(), match hidepid {
            ProcHidepid::Off => "off".spec_bytes(),
            ProcHidepid::NoAccess => "noaccess".spec_bytes(),
            ProcHidepid::Invisible => "invisible".spec_bytes(),
            ProcHidepid::Ptraceable => "ptraceable".spec_bytes(),
        }) && (options.contains(("subset".spec_bytes(), "pid".spec_bytes())) <==> subset
            == ProcSubset::Pid) && pidns == match namespace {
            ProcPidNamespace::Fd(fd) => Some(fd),
            ProcPidNamespace::Guest => None,
        },
{
    broadcast use vstd::seq_lib::lemma_seq_concat_contains_all_elements;

    reveal_strlit("hidepid");
    reveal_strlit("gid");
    reveal_strlit("subset");
    crate::text::lemma_ascii_bytes("hidepid");
    crate::text::lemma_ascii_bytes("gid");
    crate::text::lemma_ascii_bytes("subset");
    let subset_opt = ("subset".spec_bytes(), "pid".spec_bytes());
    let h = seq![("hidepid".spec_bytes(), hidepid_text(hidepid))];
    let g = match gid {
        Some(g) => seq![("gid".spec_bytes(), decimal(g.spec_raw() as int))],
        None => Seq::empty(),
    };
    let sb = if subset == ProcSubset::Pid {
        seq![subset_opt]
    } else {
        Seq::empty()
    };
    assert(!h.contains(subset_opt)) by {
        if h.contains(subset_opt) {
            assert(h[0] == subset_opt);
        }
    }
    assert(!g.contains(subset_opt)) by {
        if g.contains(subset_opt) {
            assert(g[0] == subset_opt);
        }
    }
    if subset == ProcSubset::Pid {
        assert(sb[0] == subset_opt);
    }
    assert((h + g + sb)[0] == h[0]);
}

/// A bind mount of a directory captures its tree from the directory's
/// descriptor, with the mounts below it exactly when it is recursive; a
/// bind mount of a file captures it from its parent directory, never
/// recursively, and keeps the file's name and descriptor to check the
/// capture. Both clone the tree out of its own namespace, close-on-exec.
pub proof fn lemma_bind_plan_flags(inner: MountInner)
    requires
        inner is Bind,
    ensures
        spec_bind(inner) matches Some((source, file, _, recursive, namespace_flags, clone_flags)) && {
            &&& (namespace_flags & AT_RECURSIVE != 0) == recursive
            &&& (clone_flags & AT_RECURSIVE != 0) == recursive
            &&& namespace_flags & OPEN_TREE_NAMESPACE != 0
            &&& namespace_flags & AT_EMPTY_PATH != 0
            &&& clone_flags & OPEN_TREE_CLONE != 0
            &&& clone_flags & OPEN_TREE_CLOEXEC != 0
            &&& namespace_flags & OPEN_TREE_CLOEXEC != 0
            &&& match inner {
                MountInner::Bind(BindMount::Directory { fd, is_recursive, .. }) => source == fd
                    && recursive == is_recursive && file is None,
                MountInner::Bind(BindMount::File { dirfd, name, fd, .. }) => source == dirfd
                    && !recursive && file == Some((name@, fd)),
                _ => false,
            }
        },
{
    let r = match inner {
        MountInner::Bind(BindMount::Directory { is_recursive, .. }) => is_recursive,
        _ => false,
    };
    let rf = recursive_flag(r);
    assert({
        &&& ((2u32 | 0x80000u32 | 0x1000u32 | rf) & 0x8000u32 != 0) == r
        &&& ((1u32 | 0x80000u32 | rf) & 0x8000u32 != 0) == r
        &&& (2u32 | 0x80000u32 | 0x1000u32 | rf) & 2u32 != 0
        &&& (2u32 | 0x80000u32 | 0x1000u32 | rf) & 0x1000u32 != 0
        &&& (2u32 | 0x80000u32 | 0x1000u32 | rf) & 0x80000u32 != 0
        &&& (1u32 | 0x80000u32 | rf) & 1u32 != 0
        &&& (1u32 | 0x80000u32 | rf) & 0x80000u32 != 0
    }) by (bit_vector)
        requires
            rf == (if r { 0x8000u32 } else { 0u32 }),
    ;
    assert((2u32 | 0x80000u32 | 0x1000u32 | 0u32) == (2u32 | 0x80000u32 | 0x1000u32)) by (bit_vector);
    assert((1u32 | 0x80000u32 | 0u32) == (1u32 | 0x80000u32)) by (bit_vector);
}

} // verus!
