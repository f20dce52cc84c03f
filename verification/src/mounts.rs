//! Mounts available to the sandbox, and the mount attributes they carry.

use crate::meowix::ids::Gid;
use crate::paths::Guest;
use vstd::prelude::*;

verus! {

/// `MOUNT_ATTR_RDONLY`: mount read-only.
pub const MOUNT_ATTR_RDONLY: u32 = 0x1;

/// `MOUNT_ATTR_NOSUID`: ignore suid and sgid bits.
pub const MOUNT_ATTR_NOSUID: u32 = 0x2;

/// `MOUNT_ATTR_NODEV`: disallow access to device special files.
pub const MOUNT_ATTR_NODEV: u32 = 0x4;

/// `MOUNT_ATTR_NOEXEC`: disallow program execution.
pub const MOUNT_ATTR_NOEXEC: u32 = 0x8;

/// `MOUNT_ATTR_NOSYMFOLLOW`: do not follow symlinks.
pub const MOUNT_ATTR_NOSYMFOLLOW: u32 = 0x200000;

/// File mode bits.
#[derive(PartialEq, Eq, Structural, Copy, Clone, Debug)]
pub struct Mode {
    /// The raw mode bits.
    pub bits: u32,
}

impl Mode {
    /// Read, write and execute for the owner (`S_IRWXU`).
    pub fn rwxu() -> (m: Mode)
        ensures
            m.bits == 0o700,
    {
        Mode { bits: 0o700 }
    }

    /// The mode with no bit set.
    pub fn empty() -> (m: Mode)
        ensures
            m.bits == 0,
    {
        Mode { bits: 0 }
    }

    /// The mode with the given bits, or nothing where a bit lies outside
    /// the permission, set-id and sticky bits (`0o7777`).
    pub fn from_bits(bits: u32) -> (m: Option<Mode>)
        ensures
            m == (if bits & !0o7777u32 == 0 { Some(Mode { bits }) } else { None::<Mode> }),
    {
        if bits & !0o7777u32 == 0 {
            Some(Mode { bits })
        } else {
            None
        }
    }

    /// A mode with the given bits, unknown bits included.
    pub fn from_bits_retain(bits: u32) -> (m: Mode)
        ensures
            m.bits == bits,
    {
        Mode { bits }
    }

    /// The raw mode bits.
    pub fn bits(&self) -> (b: u32)
        ensures
            b == self.bits,
    {
        self.bits
    }
}

/// A file residing outside the sandbox: a file descriptor of its parent
/// directory, its name and a file descriptor of the file itself.
#[derive(Clone, Debug)]
pub struct HostFile {
    /// File descriptor of the file's parent directory.
    pub dirfd: i32,
    /// Name of the file.
    pub name: Vec<u8>,
    /// File descriptor of the file itself.
    pub fd: i32,
}

/// A directory residing outside the sandbox, by file descriptor.
#[derive(PartialEq, Eq, Structural, Copy, Clone, Debug)]
pub struct HostDirectory {
    /// File descriptor of the directory.
    pub fd: i32,
}

/// Mount attributes of a mount.
#[derive(PartialEq, Eq, Structural, Copy, Clone, Debug)]
pub struct MountAttributes {
    /// Whether the mount is read-only.
    pub read_only: bool,
    /// Whether setuid and setgid bits are ignored.
    pub no_setuid: bool,
    /// Whether device files are inaccessible.
    pub no_devices: bool,
    /// Whether execution is disallowed.
    pub no_execution: bool,
    /// Whether symlinks are not followed.
    pub no_symlink_following: bool,
}

/// Attributes with every restriction set.
pub open spec fn restrictive_attributes() -> MountAttributes {
    MountAttributes {
        read_only: true,
        no_setuid: true,
        no_devices: true,
        no_execution: true,
        no_symlink_following: true,
    }
}

/// Attributes of the given restrictions; symlinks are always followed.
pub open spec fn attributes(
    read_only: bool,
    no_setuid: bool,
    no_devices: bool,
    no_execution: bool,
) -> MountAttributes {
    MountAttributes { read_only, no_setuid, no_devices, no_execution, no_symlink_following: false }
}

impl Default for MountAttributes {
    fn default() -> (r: Self)
        ensures
            r == restrictive_attributes(),
    {
        MountAttributes {
            read_only: true,
            no_setuid: true,
            no_devices: true,
            no_execution: true,
            no_symlink_following: true,
        }
    }
}

/// The flag value of a setting: the flag when set, nothing otherwise.
pub open spec fn flag_if(set: bool, flag: u32) -> u32 {
    if set {
        flag
    } else {
        0
    }
}

/// The `MOUNT_ATTR_*` bits of a set of attributes.
pub open spec fn mount_attr_bits(a: MountAttributes) -> u32 {
    flag_if(a.read_only, MOUNT_ATTR_RDONLY) | flag_if(a.no_setuid, MOUNT_ATTR_NOSUID) | flag_if(
        a.no_devices,
        MOUNT_ATTR_NODEV,
    ) | flag_if(a.no_execution, MOUNT_ATTR_NOEXEC) | flag_if(
        a.no_symlink_following,
        MOUNT_ATTR_NOSYMFOLLOW,
    )
}

impl MountAttributes {
    /// Whether the mount is read-only.
    pub fn read_only(self, read_only: bool) -> (r: Self)
        ensures
            r == (MountAttributes { read_only, ..self }),
    {
        MountAttributes { read_only, ..self }
    }

    /// Whether setuid and setgid bits are ignored.
    pub fn no_setuid(self, no_setuid: bool) -> (r: Self)
        ensures
            r == (MountAttributes { no_setuid, ..self }),
    {
        MountAttributes { no_setuid, ..self }
    }

    /// Whether device files are inaccessible.
    pub fn no_devices(self, no_devices: bool) -> (r: Self)
        ensures
            r == (MountAttributes { no_devices, ..self }),
    {
        MountAttributes { no_devices, ..self }
    }

    /// Whether execution is disallowed.
    pub fn no_execution(self, no_execution: bool) -> (r: Self)
        ensures
            r == (MountAttributes { no_execution, ..self }),
    {
        MountAttributes { no_execution, ..self }
    }

    /// Whether symlinks are not followed.
    pub fn no_symlink_folowing(self, no_symlink_following: bool) -> (r: Self)
        ensures
            r == (MountAttributes { no_symlink_following, ..self }),
    {
        MountAttributes { no_symlink_following, ..self }
    }

    /// The `MOUNT_ATTR_*` flags for `mount_setattr(2)` and friends.
    pub fn into_mount_attr(self) -> (bits: u32)
        ensures
            bits == mount_attr_bits(self),
    {
        let read_only = if self.read_only {
            MOUNT_ATTR_RDONLY
        } else {
            0
        };
        let no_setuid = if self.no_setuid {
            MOUNT_ATTR_NOSUID
        } else {
            0
        };
        let no_devices = if self.no_devices {
            MOUNT_ATTR_NODEV
        } else {
            0
        };
        let no_execution = if self.no_execution {
            MOUNT_ATTR_NOEXEC
        } else {
            0
        };
        let no_symlink_following = if self.no_symlink_following {
            MOUNT_ATTR_NOSYMFOLLOW
        } else {
            0
        };
        read_only | no_setuid | no_devices | no_execution | no_symlink_following
    }
}

/// Each attribute sets its own flag and no other: the flags of a set of
/// attributes name exactly the restrictions it holds.
pub proof fn lemma_mount_attr_bits(a: MountAttributes)
    ensures
        (mount_attr_bits(a) & MOUNT_ATTR_RDONLY != 0) == a.read_only,
        (mount_attr_bits(a) & MOUNT_ATTR_NOSUID != 0) == a.no_setuid,
        (mount_attr_bits(a) & MOUNT_ATTR_NODEV != 0) == a.no_devices,
        (mount_attr_bits(a) & MOUNT_ATTR_NOEXEC != 0) == a.no_execution,
        (mount_attr_bits(a) & MOUNT_ATTR_NOSYMFOLLOW != 0) == a.no_symlink_following,
        mount_attr_bits(a) & !0x20000fu32 == 0,
{
    let r = flag_if(a.read_only, MOUNT_ATTR_RDONLY);
    let s = flag_if(a.no_setuid, MOUNT_ATTR_NOSUID);
    let d = flag_if(a.no_devices, MOUNT_ATTR_NODEV);
    let e = flag_if(a.no_execution, MOUNT_ATTR_NOEXEC);
    let y = flag_if(a.no_symlink_following, MOUNT_ATTR_NOSYMFOLLOW);
    assert((r == 0 || r == 1) && (s == 0 || s == 2) && (d == 0 || d == 4) && (e == 0 || e == 8) && (
    y == 0 || y == 0x200000));
    assert(((r | s | d | e | y) & 1 != 0) == (r == 1) && ((r | s | d | e | y) & 2 != 0) == (s == 2)
        && ((r | s | d | e | y) & 4 != 0) == (d == 4) && ((r | s | d | e | y) & 8 != 0) == (e == 8)
        && ((r | s | d | e | y) & 0x200000 != 0) == (y == 0x200000) && (r | s | d | e | y)
        & !0x20000fu32 == 0) by (bit_vector)
        requires
            (r == 0 || r == 1) && (s == 0 || s == 2) && (d == 0 || d == 4) && (e == 0 || e == 8) && (
            y == 0 || y == 0x200000),
    ;
}

/// `hidepid=` option of procfs.
#[derive(PartialEq, Eq, Structural, Copy, Clone, Debug)]
pub enum ProcHidepid {
    /// Every process is visible and accessible.
    Off,
    /// Other users' processes are visible but not accessible.
    NoAccess,
    /// Other users' processes are invisible.
    Invisible,
    /// Only ptraceable processes are visible.
    Ptraceable,
}

/// `subset=` option of procfs.
#[derive(PartialEq, Eq, Structural, Copy, Clone, Debug)]
pub enum ProcSubset {
    /// The full procfs.
    Full,
    /// Only the process directories.
    Pid,
}

/// The pid namespace a procfs shows.
#[derive(PartialEq, Eq, Structural, Copy, Clone, Debug)]
pub enum ProcPidNamespace {
    /// The guest's pid namespace.
    Guest,
    /// The pid namespace of the given file descriptor.
    Fd(i32),
}

/// Owner of a synthetic file or directory.
#[derive(PartialEq, Eq, Structural, Copy, Clone, Debug)]
pub enum Owner {
    /// The user the sandbox runs as.
    User,
}

/// A file created inside the sandbox.
#[derive(Clone, Debug)]
pub struct File {
    /// Contents of the file.
    pub contents: Vec<u8>,
    /// Owner of the file.
    pub owner: Owner,
    /// Permissions of the file.
    pub permissions: Mode,
}

/// A bind mount of something outside the sandbox.
#[derive(Clone, Debug)]
pub enum BindMount {
    /// A file.
    File {
        /// File descriptor of the file's parent directory.
        dirfd: i32,
        /// Name of the file.
        name: Vec<u8>,
        /// File descriptor of the file itself.
        fd: i32,
        /// Attributes of the mount.
        attributes: MountAttributes,
    },
    /// A directory.
    Directory {
        /// File descriptor of the directory.
        fd: i32,
        /// Attributes of the mount.
        attributes: MountAttributes,
        /// Whether the mounts below the directory come along.
        is_recursive: bool,
    },
}

/// The kinds of mount.
#[derive(Debug)]
pub enum MountInner {
    /// A bind mount.
    Bind(BindMount),
    /// A procfs.
    Procfs {
        /// `hidepid=` option.
        hidepid: ProcHidepid,
        /// `gid=` option: the group exempt from `hidepid`.
        gid: Option<Gid>,
        /// `subset=` option.
        subset: ProcSubset,
        /// Pid namespace shown.
        namespace: ProcPidNamespace,
        /// Attributes of the mount.
        attributes: MountAttributes,
    },
    /// An mqueue filesystem.
    Mqueue {
        /// Attributes of the mount.
        attributes: MountAttributes,
    },
    /// A file with given contents.
    File(File),
    /// A symlink to another guest path.
    Symlink(Guest),
    /// An empty directory.
    EmptyDirectory {
        /// Owner of the directory.
        owner: Owner,
        /// Permissions of the directory.
        permissions: Mode,
    },
    /// A tmpfs.
    Tmpfs {
        /// `size=` option, as given.
        size: Option<Vec<u8>>,
        /// Owner of the tmpfs root.
        owner: Owner,
        /// Permissions of the tmpfs root.
        permissions: Mode,
        /// Attributes of the mount.
        attributes: MountAttributes,
    },
}

/// A mount available to the sandbox.
#[derive(Debug)]
pub struct Mount {
    /// What is mounted.
    pub inner: MountInner,
}

/// The attributes of a procfs mount: nosuid, nodev and noexec.
pub open spec fn proc_attributes() -> MountAttributes {
    attributes(false, true, true, true)
}

impl Mount {
    /// Whether the mount is synthetic, that is not a bind mount of something
    /// outside the sandbox.
    pub open spec fn spec_is_synthetic(&self) -> bool {
        !(self.inner is Bind)
    }

    /// Whether the mount is synthetic, that is not a bind mount of something
    /// outside the sandbox.
    pub fn is_synthetic(&self) -> (r: bool)
        ensures
            r == self.spec_is_synthetic(),
    {
        match &self.inner {
            MountInner::Bind(_) => false,
            _ => true,
        }
    }

    /// A read-only bind mount of a file: read-only, nosuid and nodev.
    pub fn read_only_file(fd: HostFile) -> (m: Mount)
        ensures
            m.inner == MountInner::Bind(
                BindMount::File {
                    dirfd: fd.dirfd,
                    name: fd.name,
                    fd: fd.fd,
                    attributes: attributes(true, true, true, false),
                },
            ),
    {
        Mount {
            inner: MountInner::Bind(
                BindMount::File {
                    dirfd: fd.dirfd,
                    name: fd.name,
                    fd: fd.fd,
                    attributes: MountAttributes {
                        read_only: true,
                        no_setuid: true,
                        no_devices: true,
                        no_execution: false,
                        no_symlink_following: false,
                    },
                },
            ),
        }
    }

    /// A read-write bind mount of a file: nosuid and nodev.
    pub fn read_write_file(fd: HostFile) -> (m: Mount)
        ensures
            m.inner == MountInner::Bind(
                BindMount::File {
                    dirfd: fd.dirfd,
                    name: fd.name,
                    fd: fd.fd,
                    attributes: attributes(false, true, true, false),
                },
            ),
    {
        Mount {
            inner: MountInner::Bind(
                BindMount::File {
                    dirfd: fd.dirfd,
                    name: fd.name,
                    fd: fd.fd,
                    attributes: MountAttributes {
                        read_only: false,
                        no_setuid: true,
                        no_devices: true,
                        no_execution: false,
                        no_symlink_following: false,
                    },
                },
            ),
        }
    }

    /// A bind mount of a device file: nosuid, with devices accessible.
    pub fn device_file(fd: HostFile) -> (m: Mount)
        ensures
            m.inner == MountInner::Bind(
                BindMount::File {
                    dirfd: fd.dirfd,
                    name: fd.name,
                    fd: fd.fd,
                    attributes: attributes(false, true, false, false),
                },
            ),
    {
        Mount {
            inner: MountInner::Bind(
                BindMount::File {
                    dirfd: fd.dirfd,
                    name: fd.name,
                    fd: fd.fd,
                    attributes: MountAttributes {
                        read_only: false,
                        no_setuid: true,
                        no_devices: false,
                        no_execution: false,
                        no_symlink_following: false,
                    },
                },
            ),
        }
    }

    /// A bind mount of a file with the given attributes.
    pub fn bind_file(fd: HostFile, attributes: MountAttributes) -> (m: Mount)
        ensures
            m.inner == MountInner::Bind(
                BindMount::File { dirfd: fd.dirfd, name: fd.name, fd: fd.fd, attributes },
            ),
    {
        Mount {
            inner: MountInner::Bind(
                BindMount::File { dirfd: fd.dirfd, name: fd.name, fd: fd.fd, attributes },
            ),
        }
    }

    /// A recursive read-only bind mount of a directory: read-only, nosuid
    /// and nodev.
    pub fn read_only_directory(fd: HostDirectory) -> (m: Mount)
        ensures
            m.inner == MountInner::Bind(
                BindMount::Directory {
                    fd: fd.fd,
                    attributes: attributes(true, true, true, false),
                    is_recursive: true,
                },
            ),
    {
        Mount {
            inner: MountInner::Bind(
                BindMount::Directory {
                    fd: fd.fd,
                    attributes: MountAttributes {
                        read_only: true,
                        no_setuid: true,
                        no_devices: true,
                        no_execution: false,
                        no_symlink_following: false,
                    },
                    is_recursive: true,
                },
            ),
        }
    }

    /// A recursive read-write bind mount of a directory: nosuid and nodev.
    pub fn read_write_directory(fd: HostDirectory) -> (m: Mount)
        ensures
            m.inner == MountInner::Bind(
                BindMount::Directory {
                    fd: fd.fd,
                    attributes: attributes(false, true, true, false),
                    is_recursive: true,
                },
            ),
    {
        Mount {
            inner: MountInner::Bind(
                BindMount::Directory {
                    fd: fd.fd,
                    attributes: MountAttributes {
                        read_only: false,
                        no_setuid: true,
                        no_devices: true,
                        no_execution: false,
                        no_symlink_following: false,
                    },
                    is_recursive: true,
                },
            ),
        }
    }

    /// A bind mount of a directory with the given attributes.
    pub fn bind_directory(fd: HostDirectory, attributes: MountAttributes, is_recursive: bool) -> (m:
        Mount)
        ensures
            m.inner == MountInner::Bind(
                BindMount::Directory { fd: fd.fd, attributes, is_recursive },
            ),
    {
        Mount { inner: MountInner::Bind(BindMount::Directory { fd: fd.fd, attributes, is_recursive }) }
    }

    /// A procfs of the guest's pid namespace.
    pub fn proc(hidepid: ProcHidepid, subset: ProcSubset) -> (m: Mount)
        ensures
            m.inner == (MountInner::Procfs {
                hidepid,
                gid: None,
                subset,
                namespace: ProcPidNamespace::Guest,
                attributes: proc_attributes(),
            }),
    {
        Mount {
            inner: MountInner::Procfs {
                hidepid,
                gid: None,
                subset,
                namespace: ProcPidNamespace::Guest,
                attributes: MountAttributes {
                    read_only: false,
                    no_setuid: true,
                    no_devices: true,
                    no_execution: true,
                    no_symlink_following: false,
                },
            },
        }
    }

    /// A procfs of the pid namespace of the given file descriptor.
    pub fn proc_with_pid_namespace(hidepid: ProcHidepid, subset: ProcSubset, namespace: i32) -> (m:
        Mount)
        ensures
            m.inner == (MountInner::Procfs {
                hidepid,
                gid: None,
                subset,
                namespace: ProcPidNamespace::Fd(namespace),
                attributes: proc_attributes(),
            }),
    {
        Mount {
            inner: MountInner::Procfs {
                hidepid,
                gid: None,
                subset,
                namespace: ProcPidNamespace::Fd(namespace),
                attributes: MountAttributes {
                    read_only: false,
                    no_setuid: true,
                    no_devices: true,
                    no_execution: true,
                    no_symlink_following: false,
                },
            },
        }
    }

    /// A procfs of the guest's pid namespace whose `hidepid` does not apply
    /// to the given group.
    pub fn proc_with_privileged_gid(hidepid: ProcHidepid, gid: Gid, subset: ProcSubset) -> (m: Mount)
        ensures
            m.inner == (MountInner::Procfs {
                hidepid,
                gid: Some(gid),
                subset,
                namespace: ProcPidNamespace::Guest,
                attributes: proc_attributes(),
            }),
    {
        Mount {
            inner: MountInner::Procfs {
                hidepid,
                gid: Some(gid),
                subset,
                namespace: ProcPidNamespace::Guest,
                attributes: MountAttributes {
                    read_only: false,
                    no_setuid: true,
                    no_devices: true,
                    no_execution: true,
                    no_symlink_following: false,
                },
            },
        }
    }

    /// A procfs of the pid namespace of the given file descriptor whose
    /// `hidepid` does not apply to the given group.
    pub fn proc_with_privileged_gid_and_pid_namespace(
        hidepid: ProcHidepid,
        gid: Gid,
        subset: ProcSubset,
        namespace: i32,
    ) -> (m: Mount)
        ensures
            m.inner == (MountInner::Procfs {
                hidepid,
                gid: Some(gid),
                subset,
                namespace: ProcPidNamespace::Fd(namespace),
                attributes: proc_attributes(),
            }),
    {
        Mount {
            inner: MountInner::Procfs {
                hidepid,
                gid: Some(gid),
                subset,
                namespace: ProcPidNamespace::Fd(namespace),
                attributes: MountAttributes {
                    read_only: false,
                    no_setuid: true,
                    no_devices: true,
                    no_execution: true,
                    no_symlink_following: false,
                },
            },
        }
    }

    /// An mqueue filesystem: nosuid, nodev and noexec.
    pub fn mqueue() -> (m: Mount)
        ensures
            m.inner == (MountInner::Mqueue { attributes: proc_attributes() }),
    {
        Mount {
            inner: MountInner::Mqueue {
                attributes: MountAttributes {
                    read_only: false,
                    no_setuid: true,
                    no_devices: true,
                    no_execution: true,
                    no_symlink_following: false,
                },
            },
        }
    }

    /// A file with the given contents and permissions, owned by the user.
    pub fn file(contents: Vec<u8>, permissions: Mode) -> (m: Mount)
        ensures
            m.inner == MountInner::File(File { contents, owner: Owner::User, permissions }),
    {
        Mount { inner: MountInner::File(File { contents, owner: Owner::User, permissions }) }
    }

    /// A symlink to the given guest path.
    pub fn symlink(source: Guest) -> (m: Mount)
        ensures
            m.inner == MountInner::Symlink(source),
    {
        Mount { inner: MountInner::Symlink(source) }
    }

    /// An empty directory with the given permissions, owned by the user.
    pub fn directory(permissions: Mode) -> (m: Mount)
        ensures
            m.inner == (MountInner::EmptyDirectory { owner: Owner::User, permissions }),
    {
        Mount { inner: MountInner::EmptyDirectory { owner: Owner::User, permissions } }
    }

    /// A tmpfs with the given size option and permissions, owned by the user:
    /// nosuid and nodev.
    pub fn tmpfs(size: Option<Vec<u8>>, permissions: Mode) -> (m: Mount)
        ensures
            m.inner == (MountInner::Tmpfs {
                size,
                owner: Owner::User,
                permissions,
                attributes: attributes(false, true, true, false),
            }),
    {
        Mount {
            inner: MountInner::Tmpfs {
                size,
                owner: Owner::User,
                permissions,
                attributes: MountAttributes {
                    read_only: false,
                    no_setuid: true,
                    no_devices: true,
                    no_execution: false,
                    no_symlink_following: false,
                },
            },
        }
    }
}

} // verus!
