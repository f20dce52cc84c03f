//! Error types surfaced during sandbox spawn.

use crate::meowix::errors::{
    IncompleteWrite, Netlink, StringRead, Syscall, SyscallError,
};
use vstd::prelude::*;

verus! {

/// Enumeration over errors that may occur prior to spawning the guest.
#[derive(PartialEq, Eq, Structural, Copy, Clone, Debug)]
pub enum PreSpawn {
    /// A syscall failed.
    Syscall(SyscallError),

    /// An error occurred on the host.
    Host(Host),
}

/// Enumeration over errors that originate from the host after it has spawned
/// the guest process.
#[derive(PartialEq, Eq, Structural, Copy, Clone, Debug)]
pub enum PostSpawnHost {
    /// A syscall failed.
    Syscall(SyscallError),

    /// The bytes the guest reported an error with did not form a report.
    PodCastError,

    /// A write was incomplete.
    IncompleteWrite,

    /// Invalid state was entered in cgroups initialization code.
    InvalidCgroupsState,

    /// An error occurred on the host.
    Host(Host),
}

/// Enumeration over errors that may be ordered before or after spawning the
/// guest but must originate from the host.
#[derive(PartialEq, Eq, Structural, Copy, Clone, Debug)]
pub enum Host {
    /// Syscall failed.
    Syscall(SyscallError),

    /// Reading from an fd into a string failed.
    StringRead(StringRead),

    /// Write was incomplete.
    IncompleteWrite,

    /// Requested cgroup controller was missing.
    MissingCgroupController(Controller),
}

/// A cgroup controller that a policy configures.
#[derive(PartialEq, Eq, Structural, Copy, Clone, Debug)]
pub enum Controller {
    /// The `cpu` controller.
    Cpu,

    /// The `memory` controller.
    Memory,

    /// The `io` controller.
    Io,

    /// The `pids` controller.
    Pids,
}

/// Enumeration over errors that originate from the guest after it has been
/// spawned.
#[derive(PartialEq, Eq, Structural, Copy, Clone, Debug)]
pub enum PostSpawnGuest {
    /// A syscall failed.
    Syscall(SyscallError),

    /// An error from netlink.
    Netlink(Netlink),

    /// Any other error.
    Other(PostSpawnGuestOther),

    /// A write was incomplete.
    IncompleteWrite,

    /// A C string conversion buffer was too small.
    CStrBufferTooSmall,

    /// A string being converted to a C string contained a null byte.
    FromBytesWithNulError,

    /// Unrecognized error from the wire format not originating from a syscall
    /// variant.
    InvalidWireFormat,
}

/// Enumeration over other errors that occur in the guest post-spawn.
#[derive(PartialEq, Eq, Structural, Copy, Clone, Debug)]
pub enum PostSpawnGuestOther {
    /// Invalid state was entered in cgroups initialization code.
    InvalidCgroupsState,

    /// A fixed-size buffer was too small.
    BufferTooSmall,

    /// Integer overflow.
    IntegerOverflow,

    /// Invalid directory mount point.
    InvalidDirectoryMountPoint,

    /// Invalid regular file mount point.
    InvalidRegularFileMountPoint,

    /// A destination already existed.
    DestinationExists,

    /// There was a mismatch between the number of mappings resolved and the
    /// length of the mappings vector.
    MappingsLengthMismatch,

    /// The length of the resolved mappings vector was not zero when it should
    /// have been.
    NonzeroResolvedLen,

    /// A bind-mapped file did not have the expected file identity.
    BindMappedFileMismatch,
}

/// The number that identifies an other-error on the wire.
pub open spec fn other_code(e: PostSpawnGuestOther) -> u8 {
    match e {
        PostSpawnGuestOther::InvalidCgroupsState => 0,
        PostSpawnGuestOther::BufferTooSmall => 1,
        PostSpawnGuestOther::IntegerOverflow => 2,
        PostSpawnGuestOther::InvalidDirectoryMountPoint => 3,
        PostSpawnGuestOther::InvalidRegularFileMountPoint => 4,
        PostSpawnGuestOther::DestinationExists => 5,
        PostSpawnGuestOther::MappingsLengthMismatch => 6,
        PostSpawnGuestOther::NonzeroResolvedLen => 7,
        PostSpawnGuestOther::BindMappedFileMismatch => 8,
    }
}

/// The guest error that a wire tag outside the reserved tags stands for.
pub open spec fn guest_error_of_code(value: u8) -> PostSpawnGuest {
    if value == 0 {
        PostSpawnGuest::Other(PostSpawnGuestOther::InvalidCgroupsState)
    } else if value == 1 {
        PostSpawnGuest::Other(PostSpawnGuestOther::BufferTooSmall)
    } else if value == 2 {
        PostSpawnGuest::Other(PostSpawnGuestOther::IntegerOverflow)
    } else if value == 3 {
        PostSpawnGuest::Other(PostSpawnGuestOther::InvalidDirectoryMountPoint)
    } else if value == 4 {
        PostSpawnGuest::Other(PostSpawnGuestOther::InvalidRegularFileMountPoint)
    } else if value == 5 {
        PostSpawnGuest::Other(PostSpawnGuestOther::DestinationExists)
    } else if value == 6 {
        PostSpawnGuest::Other(PostSpawnGuestOther::MappingsLengthMismatch)
    } else if value == 7 {
        PostSpawnGuest::Other(PostSpawnGuestOther::NonzeroResolvedLen)
    } else if value == 8 {
        PostSpawnGuest::Other(PostSpawnGuestOther::BindMappedFileMismatch)
    } else {
        PostSpawnGuest::InvalidWireFormat
    }
}

impl PostSpawnGuestOther {
    /// The number that identifies this error on the wire.
    pub fn into_u8(self) -> (code: u8)
        ensures
            code == other_code(self),
    {
        match self {
            PostSpawnGuestOther::InvalidCgroupsState => 0,
            PostSpawnGuestOther::BufferTooSmall => 1,
            PostSpawnGuestOther::IntegerOverflow => 2,
            PostSpawnGuestOther::InvalidDirectoryMountPoint => 3,
            PostSpawnGuestOther::InvalidRegularFileMountPoint => 4,
            PostSpawnGuestOther::DestinationExists => 5,
            PostSpawnGuestOther::MappingsLengthMismatch => 6,
            PostSpawnGuestOther::NonzeroResolvedLen => 7,
            PostSpawnGuestOther::BindMappedFileMismatch => 8,
        }
    }
}

impl From<u8> for PostSpawnGuest {
    fn from(value: u8) -> (e: Self) {
        match value {
            0 => Self::Other(PostSpawnGuestOther::InvalidCgroupsState),
            1 => Self::Other(PostSpawnGuestOther::BufferTooSmall),
            2 => Self::Other(PostSpawnGuestOther::IntegerOverflow),
            3 => Self::Other(PostSpawnGuestOther::InvalidDirectoryMountPoint),
            4 => Self::Other(PostSpawnGuestOther::InvalidRegularFileMountPoint),
            5 => Self::Other(PostSpawnGuestOther::DestinationExists),
            6 => Self::Other(PostSpawnGuestOther::MappingsLengthMismatch),
            7 => Self::Other(PostSpawnGuestOther::NonzeroResolvedLen),
            8 => Self::Other(PostSpawnGuestOther::BindMappedFileMismatch),
            _ => Self::InvalidWireFormat,
        }
    }
}

impl vstd::std_specs::convert::FromSpecImpl<u8> for PostSpawnGuest {
    open spec fn obeys_from_spec() -> bool {
        true
    }

    open spec fn from_spec(value: u8) -> Self {
        guest_error_of_code(value)
    }
}

impl From<SyscallError> for PostSpawnGuest {
    fn from(error: SyscallError) -> (e: Self) {
        Self::Syscall(error)
    }
}

impl vstd::std_specs::convert::FromSpecImpl<SyscallError> for PostSpawnGuest {
    open spec fn obeys_from_spec() -> bool {
        true
    }

    open spec fn from_spec(error: SyscallError) -> Self {
        PostSpawnGuest::Syscall(error)
    }
}

impl From<PostSpawnGuestOther> for PostSpawnGuest {
    fn from(error: PostSpawnGuestOther) -> (e: Self) {
        Self::Other(error)
    }
}

impl vstd::std_specs::convert::FromSpecImpl<PostSpawnGuestOther> for PostSpawnGuest {
    open spec fn obeys_from_spec() -> bool {
        true
    }

    open spec fn from_spec(error: PostSpawnGuestOther) -> Self {
        PostSpawnGuest::Other(error)
    }
}

impl From<Netlink> for PostSpawnGuest {
    fn from(error: Netlink) -> (e: Self) {
        Self::Netlink(error)
    }
}

impl vstd::std_specs::convert::FromSpecImpl<Netlink> for PostSpawnGuest {
    open spec fn obeys_from_spec() -> bool {
        true
    }

    open spec fn from_spec(error: Netlink) -> Self {
        PostSpawnGuest::Netlink(error)
    }
}

impl From<IncompleteWrite> for PostSpawnGuest {
    fn from(_error: IncompleteWrite) -> (e: Self) {
        Self::IncompleteWrite
    }
}

impl vstd::std_specs::convert::FromSpecImpl<IncompleteWrite> for PostSpawnGuest {
    open spec fn obeys_from_spec() -> bool {
        true
    }

    open spec fn from_spec(error: IncompleteWrite) -> Self {
        PostSpawnGuest::IncompleteWrite
    }
}

impl From<SyscallError> for Host {
    fn from(error: SyscallError) -> (e: Self) {
        Self::Syscall(error)
    }
}

impl vstd::std_specs::convert::FromSpecImpl<SyscallError> for Host {
    open spec fn obeys_from_spec() -> bool {
        true
    }

    open spec fn from_spec(error: SyscallError) -> Self {
        Host::Syscall(error)
    }
}

impl From<Host> for PreSpawn {
    fn from(error: Host) -> (e: Self) {
        Self::Host(error)
    }
}

impl vstd::std_specs::convert::FromSpecImpl<Host> for PreSpawn {
    open spec fn obeys_from_spec() -> bool {
        true
    }

    open spec fn from_spec(error: Host) -> Self {
        PreSpawn::Host(error)
    }
}

impl From<Host> for PostSpawnHost {
    fn from(error: Host) -> (e: Self) {
        Self::Host(error)
    }
}

impl vstd::std_specs::convert::FromSpecImpl<Host> for PostSpawnHost {
    open spec fn obeys_from_spec() -> bool {
        true
    }

    open spec fn from_spec(error: Host) -> Self {
        PostSpawnHost::Host(error)
    }
}

} // verus!
