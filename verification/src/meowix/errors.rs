//! Error representation for syscalls and netlink calls.

use super::errno::Errno;
use vstd::prelude::*;

verus! {

/// Enumeration over errors that may occur while using netlink.
#[derive(PartialEq, Eq, Structural, Copy, Clone, Debug)]
pub enum Netlink {
    /// Malformed header in a netlink message.
    MalformedHeader,

    /// Truncated netlink message.
    TruncatedMessage,

    /// Mismatched sequence number.
    SequenceMismatch,

    /// Incorrect size.
    IncorrectSize,

    /// Fixed-size buffer was too small to contain something.
    BufferTooSmall,

    /// Fixed-width integer would have overflowed.
    IntegerOverflow,

    /// A write was incomplete
    IncompleteWrite,

    /// Errno value.
    Errno(Errno),

    /// Syscall error.
    Syscall(SyscallError),
}

impl Netlink {
    /// The netlink error that an incomplete write becomes.
    pub fn from_incomplete_write(_error: IncompleteWrite) -> (e: Self)
        ensures
            e == Netlink::IncompleteWrite,
    {
        Netlink::IncompleteWrite
    }

    /// The netlink error that an [`Errno`] becomes.
    pub fn from_errno(error: Errno) -> (e: Self)
        ensures
            e == Netlink::Errno(error),
    {
        Netlink::Errno(error)
    }

    /// The netlink error that a [`SyscallError`] becomes.
    pub fn from_syscall_error(error: SyscallError) -> (e: Self)
        ensures
            e == Netlink::Syscall(error),
    {
        Netlink::Syscall(error)
    }
}

/// Specialized syscall error wrapper for tagging plain error values with the
/// syscall being called.
#[derive(PartialEq, Eq, Structural, Copy, Clone, Debug)]
pub struct SyscallError {
    /// Syscall being called.
    pub syscall: Syscall,

    /// Error value.
    pub error: Errno,
}

impl SyscallError {
    /// Create a new syscall error from a syscall value and an error.
    pub fn new(syscall: Syscall, error: Errno) -> (e: Self)
        ensures
            e.syscall == syscall,
            e.error == error,
    {
        Self { syscall, error }
    }

    /// Get the syscall associated with the syscall error.
    pub fn syscall(self) -> (s: Syscall)
        ensures
            s == self.syscall,
    {
        self.syscall
    }

    /// Get the error value associated with the syscall error.
    pub fn error(self) -> (e: Errno)
        ensures
            e == self.error,
    {
        self.error
    }
}

/// Enumeration over syscalls.
#[derive(PartialEq, Eq, Structural, Copy, Clone, Debug)]
pub enum Syscall {
    /// `pipe2(2)`.
    Pipe2,

    /// `clone3(2)`.
    Clone3,

    /// `openat2(2)`.
    Openat2,

    /// `write(2)`.
    Write,

    /// `open_tree(2)`.
    OpenTree,

    /// `open_tree_attr(2)`.
    OpenTreeAttr,

    /// `dup3(2)`.
    Dup3,

    /// `mount_setattr(2)`.
    MountSetattr,

    /// `statx(2)`.
    Statx,

    /// `read(2)`.
    Read,

    /// `mkdirat(2)`.
    Mkdirat,

    /// `eventfd2(2)`.
    Eventfd2,

    /// `close_range(2)`.
    CloseRange,

    /// `capset(2)`.
    Capset,

    /// `prctl(2)`.
    Prctl,

    /// `unshare(2)`.
    Unshare,

    /// `setsid(2)`.
    Setsid,

    /// `setdomainname(2)`.
    Setdomainname,

    /// `sethostname(2)`.
    Sethostname,

    /// `chdir(2)`.
    Chdir,

    /// `umount2(2)`.
    Umount2,

    /// `chroot(2)`.
    Chroot,

    /// `move_mount(2)`.
    MoveMount,

    /// `fchdir(2)`.
    Fchdir,

    /// `fsmount(2)`.
    Fsmount,

    /// `fsconfig(2)`.
    Fsconfig,

    /// `fsopen(2)`.
    Fsopen,

    /// `mount(2)`.
    Mount,

    /// `setns(2)`.
    Setns,

    /// `rt_sigaction(2)`.
    RtSigaction,

    /// `rt_sigprocmask(2)`.
    RtSigprocmask,

    /// `ppoll(2)`.
    Ppoll,

    /// `recvfrom(2)`.
    Recvfrom,

    /// `sendto(2)`.
    Sendto,

    /// `socket(2)`.
    Socket,

    /// `ioctl(2)`.
    Ioctl,

    /// `pidfd_open(2)`.
    PidfdOpen,

    /// `getegid(2)`.
    Getegid,

    /// `geteuid(2)`.
    Geteuid,

    /// `gettid(2)`.
    Gettid,

    /// `pidfd_send_signal(2)`.
    PidfdSendSignal,

    /// `umask(2)`.
    Umask,

    /// `waitid(2)`.
    Waitid,

    /// `execveat(2)`.
    Execveat,

    /// Syscall variant was not recognized.
    Unknown,
}

/// The number that identifies a syscall on the wire.
pub open spec fn syscall_code(s: Syscall) -> u8 {
    match s {
        Syscall::Pipe2 => 0,
        Syscall::Clone3 => 1,
        Syscall::Openat2 => 2,
        Syscall::Write => 3,
        Syscall::OpenTree => 4,
        Syscall::OpenTreeAttr => 5,
        Syscall::Dup3 => 6,
        Syscall::MountSetattr => 7,
        Syscall::Statx => 8,
        Syscall::Read => 9,
        Syscall::Mkdirat => 10,
        Syscall::Eventfd2 => 11,
        Syscall::CloseRange => 12,
        Syscall::Capset => 13,
        Syscall::Prctl => 14,
        Syscall::Unshare => 15,
        Syscall::Setsid => 16,
        Syscall::Setdomainname => 17,
        Syscall::Sethostname => 18,
        Syscall::Chdir => 19,
        Syscall::Umount2 => 20,
        Syscall::Chroot => 21,
        Syscall::MoveMount => 22,
        Syscall::Fchdir => 23,
        Syscall::Fsmount => 24,
        Syscall::Fsconfig => 25,
        Syscall::Fsopen => 26,
        Syscall::Mount => 27,
        Syscall::Setns => 28,
        Syscall::RtSigaction => 29,
        Syscall::RtSigprocmask => 30,
        Syscall::Ppoll => 31,
        Syscall::Recvfrom => 32,
        Syscall::Sendto => 33,
        Syscall::Socket => 34,
        Syscall::Ioctl => 35,
        Syscall::PidfdOpen => 36,
        Syscall::Getegid => 37,
        Syscall::Geteuid => 38,
        Syscall::Gettid => 39,
        Syscall::PidfdSendSignal => 40,
        Syscall::Umask => 41,
        Syscall::Waitid => 42,
        Syscall::Execveat => 43,
        Syscall::Unknown => 255,
    }
}

/// The syscall that a number identifies on the wire.
pub open spec fn syscall_of_code(value: u8) -> Syscall {
    if value == 0 {
        Syscall::Pipe2
    }     else if value == 1 {
        Syscall::Clone3
    }     else if value == 2 {
        Syscall::Openat2
    }     else if value == 3 {
        Syscall::Write
    }     else if value == 4 {
        Syscall::OpenTree
    }     else if value == 5 {
        Syscall::OpenTreeAttr
    }     else if value == 6 {
        Syscall::Dup3
    }     else if value == 7 {
        Syscall::MountSetattr
    }     else if value == 8 {
        Syscall::Statx
    }     else if value == 9 {
        Syscall::Read
    }     else if value == 10 {
        Syscall::Mkdirat
    }     else if value == 11 {
        Syscall::Eventfd2
    }     else if value == 12 {
        Syscall::CloseRange
    }     else if value == 13 {
        Syscall::Capset
    }     else if value == 14 {
        Syscall::Prctl
    }     else if value == 15 {
        Syscall::Unshare
    }     else if value == 16 {
        Syscall::Setsid
    }     else if value == 17 {
        Syscall::Setdomainname
    }     else if value == 18 {
        Syscall::Sethostname
    }     else if value == 19 {
        Syscall::Chdir
    }     else if value == 20 {
        Syscall::Umount2
    }     else if value == 21 {
        Syscall::Chroot
    }     else if value == 22 {
        Syscall::MoveMount
    }     else if value == 23 {
        Syscall::Fchdir
    }     else if value == 24 {
        Syscall::Fsmount
    }     else if value == 25 {
        Syscall::Fsconfig
    }     else if value == 26 {
        Syscall::Fsopen
    }     else if value == 27 {
        Syscall::Mount
    }     else if value == 28 {
        Syscall::Setns
    }     else if value == 29 {
        Syscall::RtSigaction
    }     else if value == 30 {
        Syscall::RtSigprocmask
    }     else if value == 31 {
        Syscall::Ppoll
    }     else if value == 32 {
        Syscall::Recvfrom
    }     else if value == 33 {
        Syscall::Sendto
    }     else if value == 34 {
        Syscall::Socket
    }     else if value == 35 {
        Syscall::Ioctl
    }     else if value == 36 {
        Syscall::PidfdOpen
    }     else if value == 37 {
        Syscall::Getegid
    }     else if value == 38 {
        Syscall::Geteuid
    }     else if value == 39 {
        Syscall::Gettid
    }     else if value == 40 {
        Syscall::PidfdSendSignal
    }     else if value == 41 {
        Syscall::Umask
    }     else if value == 42 {
        Syscall::Waitid
    }     else if value == 43 {
        Syscall::Execveat
    } else {
        Syscall::Unknown
    }
}

impl Syscall {
    /// The number that identifies this syscall on the wire.
    pub fn into_u8(self) -> (code: u8)
        ensures
            code == syscall_code(self),
    {
        match self {
            Syscall::Pipe2 => 0,
            Syscall::Clone3 => 1,
            Syscall::Openat2 => 2,
            Syscall::Write => 3,
            Syscall::OpenTree => 4,
            Syscall::OpenTreeAttr => 5,
            Syscall::Dup3 => 6,
            Syscall::MountSetattr => 7,
            Syscall::Statx => 8,
            Syscall::Read => 9,
            Syscall::Mkdirat => 10,
            Syscall::Eventfd2 => 11,
            Syscall::CloseRange => 12,
            Syscall::Capset => 13,
            Syscall::Prctl => 14,
            Syscall::Unshare => 15,
            Syscall::Setsid => 16,
            Syscall::Setdomainname => 17,
            Syscall::Sethostname => 18,
            Syscall::Chdir => 19,
            Syscall::Umount2 => 20,
            Syscall::Chroot => 21,
            Syscall::MoveMount => 22,
            Syscall::Fchdir => 23,
            Syscall::Fsmount => 24,
            Syscall::Fsconfig => 25,
            Syscall::Fsopen => 26,
            Syscall::Mount => 27,
            Syscall::Setns => 28,
            Syscall::RtSigaction => 29,
            Syscall::RtSigprocmask => 30,
            Syscall::Ppoll => 31,
            Syscall::Recvfrom => 32,
            Syscall::Sendto => 33,
            Syscall::Socket => 34,
            Syscall::Ioctl => 35,
            Syscall::PidfdOpen => 36,
            Syscall::Getegid => 37,
            Syscall::Geteuid => 38,
            Syscall::Gettid => 39,
            Syscall::PidfdSendSignal => 40,
            Syscall::Umask => 41,
            Syscall::Waitid => 42,
            Syscall::Execveat => 43,
            Syscall::Unknown => 255,
        }
    }
}

impl From<u8> for Syscall {
    fn from(value: u8) -> (s: Self) {
        match value {
            0 => Syscall::Pipe2,
            1 => Syscall::Clone3,
            2 => Syscall::Openat2,
            3 => Syscall::Write,
            4 => Syscall::OpenTree,
            5 => Syscall::OpenTreeAttr,
            6 => Syscall::Dup3,
            7 => Syscall::MountSetattr,
            8 => Syscall::Statx,
            9 => Syscall::Read,
            10 => Syscall::Mkdirat,
            11 => Syscall::Eventfd2,
            12 => Syscall::CloseRange,
            13 => Syscall::Capset,
            14 => Syscall::Prctl,
            15 => Syscall::Unshare,
            16 => Syscall::Setsid,
            17 => Syscall::Setdomainname,
            18 => Syscall::Sethostname,
            19 => Syscall::Chdir,
            20 => Syscall::Umount2,
            21 => Syscall::Chroot,
            22 => Syscall::MoveMount,
            23 => Syscall::Fchdir,
            24 => Syscall::Fsmount,
            25 => Syscall::Fsconfig,
            26 => Syscall::Fsopen,
            27 => Syscall::Mount,
            28 => Syscall::Setns,
            29 => Syscall::RtSigaction,
            30 => Syscall::RtSigprocmask,
            31 => Syscall::Ppoll,
            32 => Syscall::Recvfrom,
            33 => Syscall::Sendto,
            34 => Syscall::Socket,
            35 => Syscall::Ioctl,
            36 => Syscall::PidfdOpen,
            37 => Syscall::Getegid,
            38 => Syscall::Geteuid,
            39 => Syscall::Gettid,
            40 => Syscall::PidfdSendSignal,
            41 => Syscall::Umask,
            42 => Syscall::Waitid,
            43 => Syscall::Execveat,
            _ => Syscall::Unknown,
        }
    }
}

impl vstd::std_specs::convert::FromSpecImpl<u8> for Syscall {
    open spec fn obeys_from_spec() -> bool {
        true
    }

    open spec fn from_spec(value: u8) -> Self {
        syscall_of_code(value)
    }
}

/// Every syscall survives the trip through its wire number.
pub proof fn lemma_syscall_code_roundtrip(s: Syscall)
    ensures
        syscall_of_code(syscall_code(s)) == s,
{
}

/// An [`core::ffi::CStr`] conversion buffer was too small.
#[derive(PartialEq, Eq, Structural, Copy, Clone, Debug)]
pub struct CStrBufferTooSmall;

/// Indicates that a write was not complete.
#[derive(PartialEq, Eq, Structural, Copy, Clone, Debug)]
pub struct IncompleteWrite;

/// Error that may be converted to by [`CStrBufferTooSmall`] and an interior
/// null byte for convenience.
#[derive(PartialEq, Eq, Structural, Copy, Clone, Debug)]
pub enum WithCStrError {
    /// The C string buffer was too small.
    CStrBufferTooSmall,

    /// The value being converted to a C string held a null byte.
    FromBytesWithNulError,
}

/// Error that contains the number of bytes transferred for partial reads and
/// writes.
#[derive(PartialEq, Eq, Structural, Copy, Clone, Debug)]
pub struct PartialTransfer {
    /// Number of bytes transferred.
    pub transferred: usize,

    /// Error that occurred.
    pub error: Option<SyscallError>,
}

/// Error of reading a string: a syscall failed or the bytes were not UTF-8.
#[derive(PartialEq, Eq, Structural, Copy, Clone, Debug)]
pub enum StringRead {
    /// Syscall error.
    Syscall(SyscallError),

    /// UTF-8 conversion error.
    Utf8,
}

} // verus!
