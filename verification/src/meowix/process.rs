//! Process information: what `PIDFD_GET_INFO` reports and the current
//! working directory as a descriptor.

use crate::errors::Command as CommandError;
use vstd::prelude::*;

verus! {

/// `PIDFD_INFO_EXIT`: the exit code is reported.
pub const PIDFD_INFO_EXIT: u64 = 8;

/// `AT_FDCWD`.
pub const AT_FDCWD: i32 = -100;

/// Initial revision of the structure used by `PIDFD_GET_INFO`.
#[derive(PartialEq, Eq, Structural, Copy, Clone, Debug)]
pub struct PidfdInfoV0 {
    /// Mask of fields set by the kernel.
    pub mask: u64,
    /// `cgroups(7)` id of the process.
    pub cgroupid: u64,
    /// Pid of the process.
    pub pid: u32,
    /// Thread group id of the process.
    pub tgid: u32,
    /// Parent process id of the process.
    pub ppid: u32,
    /// Real user id of the process.
    pub ruid: u32,
    /// Real group id of the process.
    pub rgid: u32,
    /// Effective user id of the process.
    pub euid: u32,
    /// Effective group id of the process.
    pub egid: u32,
    /// Saved user id of the process.
    pub suid: u32,
    /// Saved group id of the process.
    pub sgid: u32,
    /// Filesystem user id of the process.
    pub fsuid: u32,
    /// Filesystem group id of the process.
    pub fsgid: u32,
    /// Exit code of the process, when `PIDFD_INFO_EXIT` is in the mask.
    pub exit_code: i32,
}

impl PidfdInfoV0 {
    /// The raw wait status of the exited process.
    ///
    /// # Errors
    ///
    /// Fails with [`CommandError::MissingInformation`] when the kernel did
    /// not report the exit code.
    pub fn exit_status(&self) -> (r: Result<i32, CommandError>)
        ensures
            self.mask & PIDFD_INFO_EXIT != 0 ==> r == Ok::<i32, CommandError>(self.exit_code),
            self.mask & PIDFD_INFO_EXIT == 0 ==> r == Err::<i32, CommandError>(
                CommandError::MissingInformation,
            ),
    {
        if self.mask & PIDFD_INFO_EXIT != 0 {
            Ok(self.exit_code)
        } else {
            Err(CommandError::MissingInformation)
        }
    }
}

/// The current working directory, as the directory descriptor of the `*at`
/// syscalls.
#[derive(PartialEq, Eq, Structural, Copy, Clone, Debug)]
pub struct Cwd;

impl Cwd {
    /// The raw descriptor that stands for the current working directory.
    pub fn as_raw_fd(&self) -> (fd: i32)
        ensures
            fd == AT_FDCWD,
    {
        AT_FDCWD
    }
}

/// The exit code in a raw wait status: the status's second byte when the
/// process exited normally (its low seven bits are zero), nothing when a
/// signal ended it.
pub fn exit_code(status: i32) -> (code: Option<i32>)
    ensures
        status & 0x7f == 0 ==> code == Some((status >> 8) & 0xff),
        status & 0x7f != 0 ==> code is None,
{
    if status & 0x7f == 0 {
        Some((status >> 8) & 0xff)
    } else {
        None
    }
}

} // verus!
