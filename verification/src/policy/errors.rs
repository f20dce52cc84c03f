//! Policy errors.

use crate::meowix::errors::{CStrBufferTooSmall, SyscallError};
use vstd::prelude::*;

verus! {

/// Errors building a sandbox policy.
#[derive(PartialEq, Eq, Structural, Copy, Clone, Debug)]
pub enum Policy {
    /// A syscall failed.
    Syscall(SyscallError),
    /// A file specified was not actually a file.
    NotAFile,
    /// A directory specified was not actually a directory.
    NotADirectory,
    /// The file descriptor policy was invalid.
    InvalidFdPolicy,
    /// The mount policy was invalid.
    InvalidMountPolicy,
    /// A buffer used for C string conversion was too small.
    CStrBufferTooSmall,
    /// A C string conversion found a misplaced nul byte.
    FromBytesWithNulError,
}

impl From<SyscallError> for Policy {
    fn from(error: SyscallError) -> (e: Self) {
        Policy::Syscall(error)
    }
}

impl vstd::std_specs::convert::FromSpecImpl<SyscallError> for Policy {
    open spec fn obeys_from_spec() -> bool {
        true
    }

    open spec fn from_spec(error: SyscallError) -> Self {
        Policy::Syscall(error)
    }
}

impl From<CStrBufferTooSmall> for Policy {
    fn from(error: CStrBufferTooSmall) -> (e: Self) {
        Policy::CStrBufferTooSmall
    }
}

impl vstd::std_specs::convert::FromSpecImpl<CStrBufferTooSmall> for Policy {
    open spec fn obeys_from_spec() -> bool {
        true
    }

    open spec fn from_spec(error: CStrBufferTooSmall) -> Self {
        Policy::CStrBufferTooSmall
    }
}

} // verus!
