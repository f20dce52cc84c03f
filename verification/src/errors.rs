//! Error types of the library's public surface.

use crate::meowix::errors::SyscallError;
use crate::policy::errors::Policy;
use crate::spawn::errors::{PostSpawnGuest, PostSpawnHost, PreSpawn};
use vstd::prelude::*;

verus! {

/// Errors rejecting a guest path.
#[derive(PartialEq, Eq, Structural, Copy, Clone, Debug)]
pub enum GuestPath {
    /// The path provided was not absolute.
    PathNotAbsolute,
    /// The path provided references the parent directory within it.
    PathContainsParent,
    /// The path provided contains a prefix.
    PathContainsPrefix,
    /// The path provided lacks a parent directory.
    NoParentDirectory,
    /// The path provided lacks a file name.
    NoFileName,
    /// The path was invalid for the target platform.
    Invalid,
}

/// Errors of the platform layer.
#[derive(PartialEq, Eq, Structural, Copy, Clone, Debug)]
pub enum PlatformError {
    /// Building the policy failed.
    Policy(Policy),
    /// Preparing the sandbox failed.
    PreSpawn(PreSpawn),
    /// Setting up the sandbox from the host failed.
    PostSpawnHost(PostSpawnHost),
    /// Setting up the sandbox from the guest failed.
    PostSpawnGuest(PostSpawnGuest),
    /// Building or running the command failed.
    Command(Command),
    /// Terminating the guest failed.
    GuestTermination(GuestTermination),
}

/// Errors building a command or waiting for it.
#[derive(PartialEq, Eq, Structural, Copy, Clone, Debug)]
pub enum Command {
    /// A syscall failed.
    Syscall(SyscallError),
    /// The kernel did not return the requested process information.
    MissingInformation,
    /// An environment variable key contained the equals character.
    InvalidEnvironmentVariable,
    /// A buffer used for C string conversion was too small.
    CStrBufferTooSmall,
    /// A C string would have held a nul byte.
    NulError,
}

/// Errors of terminating a guest: each part of the termination that
/// failed.
#[derive(PartialEq, Eq, Structural, Copy, Clone, Debug)]
pub struct GuestTermination {
    /// Sending `SIGKILL` failed.
    pub signal: Option<SyscallError>,
    /// Waiting for the guest failed.
    pub wait: Option<Command>,
    /// Tearing down the cgroup failed.
    pub cgroup: Option<PostSpawnHost>,
}

/// Errors of the library.
#[derive(PartialEq, Eq, Structural, Copy, Clone, Debug)]
pub enum Error {
    /// A guest path was rejected.
    GuestPath(GuestPath),
    /// The platform layer failed.
    Platform(PlatformError),
}

impl From<GuestPath> for Error {
    fn from(error: GuestPath) -> (r: Self)
        ensures
            r == Error::GuestPath(error),
    {
        Error::GuestPath(error)
    }
}

impl vstd::std_specs::convert::FromSpecImpl<GuestPath> for Error {
    open spec fn obeys_from_spec() -> bool {
        true
    }

    open spec fn from_spec(error: GuestPath) -> Self {
        Error::GuestPath(error)
    }
}

impl From<PlatformError> for Error {
    fn from(error: PlatformError) -> (r: Self)
        ensures
            r == Error::Platform(error),
    {
        Error::Platform(error)
    }
}

impl vstd::std_specs::convert::FromSpecImpl<PlatformError> for Error {
    open spec fn obeys_from_spec() -> bool {
        true
    }

    open spec fn from_spec(error: PlatformError) -> Self {
        Error::Platform(error)
    }
}

} // verus!
