//! What `statx(2)` reports that the sandbox decides on: file types and file
//! identity.

use vstd::prelude::*;

verus! {

/// `S_IFMT`: the bits of the file type.
pub const S_IFMT: u32 = 0o170000;

/// `S_IFDIR`: a directory.
pub const S_IFDIR: u32 = 0o040000;

/// `S_IFREG`: a regular file.
pub const S_IFREG: u32 = 0o100000;

/// `STATX_INO`: the inode number is reported.
pub const STATX_INO: u32 = 0x100;

/// Whether a mode is that of a directory.
pub fn is_directory_mode(mode: u32) -> (r: bool)
    ensures
        r == (mode & S_IFMT == S_IFDIR),
{
    mode & S_IFMT == S_IFDIR
}

/// Whether a mode is that of a regular file.
pub fn is_regular_mode(mode: u32) -> (r: bool)
    ensures
        r == (mode & S_IFMT == S_IFREG),
{
    mode & S_IFMT == S_IFREG
}

/// The identity of a file as `statx(2)` reports it.
#[derive(PartialEq, Eq, Structural, Copy, Clone, Debug)]
pub struct FileIdentity {
    /// The mask of the fields the kernel filled in.
    pub mask: u32,
    /// Major number of the device holding the file.
    pub dev_major: u32,
    /// Minor number of the device holding the file.
    pub dev_minor: u32,
    /// Inode number.
    pub ino: u64,
}

/// Whether two reports describe the same file: both report the inode number,
/// and the device and inode numbers agree. A report without the inode
/// number describes no file for certain.
pub open spec fn spec_same_file(lhs: FileIdentity, rhs: FileIdentity) -> bool {
    &&& lhs.mask & STATX_INO != 0
    &&& rhs.mask & STATX_INO != 0
    &&& lhs.dev_major == rhs.dev_major
    &&& lhs.dev_minor == rhs.dev_minor
    &&& lhs.ino == rhs.ino
}

/// Whether two reports describe the same file.
pub fn same_file_identity(lhs: FileIdentity, rhs: FileIdentity) -> (r: bool)
    ensures
        r == spec_same_file(lhs, rhs),
{
    if lhs.mask & STATX_INO == 0 || rhs.mask & STATX_INO == 0 {
        return false;
    }
    lhs.dev_major == rhs.dev_major && lhs.dev_minor == rhs.dev_minor && lhs.ino == rhs.ino
}

} // verus!
