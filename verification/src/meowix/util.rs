//! Limits and small checks shared by the syscall helpers.

use super::errors::IncompleteWrite;
use vstd::prelude::*;

verus! {

/// Maximum length of a path component plus the nul terminator.
///
/// Uses `NAME_MAX` plus one. See `limits.h(0p)` for more details.
pub const PATH_COMPONENT_MAX: usize = 256;

/// Maximum length of a path including the nul terminator.
///
/// Uses `PATH_MAX`. See `limits.h(0p)` for more details.
pub const PATH_MAX: usize = 4096;

/// Checks if a write was complete.
///
/// # Errors
///
/// This function errors if the number of bytes written, `count`, is not the number of
/// bytes expected.
pub fn check_if_incomplete(count: usize, expected: usize) -> (r: Result<(), IncompleteWrite>)
    ensures
        r is Ok <==> count == expected,
{
    if count == expected {
        Ok(())
    } else {
        Err(IncompleteWrite)
    }
}

} // verus!
