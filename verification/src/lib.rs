//! Painless sandboxing for Linux: the policy model, the wire formats and the
//! planning logic of the sandbox, with their contracts.

pub mod cgroups;
pub mod command;
pub mod errors;
pub mod meowix;
pub mod mounts;
pub mod order;
pub mod paths;
pub mod policy;
pub mod sealed;
pub mod spawn;
pub mod text;

use vstd::prelude::*;

verus! {

/// Adds two numbers.
pub fn add(left: usize, right: usize) -> (sum: usize)
    requires
        left + right <= usize::MAX,
    ensures
        sum == left + right,
{
    left + right
}

} // verus!
