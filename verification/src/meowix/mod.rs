//! Linux platform primitives: error numbers, syscall errors, identifiers,
//! modes, capabilities and buffer utilities.

pub mod errno;
pub mod errors;
pub mod ids;
pub mod util;
pub mod capabilities;
pub mod netlink;
pub mod sigaction;
pub mod process;
pub mod stat;
