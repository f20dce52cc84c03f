//! Building blocks of sandbox creation: errors, formatting, wire formats and
//! namespace setup.

pub mod errors;
pub mod fd;
pub mod fmt;
pub mod mounts;
pub mod namespace;
pub mod plan;
pub mod wire;
