//! Cgroup policy and the backends that place a sandbox in a cgroup.

pub mod policy;
pub mod systemd;

use self::policy::{default_properties, Policy};
use vstd::prelude::*;

verus! {

/// The policy that enforces nothing: the default cgroup properties and no
/// controller.
pub open spec fn empty_policy() -> Policy {
    Policy { cgroup: default_properties(), cpu: None, memory: None, io: None, pids: None }
}

/// Cgroups hierarchy configuration: a backend that provides the cgroup and
/// the policy applied to it.
#[derive(Copy, Clone, Debug)]
pub struct Cgroups<T> {
    /// Backend used to acquire the cgroup.
    pub inner: T,
    /// Policy applied to the cgroup.
    pub policy: Policy,
}

impl<T> Cgroups<T> {
    /// Modify the cgroups policy.
    pub fn policy(self, configure: impl FnOnce(Policy) -> Policy) -> (r: Self)
        requires
            call_requires(configure, (self.policy,)),
        ensures
            call_ensures(configure, (self.policy,), r.policy),
            r.inner == self.inner,
    {
        Cgroups { policy: configure(self.policy), inner: self.inner }
    }
}

/// A backend that does not create any cgroup: the sandbox stays in the
/// caller's cgroup and no policy is enforced.
#[derive(PartialEq, Eq, Structural, Copy, Clone, Debug, Default)]
pub struct NullCgroups;

impl Cgroups<NullCgroups> {
    /// A configuration that enforces no cgroups policy.
    pub fn null_unenforced() -> (r: Self)
        ensures
            r.policy == empty_policy(),
    {
        Cgroups { inner: NullCgroups, policy: Policy::default() }
    }
}

/// A backend that uses a cgroup handed over as an owned file descriptor.
///
/// The settings are written to that cgroup and the child is placed in a
/// `bubblebox-child` cgroup created inside it.
#[derive(PartialEq, Eq, Structural, Copy, Clone, Debug, Default)]
pub struct OwnedFdCgroups;

impl Cgroups<OwnedFdCgroups> {
    /// A configuration that uses a cgroup given by file descriptor.
    pub fn new_fd() -> (r: Self)
        ensures
            r.policy == empty_policy(),
    {
        Cgroups { inner: OwnedFdCgroups, policy: Policy::default() }
    }
}

/// Owned cgroups hierarchy created using a systemd transient unit.
#[derive(PartialEq, Eq, Structural, Copy, Clone, Debug, Default)]
pub struct SystemdCgroups;

impl Cgroups<SystemdCgroups> {
    /// Create a new cgroups hierarchy using the systemd backend.
    pub fn new_systemd() -> (r: Self)
        ensures
            r.policy == empty_policy(),
    {
        Cgroups { inner: SystemdCgroups, policy: Policy::default() }
    }
}

} // verus!
