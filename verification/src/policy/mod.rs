//! Sandbox policy: namespaces, file descriptors, capabilities, cgroups and
//! the mount tree.

pub mod errors;
pub mod fd;
pub mod mounts;
pub mod namespace;

use self::errors::Policy as PolicyError;
use self::fd::{valid_fd_policy, FdPolicy};
use self::mounts::{valid_mount_tree, MountTree};
use self::namespace::{default_namespaces, Namespaces};
use crate::cgroups::policy::Policy as CgroupsPolicy;
use crate::cgroups::{Cgroups, NullCgroups, OwnedFdCgroups, SystemdCgroups};
use crate::errors::PlatformError;
use crate::meowix::capabilities::CapabilitySet;
use crate::mounts::Mount;
use vstd::prelude::*;

verus! {

/// Sandboxing policy.
#[derive(Debug)]
pub struct Policy<'a, CgroupsBackend> {
    /// Mount tree of the sandbox.
    pub mount_tree: MountTree,
    /// Namespace configuration.
    pub namespaces: Namespaces<'a>,
    /// Cgroups configuration.
    pub cgroups: Cgroups<CgroupsBackend>,
    /// Capabilities the guest keeps.
    pub target_capabilities: CapabilitySet,
    /// File descriptors the guest receives.
    pub file_descriptors: FdPolicy,
    /// Whether the guest starts a new session.
    pub new_session: bool,
}

impl<'a, CgroupsBackend: Default> Default for Policy<'a, CgroupsBackend> {
    fn default() -> (r: Self)
        ensures
            r.mount_tree@ == Map::<Seq<Seq<u8>>, Mount>::empty(),
            r.namespaces == default_namespaces::<'a>(),
            r.cgroups.policy == crate::cgroups::empty_policy(),
            r.target_capabilities.bits == 0,
            r.file_descriptors@ == Map::<i32, fd::Action>::empty(),
            r.new_session,
    {
        Policy {
            mount_tree: MountTree::empty(),
            namespaces: Namespaces::default(),
            cgroups: Cgroups { inner: CgroupsBackend::default(), policy: CgroupsPolicy::default() },
            target_capabilities: CapabilitySet::empty(),
            file_descriptors: FdPolicy::empty(),
            new_session: true,
        }
    }
}

impl<'a> Policy<'a, NullCgroups> {
    /// Use no cgroups and enforce no cgroups policy.
    pub fn null_cgroups_unenforced(self) -> (r: Self)
        ensures
            r.cgroups.policy == crate::cgroups::empty_policy(),
            r.mount_tree@ == self.mount_tree@,
            r.namespaces == self.namespaces,
            r.target_capabilities == self.target_capabilities,
            r.file_descriptors@ == self.file_descriptors@,
            r.new_session == self.new_session,
    {
        Policy { cgroups: Cgroups::null_unenforced(), ..self }
    }
}

impl<'a> Policy<'a, OwnedFdCgroups> {
    /// Use a cgroup given by file descriptor, configured from a fresh
    /// configuration.
    pub fn fd_cgroups(
        self,
        configure: impl FnOnce(Cgroups<OwnedFdCgroups>) -> Cgroups<OwnedFdCgroups>,
    ) -> (r: Self)
        requires
            forall|c: Cgroups<OwnedFdCgroups>|
                c.policy == crate::cgroups::empty_policy() ==> call_requires(configure, (c,)),
        ensures
            exists|c: Cgroups<OwnedFdCgroups>|
                c.policy == crate::cgroups::empty_policy() && call_ensures(
                    configure,
                    (c,),
                    r.cgroups,
                ),
            r.mount_tree@ == self.mount_tree@,
            r.namespaces == self.namespaces,
            r.target_capabilities == self.target_capabilities,
            r.file_descriptors@ == self.file_descriptors@,
            r.new_session == self.new_session,
    {
        let fresh = Cgroups::new_fd();
        Policy { cgroups: configure(fresh), ..self }
    }
}

impl<'a> Policy<'a, SystemdCgroups> {
    /// Use a cgroup from a systemd transient unit, configured from a fresh
    /// configuration.
    pub fn systemd_cgroups(
        self,
        configure: impl FnOnce(Cgroups<SystemdCgroups>) -> Cgroups<SystemdCgroups>,
    ) -> (r: Self)
        requires
            forall|c: Cgroups<SystemdCgroups>|
                c.policy == crate::cgroups::empty_policy() ==> call_requires(configure, (c,)),
        ensures
            exists|c: Cgroups<SystemdCgroups>|
                c.policy == crate::cgroups::empty_policy() && call_ensures(
                    configure,
                    (c,),
                    r.cgroups,
                ),
            r.mount_tree@ == self.mount_tree@,
            r.namespaces == self.namespaces,
            r.target_capabilities == self.target_capabilities,
            r.file_descriptors@ == self.file_descriptors@,
            r.new_session == self.new_session,
    {
        let fresh = Cgroups::new_systemd();
        Policy { cgroups: configure(fresh), ..self }
    }
}

impl<'a, CgroupsBackend> Policy<'a, CgroupsBackend> {
    /// Modify the mount tree.
    ///
    /// # Errors
    ///
    /// Fails with [`PolicyError::InvalidMountPolicy`] when the configured
    /// tree mounts something below a bind mount; the policy is dropped then.
    pub fn mount_tree(self, configure: impl FnOnce(MountTree) -> MountTree) -> (r: Result<
        Self,
        PlatformError,
    >)
        requires
            call_requires(configure, (self.mount_tree,)),
        ensures
            match r {
                Ok(p) => {
                    &&& call_ensures(configure, (self.mount_tree,), p.mount_tree)
                    &&& valid_mount_tree(p.mount_tree@)
                    &&& p.namespaces == self.namespaces
                    &&& p.target_capabilities == self.target_capabilities
                    &&& p.file_descriptors@ == self.file_descriptors@
                    &&& p.new_session == self.new_session
                },
                Err(e) => {
                    &&& e == PlatformError::Policy(PolicyError::InvalidMountPolicy)
                    &&& exists|t: MountTree|
                        call_ensures(configure, (self.mount_tree,), t) && !valid_mount_tree(t@)
                },
            },
    {
        let Policy {
            mount_tree,
            namespaces,
            cgroups,
            target_capabilities,
            file_descriptors,
            new_session,
        } = self;
        let new_mounts = configure(mount_tree);
        if !new_mounts.is_valid() {
            return Err(PlatformError::Policy(PolicyError::InvalidMountPolicy));
        }
        Ok(
            Policy {
                mount_tree: new_mounts,
                namespaces,
                cgroups,
                target_capabilities,
                file_descriptors,
                new_session,
            },
        )
    }

    /// Modify the namespace configuration.
    pub fn namespace(self, configure: impl FnOnce(Namespaces<'a>) -> Namespaces<'a>) -> (r: Self)
        requires
            call_requires(configure, (self.namespaces,)),
        ensures
            call_ensures(configure, (self.namespaces,), r.namespaces),
            r.mount_tree@ == self.mount_tree@,
            r.target_capabilities == self.target_capabilities,
            r.file_descriptors@ == self.file_descriptors@,
            r.new_session == self.new_session,
    {
        let namespaces = configure(self.namespaces);
        Policy { namespaces, ..self }
    }

    /// Set the capabilities the guest keeps.
    pub fn set_target_capabilities(self, target_capabilities: CapabilitySet) -> (r: Self)
        ensures
            r.target_capabilities == target_capabilities,
            r.mount_tree@ == self.mount_tree@,
            r.namespaces == self.namespaces,
            r.file_descriptors@ == self.file_descriptors@,
            r.new_session == self.new_session,
    {
        Policy { target_capabilities, ..self }
    }

    /// Drop every capability in the guest.
    pub fn clear_target_capabilities(self) -> (r: Self)
        ensures
            r.target_capabilities.bits == 0,
            r.mount_tree@ == self.mount_tree@,
            r.namespaces == self.namespaces,
            r.file_descriptors@ == self.file_descriptors@,
            r.new_session == self.new_session,
    {
        Policy { target_capabilities: CapabilitySet::empty(), ..self }
    }

    /// Modify the file descriptor policy.
    ///
    /// # Errors
    ///
    /// Fails with [`PolicyError::InvalidFdPolicy`] when the configured policy
    /// names a negative descriptor or a destination that is also a source;
    /// the policy is dropped then.
    pub fn fd_policy(self, configure: impl FnOnce(FdPolicy) -> FdPolicy) -> (r: Result<
        Self,
        PlatformError,
    >)
        requires
            call_requires(configure, (self.file_descriptors,)),
        ensures
            match r {
                Ok(p) => {
                    &&& call_ensures(configure, (self.file_descriptors,), p.file_descriptors)
                    &&& valid_fd_policy(p.file_descriptors@)
                    &&& p.mount_tree@ == self.mount_tree@
                    &&& p.namespaces == self.namespaces
                    &&& p.target_capabilities == self.target_capabilities
                    &&& p.new_session == self.new_session
                },
                Err(e) => {
                    &&& e == PlatformError::Policy(PolicyError::InvalidFdPolicy)
                    &&& exists|f: FdPolicy|
                        call_ensures(configure, (self.file_descriptors,), f) && !valid_fd_policy(f@)
                },
            },
    {
        let Policy {
            mount_tree,
            namespaces,
            cgroups,
            target_capabilities,
            file_descriptors,
            new_session,
        } = self;
        let new_fd_policy = configure(file_descriptors);
        if !new_fd_policy.is_valid() {
            return Err(PlatformError::Policy(PolicyError::InvalidFdPolicy));
        }
        Ok(
            Policy {
                mount_tree,
                namespaces,
                cgroups,
                target_capabilities,
                file_descriptors: new_fd_policy,
                new_session,
            },
        )
    }

    /// Whether the guest starts a new session.
    pub fn new_session(self, new_session: bool) -> (r: Self)
        ensures
            r.new_session == new_session,
            r.mount_tree@ == self.mount_tree@,
            r.namespaces == self.namespaces,
            r.target_capabilities == self.target_capabilities,
            r.file_descriptors@ == self.file_descriptors@,
    {
        Policy { new_session, ..self }
    }
}

} // verus!
