//! The decisions of sandbox creation: the flags of `clone3(2)`, the steps the
//! guest takes to set itself up before it runs the command, and how the host
//! reads the guest's report.

use super::errors::{PostSpawnGuest, PostSpawnHost};
use super::wire::{guest_of_wire, PostSpawnGuestWire};
use crate::errors::PlatformError;
use crate::meowix::capabilities::{CapabilitySet, CapabilitySets};
use crate::meowix::ids::{Gid, Uid};
use crate::policy::namespace::{Namespace, Namespaces, TimeOffset, UserMappingMode};
use crate::policy::Policy;
use vstd::prelude::*;

verus! {

/// `CLONE_PIDFD`.
pub const CLONE_PIDFD: u64 = 0x1000;

/// `CLONE_NEWUTS`.
pub const CLONE_NEWUTS: u64 = 0x0400_0000;

/// `CLONE_NEWIPC`.
pub const CLONE_NEWIPC: u64 = 0x0800_0000;

/// `CLONE_NEWUSER`.
pub const CLONE_NEWUSER: u64 = 0x1000_0000;

/// `CLONE_NEWPID`.
pub const CLONE_NEWPID: u64 = 0x2000_0000;

/// `CLONE_NEWNET`.
pub const CLONE_NEWNET: u64 = 0x4000_0000;

/// `CLONE_INTO_CGROUP`.
pub const CLONE_INTO_CGROUP: u64 = 0x2_0000_0000;

/// When this flag is set, auto-reap the child on exit.
pub const CLONE_AUTOREAP: u64 = 0x4_0000_0000;

/// When this flag is set, the child starts with no new privileges.
pub const CLONE_NNP: u64 = 0x8_0000_0000;

/// When this flag is set, the child is killed when its pidfd is closed.
pub const CLONE_PIDFD_AUTOKILL: u64 = 0x10_0000_0000;

/// A flag when a condition holds, nothing otherwise.
pub open spec fn flag_when(set: bool, flag: u64) -> u64 {
    if set {
        flag
    } else {
        0
    }
}

/// The flags of `clone3(2)` for a sandbox: a new user namespace and a pidfd
/// always, the ipc, pid, network and uts namespaces unless they are shared,
/// auto-reaping, no new privileges and killing the child with its pidfd, and
/// placing the child in a cgroup when the backend provides one.
pub open spec fn spec_clone_flags<'a>(namespaces: Namespaces<'a>, into_cgroup: bool) -> u64 {
    CLONE_NEWUSER | CLONE_PIDFD | flag_when(!(namespaces.ipc is Shared), CLONE_NEWIPC) | flag_when(
        !(namespaces.pid is Shared),
        CLONE_NEWPID,
    ) | flag_when(!(namespaces.network is Shared), CLONE_NEWNET) | flag_when(
        !(namespaces.uts is Shared),
        CLONE_NEWUTS,
    ) | CLONE_AUTOREAP | CLONE_NNP | CLONE_PIDFD_AUTOKILL | flag_when(into_cgroup, CLONE_INTO_CGROUP)
}

/// Computes the flags of `clone3(2)` for a sandbox.
pub fn clone_flags<'a>(namespaces: &Namespaces<'a>, into_cgroup: bool) -> (flags: u64)
    ensures
        flags == spec_clone_flags(*namespaces, into_cgroup),
{
    let ipc = if namespaces.ipc.is_shared() {
        0
    } else {
        CLONE_NEWIPC
    };
    let pid = if namespaces.pid.is_shared() {
        0
    } else {
        CLONE_NEWPID
    };
    let network = if namespaces.network.is_shared() {
        0
    } else {
        CLONE_NEWNET
    };
    let uts = if namespaces.uts.is_shared() {
        0
    } else {
        CLONE_NEWUTS
    };
    let cgroup = if into_cgroup {
        CLONE_INTO_CGROUP
    } else {
        0
    };
    CLONE_NEWUSER | CLONE_PIDFD | ipc | pid | network | uts | CLONE_AUTOREAP | CLONE_NNP
        | CLONE_PIDFD_AUTOKILL | cgroup
}

/// Each namespace flag of `clone3(2)` is set exactly when its own namespace
/// is not shared, whatever the others are; the cgroup flag exactly when the
/// child is placed in a cgroup; the user namespace, pidfd, auto-reap, no new
/// privileges and pidfd-autokill flags always; and no other flag.
pub proof fn lemma_clone_flags_follow_namespaces<'a>(namespaces: Namespaces<'a>, into_cgroup: bool)
    ensures
        (spec_clone_flags(namespaces, into_cgroup) & CLONE_NEWIPC != 0) <==> !(namespaces.ipc is Shared),
        (spec_clone_flags(namespaces, into_cgroup) & CLONE_NEWPID != 0) <==> !(namespaces.pid is Shared),
        (spec_clone_flags(namespaces, into_cgroup) & CLONE_NEWNET != 0) <==> !(namespaces.network is Shared),
        (spec_clone_flags(namespaces, into_cgroup) & CLONE_NEWUTS != 0) <==> !(namespaces.uts is Shared),
        (spec_clone_flags(namespaces, into_cgroup) & CLONE_INTO_CGROUP != 0) <==> into_cgroup,
        spec_clone_flags(namespaces, into_cgroup) & CLONE_NEWUSER != 0,
        spec_clone_flags(namespaces, into_cgroup) & CLONE_PIDFD != 0,
        spec_clone_flags(namespaces, into_cgroup) & CLONE_AUTOREAP != 0,
        spec_clone_flags(namespaces, into_cgroup) & CLONE_NNP != 0,
        spec_clone_flags(namespaces, into_cgroup) & CLONE_PIDFD_AUTOKILL != 0,
        spec_clone_flags(namespaces, into_cgroup) & !(CLONE_NEWUSER | CLONE_PIDFD | CLONE_NEWIPC
            | CLONE_NEWPID | CLONE_NEWNET | CLONE_NEWUTS | CLONE_AUTOREAP | CLONE_NNP
            | CLONE_PIDFD_AUTOKILL | CLONE_INTO_CGROUP) == 0,
{
    let ipc = !(namespaces.ipc is Shared);
    let pid = !(namespaces.pid is Shared);
    let net = !(namespaces.network is Shared);
    let uts = !(namespaces.uts is Shared);
    let cg = into_cgroup;
    let f = spec_clone_flags(namespaces, into_cgroup);
    assert(f == 0x1000_0000u64 | 0x1000u64 | (if ipc { 0x0800_0000u64 } else { 0u64 }) | (if pid {
        0x2000_0000u64
    } else {
        0u64
    }) | (if net { 0x4000_0000u64 } else { 0u64 }) | (if uts { 0x0400_0000u64 } else { 0u64 })
        | 0x4_0000_0000u64 | 0x8_0000_0000u64 | 0x10_0000_0000u64 | (if cg {
        0x2_0000_0000u64
    } else {
        0u64
    }));
    assert({
        &&& (f & 0x0800_0000u64 != 0) == ipc
        &&& (f & 0x2000_0000u64 != 0) == pid
        &&& (f & 0x4000_0000u64 != 0) == net
        &&& (f & 0x0400_0000u64 != 0) == uts
        &&& (f & 0x2_0000_0000u64 != 0) == cg
        &&& f & 0x1000_0000u64 != 0
        &&& f & 0x1000u64 != 0
        &&& f & 0x4_0000_0000u64 != 0
        &&& f & 0x8_0000_0000u64 != 0
        &&& f & 0x10_0000_0000u64 != 0
        &&& f & !(0x1000_0000u64 | 0x1000u64 | 0x0800_0000u64 | 0x2000_0000u64 | 0x4000_0000u64
            | 0x0400_0000u64 | 0x4_0000_0000u64 | 0x8_0000_0000u64 | 0x10_0000_0000u64
            | 0x2_0000_0000u64) == 0
    }) by (bit_vector)
        requires
            f == 0x1000_0000u64 | 0x1000u64 | (if ipc { 0x0800_0000u64 } else { 0u64 }) | (if pid {
                0x2000_0000u64
            } else {
                0u64
            }) | (if net { 0x4000_0000u64 } else { 0u64 }) | (if uts { 0x0400_0000u64 } else { 0u64 })
                | 0x4_0000_0000u64 | 0x8_0000_0000u64 | 0x10_0000_0000u64 | (if cg {
                0x2_0000_0000u64
            } else {
                0u64
            }),
    ;
}

/// The ids the guest runs as: the configured ones, or the host's when none
/// is configured.
pub open spec fn spec_guest_ids(mode: UserMappingMode, host_uid: Uid, host_gid: Gid) -> (Uid, Gid) {
    match mode {
        UserMappingMode::Simple { uid, gid } => (uid.unwrap_or(host_uid), gid.unwrap_or(host_gid)),
    }
}

/// The ids the guest runs as.
pub fn guest_ids(mode: UserMappingMode, host_uid: Uid, host_gid: Gid) -> (ids: (Uid, Gid))
    ensures
        ids == spec_guest_ids(mode, host_uid, host_gid),
{
    match mode {
        UserMappingMode::Simple { uid, gid } => {
            let u = match uid {
                Some(u) => u,
                None => host_uid,
            };
            let g = match gid {
                Some(g) => g,
                None => host_gid,
            };
            (u, g)
        },
    }
}

/// One step of the guest's setup.
#[derive(PartialEq, Eq, Structural, Copy, Clone, Debug)]
pub enum GuestStep {
    /// Drop every capability but the given ones from the bounding set.
    DropBoundingSet(CapabilitySet),
    /// Reset the signal dispositions to their defaults.
    ResetSignalDispositions,
    /// Run the cgroups backend's hook.
    CgroupsHook,
    /// Unshare the cgroup namespace.
    UnshareCgroupNamespace,
    /// Capture the bind mounts of the mount tree.
    ResolveBindMounts,
    /// Mount a procfs for the guest's own setup.
    MountSetupProc,
    /// Map the ids of the user namespace.
    WriteIdMaps {
        /// The uid outside.
        source_uid: Uid,
        /// The gid outside.
        source_gid: Gid,
        /// The uid inside.
        dest_uid: Uid,
        /// The gid inside.
        dest_gid: Gid,
        /// Whether `setgroups(2)` is denied before the gid map is written.
        deny_setgroups: bool,
    },
    /// Unshare the time namespace.
    UnshareTimeNamespace,
    /// Write the clocks' offsets.
    WriteTimensOffsets {
        /// Offset of `CLOCK_MONOTONIC`.
        monotonic: Option<TimeOffset>,
        /// Offset of `CLOCK_BOOTTIME`.
        boottime: Option<TimeOffset>,
    },
    /// Enter the time namespace made for children.
    EnterChildTimeNamespace,
    /// Clear the umask.
    ClearUmask,
    /// Make every mount private, recursively.
    MakeMountsPrivate,
    /// Create the synthetic mounts of the mount tree.
    ResolveOtherMounts,
    /// Check that every mount of the tree was resolved.
    CheckMountCount,
    /// Create the tmpfs that becomes the guest's root.
    CreateGuestRoot,
    /// Place every resolved mount in the guest's root.
    PlaceMounts,
    /// Make the guest's root read-only, nosuid, nodev, noexec and nosymfollow.
    SealGuestRoot,
    /// Move the guest's root over `/` and enter it.
    EnterGuestRoot,
    /// Set the hostname.
    SetHostname,
    /// Set the domain name.
    SetDomainName,
    /// Configure the loopback device.
    SetupLoopback,
    /// Restore the umask.
    RestoreUmask,
    /// Start a new session.
    NewSession,
    /// Limit the guest to one user namespace.
    LimitUserNamespaces,
    /// Unshare a final user namespace.
    UnshareUserNamespace,
    /// Set the capability sets of the guest.
    SetCapabilities(CapabilitySets),
    /// Run the command's callback.
    RunCallback,
}

/// The steps of the time namespace: nothing when it is shared.
pub open spec fn time_steps<'a>(namespaces: Namespaces<'a>) -> Seq<GuestStep> {
    match namespaces.time {
        Namespace::Unshared(time) => seq![
            GuestStep::UnshareTimeNamespace,
            GuestStep::WriteTimensOffsets {
                monotonic: time.monotonic_offset,
                boottime: time.boottime_offset,
            },
            GuestStep::EnterChildTimeNamespace,
        ],
        Namespace::Shared => Seq::empty(),
    }
}

/// The steps of the uts namespace: the names that are configured, when it
/// is unshared.
pub open spec fn uts_steps<'a>(namespaces: Namespaces<'a>) -> Seq<GuestStep> {
    match namespaces.uts {
        Namespace::Unshared(uts) => (if uts.hostname is Some {
            seq![GuestStep::SetHostname]
        } else {
            Seq::empty()
        }) + (if uts.domain is Some {
            seq![GuestStep::SetDomainName]
        } else {
            Seq::empty()
        }),
        Namespace::Shared => Seq::empty(),
    }
}

/// The steps that confine the guest to its user namespace when further user
/// namespaces are disabled.
pub open spec fn userns_steps(disable: bool, capabilities: CapabilitySet, uid: Uid, gid: Gid) -> Seq<
    GuestStep,
> {
    if disable {
        seq![
            GuestStep::LimitUserNamespaces,
            GuestStep::UnshareUserNamespace,
            GuestStep::DropBoundingSet(capabilities),
            GuestStep::WriteIdMaps {
                source_uid: uid,
                source_gid: gid,
                dest_uid: uid,
                dest_gid: gid,
                deny_setgroups: true,
            },
        ]
    } else {
        Seq::empty()
    }
}

/// The first steps: the bounding set, signals, the cgroups hook, the cgroup
/// namespace, the bind mounts, the setup procfs and the id maps.
pub open spec fn head_steps(caps: CapabilitySet, host_uid: Uid, host_gid: Gid, uid: Uid, gid: Gid) -> Seq<
    GuestStep,
> {
    seq![
        GuestStep::DropBoundingSet(caps),
        GuestStep::ResetSignalDispositions,
        GuestStep::CgroupsHook,
        GuestStep::UnshareCgroupNamespace,
        GuestStep::ResolveBindMounts,
        GuestStep::MountSetupProc,
        GuestStep::WriteIdMaps {
            source_uid: host_uid,
            source_gid: host_gid,
            dest_uid: uid,
            dest_gid: gid,
            deny_setgroups: true,
        },
    ]
}

/// The steps that build the guest's root and enter it.
pub open spec fn root_steps() -> Seq<GuestStep> {
    seq![
        GuestStep::ClearUmask,
        GuestStep::MakeMountsPrivate,
        GuestStep::ResolveOtherMounts,
        GuestStep::CheckMountCount,
        GuestStep::CreateGuestRoot,
        GuestStep::PlaceMounts,
        GuestStep::SealGuestRoot,
        GuestStep::EnterGuestRoot,
    ]
}

/// The loopback device in an unshared network namespace, the umask and a
/// new session when asked.
pub open spec fn session_steps(network_unshared: bool, new_session: bool) -> Seq<GuestStep> {
    (if network_unshared {
        seq![GuestStep::SetupLoopback]
    } else {
        Seq::empty()
    }) + seq![GuestStep::RestoreUmask] + (if new_session {
        seq![GuestStep::NewSession]
    } else {
        Seq::empty()
    })
}

/// The last steps: the capability sets and the callback.
pub open spec fn closing_steps(caps: CapabilitySet) -> Seq<GuestStep> {
    seq![
        GuestStep::SetCapabilities(
            CapabilitySets {
                effective: CapabilitySet { bits: 0 },
                permitted: caps,
                inheritable: caps,
            },
        ),
        GuestStep::RunCallback,
    ]
}

/// The guest's setup, in order.
///
/// The guest drops its bounding set, resets its signals, runs the cgroups
/// hook, unshares its cgroup namespace and captures its bind mounts; it
/// mounts a procfs and maps its ids; in an unshared time namespace it writes
/// the offsets and enters it; with a cleared umask it makes its mounts
/// private, creates the other mounts, checks them, builds and seals its root
/// and enters it; it names its host in an unshared uts namespace, brings up
/// the loopback device in an unshared network namespace, restores the umask,
/// starts a session when asked, confines itself to its user namespace when
/// asked, sets its capabilities and runs the callback.
pub open spec fn spec_guest_plan<'a, B>(
    policy: Policy<'a, B>,
    host_uid: Uid,
    host_gid: Gid,
) -> Seq<GuestStep> {
    let (uid, gid) = spec_guest_ids(policy.namespaces.user.mapping_mode, host_uid, host_gid);
    let caps = policy.target_capabilities;
    head_steps(caps, host_uid, host_gid, uid, gid) + time_steps(policy.namespaces) + root_steps()
        + uts_steps(policy.namespaces) + session_steps(
        !(policy.namespaces.network is Shared),
        policy.new_session,
    ) + userns_steps(policy.namespaces.user.disable_userns, caps, uid, gid) + closing_steps(caps)
}

/// Whether a step belongs to no fixed part of the plan: it comes only from a
/// setting of the policy.
pub open spec fn optional_step(step: GuestStep) -> bool {
    step == GuestStep::SetHostname || step == GuestStep::SetDomainName || step
        == GuestStep::SetupLoopback || step == GuestStep::NewSession || step
        == GuestStep::UnshareTimeNamespace || step == GuestStep::LimitUserNamespaces
}

proof fn lemma_fixed_parts_lack_optional_steps<'a>(
    caps: CapabilitySet,
    host_uid: Uid,
    host_gid: Gid,
    uid: Uid,
    gid: Gid,
    step: GuestStep,
)
    requires
        optional_step(step),
    ensures
        !head_steps(caps, host_uid, host_gid, uid, gid).contains(step),
        !root_steps().contains(step),
        !closing_steps(caps).contains(step),
        !seq![GuestStep::RestoreUmask].contains(step),
{
    broadcast use vstd::seq_lib::lemma_seq_contains;

    assert forall|i: int| 0 <= i < head_steps(caps, host_uid, host_gid, uid, gid).len() implies head_steps(
        caps,
        host_uid,
        host_gid,
        uid,
        gid,
    )[i] != step by {}
    assert forall|i: int| 0 <= i < root_steps().len() implies root_steps()[i] != step by {}
    assert forall|i: int| 0 <= i < closing_steps(caps).len() implies closing_steps(caps)[i] != step by {}
}

/// Whether the uts namespace is unshared with a hostname set.
pub open spec fn hostname_set<'a>(namespaces: Namespaces<'a>) -> bool {
    match namespaces.uts {
        Namespace::Unshared(u) => u.hostname is Some,
        Namespace::Shared => false,
    }
}

/// Whether the uts namespace is unshared with a domain name set.
pub open spec fn domain_set<'a>(namespaces: Namespaces<'a>) -> bool {
    match namespaces.uts {
        Namespace::Unshared(u) => u.domain is Some,
        Namespace::Shared => false,
    }
}

proof fn lemma_uts_steps_contain<'a>(namespaces: Namespaces<'a>, step: GuestStep)
    requires
        optional_step(step),
    ensures
        uts_steps(namespaces).contains(step) <==> (step == GuestStep::SetHostname && hostname_set(
            namespaces,
        )) || (step == GuestStep::SetDomainName && domain_set(namespaces)),
{
    broadcast use vstd::seq_lib::lemma_seq_concat_contains_all_elements;

    match namespaces.uts {
        Namespace::Unshared(u) => {
            let h = if u.hostname is Some {
                seq![GuestStep::SetHostname]
            } else {
                Seq::empty()
            };
            let d = if u.domain is Some {
                seq![GuestStep::SetDomainName]
            } else {
                Seq::empty()
            };
            assert(h.contains(step) <==> (step == GuestStep::SetHostname && u.hostname is Some)) by {
                if u.hostname is Some && step == GuestStep::SetHostname {
                    assert(h[0] == step);
                }
            }
            assert(d.contains(step) <==> (step == GuestStep::SetDomainName && u.domain is Some)) by {
                if u.domain is Some && step == GuestStep::SetDomainName {
                    assert(d[0] == step);
                }
            }
            assert(uts_steps(namespaces) == h + d);
        },
        Namespace::Shared => {},
    }
}

proof fn lemma_time_steps_contain<'a>(namespaces: Namespaces<'a>, step: GuestStep)
    requires
        optional_step(step),
    ensures
        time_steps(namespaces).contains(step) <==> (step == GuestStep::UnshareTimeNamespace && !(
        namespaces.time is Shared)),
{
    if !(namespaces.time is Shared) && step == GuestStep::UnshareTimeNamespace {
        assert(time_steps(namespaces)[0] == step);
    }
}

proof fn lemma_session_steps_contain(network_unshared: bool, new_session: bool, step: GuestStep)
    requires
        optional_step(step),
    ensures
        session_steps(network_unshared, new_session).contains(step) <==> (step
            == GuestStep::SetupLoopback && network_unshared) || (step == GuestStep::NewSession
            && new_session),
{
    broadcast use vstd::seq_lib::lemma_seq_concat_contains_all_elements;

    let l = if network_unshared {
        seq![GuestStep::SetupLoopback]
    } else {
        Seq::empty()
    };
    let n = if new_session {
        seq![GuestStep::NewSession]
    } else {
        Seq::empty()
    };
    let u = seq![GuestStep::RestoreUmask];
    assert(l.contains(step) <==> (step == GuestStep::SetupLoopback && network_unshared)) by {
        if network_unshared && step == GuestStep::SetupLoopback {
            assert(l[0] == step);
        }
    }
    assert(n.contains(step) <==> (step == GuestStep::NewSession && new_session)) by {
        if new_session && step == GuestStep::NewSession {
            assert(n[0] == step);
        }
    }
    assert(!u.contains(step));
    assert(session_steps(network_unshared, new_session) == l + u + n);
}

proof fn lemma_userns_steps_contain(disable: bool, caps: CapabilitySet, uid: Uid, gid: Gid, step: GuestStep)
    requires
        optional_step(step),
    ensures
        userns_steps(disable, caps, uid, gid).contains(step) <==> (step
            == GuestStep::LimitUserNamespaces && disable),
{
    if disable && step == GuestStep::LimitUserNamespaces {
        assert(userns_steps(disable, caps, uid, gid)[0] == step);
    }
}

/// Whether a step of the setting-driven kind is in the plan, from the
/// parts of the plan that settings choose.
proof fn lemma_plan_optional_step<'a, B>(
    policy: Policy<'a, B>,
    host_uid: Uid,
    host_gid: Gid,
    step: GuestStep,
)
    requires
        optional_step(step),
    ensures
        spec_guest_plan(policy, host_uid, host_gid).contains(step) <==> (step == GuestStep::SetHostname
            && hostname_set(policy.namespaces)) || (step == GuestStep::SetDomainName && domain_set(
            policy.namespaces,
        )) || (step == GuestStep::SetupLoopback && !(
        policy.namespaces.network is Shared)) || (step == GuestStep::NewSession && policy.new_session)
            || (step == GuestStep::UnshareTimeNamespace && !(policy.namespaces.time is Shared)) || (
        step == GuestStep::LimitUserNamespaces && policy.namespaces.user.disable_userns),
{
    broadcast use vstd::seq_lib::lemma_seq_concat_contains_all_elements;

    let (uid, gid) = spec_guest_ids(policy.namespaces.user.mapping_mode, host_uid, host_gid);
    let caps = policy.target_capabilities;
    lemma_fixed_parts_lack_optional_steps(caps, host_uid, host_gid, uid, gid, step);
    lemma_uts_steps_contain(policy.namespaces, step);
    lemma_time_steps_contain(policy.namespaces, step);
    lemma_session_steps_contain(!(policy.namespaces.network is Shared), policy.new_session, step);
    lemma_userns_steps_contain(policy.namespaces.user.disable_userns, caps, uid, gid, step);
}

/// The steps that come from settings of the policy are in the guest's plan
/// exactly when their setting asks for them, each independently of the
/// others: the hostname and the domain name when the uts namespace is
/// unshared and that name is set, the loopback device when the network
/// namespace is unshared, a new session when asked, the time namespace when
/// it is unshared, and the limit on user namespaces when they are disabled.
pub proof fn lemma_guest_plan_optional_steps<'a, B>(policy: Policy<'a, B>, host_uid: Uid, host_gid: Gid)
    ensures
        spec_guest_plan(policy, host_uid, host_gid).contains(GuestStep::SetHostname) <==> hostname_set(
            policy.namespaces,
        ),
        spec_guest_plan(policy, host_uid, host_gid).contains(GuestStep::SetDomainName) <==> domain_set(
            policy.namespaces,
        ),
        spec_guest_plan(policy, host_uid, host_gid).contains(GuestStep::SetupLoopback) <==> !(
        policy.namespaces.network is Shared),
        spec_guest_plan(policy, host_uid, host_gid).contains(GuestStep::NewSession)
            <==> policy.new_session,
        spec_guest_plan(policy, host_uid, host_gid).contains(GuestStep::UnshareTimeNamespace) <==> !(
        policy.namespaces.time is Shared),
        spec_guest_plan(policy, host_uid, host_gid).contains(GuestStep::LimitUserNamespaces)
            <==> policy.namespaces.user.disable_userns,
{
    lemma_plan_optional_step(policy, host_uid, host_gid, GuestStep::SetHostname);
    lemma_plan_optional_step(policy, host_uid, host_gid, GuestStep::SetDomainName);
    lemma_plan_optional_step(policy, host_uid, host_gid, GuestStep::SetupLoopback);
    lemma_plan_optional_step(policy, host_uid, host_gid, GuestStep::NewSession);
    lemma_plan_optional_step(policy, host_uid, host_gid, GuestStep::UnshareTimeNamespace);
    lemma_plan_optional_step(policy, host_uid, host_gid, GuestStep::LimitUserNamespaces);
}

/// The guest's plan begins by dropping every capability outside the target
/// set from its bounding set and ends by setting its capabilities (none
/// effective, the target set permitted and inheritable) and then running the
/// callback; and it maps the caller's effective ids to the configured ids,
/// or to themselves where none is configured, denying `setgroups(2)`.
pub proof fn lemma_guest_plan_frame<'a, B>(policy: Policy<'a, B>, host_uid: Uid, host_gid: Gid)
    ensures
        spec_guest_plan(policy, host_uid, host_gid)[0] == GuestStep::DropBoundingSet(
            policy.target_capabilities,
        ),
        spec_guest_plan(policy, host_uid, host_gid).last() == GuestStep::RunCallback,
        spec_guest_plan(policy, host_uid, host_gid)[spec_guest_plan(policy, host_uid, host_gid).len()
            - 2] == GuestStep::SetCapabilities(
            CapabilitySets {
                effective: CapabilitySet { bits: 0 },
                permitted: policy.target_capabilities,
                inheritable: policy.target_capabilities,
            },
        ),
        spec_guest_plan(policy, host_uid, host_gid).contains(
            GuestStep::WriteIdMaps {
                source_uid: host_uid,
                source_gid: host_gid,
                dest_uid: match policy.namespaces.user.mapping_mode {
                    UserMappingMode::Simple { uid, gid } => match uid {
                        Some(u) => u,
                        None => host_uid,
                    },
                },
                dest_gid: match policy.namespaces.user.mapping_mode {
                    UserMappingMode::Simple { uid, gid } => match gid {
                        Some(g) => g,
                        None => host_gid,
                    },
                },
                deny_setgroups: true,
            },
        ),
{
    let (uid, gid) = spec_guest_ids(policy.namespaces.user.mapping_mode, host_uid, host_gid);
    let caps = policy.target_capabilities;
    let head = head_steps(caps, host_uid, host_gid, uid, gid);
    let plan = spec_guest_plan(policy, host_uid, host_gid);
    let body = head + time_steps(policy.namespaces) + root_steps() + uts_steps(policy.namespaces)
        + session_steps(!(policy.namespaces.network is Shared), policy.new_session) + userns_steps(
        policy.namespaces.user.disable_userns,
        caps,
        uid,
        gid,
    );
    let closing = closing_steps(caps);
    assert(plan == body + closing);
    assert(plan[0] == head[0]);
    assert(plan[6] == head[6]);
    assert(plan[plan.len() - 1] == closing[1]);
    assert(plan[plan.len() - 2] == closing[0]);
}

/// Appends steps.
fn extend(steps: &mut Vec<GuestStep>, more: Vec<GuestStep>)
    ensures
        final(steps)@ == old(steps)@ + more@,
{
    let mut more = more;
    steps.append(&mut more);
}

/// The time namespace steps.
fn time_plan<'a>(namespaces: &Namespaces<'a>) -> (steps: Vec<GuestStep>)
    ensures
        steps@ == time_steps(*namespaces),
{
    let mut steps: Vec<GuestStep> = Vec::new();
    match &namespaces.time {
        Namespace::Unshared(time) => {
            steps.push(GuestStep::UnshareTimeNamespace);
            steps.push(
                GuestStep::WriteTimensOffsets {
                    monotonic: time.monotonic_offset,
                    boottime: time.boottime_offset,
                },
            );
            steps.push(GuestStep::EnterChildTimeNamespace);
        },
        Namespace::Shared => {},
    }
    assert(steps@ =~= time_steps(*namespaces));
    steps
}

/// The root steps.
fn root_plan() -> (steps: Vec<GuestStep>)
    ensures
        steps@ == root_steps(),
{
    let steps = vec![
        GuestStep::ClearUmask,
        GuestStep::MakeMountsPrivate,
        GuestStep::ResolveOtherMounts,
        GuestStep::CheckMountCount,
        GuestStep::CreateGuestRoot,
        GuestStep::PlaceMounts,
        GuestStep::SealGuestRoot,
        GuestStep::EnterGuestRoot,
    ];
    assert(steps@ =~= root_steps());
    steps
}

/// The uts namespace steps.
fn uts_plan<'a>(namespaces: &Namespaces<'a>) -> (steps: Vec<GuestStep>)
    ensures
        steps@ == uts_steps(*namespaces),
{
    let mut steps: Vec<GuestStep> = Vec::new();
    match &namespaces.uts {
        Namespace::Unshared(uts) => {
            if uts.hostname.is_some() {
                steps.push(GuestStep::SetHostname);
            }
            if uts.domain.is_some() {
                steps.push(GuestStep::SetDomainName);
            }
        },
        Namespace::Shared => {},
    }
    assert(steps@ =~= uts_steps(*namespaces));
    steps
}

/// The session steps.
fn session_plan(network_unshared: bool, new_session: bool) -> (steps: Vec<GuestStep>)
    ensures
        steps@ == session_steps(network_unshared, new_session),
{
    let mut steps: Vec<GuestStep> = Vec::new();
    if network_unshared {
        steps.push(GuestStep::SetupLoopback);
    }
    steps.push(GuestStep::RestoreUmask);
    if new_session {
        steps.push(GuestStep::NewSession);
    }
    assert(steps@ =~= session_steps(network_unshared, new_session));
    steps
}

/// The user namespace steps.
fn userns_plan(disable: bool, caps: CapabilitySet, uid: Uid, gid: Gid) -> (steps: Vec<GuestStep>)
    ensures
        steps@ == userns_steps(disable, caps, uid, gid),
{
    let mut steps: Vec<GuestStep> = Vec::new();
    if disable {
        steps.push(GuestStep::LimitUserNamespaces);
        steps.push(GuestStep::UnshareUserNamespace);
        steps.push(GuestStep::DropBoundingSet(caps));
        steps.push(
            GuestStep::WriteIdMaps {
                source_uid: uid,
                source_gid: gid,
                dest_uid: uid,
                dest_gid: gid,
                deny_setgroups: true,
            },
        );
    }
    assert(steps@ =~= userns_steps(disable, caps, uid, gid));
    steps
}

/// The steps the guest takes to set itself up before it runs the command.
pub fn guest_plan<'a, B>(policy: &Policy<'a, B>, host_uid: Uid, host_gid: Gid) -> (steps: Vec<
    GuestStep,
>)
    ensures
        steps@ == spec_guest_plan(*policy, host_uid, host_gid),
{
    let (uid, gid) = guest_ids(policy.namespaces.user.mapping_mode, host_uid, host_gid);
    let caps = policy.target_capabilities;
    let mut steps = vec![
        GuestStep::DropBoundingSet(caps),
        GuestStep::ResetSignalDispositions,
        GuestStep::CgroupsHook,
        GuestStep::UnshareCgroupNamespace,
        GuestStep::ResolveBindMounts,
        GuestStep::MountSetupProc,
        GuestStep::WriteIdMaps {
            source_uid: host_uid,
            source_gid: host_gid,
            dest_uid: uid,
            dest_gid: gid,
            deny_setgroups: true,
        },
    ];
    assert(steps@ =~= head_steps(caps, host_uid, host_gid, uid, gid));
    extend(&mut steps, time_plan(&policy.namespaces));
    extend(&mut steps, root_plan());
    extend(&mut steps, uts_plan(&policy.namespaces));
    extend(
        &mut steps,
        session_plan(!policy.namespaces.network.is_shared(), policy.new_session),
    );
    extend(&mut steps, userns_plan(policy.namespaces.user.disable_userns, caps, uid, gid));
    let closing = vec![
        GuestStep::SetCapabilities(
            CapabilitySets {
                effective: CapabilitySet::empty(),
                permitted: caps,
                inheritable: caps,
            },
        ),
        GuestStep::RunCallback,
    ];
    assert(closing@ =~= closing_steps(caps));
    extend(&mut steps, closing);
    steps
}

/// What the host read from the guest's report pipe once the guest was done
/// with its setup.
#[derive(PartialEq, Eq, Structural, Copy, Clone, Debug)]
pub enum GuestReport {
    /// Nothing: the guest ran its command.
    Nothing,
    /// Bytes that are not one wire value.
    Malformed,
    /// One wire value: the guest's setup failed.
    Wire(PostSpawnGuestWire),
}

/// How spawning ends on the host's side: success when the guest reported
/// nothing, the guest's error when it reported one, and a cast error when
/// the report is not one wire value.
pub fn host_outcome(report: GuestReport) -> (r: Result<(), PlatformError>)
    ensures
        report == GuestReport::Nothing ==> r is Ok,
        report == GuestReport::Malformed ==> r == Err::<(), PlatformError>(
            PlatformError::PostSpawnHost(PostSpawnHost::PodCastError),
        ),
        report matches GuestReport::Wire(w) ==> r == Err::<(), PlatformError>(
            PlatformError::PostSpawnGuest(guest_of_wire(w)),
        ),
{
    match report {
        GuestReport::Nothing => Ok(()),
        GuestReport::Malformed => Err(PlatformError::PostSpawnHost(PostSpawnHost::PodCastError)),
        GuestReport::Wire(w) => {
            let e = PostSpawnGuest::from(w);
            Err(PlatformError::PostSpawnGuest(e))
        },
    }
}

} // verus!
