//! Per-namespace policy structures.

use crate::meowix::ids::{Gid, Uid};
use vstd::prelude::*;

verus! {

/// Maximum attainable seconds component of a kernel time value.
///
/// Defined by the kernel in `include/linux/time64.h` and exposed via
/// `/proc/self/timens_offsets`.
pub const KTIME_SEC_MAX: i64 = 9223372036;

/// Namespace policy.
///
/// Configures optional namespaces and mandatory namespace setup. Neither
/// mount nor user namespaces may be shared with the caller.
#[derive(PartialEq, Eq, Clone, Debug)]
pub struct Namespaces<'a> {
    /// IPC namespace.
    pub ipc: Namespace<IpcOptions>,

    /// Pid namespace.
    pub pid: Namespace<PidOptions>,

    /// Network namespace.
    pub network: Namespace<NetworkOptions>,

    /// UTS namespace.
    pub uts: Namespace<UtsOptions<'a>>,

    /// Time namespace.
    pub time: Namespace<TimeOptions>,

    /// User namespace; always unshared.
    pub user: UserOptions,
}

/// The default namespace policy: every optional namespace unshared with
/// default options.
pub open spec fn default_namespaces<'a>() -> Namespaces<'a> {
    Namespaces {
        ipc: Namespace::Unshared(IpcOptions),
        pid: Namespace::Unshared(PidOptions),
        network: Namespace::Unshared(NetworkOptions::Isolate),
        uts: Namespace::Unshared(default_uts()),
        time: Namespace::Unshared(default_time()),
        user: default_user(),
    }
}

impl<'a> Default for Namespaces<'a> {
    fn default() -> (r: Self)
        ensures
            r == default_namespaces::<'a>(),
    {
        Namespaces {
            ipc: Namespace::Unshared(IpcOptions),
            pid: Namespace::Unshared(PidOptions),
            network: Namespace::Unshared(NetworkOptions::Isolate),
            uts: Namespace::Unshared(UtsOptions::default()),
            time: Namespace::Unshared(TimeOptions::default()),
            user: UserOptions::default(),
        }
    }
}

impl<'a> Namespaces<'a> {
    /// Share the IPC namespace.
    pub fn share_ipc(self) -> (r: Self)
        ensures
            r == (Namespaces { ipc: Namespace::Shared, ..self }),
    {
        Namespaces { ipc: Namespace::Shared, ..self }
    }

    /// Unshare the IPC namespace.
    pub fn unshare_ipc(self) -> (r: Self)
        ensures
            r == (Namespaces { ipc: Namespace::Unshared(IpcOptions), ..self }),
    {
        Namespaces { ipc: Namespace::Unshared(IpcOptions), ..self }
    }

    /// Share the pid namespace.
    pub fn share_pid(self) -> (r: Self)
        ensures
            r == (Namespaces { pid: Namespace::Shared, ..self }),
    {
        Namespaces { pid: Namespace::Shared, ..self }
    }

    /// Unshare the pid namespace.
    pub fn unshare_pid(self) -> (r: Self)
        ensures
            r == (Namespaces { pid: Namespace::Unshared(PidOptions), ..self }),
    {
        Namespaces { pid: Namespace::Unshared(PidOptions), ..self }
    }

    /// Share the network namespace.
    pub fn share_network(self) -> (r: Self)
        ensures
            r == (Namespaces { network: Namespace::Shared, ..self }),
    {
        Namespaces { network: Namespace::Shared, ..self }
    }

    /// Unshare the network namespace and only set up the loopback devices.
    pub fn unshare_network_and_isolate(self) -> (r: Self)
        ensures
            r == (Namespaces { network: Namespace::Unshared(NetworkOptions::Isolate), ..self }),
    {
        Namespaces { network: Namespace::Unshared(NetworkOptions::Isolate), ..self }
    }

    /// Share the UTS namespace.
    pub fn share_uts(self) -> (r: Self)
        ensures
            r == (Namespaces { uts: Namespace::Shared, ..self }),
    {
        Namespaces { uts: Namespace::Shared, ..self }
    }

    /// Unshare the UTS namespace.
    ///
    /// If the namespace was already unshared, modify its configuration.
    pub fn unshare_uts(self, configure: impl FnOnce(UtsOptions<'a>) -> UtsOptions<'a>) -> (r: Self)
        requires
            call_requires(configure, (self.uts.spec_unwrap_or(default_uts()),)),
        ensures
            r.uts matches Namespace::Unshared(uts) && call_ensures(
                configure,
                (self.uts.spec_unwrap_or(default_uts()),),
                uts,
            ),
            r == (Namespaces { uts: r.uts, ..self }),
    {
        let current = match self.uts {
            Namespace::Unshared(options) => options,
            Namespace::Shared => UtsOptions::default(),
        };
        Namespaces { uts: Namespace::Unshared(configure(current)), ..self }
    }

    /// Share the time namespace.
    pub fn share_time(self) -> (r: Self)
        ensures
            r == (Namespaces { time: Namespace::Shared, ..self }),
    {
        Namespaces { time: Namespace::Shared, ..self }
    }

    /// Unshare the time namespace.
    ///
    /// If the namespace was already unshared, modify its configuration.
    pub fn unshare_time(self, configure: impl FnOnce(TimeOptions) -> TimeOptions) -> (r: Self)
        requires
            call_requires(configure, (self.time.spec_unwrap_or(default_time()),)),
        ensures
            r.time matches Namespace::Unshared(time) && call_ensures(
                configure,
                (self.time.spec_unwrap_or(default_time()),),
                time,
            ),
            r == (Namespaces { time: r.time, ..self }),
    {
        let current = match self.time {
            Namespace::Unshared(options) => options,
            Namespace::Shared => TimeOptions::default(),
        };
        Namespaces { time: Namespace::Unshared(configure(current)), ..self }
    }

    /// Configure the user namespace.
    ///
    /// This namespace is always unshared.
    pub fn user_namespace(self, configure: impl FnOnce(UserOptions) -> UserOptions) -> (r: Self)
        requires
            call_requires(configure, (self.user,)),
        ensures
            call_ensures(configure, (self.user,), r.user),
            r == (Namespaces { user: r.user, ..self }),
    {
        let user = configure(self.user);
        Namespaces { user, ..self }
    }
}

/// Enumeration over states a namespace may be left in.
#[derive(PartialEq, Eq, Structural, Copy, Clone, Debug)]
pub enum Namespace<Options> {
    /// Inherit the parent process' namespace.
    Shared,

    /// Create a new namespace with the specified options.
    Unshared(Options),
}

impl<Options> Namespace<Options> {
    /// The contained options, or `default` when the namespace is shared.
    pub open spec fn spec_unwrap_or(self, default: Options) -> Options {
        match self {
            Namespace::Unshared(options) => options,
            Namespace::Shared => default,
        }
    }

    /// Indicates if the namespace represented by this [`Namespace`] is shared
    /// or not.
    pub fn is_shared(&self) -> (shared: bool)
        ensures
            shared <==> *self is Shared,
    {
        match self {
            Namespace::Shared => true,
            Namespace::Unshared(_) => false,
        }
    }
}

impl<Options: Default> Namespace<Options> {
    /// Returns the contained [`Unshared`](Self::Unshared) value or a default.
    pub fn unwrap_or_default(self) -> (options: Options)
        ensures
            self matches Namespace::Unshared(o) ==> options == o,
            self is Shared ==> call_ensures(Options::default, (), options),
    {
        if let Namespace::Unshared(options) = self {
            options
        } else {
            Options::default()
        }
    }
}

impl<Options: Default> Default for Namespace<Options> {
    fn default() -> (r: Self)
        ensures
            r matches Namespace::Unshared(o) && call_ensures(Options::default, (), o),
    {
        Namespace::Unshared(Options::default())
    }
}

/// IPC namespace policy.
#[derive(PartialEq, Eq, Structural, Copy, Clone, Debug)]
pub struct IpcOptions;

impl Default for IpcOptions {
    fn default() -> (r: Self)
        ensures
            r == IpcOptions,
    {
        IpcOptions
    }
}

/// Pid namespace policy.
#[derive(PartialEq, Eq, Structural, Copy, Clone, Debug)]
pub struct PidOptions;

impl Default for PidOptions {
    fn default() -> (r: Self)
        ensures
            r == PidOptions,
    {
        PidOptions
    }
}

/// Network namespace policy.
#[derive(PartialEq, Eq, Structural, Clone, Debug)]
pub enum NetworkOptions {
    /// Leave the created network namespace isolated.
    Isolate,
}

impl Default for NetworkOptions {
    fn default() -> (r: Self)
        ensures
            r == NetworkOptions::Isolate,
    {
        NetworkOptions::Isolate
    }
}

/// UTS namespace policy.
#[derive(PartialEq, Eq, Clone, Debug)]
pub struct UtsOptions<'a> {
    /// Hostname to set with `sethostname(2)`.
    pub hostname: Option<&'a [u8]>,

    /// Domain name to set with `setdomainname(2)`.
    pub domain: Option<&'a [u8]>,
}

/// The default UTS policy: neither name is set.
pub open spec fn default_uts<'a>() -> UtsOptions<'a> {
    UtsOptions { hostname: None, domain: None }
}

impl<'a> Default for UtsOptions<'a> {
    fn default() -> (r: Self)
        ensures
            r == default_uts::<'a>(),
    {
        UtsOptions { hostname: None, domain: None }
    }
}

impl<'a> UtsOptions<'a> {
    /// Set the hostname in the namespace.
    pub fn set_hostname(self, hostname: &'a [u8]) -> (r: Self)
        ensures
            r == (UtsOptions { hostname: Some(hostname), ..self }),
    {
        UtsOptions { hostname: Some(hostname), ..self }
    }

    /// Clear the hostname, if one was set.
    pub fn clear_hostname(self) -> (r: Self)
        ensures
            r == (UtsOptions { hostname: None, ..self }),
    {
        UtsOptions { hostname: None, ..self }
    }

    /// Set the domain name in the namespace.
    pub fn set_domain(self, domain: &'a [u8]) -> (r: Self)
        ensures
            r == (UtsOptions { domain: Some(domain), ..self }),
    {
        UtsOptions { domain: Some(domain), ..self }
    }

    /// Clear the domain name, if one was set.
    pub fn clear_domain(self) -> (r: Self)
        ensures
            r == (UtsOptions { domain: None, ..self }),
    {
        UtsOptions { domain: None, ..self }
    }
}

/// Time namespace policy.
#[derive(PartialEq, Eq, Structural, Copy, Clone, Debug)]
pub struct TimeOptions {
    /// Offset for the initial time namespace's `CLOCK_MONOTONIC`.
    pub monotonic_offset: Option<TimeOffset>,

    /// Offset for the initial time namespace's `CLOCK_BOOTTIME`.
    pub boottime_offset: Option<TimeOffset>,
}

/// The default time policy: neither clock is offset.
pub open spec fn default_time() -> TimeOptions {
    TimeOptions { monotonic_offset: None, boottime_offset: None }
}

impl Default for TimeOptions {
    fn default() -> (r: Self)
        ensures
            r == default_time(),
    {
        TimeOptions { monotonic_offset: None, boottime_offset: None }
    }
}

impl TimeOptions {
    /// Set the offset from the initial time namespace's `CLOCK_MONOTONIC`.
    pub fn monotonic_offset(self, configure: impl FnOnce(TimeOffset) -> TimeOffset) -> (r: Self)
        requires
            call_requires(configure, (self.monotonic_offset.unwrap_or(default_offset()),)),
        ensures
            r.monotonic_offset matches Some(offset) && call_ensures(
                configure,
                (self.monotonic_offset.unwrap_or(default_offset()),),
                offset,
            ),
            r.boottime_offset == self.boottime_offset,
    {
        let current = match self.monotonic_offset {
            Some(offset) => offset,
            None => TimeOffset::default(),
        };
        TimeOptions { monotonic_offset: Some(configure(current)), ..self }
    }

    /// Clear the `CLOCK_MONOTONIC` offset if one was set.
    pub fn clear_monotonic_offset(self) -> (r: Self)
        ensures
            r == (TimeOptions { monotonic_offset: None, ..self }),
    {
        TimeOptions { monotonic_offset: None, ..self }
    }

    /// Set the offset from the initial time namespace's `CLOCK_BOOTTIME`.
    pub fn boottime_offset(self, configure: impl FnOnce(TimeOffset) -> TimeOffset) -> (r: Self)
        requires
            call_requires(configure, (self.boottime_offset.unwrap_or(default_offset()),)),
        ensures
            r.boottime_offset matches Some(offset) && call_ensures(
                configure,
                (self.boottime_offset.unwrap_or(default_offset()),),
                offset,
            ),
            r.monotonic_offset == self.monotonic_offset,
    {
        let current = match self.boottime_offset {
            Some(offset) => offset,
            None => TimeOffset::default(),
        };
        TimeOptions { boottime_offset: Some(configure(current)), ..self }
    }

    /// Clear the `CLOCK_BOOTTIME` offset if one was set.
    pub fn clear_boottime_offset(self) -> (r: Self)
        ensures
            r == (TimeOptions { boottime_offset: None, ..self }),
    {
        TimeOptions { boottime_offset: None, ..self }
    }
}

/// Time offset.
///
/// Used for time namespace configuration.
#[derive(PartialEq, Eq, Structural, Copy, Clone, Debug)]
pub struct TimeOffset {
    /// Offset from the initial time namespace in seconds.
    pub seconds: TimeOffsetSeconds,

    /// Offset from the initial time namespace in nanoseconds.
    pub nanoseconds: TimeOffsetNanoseconds,
}

/// The zero offset.
pub open spec fn default_offset() -> TimeOffset {
    TimeOffset { seconds: TimeOffsetSeconds::spec_zero(), nanoseconds: TimeOffsetNanoseconds::spec_zero() }
}

impl Default for TimeOffset {
    fn default() -> (r: Self)
        ensures
            r == default_offset(),
    {
        TimeOffset { seconds: TimeOffsetSeconds::zero(), nanoseconds: TimeOffsetNanoseconds::zero() }
    }
}

impl TimeOffset {
    /// Set the seconds component of the offset.
    pub fn set_seconds(self, seconds: TimeOffsetSeconds) -> (r: Self)
        ensures
            r == (TimeOffset { seconds, ..self }),
    {
        TimeOffset { seconds, ..self }
    }

    /// Set the nanoseconds component of the offset.
    pub fn set_nanoseconds(self, nanoseconds: TimeOffsetNanoseconds) -> (r: Self)
        ensures
            r == (TimeOffset { nanoseconds, ..self }),
    {
        TimeOffset { nanoseconds, ..self }
    }
}

/// Whether a seconds value is accepted by [`TimeOffsetSeconds::new`]: its
/// magnitude does not exceed `KTIME_SEC_MAX`.
pub open spec fn accepted_seconds(value: i64) -> bool {
    -KTIME_SEC_MAX <= value <= KTIME_SEC_MAX
}

/// Seconds component of a kernel time offset.
#[derive(PartialEq, Eq, Structural, Copy, Clone, Debug)]
pub struct TimeOffsetSeconds(i64);

impl TimeOffsetSeconds {
    /// The contained offset.
    pub closed spec fn spec_raw(self) -> i64 {
        self.0
    }

    /// The zero offset.
    pub closed spec fn spec_zero() -> Self {
        TimeOffsetSeconds(0)
    }

    /// The invariant of the seconds component.
    #[verifier::type_invariant]
    closed spec fn in_range(self) -> bool {
        accepted_seconds(self.0)
    }

    /// The zero offset.
    pub fn zero() -> (r: Self)
        ensures
            r == Self::spec_zero(),
            r.spec_raw() == 0,
    {
        TimeOffsetSeconds(0)
    }

    /// Construct a new second component of a time offset: `None` when its
    /// magnitude exceeds `KTIME_SEC_MAX`.
    pub fn new(value: i64) -> (r: Option<Self>)
        ensures
            r is Some <==> accepted_seconds(value),
            r matches Some(s) ==> s.spec_raw() == value,
    {
        if -KTIME_SEC_MAX <= value && value <= KTIME_SEC_MAX {
            Some(Self::new_unchecked(value))
        } else {
            None
        }
    }

    /// Construct a new second component of a time offset without performing a
    /// bounds check.
    pub fn new_unchecked(value: i64) -> (r: Self)
        requires
            accepted_seconds(value),
        ensures
            r.spec_raw() == value,
    {
        TimeOffsetSeconds(value)
    }

    /// Get the contained time offset value.
    pub fn into_raw(self) -> (raw: i64)
        ensures
            raw == self.spec_raw(),
            accepted_seconds(raw),
    {
        proof {
            use_type_invariant(&self);
        }
        self.0
    }
}

/// Nanoseconds component of a kernel time offset.
///
/// This value is guaranteed to not exceed 999,999,999.
#[derive(PartialEq, Eq, Structural, Copy, Clone, Debug)]
pub struct TimeOffsetNanoseconds(u32);

impl TimeOffsetNanoseconds {
    /// The contained offset.
    pub closed spec fn spec_raw(self) -> u32 {
        self.0
    }

    /// The zero offset.
    pub closed spec fn spec_zero() -> Self {
        TimeOffsetNanoseconds(0)
    }

    /// The invariant of the nanoseconds component.
    #[verifier::type_invariant]
    closed spec fn in_range(self) -> bool {
        self.0 < 1_000_000_000
    }

    /// The zero offset.
    pub fn zero() -> (r: Self)
        ensures
            r == Self::spec_zero(),
            r.spec_raw() == 0,
    {
        TimeOffsetNanoseconds(0)
    }

    /// Construct a new nanosecond component of a time offset.
    ///
    /// This value must not exceed 999,999,999.
    pub fn new(value: u32) -> (r: Option<Self>)
        ensures
            r is Some <==> value < 1_000_000_000,
            r matches Some(n) ==> n.spec_raw() == value,
    {
        if value < 1_000_000_000 {
            Some(Self::new_unchecked(value))
        } else {
            None
        }
    }

    /// Construct a new nanosecond component of a time offset without
    /// performing a bounds check.
    pub fn new_unchecked(value: u32) -> (r: Self)
        requires
            value < 1_000_000_000,
        ensures
            r.spec_raw() == value,
    {
        TimeOffsetNanoseconds(value)
    }

    /// Get the contained time offset value.
    pub fn into_raw(self) -> (raw: u32)
        ensures
            raw == self.spec_raw(),
            raw < 1_000_000_000,
    {
        proof {
            use_type_invariant(&self);
        }
        self.0
    }
}

/// User namespace policy.
#[derive(PartialEq, Eq, Structural, Copy, Clone, Debug)]
pub struct UserOptions {
    /// Mapping mode to apply to the user namespace.
    pub mapping_mode: UserMappingMode,

    /// Whether to disallow the creation of new user namespaces within the
    /// sandbox.
    pub disable_userns: bool,
}

/// The default user namespace policy: the identity mapping of the caller's
/// ids, with further user namespaces disallowed.
pub open spec fn default_user() -> UserOptions {
    UserOptions {
        mapping_mode: UserMappingMode::Simple { uid: None, gid: None },
        disable_userns: true,
    }
}

impl Default for UserOptions {
    fn default() -> (r: Self)
        ensures
            r == default_user(),
    {
        UserOptions {
            mapping_mode: UserMappingMode::default(),
            disable_userns: true,
        }
    }
}

impl UserOptions {
    /// Use a normal unprivileged user namespace mapping.
    ///
    /// This maps the effective uid and effective gid of the host process to
    /// the given values. If an id is not set, the identity mapping is
    /// performed for that id.
    pub fn simple_mapping(self, uid: Option<Uid>, gid: Option<Gid>) -> (r: Self)
        ensures
            r == (UserOptions { mapping_mode: UserMappingMode::Simple { uid, gid }, ..self }),
    {
        UserOptions { mapping_mode: UserMappingMode::Simple { uid, gid }, ..self }
    }

    /// Use the identity mapping for both the host process' effective uid and
    /// effective gid.
    pub fn simple_mapping_identity(self) -> (r: Self)
        ensures
            r == (UserOptions {
                mapping_mode: UserMappingMode::Simple { uid: None, gid: None },
                ..self
            }),
    {
        self.simple_mapping(None, None)
    }

    /// Whether to disable the creation of new user namespaces within the
    /// sandbox.
    pub fn disable_userns(self, disable_userns: bool) -> (r: Self)
        ensures
            r == (UserOptions { disable_userns, ..self }),
    {
        UserOptions { disable_userns, ..self }
    }
}

/// User namespace mapping mode.
#[derive(PartialEq, Eq, Structural, Copy, Clone, Debug)]
pub enum UserMappingMode {
    /// Only map the uid and gid of the parent thread.
    Simple {
        /// User ID to map the uid of the parent thread to; the identity
        /// mapping when unspecified.
        uid: Option<Uid>,

        /// Group ID to map the gid of the parent thread to; the identity
        /// mapping when unspecified.
        gid: Option<Gid>,
    },
}

impl Default for UserMappingMode {
    fn default() -> (r: Self)
        ensures
            r == (UserMappingMode::Simple { uid: None, gid: None }),
    {
        UserMappingMode::Simple { uid: None, gid: None }
    }
}

} // verus!
