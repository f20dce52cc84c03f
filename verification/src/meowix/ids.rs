//! Wrappers over IDs used by the kernel for processes, users, and groups.

use vstd::prelude::*;

verus! {

/// User ID type used by the kernel.
pub type RawUid = u32;

/// Group ID type used by the kernel.
pub type RawGid = u32;

/// Process ID type used by the kernel.
pub type RawPid = i32;

/// Wrapper over a user ID.
///
/// This ID is guaranteed to not be `-1`.
#[derive(PartialEq, Eq, Structural, Copy, Clone, Debug, Hash)]
pub struct Uid(RawUid);

impl Uid {
    /// The raw user ID value.
    pub closed spec fn spec_raw(self) -> RawUid {
        self.0
    }

    /// The invariant of a user ID: it is not `-1`.
    #[verifier::type_invariant]
    closed spec fn not_all_ones(self) -> bool {
        self.0 != u32::MAX
    }

    /// Access the raw user ID value.
    pub fn into_raw(self) -> (raw: RawUid)
        ensures
            raw == self.spec_raw(),
            raw != u32::MAX,
    {
        proof {
            use_type_invariant(&self);
        }
        self.0
    }

    /// Construct a user ID without checking for `-1`.
    pub fn from_raw_unchecked(value: RawUid) -> (uid: Self)
        requires
            value != u32::MAX,
        ensures
            uid.spec_raw() == value,
    {
        Self(value)
    }

    /// Construct a user ID, checking for `-1`.
    pub fn from_raw(value: RawUid) -> (uid: Option<Self>)
        ensures
            uid is Some <==> value != u32::MAX,
            uid matches Some(u) ==> u.spec_raw() == value,
    {
        if value == u32::MAX {
            return None;
        }
        Some(Self::from_raw_unchecked(value))
    }
}

/// Wrapper over a group ID.
///
/// This ID is guaranteed to not be `-1`.
#[derive(PartialEq, Eq, Structural, Copy, Clone, Debug, Hash)]
pub struct Gid(RawGid);

impl Gid {
    /// The raw group ID value.
    pub closed spec fn spec_raw(self) -> RawGid {
        self.0
    }

    /// The invariant of a group ID: it is not `-1`.
    #[verifier::type_invariant]
    closed spec fn not_all_ones(self) -> bool {
        self.0 != u32::MAX
    }

    /// Access the raw group ID value.
    pub fn into_raw(self) -> (raw: RawGid)
        ensures
            raw == self.spec_raw(),
            raw != u32::MAX,
    {
        proof {
            use_type_invariant(&self);
        }
        self.0
    }

    /// Construct a group ID without checking for `-1`.
    pub fn from_raw_unchecked(value: RawGid) -> (gid: Self)
        requires
            value != u32::MAX,
        ensures
            gid.spec_raw() == value,
    {
        Self(value)
    }

    /// Construct a group ID, checking for `-1`.
    pub fn from_raw(value: RawGid) -> (gid: Option<Self>)
        ensures
            gid is Some <==> value != u32::MAX,
            gid matches Some(g) ==> g.spec_raw() == value,
    {
        if value == u32::MAX {
            return None;
        }
        Some(Self::from_raw_unchecked(value))
    }
}

/// Wrapper over a positive process ID.
#[derive(PartialEq, Eq, Structural, Copy, Clone, Debug, Hash)]
pub struct Pid(RawPid);

impl Pid {
    /// The raw process ID value.
    pub closed spec fn spec_raw(self) -> RawPid {
        self.0
    }

    /// The invariant of a process ID: it is positive.
    #[verifier::type_invariant]
    closed spec fn positive(self) -> bool {
        self.0 > 0
    }

    /// Access the raw process ID value.
    pub fn into_raw(self) -> (raw: RawPid)
        ensures
            raw == self.spec_raw(),
            raw > 0,
    {
        proof {
            use_type_invariant(&self);
        }
        self.0
    }

    /// Construct a process ID without checking the invariants.
    pub fn from_raw_unchecked(value: RawPid) -> (pid: Self)
        requires
            value > 0,
        ensures
            pid.spec_raw() == value,
    {
        Self(value)
    }

    /// Construct a process ID, checking that it is greater than zero.
    pub fn from_raw(value: RawPid) -> (pid: Option<Self>)
        ensures
            pid is Some <==> value > 0,
            pid matches Some(p) ==> p.spec_raw() == value,
    {
        if value >= 1 {
            Some(Self::from_raw_unchecked(value))
        } else {
            None
        }
    }
}

} // verus!
