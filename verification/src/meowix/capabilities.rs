//! Linux capabilities: sets of capabilities, their names, and the loops that
//! drop the bounding set and raise the ambient set.

use super::errno::Errno;
use super::errors::{Syscall, SyscallError};
use crate::order::bytes_equal;
use vstd::prelude::*;
use vstd::string::StringSliceAdditionalSpecFns;

verus! {

/// Number of capability bits a set holds.
pub const MAX_LAST_CAP: u32 = 64;

/// The number of the capability with the given name, without its `CAP_`
/// prefix.
pub open spec fn capability_number(name: Seq<u8>) -> Option<nat> {
    if name == "CHOWN".spec_bytes() {
        Some(0nat)
    } else if name == "DAC_OVERRIDE".spec_bytes() {
        Some(1nat)
    } else if name == "DAC_READ_SEARCH".spec_bytes() {
        Some(2nat)
    } else if name == "FOWNER".spec_bytes() {
        Some(3nat)
    } else if name == "FSETID".spec_bytes() {
        Some(4nat)
    } else if name == "KILL".spec_bytes() {
        Some(5nat)
    } else if name == "SETGID".spec_bytes() {
        Some(6nat)
    } else if name == "SETUID".spec_bytes() {
        Some(7nat)
    } else if name == "SETPCAP".spec_bytes() {
        Some(8nat)
    } else if name == "LINUX_IMMUTABLE".spec_bytes() {
        Some(9nat)
    } else if name == "NET_BIND_SERVICE".spec_bytes() {
        Some(10nat)
    } else if name == "NET_BROADCAST".spec_bytes() {
        Some(11nat)
    } else if name == "NET_ADMIN".spec_bytes() {
        Some(12nat)
    } else if name == "NET_RAW".spec_bytes() {
        Some(13nat)
    } else if name == "IPC_LOCK".spec_bytes() {
        Some(14nat)
    } else if name == "IPC_OWNER".spec_bytes() {
        Some(15nat)
    } else if name == "SYS_MODULE".spec_bytes() {
        Some(16nat)
    } else if name == "SYS_RAWIO".spec_bytes() {
        Some(17nat)
    } else if name == "SYS_CHROOT".spec_bytes() {
        Some(18nat)
    } else if name == "SYS_PTRACE".spec_bytes() {
        Some(19nat)
    } else if name == "SYS_PACCT".spec_bytes() {
        Some(20nat)
    } else if name == "SYS_ADMIN".spec_bytes() {
        Some(21nat)
    } else if name == "SYS_BOOT".spec_bytes() {
        Some(22nat)
    } else if name == "SYS_NICE".spec_bytes() {
        Some(23nat)
    } else if name == "SYS_RESOURCE".spec_bytes() {
        Some(24nat)
    } else if name == "SYS_TIME".spec_bytes() {
        Some(25nat)
    } else if name == "SYS_TTY_CONFIG".spec_bytes() {
        Some(26nat)
    } else if name == "MKNOD".spec_bytes() {
        Some(27nat)
    } else if name == "LEASE".spec_bytes() {
        Some(28nat)
    } else if name == "AUDIT_WRITE".spec_bytes() {
        Some(29nat)
    } else if name == "AUDIT_CONTROL".spec_bytes() {
        Some(30nat)
    } else if name == "SETFCAP".spec_bytes() {
        Some(31nat)
    } else if name == "MAC_OVERRIDE".spec_bytes() {
        Some(32nat)
    } else if name == "MAC_ADMIN".spec_bytes() {
        Some(33nat)
    } else if name == "SYSLOG".spec_bytes() {
        Some(34nat)
    } else if name == "WAKE_ALARM".spec_bytes() {
        Some(35nat)
    } else if name == "BLOCK_SUSPEND".spec_bytes() {
        Some(36nat)
    } else if name == "AUDIT_READ".spec_bytes() {
        Some(37nat)
    } else if name == "PERFMON".spec_bytes() {
        Some(38nat)
    } else if name == "BPF".spec_bytes() {
        Some(39nat)
    } else if name == "CHECKPOINT_RESTORE".spec_bytes() {
        Some(40nat)
    } else {
        None
    }
}

/// A set of capabilities, one bit per capability number.
#[derive(PartialEq, Eq, Structural, Copy, Clone, Debug)]
pub struct CapabilitySet {
    /// The bits of the set.
    pub bits: u64,
}

impl Default for CapabilitySet {
    fn default() -> (r: Self)
        ensures
            r.bits == 0,
    {
        CapabilitySet { bits: 0 }
    }
}

/// Whether a name is the given string.
fn name_is(bytes: &[u8], name: &str) -> (r: bool)
    ensures
        r == (bytes@ == name.spec_bytes()),
{
    bytes_equal(bytes, name.as_bytes())
}

/// The number of the named capability.
fn lookup_capability(bytes: &[u8]) -> (r: Option<u32>)
    ensures
        r matches Some(n) ==> capability_number(bytes@) == Some(n as nat),
        r is None ==> capability_number(bytes@) is None,
        r matches Some(n) ==> n < 41,
{
    if name_is(bytes, "CHOWN") {
        return Some(0);
    }
    if name_is(bytes, "DAC_OVERRIDE") {
        return Some(1);
    }
    if name_is(bytes, "DAC_READ_SEARCH") {
        return Some(2);
    }
    if name_is(bytes, "FOWNER") {
        return Some(3);
    }
    if name_is(bytes, "FSETID") {
        return Some(4);
    }
    if name_is(bytes, "KILL") {
        return Some(5);
    }
    if name_is(bytes, "SETGID") {
        return Some(6);
    }
    if name_is(bytes, "SETUID") {
        return Some(7);
    }
    if name_is(bytes, "SETPCAP") {
        return Some(8);
    }
    if name_is(bytes, "LINUX_IMMUTABLE") {
        return Some(9);
    }
    if name_is(bytes, "NET_BIND_SERVICE") {
        return Some(10);
    }
    if name_is(bytes, "NET_BROADCAST") {
        return Some(11);
    }
    if name_is(bytes, "NET_ADMIN") {
        return Some(12);
    }
    if name_is(bytes, "NET_RAW") {
        return Some(13);
    }
    if name_is(bytes, "IPC_LOCK") {
        return Some(14);
    }
    if name_is(bytes, "IPC_OWNER") {
        return Some(15);
    }
    if name_is(bytes, "SYS_MODULE") {
        return Some(16);
    }
    if name_is(bytes, "SYS_RAWIO") {
        return Some(17);
    }
    if name_is(bytes, "SYS_CHROOT") {
        return Some(18);
    }
    if name_is(bytes, "SYS_PTRACE") {
        return Some(19);
    }
    if name_is(bytes, "SYS_PACCT") {
        return Some(20);
    }
    if name_is(bytes, "SYS_ADMIN") {
        return Some(21);
    }
    if name_is(bytes, "SYS_BOOT") {
        return Some(22);
    }
    if name_is(bytes, "SYS_NICE") {
        return Some(23);
    }
    if name_is(bytes, "SYS_RESOURCE") {
        return Some(24);
    }
    if name_is(bytes, "SYS_TIME") {
        return Some(25);
    }
    if name_is(bytes, "SYS_TTY_CONFIG") {
        return Some(26);
    }
    if name_is(bytes, "MKNOD") {
        return Some(27);
    }
    if name_is(bytes, "LEASE") {
        return Some(28);
    }
    if name_is(bytes, "AUDIT_WRITE") {
        return Some(29);
    }
    if name_is(bytes, "AUDIT_CONTROL") {
        return Some(30);
    }
    if name_is(bytes, "SETFCAP") {
        return Some(31);
    }
    if name_is(bytes, "MAC_OVERRIDE") {
        return Some(32);
    }
    if name_is(bytes, "MAC_ADMIN") {
        return Some(33);
    }
    if name_is(bytes, "SYSLOG") {
        return Some(34);
    }
    if name_is(bytes, "WAKE_ALARM") {
        return Some(35);
    }
    if name_is(bytes, "BLOCK_SUSPEND") {
        return Some(36);
    }
    if name_is(bytes, "AUDIT_READ") {
        return Some(37);
    }
    if name_is(bytes, "PERFMON") {
        return Some(38);
    }
    if name_is(bytes, "BPF") {
        return Some(39);
    }
    if name_is(bytes, "CHECKPOINT_RESTORE") {
        return Some(40);
    }
    None
}

impl CapabilitySet {
    /// The empty set.
    pub fn empty() -> (r: Self)
        ensures
            r.bits == 0,
    {
        CapabilitySet { bits: 0 }
    }

    /// The set with the given bits, unknown bits included.
    pub fn from_bits_retain(bits: u64) -> (r: Self)
        ensures
            r.bits == bits,
    {
        CapabilitySet { bits }
    }

    /// The bits of the set.
    pub fn bits(&self) -> (b: u64)
        ensures
            b == self.bits,
    {
        self.bits
    }

    /// Whether every capability of `other` is in this set.
    pub fn contains(&self, other: CapabilitySet) -> (r: bool)
        ensures
            r == (self.bits & other.bits == other.bits),
    {
        self.bits & other.bits == other.bits
    }

    /// The union of two sets.
    pub fn union(self, other: CapabilitySet) -> (r: Self)
        ensures
            r.bits == self.bits | other.bits,
    {
        CapabilitySet { bits: self.bits | other.bits }
    }

    /// The capabilities of this set that are not in `other`.
    pub fn difference(self, other: CapabilitySet) -> (r: Self)
        ensures
            r.bits == self.bits & !other.bits,
    {
        CapabilitySet { bits: self.bits & !other.bits }
    }

    /// The capabilities in exactly one of the two sets: `other` toggled in
    /// this one.
    pub fn symmetric_difference(self, other: CapabilitySet) -> (r: Self)
        ensures
            r.bits == self.bits ^ other.bits,
    {
        CapabilitySet { bits: self.bits ^ other.bits }
    }

    /// The set of the capability with the given name, such as `SYS_ADMIN`,
    /// or nothing for an unknown name.
    pub fn from_str(value: &str) -> (r: Option<Self>)
        ensures
            match capability_number(value.spec_bytes()) {
                Some(n) => r == Some(CapabilitySet { bits: (1u64 << n) }),
                None => r is None,
            },
    {
        match lookup_capability(value.as_bytes()) {
            Some(n) => Some(CapabilitySet { bits: 1u64 << n }),
            None => None,
        }
    }
}

/// Drops one capability from the calling thread's bounding set.
///
/// Calls `rustix::thread::remove_capability_from_bounding_set` with the set
/// of the single capability `cap`, which performs `prctl(PR_CAPBSET_DROP)`,
/// and hands back the raw error number of a failure. What the kernel answers
/// depends on the thread's capabilities, so nothing is stated of it.
#[verifier::external_body]
pub fn drop_capability_from_bounding_set(cap: u32) -> (r: Result<(), i32>)
    requires
        cap < MAX_LAST_CAP,
{
    match rustix::thread::remove_capability_from_bounding_set(
        rustix::thread::CapabilitySet::from_bits_retain(1u64 << cap),
    ) {
        Ok(()) => Ok(()),
        Err(e) => Err(e.raw_os_error()),
    }
}

/// Raises one capability into the calling thread's ambient set.
///
/// Calls `rustix::thread::configure_capability_in_ambient_set` with the set
/// of the single capability `cap` and `true`, which performs
/// `prctl(PR_CAP_AMBIENT, PR_CAP_AMBIENT_RAISE)`, and hands back the raw error
/// number of a failure. What the kernel answers depends on the thread's
/// capabilities, so nothing is stated of it.
#[verifier::external_body]
pub fn raise_capability_into_ambient_set(cap: u32) -> (r: Result<(), i32>)
    requires
        cap < MAX_LAST_CAP,
{
    match rustix::thread::configure_capability_in_ambient_set(
        rustix::thread::CapabilitySet::from_bits_retain(1u64 << cap),
        true,
    ) {
        Ok(()) => Ok(()),
        Err(e) => Err(e.raw_os_error()),
    }
}

/// What a walk over the capability numbers does after the kernel answered
/// for one of them.
#[derive(PartialEq, Eq, Structural, Copy, Clone, Debug)]
pub enum WalkStep {
    /// The call succeeded: go on with the next number.
    Next,
    /// The kernel does not know this number (`EINVAL`): the walk is done.
    Done,
    /// The call failed otherwise: the walk fails with this error.
    Fail(SyscallError),
}

/// The step a walk takes after the raw answer of one `prctl(2)` call:
/// `EINVAL` ends it, any other error fails it.
pub open spec fn spec_walk_step(answer: Result<(), i32>) -> WalkStep {
    match answer {
        Ok(()) => WalkStep::Next,
        Err(raw) => if Errno::spec_from_raw(raw as int) == Errno::spec_from_raw(22) {
            WalkStep::Done
        } else {
            WalkStep::Fail(
                SyscallError { syscall: Syscall::Prctl, error: Errno::spec_from_raw(raw as int) },
            )
        },
    }
}

/// The step a walk takes after the raw answer of one `prctl(2)` call.
pub fn walk_step(answer: Result<(), i32>) -> (step: WalkStep)
    ensures
        step == spec_walk_step(answer),
{
    match answer {
        Ok(()) => WalkStep::Next,
        Err(raw) => {
            let error = Errno::from_raw_os_error(raw);
            if error == Errno::from_raw_os_error(22) {
                WalkStep::Done
            } else {
                WalkStep::Fail(SyscallError::new(Syscall::Prctl, error))
            }
        },
    }
}

/// The outcome of a walk that received `answers`, in order: the first
/// answer that does not let the walk go on decides it; a walk whose every
/// answer let it go on succeeds.
pub open spec fn walk_result(answers: Seq<Result<(), i32>>) -> Result<(), SyscallError>
    decreases answers.len(),
{
    if answers.len() == 0 {
        Ok(())
    } else {
        match spec_walk_step(answers[0]) {
            WalkStep::Next => walk_result(answers.drop_first()),
            WalkStep::Done => Ok(()),
            WalkStep::Fail(e) => Err(e),
        }
    }
}

/// Whether `answers` are those a walk over `n` targets receives: one per
/// target in order, every one but the last letting it go on, and the walk
/// stops early only at an answer that ends it.
pub open spec fn walk_stops_right(answers: Seq<Result<(), i32>>, n: int) -> bool {
    &&& answers.len() <= n
    &&& forall|i: int| 0 <= i < answers.len() - 1 ==> #[trigger] spec_walk_step(answers[i]) is Next
    &&& answers.len() < n ==> answers.len() > 0 && !(spec_walk_step(answers.last()) is Next)
}

/// The outcome of a walk after one more answer, when every earlier answer
/// let it go on.
proof fn lemma_walk_push(answers: Seq<Result<(), i32>>, a: Result<(), i32>)
    requires
        forall|i: int| 0 <= i < answers.len() ==> #[trigger] spec_walk_step(answers[i]) is Next,
    ensures
        walk_result(answers.push(a)) == walk_result(seq![a]),
        walk_result(answers) == Ok::<(), SyscallError>(()),
    decreases answers.len(),
{
    if answers.len() > 0 {
        let rest = answers.drop_first();
        assert(answers.push(a).drop_first() =~= rest.push(a));
        assert forall|i: int| 0 <= i < rest.len() implies #[trigger] spec_walk_step(rest[i]) is Next by {
            assert(rest[i] == answers[i + 1]);
        }
        assert(spec_walk_step(answers[0]) is Next);
        lemma_walk_push(rest, a);
    } else {
        assert(answers.push(a) =~= seq![a]);
    }
    assert(seq![a].drop_first() =~= Seq::<Result<(), i32>>::empty());
}

/// Whether the capability numbered `cap` is in the set.
pub open spec fn in_set(set: CapabilitySet, cap: u32) -> bool {
    set.bits & (1u64 << cap) == (1u64 << cap)
}

/// Whether `v` lists, in increasing order, exactly the capability numbers
/// below 64 whose membership in `set` is `members`.
pub open spec fn lists_capabilities(v: Seq<u32>, set: CapabilitySet, members: bool) -> bool {
    &&& forall|i: int| 0 <= i < v.len() ==> #[trigger] v[i] < 64 && in_set(set, v[i]) == members
    &&& forall|i: int, j: int| 0 <= i < j < v.len() ==> v[i] < v[j]
    &&& forall|c: u32| c < 64 && in_set(set, c) == members ==> #[trigger] v.contains(c)
}

/// The capability numbers below `n` whose membership in `set` is
/// `members`, in increasing order.
pub open spec fn capability_list(set: CapabilitySet, members: bool, n: nat) -> Seq<u32>
    decreases n,
{
    if n == 0 {
        Seq::empty()
    } else {
        capability_list(set, members, (n - 1) as nat) + if in_set(set, (n - 1) as u32) == members {
            seq![(n - 1) as u32]
        } else {
            Seq::empty()
        }
    }
}

/// The capability numbers below 64 whose membership in `set` is `members`,
/// in increasing order.
fn capability_numbers(set: CapabilitySet, members: bool) -> (v: Vec<u32>)
    ensures
        lists_capabilities(v@, set, members),
        v@ == capability_list(set, members, 64),
{
    let mut v: Vec<u32> = Vec::new();
    let mut cap: u32 = 0;
    while cap < MAX_LAST_CAP
        invariant
            cap <= MAX_LAST_CAP,
            MAX_LAST_CAP == 64,
            forall|i: int| 0 <= i < v@.len() ==> #[trigger] v@[i] < cap && in_set(set, v@[i]) == members,
            forall|i: int, j: int| 0 <= i < j < v@.len() ==> v@[i] < v@[j],
            forall|c: u32| c < cap && in_set(set, c) == members ==> #[trigger] v@.contains(c),
            v@ == capability_list(set, members, cap as nat),
        decreases MAX_LAST_CAP - cap,
    {
        let present = set.contains(CapabilitySet::from_bits_retain(1u64 << cap));
        let ghost prefix = v@;
        if present == members {
            let ghost old_v = v@;
            v.push(cap);
            assert forall|c: u32| c < cap + 1 && in_set(set, c) == members implies #[trigger] v@.contains(c) by {
                if c < cap {
                    assert(old_v.contains(c));
                    let k = choose|k: int| 0 <= k < old_v.len() && old_v[k] == c;
                    assert(v@[k] == c);
                } else {
                    assert(v@[v@.len() - 1] == c);
                }
            }
        } else {
            assert forall|c: u32| c < cap + 1 && in_set(set, c) == members implies #[trigger] v@.contains(c) by {
                if c == cap {
                    assert(false);
                }
            }
        }
        assert(v@ =~= capability_list(set, members, (cap + 1) as nat));
        cap = cap + 1;
    }
    v
}

/// The capabilities the bounding set loses: every number below 64 not in
/// `other_than`, in increasing order.
pub fn bounding_set_targets(other_than: CapabilitySet) -> (v: Vec<u32>)
    ensures
        lists_capabilities(v@, other_than, false),
        v@ == capability_list(other_than, false, 64),
{
    capability_numbers(other_than, false)
}

/// The capabilities raised into the ambient set: every number below 64 in
/// `raise`, in increasing order.
pub fn ambient_targets(raise: CapabilitySet) -> (v: Vec<u32>)
    ensures
        lists_capabilities(v@, raise, true),
        v@ == capability_list(raise, true, 64),
{
    capability_numbers(raise, true)
}

/// Walks over `targets` in order, calling `call` on each until an answer
/// ends the walk: `EINVAL` ends it with success, any other error ends it with
/// that error. Returns the outcome and the answers received, one per call.
pub fn walk_capabilities<F: Fn(u32) -> Result<(), i32>>(targets: &[u32], call: F) -> (r: (
    Result<(), SyscallError>,
    Vec<Result<(), i32>>,
))
    requires
        forall|i: int| 0 <= i < targets@.len() ==> call_requires(call, (#[trigger] targets@[i],)),
    ensures
        walk_stops_right(r.1@, targets@.len() as int),
        forall|i: int| 0 <= i < r.1@.len() ==> call_ensures(call, (targets@[i],), #[trigger] r.1@[i]),
        r.0 == walk_result(r.1@),
        r.0 matches Err(e) ==> e.syscall == Syscall::Prctl && e.error != Errno::spec_from_raw(22),
{
    let mut answers: Vec<Result<(), i32>> = Vec::new();
    let mut i: usize = 0;
    while i < targets.len()
        invariant
            i <= targets@.len(),
            answers@.len() == i,
            forall|k: int| 0 <= k < targets@.len() ==> call_requires(call, (#[trigger] targets@[k],)),
            forall|k: int| 0 <= k < answers@.len() ==> call_ensures(call, (targets@[k],), #[trigger] answers@[k]),
            forall|k: int| 0 <= k < answers@.len() ==> #[trigger] spec_walk_step(answers@[k]) is Next,
        decreases targets@.len() - i,
    {
        let answer = call(targets[i]);
        let ghost before = answers@;
        answers.push(answer);
        proof {
            lemma_walk_push(before, answer);
            assert(before.push(answer) == answers@);
            assert(seq![answer].drop_first() =~= Seq::<Result<(), i32>>::empty());
            assert(seq![answer][0] == answer);
            assert(walk_result(Seq::<Result<(), i32>>::empty()) == Ok::<(), SyscallError>(()));
            assert(walk_result(answers@) == match spec_walk_step(answer) {
                WalkStep::Next => Ok(()),
                WalkStep::Done => Ok(()),
                WalkStep::Fail(e) => Err(e),
            });
        }
        match walk_step(answer) {
            WalkStep::Next => {},
            WalkStep::Done => return (Ok(()), answers),
            WalkStep::Fail(e) => return (Err(e), answers),
        }
        i = i + 1;
    }
    proof {
        lemma_walk_push(answers@, Ok(()));
        assert(walk_result(answers@) == Ok::<(), SyscallError>(()));
    }
    (Ok(()), answers)
}

/// Drops every capability not in `other_than` from the bounding set of the
/// calling thread: [`drop_capability_from_bounding_set`] on each number of
/// [`bounding_set_targets`], in increasing order, until an answer ends the
/// walk. The first capability number the kernel rejects as invalid ends it
/// with success: it lies past the last capability the kernel knows.
///
/// # Errors
///
/// Fails with the first other error of `prctl(2)`.
pub fn drop_bounding_set(other_than: CapabilitySet) -> (r: Result<(), SyscallError>)
    ensures
        exists|answers: Seq<Result<(), i32>>|
            {
                &&& walk_stops_right(answers, capability_list(other_than, false, 64).len() as int)
                &&& forall|i: int|
                    0 <= i < answers.len() ==> call_ensures(
                        drop_capability_from_bounding_set,
                        (capability_list(other_than, false, 64)[i],),
                        #[trigger] answers[i],
                    )
                &&& r == walk_result(answers)
            },
        r matches Err(e) ==> e.syscall == Syscall::Prctl && e.error != Errno::spec_from_raw(22),
        other_than.bits == u64::MAX ==> r is Ok,
{
    let targets = bounding_set_targets(other_than);
    proof {
        if other_than.bits == u64::MAX {
            if targets@.len() > 0 {
                let c = targets@[0];
                let bits = other_than.bits;
                assert(bits == u64::MAX && c < 64 ==> bits & (1u64 << c) == (1u64 << c))
                    by (bit_vector);
            }
        }
    }
    let (r, answers) = walk_capabilities(targets.as_slice(), drop_capability_from_bounding_set);
    proof {
        if targets@.len() == 0 {
            assert(answers@.len() == 0);
            assert(answers@ =~= Seq::<Result<(), i32>>::empty());
        }
    }
    r
}

/// Raises every capability in `raise` into the ambient set of the calling
/// thread: [`raise_capability_into_ambient_set`] on each number of
/// [`ambient_targets`], in increasing order, until an answer ends the walk.
/// The first capability number the kernel rejects as invalid ends it with
/// success.
///
/// # Errors
///
/// Fails with the first other error of `prctl(2)`.
pub fn set_ambient_capabilities(raise: CapabilitySet) -> (r: Result<(), SyscallError>)
    ensures
        exists|answers: Seq<Result<(), i32>>|
            {
                &&& walk_stops_right(answers, capability_list(raise, true, 64).len() as int)
                &&& forall|i: int|
                    0 <= i < answers.len() ==> call_ensures(
                        raise_capability_into_ambient_set,
                        (capability_list(raise, true, 64)[i],),
                        #[trigger] answers[i],
                    )
                &&& r == walk_result(answers)
            },
        r matches Err(e) ==> e.syscall == Syscall::Prctl && e.error != Errno::spec_from_raw(22),
        raise.bits == 0 ==> r is Ok,
{
    let targets = ambient_targets(raise);
    proof {
        if raise.bits == 0 {
            if targets@.len() > 0 {
                let c = targets@[0];
                let bits = raise.bits;
                assert(bits == 0 && c < 64 ==> bits & (1u64 << c) != (1u64 << c)) by (bit_vector);
            }
        }
    }
    let (r, answers) = walk_capabilities(targets.as_slice(), raise_capability_into_ambient_set);
    proof {
        if targets@.len() == 0 {
            assert(answers@ =~= Seq::<Result<(), i32>>::empty());
        }
    }
    r
}

/// One half of the capability sets as `capget(2)` and `capset(2)` take them.
#[derive(PartialEq, Eq, Structural, Copy, Clone, Debug)]
pub struct UserCapData {
    /// Effective capabilities.
    pub effective: u32,
    /// Permitted capabilities.
    pub permitted: u32,
    /// Inheritable capabilities.
    pub inheritable: u32,
}

/// The effective, permitted and inheritable capability sets of a thread.
#[derive(PartialEq, Eq, Structural, Copy, Clone, Debug)]
pub struct CapabilitySets {
    /// Effective capabilities.
    pub effective: CapabilitySet,
    /// Permitted capabilities.
    pub permitted: CapabilitySet,
    /// Inheritable capabilities.
    pub inheritable: CapabilitySet,
}

/// The low 32 bits of a set.
pub open spec fn low_half(bits: u64) -> u32 {
    (bits & 0xffff_ffff) as u32
}

/// The high 32 bits of a set.
pub open spec fn high_half(bits: u64) -> u32 {
    (bits >> 32) as u32
}

impl CapabilitySets {
    /// The sets in the layout of version 3 of the capability ABI: the low 32
    /// bits of each set first, then the high 32 bits.
    pub fn into_user_cap_data_struct(self) -> (data: [UserCapData; 2])
        ensures
            data@[0] == (UserCapData {
                effective: low_half(self.effective.bits),
                permitted: low_half(self.permitted.bits),
                inheritable: low_half(self.inheritable.bits),
            }),
            data@[1] == (UserCapData {
                effective: high_half(self.effective.bits),
                permitted: high_half(self.permitted.bits),
                inheritable: high_half(self.inheritable.bits),
            }),
    {
        let e = self.effective.bits;
        let p = self.permitted.bits;
        let i = self.inheritable.bits;
        [
            UserCapData {
                effective: (e & 0xffff_ffff) as u32,
                permitted: (p & 0xffff_ffff) as u32,
                inheritable: (i & 0xffff_ffff) as u32,
            },
            UserCapData {
                effective: (e >> 32) as u32,
                permitted: (p >> 32) as u32,
                inheritable: (i >> 32) as u32,
            },
        ]
    }
}

/// The two halves of a set put back together give the set: no capability is
/// lost or added by the split.
pub proof fn lemma_halves_recombine(bits: u64)
    ensures
        ((high_half(bits) as u64) << 32u64) | (low_half(bits) as u64) == bits,
{
    assert(((((bits >> 32u64) as u32) as u64) << 32u64) | (((bits & 0xffff_ffffu64) as u32) as u64)
        == bits) by (bit_vector);
}

} // verus!
