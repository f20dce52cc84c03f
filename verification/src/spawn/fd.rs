//! The file descriptor policy as the guest applies it: descriptors are
//! duplicated into place and every other descriptor is marked
//! close-on-exec.

use crate::policy::fd::{fd_map, fds_sorted, Action, FdPolicy};
use vstd::prelude::*;

verus! {

/// One step of applying a file descriptor policy.
#[derive(PartialEq, Eq, Structural, Copy, Clone, Debug)]
pub enum FdOp {
    /// `dup3(from, to, 0)`.
    Dup {
        /// Source descriptor.
        from: i32,
        /// Destination descriptor.
        to: i32,
    },
    /// `close_range(first, last, CLOSE_RANGE_CLOEXEC)`.
    CloseRange {
        /// First descriptor of the range.
        first: u32,
        /// Last descriptor of the range.
        last: u32,
    },
}

/// Applying the entries in order: the steps so far, the source deferred
/// for the descriptor of the guest's pipe, and the first descriptor not yet
/// covered.
pub open spec fn fd_fold(entries: Seq<(i32, Action)>, guest_pipe: i32) -> (Seq<FdOp>, Option<i32>, u32)
    decreases entries.len(),
{
    if entries.len() == 0 {
        (Seq::empty(), None, 0)
    } else {
        let (ops, deferred, start) = fd_fold(entries.drop_last(), guest_pipe);
        let (fd, action) = entries.last();
        let (ops1, deferred1) = match action {
            Action::MapFrom(source) => if fd == guest_pipe {
                (ops, Some(source))
            } else {
                (ops.push(FdOp::Dup { from: source, to: fd }), deferred)
            },
            Action::Ignore => (ops, deferred),
        };
        let number = fd as u32;
        let ops2 = if start < number {
            ops1.push(FdOp::CloseRange { first: start, last: (number - 1) as u32 })
        } else {
            ops1
        };
        let next = if number == u32::MAX {
            u32::MAX
        } else {
            (number + 1) as u32
        };
        (ops2, deferred1, next)
    }
}

/// The steps that apply a policy, in order: for each entry by increasing
/// descriptor number, the duplication into it, unless it is the guest's pipe
/// whose source is deferred, then the close-on-exec range of the numbers
/// before it; at the end the range of every number after the last entry.
/// Also the source deferred for the guest's pipe, moved into place once the
/// pipe itself has been moved out of the way.
pub open spec fn fd_plan(entries: Seq<(i32, Action)>, guest_pipe: i32) -> (Seq<FdOp>, Option<i32>) {
    let (ops, deferred, start) = fd_fold(entries, guest_pipe);
    (ops.push(FdOp::CloseRange { first: start, last: u32::MAX }), deferred)
}

/// Whether one of the close-on-exec ranges covers `x`.
pub open spec fn covered(ops: Seq<FdOp>, x: u32) -> bool {
    exists|i: int|
        0 <= i < ops.len() && (#[trigger] ops[i] matches FdOp::CloseRange { first, last } && first
            <= x <= last)
}

/// Whether `x` is the number of one of the entries.
pub open spec fn is_policy_fd(entries: Seq<(i32, Action)>, x: u32) -> bool {
    exists|i: int| 0 <= i < entries.len() && #[trigger] entries[i].0 as u32 == x
}

/// The steps that apply a file descriptor policy, and the source deferred
/// for the descriptor of the guest's pipe.
pub fn file_descriptor_plan(policy: &FdPolicy, guest_pipe: i32) -> (plan: (Vec<FdOp>, Option<i32>))
    ensures
        (plan.0@, plan.1) == fd_plan(policy.spec_entries(), guest_pipe),
{
    let entries = policy.entries();
    let mut ops: Vec<FdOp> = Vec::new();
    let mut deferred: Option<i32> = None;
    let mut start: u32 = 0;
    let mut i: usize = 0;
    while i < entries.len()
        invariant
            i <= entries@.len(),
            fd_fold(entries@.subrange(0, i as int), guest_pipe) == (ops@, deferred, start),
        decreases entries@.len() - i,
    {
        let (fd, action) = entries[i];
        proof {
            let prefix = entries@.subrange(0, i + 1);
            assert(prefix.drop_last() =~= entries@.subrange(0, i as int));
            assert(prefix.last() == entries@[i as int]);
        }
        if let Action::MapFrom(source) = action {
            if fd == guest_pipe {
                deferred = Some(source);
            } else {
                ops.push(FdOp::Dup { from: source, to: fd });
            }
        }
        let number = fd as u32;
        if start < number {
            ops.push(FdOp::CloseRange { first: start, last: number - 1 });
        }
        start = if number == u32::MAX {
            u32::MAX
        } else {
            number + 1
        };
        i = i + 1;
    }
    assert(entries@.subrange(0, entries@.len() as int) =~= entries@);
    ops.push(FdOp::CloseRange { first: start, last: u32::MAX });
    (ops, deferred)
}

/// What applying a sorted policy of non-negative descriptors has covered so
/// far: the numbers below the first uncovered one that are not entries, and
/// nothing else.
proof fn lemma_fd_fold_coverage(entries: Seq<(i32, Action)>, guest_pipe: i32)
    requires
        fds_sorted(entries),
        forall|i: int| 0 <= i < entries.len() ==> #[trigger] entries[i].0 >= 0,
    ensures
        ({
            let (ops, deferred, start) = fd_fold(entries, guest_pipe);
            &&& entries.len() == 0 ==> start == 0
            &&& entries.len() > 0 ==> start == entries.last().0 + 1
            &&& forall|x: u32| x < start ==> (covered(ops, x) <==> !is_policy_fd(entries, x))
            &&& forall|x: u32| x >= start ==> !covered(ops, x)
        }),
    decreases entries.len(),
{
    if entries.len() > 0 {
        let rest = entries.drop_last();
        assert(fds_sorted(rest));
        lemma_fd_fold_coverage(rest, guest_pipe);
        let (ops, deferred, start) = fd_fold(rest, guest_pipe);
        let (fd, action) = entries.last();
        let (ops1, deferred1) = match action {
            Action::MapFrom(source) => if fd == guest_pipe {
                (ops, Some(source))
            } else {
                (ops.push(FdOp::Dup { from: source, to: fd }), deferred)
            },
            Action::Ignore => (ops, deferred),
        };
        let number = fd as u32;
        assert(number == fd);
        if rest.len() > 0 {
            assert(rest.last().0 < fd) by {
                assert(entries[rest.len() - 1].0 < entries[entries.len() - 1].0);
            }
        }
        assert(start <= number);
        assert forall|x: u32| covered(ops1, x) <==> covered(ops, x) by {
            if covered(ops1, x) {
                let i = choose|i: int|
                    0 <= i < ops1.len() && (#[trigger] ops1[i] matches FdOp::CloseRange {
                        first,
                        last,
                    } && first <= x <= last);
                assert(ops[i] == ops1[i]);
            }
            if covered(ops, x) {
                let i = choose|i: int|
                    0 <= i < ops.len() && (#[trigger] ops[i] matches FdOp::CloseRange {
                        first,
                        last,
                    } && first <= x <= last);
                assert(ops1[i] == ops[i]);
            }
        }
        let (ops2, deferred2, next) = fd_fold(entries, guest_pipe);
        assert(next == number + 1);
        assert forall|x: u32| x < next implies (covered(ops2, x) <==> !is_policy_fd(entries, x)) by {
            if x < start {
                assert(is_policy_fd(entries, x) <==> is_policy_fd(rest, x)) by {
                    if is_policy_fd(entries, x) {
                        let i = choose|i: int| 0 <= i < entries.len() && #[trigger] entries[i].0 as u32 == x;
                        if i == entries.len() - 1 {
                            assert(false);
                        }
                        assert(rest[i].0 as u32 == x);
                    }
                    if is_policy_fd(rest, x) {
                        let i = choose|i: int| 0 <= i < rest.len() && #[trigger] rest[i].0 as u32 == x;
                        assert(entries[i].0 as u32 == x);
                    }
                }
                if start < number {
                    assert(covered(ops2, x) <==> covered(ops1, x)) by {
                        if covered(ops2, x) {
                            let i = choose|i: int|
                                0 <= i < ops2.len() && (#[trigger] ops2[i] matches FdOp::CloseRange {
                                    first,
                                    last,
                                } && first <= x <= last);
                            if i < ops1.len() {
                                assert(ops1[i] == ops2[i]);
                            }
                        }
                        if covered(ops1, x) {
                            let i = choose|i: int|
                                0 <= i < ops1.len() && (#[trigger] ops1[i] matches FdOp::CloseRange {
                                    first,
                                    last,
                                } && first <= x <= last);
                            assert(ops2[i] == ops1[i]);
                        }
                    }
                }
            } else if x < number {
                let j = ops1.len() as int;
                assert(ops2[j] == FdOp::CloseRange { first: start, last: (number - 1) as u32 });
                assert(covered(ops2, x));
                if is_policy_fd(entries, x) {
                    let i = choose|i: int| 0 <= i < entries.len() && #[trigger] entries[i].0 as u32 == x;
                    if i < entries.len() - 1 {
                        assert(entries[i].0 < entries[entries.len() - 1].0);
                        if rest.len() > 0 {
                            if i < rest.len() - 1 {
                                assert(entries[i].0 < entries[rest.len() - 1].0);
                            }
                            assert(rest.last() == entries[rest.len() - 1]);
                        }
                    }
                }
            } else {
                assert(x == number);
                assert(entries[entries.len() - 1].0 as u32 == x);
                assert(is_policy_fd(entries, x));
                if covered(ops2, x) {
                    let i = choose|i: int|
                        0 <= i < ops2.len() && (#[trigger] ops2[i] matches FdOp::CloseRange {
                            first,
                            last,
                        } && first <= x <= last);
                    if i < ops1.len() {
                        assert(ops[i] == ops1[i] || ops1.len() > ops.len());
                        assert(covered(ops1, x));
                    }
                }
            }
        }
        assert forall|x: u32| x >= next implies !covered(ops2, x) by {
            if covered(ops2, x) {
                let i = choose|i: int|
                    0 <= i < ops2.len() && (#[trigger] ops2[i] matches FdOp::CloseRange {
                        first,
                        last,
                    } && first <= x <= last);
                if i < ops1.len() {
                    assert(ops2[i] == ops1[i]);
                    assert(covered(ops1, x));
                }
            }
        }
    }
}

/// Applying a valid policy leaves open exactly the policy's descriptors:
/// every other descriptor number is marked close-on-exec by one of the
/// ranges, and none of the policy's numbers is.
pub proof fn lemma_fd_plan_covers_rest(policy: &FdPolicy, guest_pipe: i32)
    requires
        fds_sorted(policy.spec_entries()),
        crate::policy::fd::valid_fd_policy(policy@),
    ensures
        forall|x: u32|
            covered(fd_plan(policy.spec_entries(), guest_pipe).0, x) <==> !is_policy_fd(
                policy.spec_entries(),
                x,
            ),
{
    let entries = policy.spec_entries();
    policy.lemma_view_entries();
    assert forall|i: int| 0 <= i < entries.len() implies #[trigger] entries[i].0 >= 0 by {
        assert(fd_map(entries).dom().contains(entries[i].0));
    }
    lemma_fd_fold_coverage(entries, guest_pipe);
    let (ops, deferred, start) = fd_fold(entries, guest_pipe);
    let all = ops.push(FdOp::CloseRange { first: start, last: u32::MAX });
    assert forall|x: u32| covered(all, x) <==> (x >= start || covered(ops, x)) by {
        if covered(all, x) {
            let i = choose|i: int|
                0 <= i < all.len() && (#[trigger] all[i] matches FdOp::CloseRange { first, last }
                    && first <= x <= last);
            if i < ops.len() {
                assert(all[i] == ops[i]);
            }
        }
        if x >= start {
            assert(all[ops.len() as int] == FdOp::CloseRange { first: start, last: u32::MAX });
        }
        if covered(ops, x) {
            let i = choose|i: int|
                0 <= i < ops.len() && (#[trigger] ops[i] matches FdOp::CloseRange { first, last }
                    && first <= x <= last);
            assert(all[i] == ops[i]);
        }
    }
    assert forall|x: u32| x >= start implies !is_policy_fd(entries, x) by {
        if is_policy_fd(entries, x) {
            let i = choose|i: int| 0 <= i < entries.len() && #[trigger] entries[i].0 as u32 == x;
            if i < entries.len() - 1 {
                assert(entries[i].0 < entries[entries.len() - 1].0);
            }
        }
    }
}

/// Whether the plan duplicates `from` into `to`.
pub open spec fn dups(ops: Seq<FdOp>, from: i32, to: i32) -> bool {
    ops.contains(FdOp::Dup { from, to })
}

/// What the fold does with the mappings: each mapping into a descriptor
/// other than the guest's pipe becomes a duplication, every duplication
/// comes from such a mapping, and the source of a mapping into the pipe is
/// the one deferred.
proof fn lemma_fd_fold_mappings(entries: Seq<(i32, Action)>, guest_pipe: i32)
    requires
        fds_sorted(entries),
    ensures
        forall|i: int|
            0 <= i < entries.len() && (#[trigger] entries[i]).0 != guest_pipe ==> (entries[i].1 matches Action::MapFrom(
                from,
            ) ==> dups(fd_fold(entries, guest_pipe).0, from, entries[i].0)),
        forall|from: i32, to: i32|
            #[trigger] dups(fd_fold(entries, guest_pipe).0, from, to) ==> to != guest_pipe && exists|
                i: int,
            | 0 <= i < entries.len() && #[trigger] entries[i] == (to, Action::MapFrom(from)),
        forall|from: i32|
            fd_fold(entries, guest_pipe).1 == Some(from) ==> exists|i: int|
                0 <= i < entries.len() && #[trigger] entries[i] == (guest_pipe, Action::MapFrom(from)),
        forall|i: int|
            0 <= i < entries.len() && (#[trigger] entries[i]).0 == guest_pipe ==> (entries[i].1 matches Action::MapFrom(
                from,
            ) ==> fd_fold(entries, guest_pipe).1 == Some(from)),
    decreases entries.len(),
{
    if entries.len() > 0 {
        let init = entries.drop_last();
        assert(fds_sorted(init)) by {
            assert forall|i: int, j: int| 0 <= i < j < init.len() implies #[trigger] init[i].0
                < #[trigger] init[j].0 by {
                assert(init[i] == entries[i] && init[j] == entries[j]);
            }
        }
        lemma_fd_fold_mappings(init, guest_pipe);
        let (ops, deferred, start) = fd_fold(init, guest_pipe);
        let (fd, action) = entries.last();
        let n = entries.len() - 1;
        let (ops1, deferred1) = match action {
            Action::MapFrom(source) => if fd == guest_pipe {
                (ops, Some(source))
            } else {
                (ops.push(FdOp::Dup { from: source, to: fd }), deferred)
            },
            Action::Ignore => (ops, deferred),
        };
        let number = fd as u32;
        let ops2 = if start < number {
            ops1.push(FdOp::CloseRange { first: start, last: (number - 1) as u32 })
        } else {
            ops1
        };
        assert(fd_fold(entries, guest_pipe) == (ops2, deferred1, if number == u32::MAX {
            u32::MAX
        } else {
            (number + 1) as u32
        }));
        // Every operation of ops2 is one of ops, the new duplication or a range.
        assert forall|from: i32, to: i32| #[trigger] dups(ops2, from, to) implies (dups(ops, from, to)
            || (action == Action::MapFrom(from) && fd == to && fd != guest_pipe)) by {
            let k = choose|k: int| 0 <= k < ops2.len() && ops2[k] == FdOp::Dup { from, to };
            if k < ops.len() {
                if ops1 != ops {
                    assert(ops1[k] == ops[k]);
                }
                if ops2 != ops1 {
                    assert(ops2[k] == ops1[k]);
                }
                assert(ops[k] == FdOp::Dup { from, to });
            }
        }
        assert forall|from: i32, to: i32| #[trigger] dups(ops, from, to) implies dups(ops2, from, to) by {
            let k = choose|k: int| 0 <= k < ops.len() && ops[k] == FdOp::Dup { from, to };
            if ops1 != ops {
                assert(ops1[k] == ops[k]);
            }
            if ops2 != ops1 {
                assert(ops2[k] == ops1[k]);
            }
        }
        assert forall|i: int|
            0 <= i < entries.len() && (#[trigger] entries[i]).0 != guest_pipe implies (entries[i].1 matches Action::MapFrom(
                from,
            ) ==> dups(ops2, from, entries[i].0)) by {
            if let Action::MapFrom(from) = entries[i].1 {
                if i < n {
                    assert(init[i] == entries[i]);
                } else {
                    let k = ops.len() as int;
                    assert(ops1[k] == FdOp::Dup { from, to: fd });
                    if ops2 != ops1 {
                        assert(ops2[k] == ops1[k]);
                    }
                }
            }
        }
        assert forall|from: i32, to: i32| #[trigger] dups(ops2, from, to) implies to != guest_pipe
            && exists|i: int| 0 <= i < entries.len() && #[trigger] entries[i] == (to, Action::MapFrom(from)) by {
            if dups(ops, from, to) {
                let i = choose|i: int| 0 <= i < init.len() && #[trigger] init[i] == (to, Action::MapFrom(from));
                assert(entries[i] == init[i]);
            } else {
                assert(entries[n] == (to, Action::MapFrom(from)));
            }
        }
        assert forall|from: i32| deferred1 == Some(from) implies exists|i: int|
            0 <= i < entries.len() && #[trigger] entries[i] == (guest_pipe, Action::MapFrom(from)) by {
            if deferred1 == deferred {
                if action == Action::MapFrom(from) && fd == guest_pipe {
                    assert(entries[n] == (guest_pipe, Action::MapFrom(from)));
                } else {
                    let i = choose|i: int| 0 <= i < init.len() && #[trigger] init[i] == (guest_pipe, Action::MapFrom(from));
                    assert(entries[i] == init[i]);
                }
            } else {
                assert(entries[n] == (guest_pipe, Action::MapFrom(from)));
            }
        }
        assert forall|i: int|
            0 <= i < entries.len() && (#[trigger] entries[i]).0 == guest_pipe implies (entries[i].1 matches Action::MapFrom(
                from,
            ) ==> deferred1 == Some(from)) by {
            if i < n {
                assert(init[i] == entries[i]);
                assert(entries[i].0 < entries[n].0);
            }
        }
    }
}

/// The plan duplicates the source of each mapping into its descriptor,
/// except for the descriptor of the guest's pipe, whose source it defers;
/// it duplicates nothing else, and defers nothing when the pipe's number is
/// not mapped.
pub proof fn lemma_fd_plan_places_mappings(policy: &FdPolicy, guest_pipe: i32)
    requires
        fds_sorted(policy.spec_entries()),
    ensures
        forall|fd: i32|
            policy@.contains_key(fd) && fd != guest_pipe ==> (#[trigger] policy@[fd] matches Action::MapFrom(
                from,
            ) ==> dups(fd_plan(policy.spec_entries(), guest_pipe).0, from, fd)),
        forall|from: i32, to: i32|
            #[trigger] dups(fd_plan(policy.spec_entries(), guest_pipe).0, from, to) ==> to
                != guest_pipe && policy@.contains_key(to) && policy@[to] == Action::MapFrom(from),
        fd_plan(policy.spec_entries(), guest_pipe).1 == (if policy@.contains_key(guest_pipe)
            && policy@[guest_pipe] is MapFrom {
            Some(policy@[guest_pipe]->MapFrom_0)
        } else {
            None
        }),
{
    let entries = policy.spec_entries();
    policy.lemma_view_entries();
    lemma_fd_fold_mappings(entries, guest_pipe);
    let (ops, deferred, start) = fd_fold(entries, guest_pipe);
    let all = ops.push(FdOp::CloseRange { first: start, last: u32::MAX });
    assert forall|from: i32, to: i32| #[trigger] dups(all, from, to) <==> dups(ops, from, to) by {
        if dups(all, from, to) {
            let k = choose|k: int| 0 <= k < all.len() && all[k] == FdOp::Dup { from, to };
            assert(k < ops.len());
            assert(ops[k] == all[k]);
        }
        if dups(ops, from, to) {
            let k = choose|k: int| 0 <= k < ops.len() && ops[k] == FdOp::Dup { from, to };
            assert(all[k] == ops[k]);
        }
    }
    // The map's value at a present key is that of the one entry with it.
    assert forall|i: int| 0 <= i < entries.len() implies #[trigger] fd_map(entries)[entries[i].0]
        == entries[i].1 by {
        let fd = entries[i].0;
        assert(fd_map(entries).dom().contains(fd));
        let j = choose|j: int| 0 <= j < entries.len() && #[trigger] entries[j].0 == fd;
        if j < i {
            assert(entries[j].0 < entries[i].0);
        }
        if i < j {
            assert(entries[i].0 < entries[j].0);
        }
    }
    assert forall|fd: i32|
        policy@.contains_key(fd) && fd != guest_pipe implies (#[trigger] policy@[fd] matches Action::MapFrom(
            from,
        ) ==> dups(all, from, fd)) by {
        let i = choose|i: int| 0 <= i < entries.len() && #[trigger] entries[i].0 == fd;
        assert(fd_map(entries)[entries[i].0] == entries[i].1);
    }
    assert forall|from: i32, to: i32| #[trigger] dups(all, from, to) implies to != guest_pipe
        && policy@.contains_key(to) && policy@[to] == Action::MapFrom(from) by {
        let i = choose|i: int| 0 <= i < entries.len() && #[trigger] entries[i] == (to, Action::MapFrom(from));
        assert(fd_map(entries)[entries[i].0] == entries[i].1);
    }
    if policy@.contains_key(guest_pipe) && policy@[guest_pipe] is MapFrom {
        let i = choose|i: int| 0 <= i < entries.len() && #[trigger] entries[i].0 == guest_pipe;
        assert(fd_map(entries)[entries[i].0] == entries[i].1);
    } else {
        if deferred is Some {
            let from = deferred->0;
            let i = choose|i: int| 0 <= i < entries.len() && #[trigger] entries[i] == (guest_pipe, Action::MapFrom(from));
            assert(fd_map(entries)[entries[i].0] == entries[i].1);
        }
    }
}

} // verus!
