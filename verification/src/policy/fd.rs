//! File descriptor policy: which descriptors the guest inherits, and from
//! where.

use vstd::prelude::*;

verus! {

/// What happens to a file descriptor number in the guest.
#[derive(PartialEq, Eq, Structural, Copy, Clone, Debug)]
pub enum Action {
    /// Leave the descriptor the guest inherits as it is.
    Ignore,
    /// Place the given host descriptor at this number.
    MapFrom(i32),
}

/// Whether the descriptor numbers of the entries increase strictly.
pub open spec fn fds_sorted(s: Seq<(i32, Action)>) -> bool {
    forall|i: int, j: int| 0 <= i < j < s.len() ==> #[trigger] s[i].0 < #[trigger] s[j].0
}

/// The entries as a map from descriptor number to action.
pub open spec fn fd_map(s: Seq<(i32, Action)>) -> Map<i32, Action> {
    Map::new(
        |fd: i32| exists|i: int| 0 <= i < s.len() && #[trigger] s[i].0 == fd,
        |fd: i32| s[choose|i: int| 0 <= i < s.len() && #[trigger] s[i].0 == fd].1,
    )
}

/// Whether a file descriptor policy is valid: every descriptor number is
/// non-negative, and no number that receives a descriptor is also the source
/// of a mapping, which would be overwritten before it is read.
pub open spec fn valid_fd_policy(m: Map<i32, Action>) -> bool {
    forall|fd: i32|
        #[trigger] m.dom().contains(fd) ==> fd >= 0 && !(exists|to: i32|
            #[trigger] m.dom().contains(to) && m[to] == Action::MapFrom(fd))
}

/// Sorted entries are found at their own index.
proof fn lemma_fd_lookup(s: Seq<(i32, Action)>, i: int)
    requires
        fds_sorted(s),
        0 <= i < s.len(),
    ensures
        fd_map(s).dom().contains(s[i].0),
        fd_map(s)[s[i].0] == s[i].1,
{
    let j = choose|j: int| 0 <= j < s.len() && #[trigger] s[j].0 == s[i].0;
    if j < i {
        assert(s[j].0 < s[i].0);
    } else if j > i {
        assert(s[i].0 < s[j].0);
    }
}

/// The map of sorted entries is the given map when their keys and values
/// agree.
proof fn lemma_fd_same_map(t: Seq<(i32, Action)>, m: Map<i32, Action>)
    requires
        fds_sorted(t),
        forall|k: i32| (exists|i: int| 0 <= i < t.len() && #[trigger] t[i].0 == k) <==> m.dom().contains(k),
        forall|i: int| 0 <= i < t.len() ==> m[#[trigger] t[i].0] == t[i].1,
    ensures
        fd_map(t) == m,
{
    assert forall|k: i32| #[trigger] fd_map(t).dom().contains(k) implies fd_map(t)[k] == m[k] by {
        let i = choose|i: int| 0 <= i < t.len() && #[trigger] t[i].0 == k;
        lemma_fd_lookup(t, i);
    }
    assert(fd_map(t) =~= m);
}

/// File descriptor policy.
///
/// Maps descriptor numbers in the guest to what they receive. Descriptors
/// the policy does not name are closed in the guest.
#[derive(Debug)]
pub struct FdPolicy {
    /// Entries sorted strictly by descriptor number.
    entries: Vec<(i32, Action)>,
}

impl View for FdPolicy {
    type V = Map<i32, Action>;

    closed spec fn view(&self) -> Map<i32, Action> {
        fd_map(self.entries@)
    }
}

impl Default for FdPolicy {
    fn default() -> (r: Self)
        ensures
            r@ == Map::<i32, Action>::empty(),
    {
        FdPolicy::empty()
    }
}

impl FdPolicy {
    #[verifier::type_invariant]
    spec fn sorted(self) -> bool {
        fds_sorted(self.entries@)
    }

    /// The entries in increasing order of descriptor number.
    pub closed spec fn spec_entries(self) -> Seq<(i32, Action)> {
        self.entries@
    }

    /// The view of a policy is the map of its entries.
    pub proof fn lemma_view_entries(&self)
        ensures
            self@ == fd_map(self.spec_entries()),
    {
    }

    /// Create an empty policy: every descriptor is closed.
    pub fn empty() -> (r: Self)
        ensures
            r@ == Map::<i32, Action>::empty(),
    {
        let r = FdPolicy { entries: Vec::new() };
        assert(r@ =~= Map::<i32, Action>::empty());
        r
    }

    /// The entries in increasing order of descriptor number.
    pub fn entries(&self) -> (s: &[(i32, Action)])
        ensures
            s@ == self.spec_entries(),
            fds_sorted(s@),
            fd_map(s@) == self@,
    {
        proof {
            use_type_invariant(self);
        }
        self.entries.as_slice()
    }

    /// Sets the action at a descriptor number.
    #[verifier::loop_isolation(false)]
    fn set(self, fd: i32, action: Action) -> (r: Self)
        ensures
            r@ == self@.insert(fd, action),
    {
        proof {
            use_type_invariant(&self);
        }
        let ghost old_entries = self.entries@;
        let mut entries = self.entries;
        let n = entries.len();
        let mut i: usize = 0;
        while i < n
            invariant
                n == entries@.len(),
                entries@ == old_entries,
                i <= n,
                forall|t: int| 0 <= t < i ==> #[trigger] entries@[t].0 < fd,
            decreases n - i,
        {
            let current = entries[i].0;
            if current >= fd {
                let ghost m = fd_map(old_entries).insert(fd, action);
                if current == fd {
                    let _ = entries.remove(i);
                }
                entries.insert(i, (fd, action));
                let ghost new_entries = entries@;
                proof {
                    let replaced = current == fd;
                    let shift: int = if replaced { 0 } else { 1 };
                    assert forall|t: int| 0 <= t < new_entries.len() && t != i implies #[trigger] new_entries[t]
                        == old_entries[if t < i { t } else { t - shift }] by {}
                    assert(fds_sorted(new_entries)) by {
                        assert forall|a: int, b: int| 0 <= a < b < new_entries.len() implies #[trigger] new_entries[a].0
                            < #[trigger] new_entries[b].0 by {
                            if a != i && b != i {
                                let a0 = if a < i { a } else { a - shift };
                                let b0 = if b < i { b } else { b - shift };
                                assert(old_entries[a0].0 < old_entries[b0].0);
                            } else if b != i {
                                let b0 = b - shift;
                                if b0 > i {
                                    assert(old_entries[i as int].0 < old_entries[b0].0);
                                }
                            }
                        }
                    }
                    assert forall|k: i32| (exists|t: int| 0 <= t < new_entries.len() && #[trigger] new_entries[t].0 == k)
                        <==> m.dom().contains(k) by {
                        if exists|t: int| 0 <= t < new_entries.len() && #[trigger] new_entries[t].0 == k {
                            let t = choose|t: int| 0 <= t < new_entries.len() && #[trigger] new_entries[t].0 == k;
                            if t != i {
                                let t0 = if t < i { t } else { t - shift };
                                assert(old_entries[t0].0 == k);
                            }
                        }
                        if m.dom().contains(k) && k != fd {
                            let t = choose|t: int| 0 <= t < old_entries.len() && #[trigger] old_entries[t].0 == k;
                            if t < i {
                                assert(new_entries[t].0 == k);
                            } else {
                                assert(t != i || !replaced);
                                assert(new_entries[t + shift].0 == k);
                            }
                        }
                        if k == fd {
                            assert(new_entries[i as int].0 == k);
                        }
                    }
                    assert forall|t: int| 0 <= t < new_entries.len() implies m[#[trigger] new_entries[t].0]
                        == new_entries[t].1 by {
                        if t != i {
                            let t0 = if t < i { t } else { t - shift };
                            lemma_fd_lookup(old_entries, t0);
                        }
                    }
                    lemma_fd_same_map(new_entries, m);
                }
                return FdPolicy { entries };
            }
            i = i + 1;
        }
        let ghost m = fd_map(old_entries).insert(fd, action);
        entries.push((fd, action));
        let ghost new_entries = entries@;
        proof {
            assert forall|k: i32| (exists|t: int| 0 <= t < new_entries.len() && #[trigger] new_entries[t].0 == k)
                <==> m.dom().contains(k) by {
                if exists|t: int| 0 <= t < new_entries.len() && #[trigger] new_entries[t].0 == k {
                    let t = choose|t: int| 0 <= t < new_entries.len() && #[trigger] new_entries[t].0 == k;
                    if t < n {
                        assert(old_entries[t].0 == k);
                    }
                }
                if m.dom().contains(k) && k != fd {
                    let t = choose|t: int| 0 <= t < old_entries.len() && #[trigger] old_entries[t].0 == k;
                    assert(new_entries[t].0 == k);
                }
                if k == fd {
                    assert(new_entries[n as int].0 == k);
                }
            }
            assert forall|t: int| 0 <= t < new_entries.len() implies m[#[trigger] new_entries[t].0]
                == new_entries[t].1 by {
                if t < n {
                    lemma_fd_lookup(old_entries, t);
                }
            }
            lemma_fd_same_map(new_entries, m);
        }
        FdPolicy { entries }
    }

    /// Leave the descriptor at `fd` as the guest inherits it.
    pub fn ignore(self, fd: i32) -> (r: Self)
        ensures
            r@ == self@.insert(fd, Action::Ignore),
    {
        self.set(fd, Action::Ignore)
    }

    /// Place the host descriptor `from` at `to` in the guest.
    pub fn map(self, from: i32, to: i32) -> (r: Self)
        ensures
            r@ == self@.insert(to, Action::MapFrom(from)),
    {
        self.set(to, Action::MapFrom(from))
    }

    /// Close the descriptor at `fd` in the guest.
    #[verifier::loop_isolation(false)]
    pub fn close(self, fd: i32) -> (r: Self)
        ensures
            r@ == self@.remove(fd),
    {
        proof {
            use_type_invariant(&self);
        }
        let ghost old_entries = self.entries@;
        let mut entries = self.entries;
        let n = entries.len();
        let mut i: usize = 0;
        while i < n
            invariant
                n == entries@.len(),
                entries@ == old_entries,
                i <= n,
                forall|t: int| 0 <= t < i ==> #[trigger] entries@[t].0 != fd,
            decreases n - i,
        {
            if entries[i].0 == fd {
                let ghost m = fd_map(old_entries).remove(fd);
                let _ = entries.remove(i);
                let ghost new_entries = entries@;
                proof {
                    assert(new_entries =~= old_entries.remove(i as int));
                    assert(fds_sorted(new_entries)) by {
                        assert forall|a: int, b: int| 0 <= a < b < new_entries.len() implies #[trigger] new_entries[a].0
                            < #[trigger] new_entries[b].0 by {
                            let a0 = if a < i { a } else { a + 1 };
                            let b0 = if b < i { b } else { b + 1 };
                            assert(old_entries[a0].0 < old_entries[b0].0);
                        }
                    }
                    assert forall|k: i32| (exists|t: int| 0 <= t < new_entries.len() && #[trigger] new_entries[t].0 == k)
                        <==> m.dom().contains(k) by {
                        if exists|t: int| 0 <= t < new_entries.len() && #[trigger] new_entries[t].0 == k {
                            let t = choose|t: int| 0 <= t < new_entries.len() && #[trigger] new_entries[t].0 == k;
                            let t0 = if t < i { t } else { t + 1 };
                            assert(old_entries[t0].0 == k);
                            if t0 < i {
                                assert(old_entries[t0].0 < old_entries[i as int].0);
                            } else {
                                assert(old_entries[i as int].0 < old_entries[t0].0);
                            }
                        }
                        if m.dom().contains(k) {
                            let t = choose|t: int| 0 <= t < old_entries.len() && #[trigger] old_entries[t].0 == k;
                            if t < i {
                                assert(new_entries[t].0 == k);
                            } else {
                                assert(new_entries[t - 1].0 == k);
                            }
                        }
                    }
                    assert forall|t: int| 0 <= t < new_entries.len() implies m[#[trigger] new_entries[t].0]
                        == new_entries[t].1 by {
                        let t0 = if t < i { t } else { t + 1 };
                        lemma_fd_lookup(old_entries, t0);
                        if t0 < i {
                            assert(old_entries[t0].0 < old_entries[i as int].0);
                        } else {
                            assert(old_entries[i as int].0 < old_entries[t0].0);
                        }
                    }
                    lemma_fd_same_map(new_entries, m);
                }
                return FdPolicy { entries };
            }
            i = i + 1;
        }
        proof {
            assert(fd_map(old_entries).remove(fd) =~= fd_map(old_entries));
        }
        FdPolicy { entries }
    }

    /// Close every descriptor in the guest.
    pub fn clear(self) -> (r: Self)
        ensures
            r@ == Map::<i32, Action>::empty(),
    {
        FdPolicy::empty()
    }

    /// Whether the policy is valid: no negative descriptor number, and no
    /// number that is both a destination and the source of a mapping.
    pub fn is_valid(&self) -> (r: bool)
        ensures
            r == valid_fd_policy(self@),
    {
        proof {
            use_type_invariant(self);
        }
        is_valid_fd_policy(self.entries.as_slice())
    }
}

/// Whether `fd` is the source of one of the mappings.
fn is_source(entries: &[(i32, Action)], fd: i32) -> (r: bool)
    ensures
        r == exists|t: int| 0 <= t < entries@.len() && #[trigger] entries@[t].1 == Action::MapFrom(fd),
{
    let mut i: usize = 0;
    while i < entries.len()
        invariant
            i <= entries@.len(),
            forall|t: int| 0 <= t < i ==> #[trigger] entries@[t].1 != Action::MapFrom(fd),
        decreases entries@.len() - i,
    {
        if let Action::MapFrom(source) = entries[i].1 {
            if source == fd {
                return true;
            }
        }
        i = i + 1;
    }
    false
}

/// Checks that no descriptor number is negative or the source of a mapping.
fn is_valid_fd_policy(entries: &[(i32, Action)]) -> (r: bool)
    requires
        fds_sorted(entries@),
    ensures
        r == valid_fd_policy(fd_map(entries@)),
{
    let ghost s = entries@;
    let ghost m = fd_map(s);
    let mut i: usize = 0;
    while i < entries.len()
        invariant
            s == entries@,
            m == fd_map(s),
            fds_sorted(s),
            i <= s.len(),
            forall|t: int|
                0 <= t < i ==> #[trigger] s[t].0 >= 0 && !(exists|u: int|
                    0 <= u < s.len() && #[trigger] s[u].1 == Action::MapFrom(s[t].0)),
        decreases s.len() - i,
    {
        let fd = entries[i].0;
        if fd < 0 || is_source(entries, fd) {
            proof {
                lemma_fd_lookup(s, i as int);
                if fd >= 0 {
                    let u = choose|u: int| 0 <= u < s.len() && #[trigger] s[u].1 == Action::MapFrom(fd);
                    lemma_fd_lookup(s, u);
                    assert(m.dom().contains(s[u].0) && m[s[u].0] == Action::MapFrom(fd));
                }
            }
            return false;
        }
        i = i + 1;
    }
    proof {
        assert forall|fd: i32| #[trigger] m.dom().contains(fd) implies fd >= 0 && !(exists|to: i32|
            #[trigger] m.dom().contains(to) && m[to] == Action::MapFrom(fd)) by {
            let t = choose|t: int| 0 <= t < s.len() && #[trigger] s[t].0 == fd;
            if exists|to: i32| #[trigger] m.dom().contains(to) && m[to] == Action::MapFrom(fd) {
                let to = choose|to: i32| #[trigger] m.dom().contains(to) && m[to] == Action::MapFrom(fd);
                let u = choose|u: int| 0 <= u < s.len() && #[trigger] s[u].0 == to;
                lemma_fd_lookup(s, u);
            }
        }
    }
    true
}

} // verus!
