//! Mount tree: the mounts of the sandbox by destination, and the rule that
//! nothing is mounted below a bind mount.

use crate::mounts::Mount;
use crate::order::{
    bytes_order, is_prefix, lemma_bytes_order, lemma_lex_asymmetric, lemma_lex_irreflexive,
    lemma_lex_prefix_between, lemma_lex_prefix_first, lemma_lex_total, lemma_lex_transitive,
};
use crate::paths::{path_lt, Guest};
use vstd::prelude::*;

verus! {

/// Whether the destinations of the entries increase strictly.
pub open spec fn keys_sorted(s: Seq<(Guest, Mount)>) -> bool {
    forall|i: int, j: int| 0 <= i < j < s.len() ==> path_lt(#[trigger] s[i].0@, #[trigger] s[j].0@)
}

/// Whether some entry has the given destination.
pub open spec fn has_key(s: Seq<(Guest, Mount)>, k: Seq<Seq<u8>>) -> bool {
    exists|i: int| 0 <= i < s.len() && #[trigger] s[i].0@ == k
}

/// The entries as a map from destination to mount.
pub open spec fn entries_map(s: Seq<(Guest, Mount)>) -> Map<Seq<Seq<u8>>, Mount> {
    Map::new(
        |k: Seq<Seq<u8>>| has_key(s, k),
        |k: Seq<Seq<u8>>| s[choose|i: int| 0 <= i < s.len() && #[trigger] s[i].0@ == k].1,
    )
}

/// Whether a tree of mounts is valid: no mount lies strictly below a mount
/// that is not synthetic, that is below a bind mount.
pub open spec fn valid_mount_tree(m: Map<Seq<Seq<u8>>, Mount>) -> bool {
    forall|a: Seq<Seq<u8>>, b: Seq<Seq<u8>>|
        #![trigger m.dom().contains(a), m.dom().contains(b)]
        m.dom().contains(a) && m.dom().contains(b) && a != b && is_prefix(a, b)
            ==> m[a].spec_is_synthetic()
}

/// Sorted entries have distinct destinations, and each is found at its own
/// index.
proof fn lemma_lookup(s: Seq<(Guest, Mount)>, i: int)
    requires
        keys_sorted(s),
        0 <= i < s.len(),
    ensures
        entries_map(s).dom().contains(s[i].0@),
        entries_map(s)[s[i].0@] == s[i].1,
{
    lemma_bytes_order();
    assert(has_key(s, s[i].0@));
    let j = choose|j: int| 0 <= j < s.len() && #[trigger] s[j].0@ == s[i].0@;
    if j != i {
        if j < i {
            assert(path_lt(s[j].0@, s[i].0@));
        } else {
            assert(path_lt(s[i].0@, s[j].0@));
        }
        lemma_lex_irreflexive(s[i].0@, bytes_order());
    }
}

/// Destinations in sorted entries are distinct.
proof fn lemma_distinct(s: Seq<(Guest, Mount)>, i: int, j: int)
    requires
        keys_sorted(s),
        0 <= i < s.len(),
        0 <= j < s.len(),
        i != j,
    ensures
        s[i].0@ != s[j].0@,
{
    lemma_bytes_order();
    if i < j {
        assert(path_lt(s[i].0@, s[j].0@));
    } else {
        assert(path_lt(s[j].0@, s[i].0@));
    }
    lemma_lex_irreflexive(s[i].0@, bytes_order());
}

/// The map of two entry lists agrees when each key of one is found in the
/// other with the same mount.
proof fn lemma_same_map(s: Seq<(Guest, Mount)>, t: Seq<(Guest, Mount)>, m: Map<Seq<Seq<u8>>, Mount>)
    requires
        keys_sorted(t),
        forall|k: Seq<Seq<u8>>| has_key(t, k) <==> m.dom().contains(k),
        forall|i: int| 0 <= i < t.len() ==> m[#[trigger] t[i].0@] == t[i].1,
    ensures
        entries_map(t) == m,
{
    assert forall|k: Seq<Seq<u8>>| #[trigger] entries_map(t).dom().contains(k) implies entries_map(
        t,
    )[k] == m[k] by {
        let i = choose|i: int| 0 <= i < t.len() && #[trigger] t[i].0@ == k;
        lemma_lookup(t, i);
    }
    assert(entries_map(t) =~= m);
}

/// Mount tree.
///
/// Holds the mounts of the sandbox by destination, sorted by destination so
/// that a mount comes before the mounts below it.
#[derive(Debug)]
pub struct MountTree {
    /// Entries sorted strictly by destination.
    entries: Vec<(Guest, Mount)>,
}

impl View for MountTree {
    type V = Map<Seq<Seq<u8>>, Mount>;

    closed spec fn view(&self) -> Map<Seq<Seq<u8>>, Mount> {
        entries_map(self.entries@)
    }
}

impl Default for MountTree {
    fn default() -> (r: Self)
        ensures
            r@ == Map::<Seq<Seq<u8>>, Mount>::empty(),
    {
        MountTree::empty()
    }
}

impl MountTree {
    #[verifier::type_invariant]
    spec fn sorted(self) -> bool {
        keys_sorted(self.entries@)
    }

    /// The entries in the order of their destinations.
    pub closed spec fn spec_entries(self) -> Seq<(Guest, Mount)> {
        self.entries@
    }

    /// Create an empty mount tree.
    pub fn empty() -> (r: Self)
        ensures
            r@ == Map::<Seq<Seq<u8>>, Mount>::empty(),
    {
        let r = MountTree { entries: Vec::new() };
        assert(r@ =~= Map::<Seq<Seq<u8>>, Mount>::empty());
        r
    }

    /// The entries, sorted by destination: a mount comes before the mounts
    /// below it.
    pub fn entries(&self) -> (s: &[(Guest, Mount)])
        ensures
            s@ == self.spec_entries(),
            keys_sorted(s@),
            entries_map(s@) == self@,
    {
        proof {
            use_type_invariant(self);
        }
        self.entries.as_slice()
    }

    /// Mount at the given destination, replacing what was mounted there.
    #[verifier::loop_isolation(false)]
    pub fn mount(self, mount: Mount, path: Guest) -> (r: Self)
        ensures
            r@ == self@.insert(path@, mount),
    {
        proof {
            use_type_invariant(&self);
            lemma_bytes_order();
        }
        let ghost old_entries = self.entries@;
        let ghost key = path@;
        let mut entries = self.entries;
        let n = entries.len();
        let mut i: usize = 0;
        while i < n
            invariant
                n == entries@.len(),
                entries@ == old_entries,
                keys_sorted(entries@),
                key == path@,
                i <= n,
                forall|t: int| 0 <= t < i ==> path_lt(#[trigger] entries@[t].0@, key),
            decreases n - i,
        {
            if entries[i].0.same_path(&path) {
                let _ = entries.remove(i);
                entries.insert(i, (path, mount));
                let ghost new_entries = entries@;
                proof {
                    assert(new_entries =~= old_entries.update(i as int, (new_entries[i as int].0, mount)));
                    assert(keys_sorted(new_entries)) by {
                        assert forall|a: int, b: int| 0 <= a < b < new_entries.len() implies path_lt(
                            #[trigger] new_entries[a].0@,
                            #[trigger] new_entries[b].0@,
                        ) by {
                            assert(old_entries[a].0@ == new_entries[a].0@ || a == i);
                            assert(old_entries[b].0@ == new_entries[b].0@ || b == i);
                            assert(path_lt(old_entries[a].0@, old_entries[b].0@));
                        }
                    }
                    let m = entries_map(old_entries).insert(key, mount);
                    assert forall|k: Seq<Seq<u8>>| has_key(new_entries, k) <==> m.dom().contains(k) by {
                        if has_key(new_entries, k) {
                            let t = choose|t: int| 0 <= t < new_entries.len() && #[trigger] new_entries[t].0@ == k;
                            if t != i {
                                assert(old_entries[t].0@ == k);
                                assert(has_key(old_entries, k));
                            }
                        }
                        if m.dom().contains(k) && k != key {
                            let t = choose|t: int| 0 <= t < old_entries.len() && #[trigger] old_entries[t].0@ == k;
                            assert(new_entries[t].0@ == k || t == i);
                            assert(has_key(new_entries, k));
                        }
                        if k == key {
                            assert(new_entries[i as int].0@ == k);
                        }
                    }
                    assert forall|t: int| 0 <= t < new_entries.len() implies m[#[trigger] new_entries[t].0@]
                        == new_entries[t].1 by {
                        if t != i {
                            lemma_distinct(new_entries, t, i as int);
                            lemma_lookup(old_entries, t);
                        }
                    }
                    lemma_same_map(old_entries, new_entries, m);
                }
                return MountTree { entries };
            }
            if path.is_before(&entries[i].0) {
                entries.insert(i, (path, mount));
                let ghost new_entries = entries@;
                proof {
                    assert(new_entries =~= old_entries.insert(i as int, (new_entries[i as int].0, mount)));
                    assert(keys_sorted(new_entries)) by {
                        assert forall|a: int, b: int| 0 <= a < b < new_entries.len() implies path_lt(
                            #[trigger] new_entries[a].0@,
                            #[trigger] new_entries[b].0@,
                        ) by {
                            if a < i && b < i {
                                assert(path_lt(old_entries[a].0@, old_entries[b].0@));
                            } else if a < i && b == i {
                            } else if a < i {
                                assert(path_lt(old_entries[a].0@, old_entries[b - 1].0@));
                            } else if a == i {
                                if b - 1 > i {
                                    assert(path_lt(old_entries[i as int].0@, old_entries[b - 1].0@));
                                    lemma_lex_transitive(key, old_entries[i as int].0@, old_entries[b - 1].0@, bytes_order());
                                }
                            } else {
                                assert(path_lt(old_entries[a - 1].0@, old_entries[b - 1].0@));
                            }
                        }
                    }
                    let m = entries_map(old_entries).insert(key, mount);
                    assert forall|k: Seq<Seq<u8>>| has_key(new_entries, k) <==> m.dom().contains(k) by {
                        if has_key(new_entries, k) {
                            let t = choose|t: int| 0 <= t < new_entries.len() && #[trigger] new_entries[t].0@ == k;
                            if t < i {
                                assert(old_entries[t].0@ == k);
                            } else if t > i {
                                assert(old_entries[t - 1].0@ == k);
                            }
                        }
                        if m.dom().contains(k) && k != key {
                            let t = choose|t: int| 0 <= t < old_entries.len() && #[trigger] old_entries[t].0@ == k;
                            if t < i {
                                assert(new_entries[t].0@ == k);
                            } else {
                                assert(new_entries[t + 1].0@ == k);
                            }
                        }
                        if k == key {
                            assert(new_entries[i as int].0@ == k);
                        }
                    }
                    assert forall|t: int| 0 <= t < new_entries.len() implies m[#[trigger] new_entries[t].0@]
                        == new_entries[t].1 by {
                        if t != i {
                            lemma_distinct(new_entries, t, i as int);
                            if t < i {
                                lemma_lookup(old_entries, t);
                            } else {
                                lemma_lookup(old_entries, t - 1);
                            }
                        }
                    }
                    lemma_same_map(old_entries, new_entries, m);
                }
                return MountTree { entries };
            }
            proof {
                let e = entries@[i as int].0@;
                lemma_lex_total(key, e, bytes_order());
            }
            i = i + 1;
        }
        entries.push((path, mount));
        let ghost new_entries = entries@;
        proof {
            assert(new_entries =~= old_entries.push((new_entries[n as int].0, mount)));
            assert(keys_sorted(new_entries)) by {
                assert forall|a: int, b: int| 0 <= a < b < new_entries.len() implies path_lt(
                    #[trigger] new_entries[a].0@,
                    #[trigger] new_entries[b].0@,
                ) by {
                    if b < n {
                        assert(path_lt(old_entries[a].0@, old_entries[b].0@));
                    }
                }
            }
            let m = entries_map(old_entries).insert(key, mount);
            assert forall|k: Seq<Seq<u8>>| has_key(new_entries, k) <==> m.dom().contains(k) by {
                if has_key(new_entries, k) {
                    let t = choose|t: int| 0 <= t < new_entries.len() && #[trigger] new_entries[t].0@ == k;
                    if t < n {
                        assert(old_entries[t].0@ == k);
                    }
                }
                if m.dom().contains(k) && k != key {
                    let t = choose|t: int| 0 <= t < old_entries.len() && #[trigger] old_entries[t].0@ == k;
                    assert(new_entries[t].0@ == k);
                }
                if k == key {
                    assert(new_entries[n as int].0@ == k);
                }
            }
            assert forall|t: int| 0 <= t < new_entries.len() implies m[#[trigger] new_entries[t].0@]
                == new_entries[t].1 by {
                if t != n {
                    lemma_distinct(new_entries, t, n as int);
                    lemma_lookup(old_entries, t);
                }
            }
            lemma_same_map(old_entries, new_entries, m);
        }
        MountTree { entries }
    }

    /// Unmount whatever is mounted at the given destination.
    #[verifier::loop_isolation(false)]
    pub fn unmount(self, path: Guest) -> (r: Self)
        ensures
            r@ == self@.remove(path@),
    {
        proof {
            use_type_invariant(&self);
        }
        let ghost old_entries = self.entries@;
        let ghost key = path@;
        let mut entries = self.entries;
        let n = entries.len();
        let mut i: usize = 0;
        while i < n
            invariant
                n == entries@.len(),
                entries@ == old_entries,
                keys_sorted(entries@),
                key == path@,
                i <= n,
                forall|t: int| 0 <= t < i ==> #[trigger] entries@[t].0@ != key,
            decreases n - i,
        {
            if entries[i].0.same_path(&path) {
                let _ = entries.remove(i);
                let ghost new_entries = entries@;
                proof {
                    assert(new_entries =~= old_entries.remove(i as int));
                    assert(keys_sorted(new_entries)) by {
                        assert forall|a: int, b: int| 0 <= a < b < new_entries.len() implies path_lt(
                            #[trigger] new_entries[a].0@,
                            #[trigger] new_entries[b].0@,
                        ) by {
                            let a0 = if a < i { a } else { a + 1 };
                            let b0 = if b < i { b } else { b + 1 };
                            assert(path_lt(old_entries[a0].0@, old_entries[b0].0@));
                        }
                    }
                    let m = entries_map(old_entries).remove(key);
                    assert forall|k: Seq<Seq<u8>>| has_key(new_entries, k) <==> m.dom().contains(k) by {
                        if has_key(new_entries, k) {
                            let t = choose|t: int| 0 <= t < new_entries.len() && #[trigger] new_entries[t].0@ == k;
                            let t0 = if t < i { t } else { t + 1 };
                            assert(old_entries[t0].0@ == k);
                            lemma_distinct(old_entries, t0, i as int);
                        }
                        if m.dom().contains(k) {
                            let t = choose|t: int| 0 <= t < old_entries.len() && #[trigger] old_entries[t].0@ == k;
                            if t < i {
                                assert(new_entries[t].0@ == k);
                            } else {
                                assert(new_entries[t - 1].0@ == k);
                            }
                        }
                    }
                    assert forall|t: int| 0 <= t < new_entries.len() implies m[#[trigger] new_entries[t].0@]
                        == new_entries[t].1 by {
                        let t0 = if t < i { t } else { t + 1 };
                        assert(new_entries[t] == old_entries[t0]);
                        lemma_lookup(old_entries, t0);
                        lemma_distinct(old_entries, t0, i as int);
                    }
                    lemma_same_map(old_entries, new_entries, m);
                }
                return MountTree { entries };
            }
            i = i + 1;
        }
        proof {
            assert(!has_key(old_entries, key));
            assert(entries_map(old_entries).remove(key) =~= entries_map(old_entries));
        }
        MountTree { entries }
    }

    /// Unmount everything.
    pub fn clear(self) -> (r: Self)
        ensures
            r@ == Map::<Seq<Seq<u8>>, Mount>::empty(),
    {
        MountTree::empty()
    }

    /// Whether the mount tree is valid: nothing is mounted below a bind
    /// mount.
    pub fn is_valid(&self) -> (r: bool)
        ensures
            r == valid_mount_tree(self@),
    {
        proof {
            use_type_invariant(self);
            lemma_bytes_order();
        }
        is_valid_mount_tree(self.entries.as_slice())
    }
}

/// Whether `j` lies strictly below a non-synthetic `i`.
pub open spec fn nested_in_bind(s: Seq<(Guest, Mount)>, i: int, j: int) -> bool {
    &&& s[i].0@ != s[j].0@
    &&& is_prefix(s[i].0@, s[j].0@)
    &&& !s[i].1.spec_is_synthetic()
}

/// Checks the sorted entries of a mount tree, keeping a stack of the mounts
/// whose subtrees are open, each with whether it is synthetic. A mount below
/// the top of the stack is invalid when the top is a bind mount; otherwise
/// the stack is unwound to the mount's closest ancestor.
fn is_valid_mount_tree(entries: &[(Guest, Mount)]) -> (r: bool)
    requires
        keys_sorted(entries@),
        crate::order::strict_total_order(bytes_order()),
    ensures
        r == valid_mount_tree(entries_map(entries@)),
{
    let ghost s = entries@;
    let mut stack: Vec<(usize, bool)> = Vec::new();
    let n = entries.len();
    let mut i: usize = 0;
    while i < n
        invariant
            s == entries@,
            n == s.len(),
            keys_sorted(s),
            crate::order::strict_total_order(bytes_order()),
            i <= n,
            forall|t: int| 0 <= t < stack@.len() ==> #[trigger] stack@[t].0 < i,
            i > 0 ==> stack@.len() > 0 && stack@.last().0 == i - 1 && stack@.last().1
                == s[i - 1].1.spec_is_synthetic(),
            forall|a: int, b: int| 0 <= a < b < i ==> !nested_in_bind(s, a, b),
        decreases n - i,
    {
        let destination = &entries[i].0;
        if stack.len() > 0 {
            let top = stack[stack.len() - 1];
            if destination.starts_with(&entries[top.0].0) {
                if !top.1 {
                    proof {
                        let a = s[i - 1].0@;
                        let b = s[i as int].0@;
                        lemma_distinct(s, i - 1, i as int);
                        lemma_lookup(s, i - 1);
                        lemma_lookup(s, i as int);
                        assert(entries_map(s).dom().contains(a) && entries_map(s).dom().contains(b));
                    }
                    return false;
                }
            } else {
                loop
                    invariant
                        forall|t: int| 0 <= t < stack@.len() ==> #[trigger] stack@[t].0 < i,
                        i < n,
                        n == entries@.len(),
                    decreases stack@.len(),
                {
                    match stack.pop() {
                        None => break,
                        Some(current) => {
                            if destination.starts_with(&entries[current.0].0) {
                                break;
                            }
                        },
                    }
                }
            }
        }
        proof {
            assert forall|a: int, b: int| 0 <= a < b < i + 1 implies !nested_in_bind(s, a, b) by {
                if b == i && nested_in_bind(s, a, b) {
                    if a < i - 1 {
                        assert(path_lt(s[a].0@, s[a + 1].0@));
                        assert(path_lt(s[a + 1].0@, s[b].0@));
                        lemma_lex_prefix_between(s[a].0@, s[a + 1].0@, s[b].0@, bytes_order());
                        lemma_distinct(s, a, a + 1);
                        assert(nested_in_bind(s, a, a + 1));
                    }
                }
            }
        }
        let is_synthetic = entries[i].1.is_synthetic();
        stack.push((i, is_synthetic));
        i = i + 1;
    }
    proof {
        let m = entries_map(s);
        assert forall|a: Seq<Seq<u8>>, b: Seq<Seq<u8>>|
            m.dom().contains(a) && m.dom().contains(b) && a != b && is_prefix(a, b) implies m[a].spec_is_synthetic() by {
            let ia = choose|t: int| 0 <= t < s.len() && #[trigger] s[t].0@ == a;
            let ib = choose|t: int| 0 <= t < s.len() && #[trigger] s[t].0@ == b;
            lemma_lookup(s, ia);
            lemma_lookup(s, ib);
            if a.len() == b.len() {
                assert(b.subrange(0, a.len() as int) =~= b);
            }
            lemma_lex_prefix_first(a, b, bytes_order());
            if ib < ia {
                assert(path_lt(b, a));
                lemma_lex_asymmetric(a, b, bytes_order());
            } else if ia < ib {
                assert(!nested_in_bind(s, ia, ib));
            }
        }
    }
    true
}

} // verus!
