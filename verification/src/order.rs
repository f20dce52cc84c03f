//! Lexicographic order on sequences, the order in which paths are sorted.

use vstd::prelude::*;

verus! {

/// Whether `lt` is a strict total order: irreflexive, transitive and total
/// on distinct elements.
pub open spec fn strict_total_order<T>(lt: spec_fn(T, T) -> bool) -> bool {
    &&& forall|x: T| !#[trigger] lt(x, x)
    &&& forall|x: T, y: T, z: T| #[trigger] lt(x, y) && #[trigger] lt(y, z) ==> lt(x, z)
    &&& forall|x: T, y: T| x != y ==> #[trigger] lt(x, y) || #[trigger] lt(y, x)
}

/// Lexicographic order: the first differing element decides, and a proper
/// prefix comes first.
pub open spec fn lex_lt<T>(a: Seq<T>, b: Seq<T>, lt: spec_fn(T, T) -> bool) -> bool
    decreases a.len(),
{
    if a.len() == 0 {
        b.len() > 0
    } else if b.len() == 0 {
        false
    } else if a[0] != b[0] {
        lt(a[0], b[0])
    } else {
        lex_lt(a.drop_first(), b.drop_first(), lt)
    }
}

/// Whether `a` is a prefix of `b`.
pub open spec fn is_prefix<T>(a: Seq<T>, b: Seq<T>) -> bool {
    a.len() <= b.len() && b.subrange(0, a.len() as int) == a
}

/// No sequence is before itself.
pub proof fn lemma_lex_irreflexive<T>(a: Seq<T>, lt: spec_fn(T, T) -> bool)
    requires
        strict_total_order(lt),
    ensures
        !lex_lt(a, a, lt),
    decreases a.len(),
{
    if a.len() > 0 {
        lemma_lex_irreflexive(a.drop_first(), lt);
    }
}

/// The lexicographic order is transitive.
pub proof fn lemma_lex_transitive<T>(a: Seq<T>, b: Seq<T>, c: Seq<T>, lt: spec_fn(T, T) -> bool)
    requires
        strict_total_order(lt),
        lex_lt(a, b, lt),
        lex_lt(b, c, lt),
    ensures
        lex_lt(a, c, lt),
    decreases a.len(),
{
    if a.len() > 0 && b.len() > 0 && c.len() > 0 {
        if a[0] == b[0] && b[0] == c[0] {
            lemma_lex_transitive(a.drop_first(), b.drop_first(), c.drop_first(), lt);
        } else if a[0] != b[0] && b[0] != c[0] {
            assert(lt(a[0], b[0]) && lt(b[0], c[0]));
            if a[0] == c[0] {
                assert(lt(a[0], a[0]));
            }
        }
    }
}

/// Two distinct sequences are ordered one way or the other.
pub proof fn lemma_lex_total<T>(a: Seq<T>, b: Seq<T>, lt: spec_fn(T, T) -> bool)
    requires
        strict_total_order(lt),
        a != b,
    ensures
        lex_lt(a, b, lt) || lex_lt(b, a, lt),
    decreases a.len(),
{
    if a.len() > 0 && b.len() > 0 {
        if a[0] == b[0] {
            if a.drop_first() == b.drop_first() {
                assert(a =~= seq![a[0]] + a.drop_first());
                assert(b =~= seq![b[0]] + b.drop_first());
            }
            lemma_lex_total(a.drop_first(), b.drop_first(), lt);
        }
    } else if a.len() == 0 && b.len() == 0 {
        assert(a =~= b);
    }
}

/// A sequence is not before one that it is after.
pub proof fn lemma_lex_asymmetric<T>(a: Seq<T>, b: Seq<T>, lt: spec_fn(T, T) -> bool)
    requires
        strict_total_order(lt),
        lex_lt(a, b, lt),
    ensures
        !lex_lt(b, a, lt),
{
    if lex_lt(b, a, lt) {
        lemma_lex_transitive(a, b, a, lt);
        lemma_lex_irreflexive(a, lt);
    }
}

/// Whatever lies between a sequence and a sequence that it is a prefix of
/// also has it as a prefix.
pub proof fn lemma_lex_prefix_between<T>(
    a: Seq<T>,
    b: Seq<T>,
    c: Seq<T>,
    lt: spec_fn(T, T) -> bool,
)
    requires
        strict_total_order(lt),
        is_prefix(a, c),
        lex_lt(a, b, lt),
        lex_lt(b, c, lt),
    ensures
        is_prefix(a, b),
    decreases a.len(),
{
    if a.len() > 0 {
        assert(c[0] == a[0]);
        if b[0] != a[0] {
            assert(lt(a[0], b[0]) && lt(b[0], a[0]));
        } else {
            assert(is_prefix(a.drop_first(), c.drop_first())) by {
                assert(c.drop_first().subrange(0, a.drop_first().len() as int) =~= a.drop_first());
            }
            lemma_lex_prefix_between(a.drop_first(), b.drop_first(), c.drop_first(), lt);
            assert(b.subrange(0, a.len() as int) =~= a) by {
                assert forall|i: int| 0 <= i < a.len() implies b[i] == a[i] by {
                    if i > 0 {
                        assert(b.drop_first()[i - 1] == a.drop_first()[i - 1]);
                    }
                }
            }
        }
    } else {
        assert(b.subrange(0, 0) =~= a);
    }
}

/// A proper prefix comes first.
pub proof fn lemma_lex_prefix_first<T>(a: Seq<T>, b: Seq<T>, lt: spec_fn(T, T) -> bool)
    requires
        is_prefix(a, b),
        a.len() < b.len(),
    ensures
        lex_lt(a, b, lt),
    decreases a.len(),
{
    if a.len() > 0 {
        assert(b[0] == a[0]);
        assert(is_prefix(a.drop_first(), b.drop_first())) by {
            assert(b.drop_first().subrange(0, a.drop_first().len() as int) =~= a.drop_first());
        }
        lemma_lex_prefix_first(a.drop_first(), b.drop_first(), lt);
    }
}

/// Skipping a common prefix keeps the order.
pub proof fn lemma_lex_skip<T>(a: Seq<T>, b: Seq<T>, k: int, lt: spec_fn(T, T) -> bool)
    requires
        0 <= k <= a.len(),
        k <= b.len(),
        a.subrange(0, k) == b.subrange(0, k),
    ensures
        lex_lt(a, b, lt) == lex_lt(a.subrange(k, a.len() as int), b.subrange(k, b.len() as int), lt),
    decreases k,
{
    if k > 0 {
        assert(a[0] == a.subrange(0, k)[0]);
        assert(b[0] == b.subrange(0, k)[0]);
        assert(a.drop_first().subrange(0, k - 1) =~= a.subrange(0, k).drop_first());
        assert(b.drop_first().subrange(0, k - 1) =~= b.subrange(0, k).drop_first());
        lemma_lex_skip(a.drop_first(), b.drop_first(), k - 1, lt);
        assert(a.drop_first().subrange(k - 1, a.drop_first().len() as int) =~= a.subrange(
            k,
            a.len() as int,
        ));
        assert(b.drop_first().subrange(k - 1, b.drop_first().len() as int) =~= b.subrange(
            k,
            b.len() as int,
        ));
    } else {
        assert(a.subrange(0, a.len() as int) =~= a);
        assert(b.subrange(0, b.len() as int) =~= b);
    }
}

/// Byte order.
pub open spec fn byte_lt(x: u8, y: u8) -> bool {
    x < y
}

/// Byte order is a strict total order.
pub proof fn lemma_byte_order()
    ensures
        strict_total_order(byte_order()),
{
}

/// Byte order, as a relation.
pub open spec fn byte_order() -> spec_fn(u8, u8) -> bool {
    |x: u8, y: u8| byte_lt(x, y)
}

/// Lexicographic order on byte strings.
pub open spec fn bytes_lt(a: Seq<u8>, b: Seq<u8>) -> bool {
    lex_lt(a, b, byte_order())
}

/// Lexicographic order on byte strings, as a relation.
pub open spec fn bytes_order() -> spec_fn(Seq<u8>, Seq<u8>) -> bool {
    |x: Seq<u8>, y: Seq<u8>| bytes_lt(x, y)
}

/// Applying the byte string relation compares byte strings.
pub proof fn lemma_bytes_order_apply(x: Seq<u8>, y: Seq<u8>)
    ensures
        (bytes_order())(x, y) == bytes_lt(x, y),
{
}

/// Lexicographic order on byte strings is a strict total order.
pub proof fn lemma_bytes_order()
    ensures
        strict_total_order(bytes_order()),
{
    let lt = byte_order();
    lemma_byte_order();
    assert forall|x: Seq<u8>| !bytes_lt(x, x) by {
        lemma_lex_irreflexive(x, lt);
    }
    assert forall|x: Seq<u8>, y: Seq<u8>, z: Seq<u8>|
        #[trigger] bytes_lt(x, y) && #[trigger] bytes_lt(y, z) implies bytes_lt(x, z) by {
        lemma_lex_transitive(x, y, z, lt);
    }
    assert forall|x: Seq<u8>, y: Seq<u8>| x != y implies #[trigger] bytes_lt(x, y)
        || #[trigger] bytes_lt(y, x) by {
        lemma_lex_total(x, y, lt);
    }
}

/// Whether `a` comes before `b`, byte-wise lexicographically.
pub fn bytes_less(a: &[u8], b: &[u8]) -> (r: bool)
    ensures
        r == bytes_lt(a@, b@),
{
    let mut i: usize = 0;
    while i < a.len() && i < b.len()
        invariant
            i <= a@.len(),
            i <= b@.len(),
            a@.subrange(0, i as int) == b@.subrange(0, i as int),
        decreases a@.len() - i,
    {
        if a[i] != b[i] {
            proof {
                lemma_lex_skip(a@, b@, i as int, byte_order());
                assert(a@.subrange(i as int, a@.len() as int)[0] == a@[i as int]);
                assert(b@.subrange(i as int, b@.len() as int)[0] == b@[i as int]);
            }
            return a[i] < b[i];
        }
        i = i + 1;
        assert(a@.subrange(0, i as int) =~= b@.subrange(0, i as int));
    }
    proof {
        lemma_lex_skip(a@, b@, i as int, byte_order());
    }
    i == a.len() && i < b.len()
}

/// Whether two byte strings are equal.
pub fn bytes_equal(a: &[u8], b: &[u8]) -> (r: bool)
    ensures
        r == (a@ == b@),
{
    if a.len() != b.len() {
        return false;
    }
    let mut i: usize = 0;
    while i < a.len()
        invariant
            a@.len() == b@.len(),
            i <= a@.len(),
            forall|j: int| 0 <= j < i ==> a@[j] == b@[j],
        decreases a@.len() - i,
    {
        if a[i] != b[i] {
            return false;
        }
        i = i + 1;
    }
    assert(a@ =~= b@);
    true
}

} // verus!
