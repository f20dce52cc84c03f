//! Allocation-free string formatting primitives.

use super::errors::{PostSpawnGuest, PostSpawnGuestOther};
use vstd::arithmetic::div_mod::lemma_fundamental_div_mod_converse;
use vstd::arithmetic::power2::{lemma2_to64, lemma_pow2_adds, lemma_pow2_pos, pow2};
use vstd::bits::lemma_u128_shr_is_div;
use vstd::prelude::*;

verus! {

/// The ASCII decimal digits of `n`, most significant first, without leading
/// zeros.
pub open spec fn decimal_digits(n: nat) -> Seq<u8>
    decreases n,
{
    if n < 10 {
        seq![(n + 48) as u8]
    } else {
        decimal_digits(n / 10).push((n % 10 + 48) as u8)
    }
}

/// The ASCII decimal representation of `v`, with a leading `-` when it is
/// negative.
pub open spec fn decimal(v: int) -> Seq<u8> {
    if v < 0 {
        seq![45u8] + decimal_digits((-v) as nat)
    } else {
        decimal_digits(v as nat)
    }
}

/// Ten to the power `k`.
pub open spec fn pow10(k: nat) -> nat
    decreases k,
{
    if k == 0 {
        1
    } else {
        10 * pow10((k - 1) as nat)
    }
}

/// A number has at least one decimal digit.
pub proof fn lemma_decimal_digits_nonempty(n: nat)
    ensures
        decimal_digits(n).len() >= 1,
    decreases n,
{
    if n >= 10 {
        lemma_decimal_digits_nonempty(n / 10);
    }
}

/// A number below `10^k` has at most `k` decimal digits.
pub proof fn lemma_decimal_digits_len_bound(n: nat, k: nat)
    requires
        k >= 1,
        n < pow10(k),
    ensures
        decimal_digits(n).len() <= k,
    decreases k,
{
    if n >= 10 {
        reveal_with_fuel(pow10, 2);
        assert(pow10(1) == 10);
        if k == 1 {
            assert(false);
        }
        assert(n / 10 < pow10((k - 1) as nat));
        lemma_decimal_digits_len_bound(n / 10, (k - 1) as nat);
    }
}

/// A larger number has at least as many decimal digits.
pub proof fn lemma_decimal_digits_monotone(n: nat, m: nat)
    requires
        n <= m,
    ensures
        decimal_digits(n).len() <= decimal_digits(m).len(),
    decreases m,
{
    lemma_decimal_digits_nonempty(m);
    if n >= 10 {
        lemma_decimal_digits_monotone(n / 10, m / 10);
    }
}


/// A number of at least `10^(k-1)` has at least `k` decimal digits.
pub proof fn lemma_decimal_digits_len_lower(n: nat, k: nat)
    requires
        k >= 1,
        n >= pow10((k - 1) as nat),
    ensures
        decimal_digits(n).len() >= k,
    decreases k,
{
    lemma_decimal_digits_nonempty(n);
    if k >= 2 {
        assert(pow10((k - 1) as nat) == 10 * pow10((k - 2) as nat));
        assert(n / 10 >= pow10((k - 2) as nat));
        lemma_decimal_digits_len_lower(n / 10, (k - 1) as nat);
    }
}

/// `10^39` exceeds every [`u128`].
proof fn lemma_pow10_39()
    ensures
        pow10(39) == 1000000000000000000000000000000000000000nat,
{
    reveal_with_fuel(pow10, 40);
}

/// `2^128` is one more than the largest [`u128`].
proof fn lemma_pow2_128()
    ensures
        pow2(128) == 0x1_0000_0000_0000_0000_0000_0000_0000_0000nat,
{
    lemma2_to64();
    lemma_pow2_adds(64, 64);
}

/// Compute the number of decimal digits in a [`u128`] value.
pub fn compute_decimal_digits_u128(n: u128) -> (digits: usize)
    ensures
        digits == decimal_digits(n as nat).len(),
{
    let ghost n0 = n;
    let mut n = n;
    let mut digits: usize = 1;
    proof {
        lemma_pow10_39();
        lemma_decimal_digits_len_bound(n0 as nat, 39);
        lemma_decimal_digits_nonempty(n0 as nat);
    }
    while n >= 10
        invariant
            digits as int + decimal_digits(n as nat).len() - 1 == decimal_digits(n0 as nat).len(),
            decimal_digits(n0 as nat).len() <= 39,
            1 <= digits,
        decreases n,
    {
        proof {
            lemma_decimal_digits_nonempty((n / 10) as nat);
        }
        n = n / 10;
        digits = digits.saturating_add(1);
    }
    digits
}

/// The largest value a `bytes`-byte unsigned integer holds, capped at the
/// width of a [`u128`].
pub open spec fn unsigned_max_of_width(bytes: nat) -> nat {
    if bytes >= 16 {
        (pow2(128) - 1) as nat
    } else {
        (pow2(8 * bytes) - 1) as nat
    }
}

/// Shifting the all-ones [`u128`] right by `s` leaves `2^(128-s) - 1`.
proof fn lemma_max_shr(s: u128)
    requires
        s < 128,
    ensures
        u128::MAX >> s == pow2((128 - s) as nat) - 1,
{
    lemma_u128_shr_is_div(u128::MAX, s);
    let d = pow2(s as nat);
    let q = pow2((128 - s) as nat);
    lemma_pow2_pos(s as nat);
    lemma_pow2_pos((128 - s) as nat);
    lemma_pow2_adds((128 - s) as nat, s as nat);
    lemma_pow2_128();
    assert((q - 1) * d + (d - 1) == q * d - 1) by (nonlinear_arith);
    lemma_fundamental_div_mod_converse(u128::MAX as int, d as int, (q - 1) as int, (d - 1) as int);
}

/// Compute the upper bound on the number of decimal digits for the given
/// unsigned integer type.
pub fn unsigned_decimal_digits_upper_bound<T>() -> (bound: usize)
    requires
        1 <= vstd::layout::size_of::<T>(),
    ensures
        bound == decimal_digits(unsigned_max_of_width(vstd::layout::size_of::<T>())).len(),
{
    let size = core::mem::size_of::<T>();
    let bits = if size > usize::MAX / 8 {
        usize::MAX
    } else {
        size * 8
    };
    let shift = 128usize.saturating_sub(bits);
    let shift_wide = shift as u128;
    proof {
        lemma_max_shr(shift_wide);
        let size = vstd::layout::size_of::<T>();
        if size < 16 {
            assert(bits == 8 * size);
            assert(128 - shift == 8 * size);
        }
    }
    compute_decimal_digits_u128(u128::MAX >> shift_wide)
}

/// `1 << s` on [`u128`] is `2^s`.
proof fn lemma_one_shl(s: u128)
    requires
        s < 128,
    ensures
        1u128 << s == pow2(s as nat),
    decreases s,
{
    if s == 0 {
        assert(1u128 << 0u128 == 1u128) by (bit_vector);
        lemma2_to64();
    } else {
        lemma_one_shl((s - 1) as u128);
        assert(1u128 << s == (1u128 << ((s - 1) as u128)) * 2) by (bit_vector)
            requires
                0 < s < 128,
        ;
        lemma_pow2_adds((s - 1) as nat, 1);
        lemma2_to64();
    }
}

/// The magnitude of the most negative `bytes`-byte signed integer.
pub open spec fn signed_min_magnitude_of_width(bytes: nat) -> nat {
    if bytes == 0 {
        1
    } else {
        pow2((8 * bytes - 1) as nat)
    }
}

/// Compute the upper bound on the number of decimal digits and possible sign
/// for the given signed integer type.
pub fn signed_decimal_digits_upper_bound<T>() -> (bound: usize)
    requires
        vstd::layout::size_of::<T>() <= 16,
    ensures
        bound == decimal_digits(signed_min_magnitude_of_width(vstd::layout::size_of::<T>())).len()
            + 1,
{
    let size = core::mem::size_of::<T>();
    let bits = if size > usize::MAX / 8 {
        usize::MAX
    } else {
        size * 8
    };
    let shift = bits.saturating_sub(1) as u128;
    proof {
        lemma_one_shl(shift);
        lemma2_to64();
    }
    let digits = compute_decimal_digits_u128(1u128 << shift);
    proof {
        lemma_pow10_39();
        lemma_decimal_digits_len_bound((1u128 << shift) as nat, 39);
    }
    digits.saturating_add(1)
}

/// Writes bytes to the given buffer and updates the offset.
///
/// # Errors
///
/// This function errors if the [`usize`] tracking the offset within the
/// buffer would overflow or if the buffer is too small.
pub fn write_bytes(buffer: &mut [u8], offset: &mut usize, bytes: &[u8]) -> (r: Result<
    (),
    PostSpawnGuest,
>)
    ensures
        r is Ok <==> *old(offset) + bytes@.len() <= old(buffer)@.len(),
        r is Ok ==> {
            &&& *final(offset) == *old(offset) + bytes@.len()
            &&& final(buffer)@ == old(buffer)@.subrange(0, *old(offset) as int) + bytes@
                + old(buffer)@.subrange(*old(offset) + bytes@.len(), old(buffer)@.len() as int)
        },
        r is Err ==> {
            &&& r == Err::<(), _>(PostSpawnGuest::Other(PostSpawnGuestOther::BufferTooSmall))
            &&& *final(offset) == *old(offset)
            &&& final(buffer)@ == old(buffer)@
        },
{
    let start = *offset;
    let len = bytes.len();
    if start > buffer.len() || len > buffer.len() - start {
        return Err(PostSpawnGuest::Other(PostSpawnGuestOther::BufferTooSmall));
    }
    let end = start + len;
    let mut i: usize = 0;
    while i < len
        invariant
            start + len == end,
            end <= buffer@.len(),
            len == bytes@.len(),
            buffer@.len() == old(buffer)@.len(),
            i <= len,
            forall|j: int| 0 <= j < start ==> buffer@[j] == old(buffer)@[j],
            forall|j: int| end <= j < buffer@.len() ==> buffer@[j] == old(buffer)@[j],
            forall|j: int| 0 <= j < i ==> buffer@[start + j] == bytes@[j],
        decreases len - i,
    {
        buffer[start + i] = bytes[i];
        i = i + 1;
    }
    *offset = end;
    assert(buffer@ =~= old(buffer)@.subrange(0, start as int) + bytes@ + old(buffer)@.subrange(
        end as int,
        old(buffer)@.len() as int,
    ));
    Ok(())
}

/// Formats an integer as ASCII decimal.
///
/// Calls `itoa::Buffer::format`, whose documentation says it prints the
/// integer and returns its string representation: the decimal digits, with a
/// leading `-` for a negative value. The contract states exactly that.
#[verifier::external_body]
pub(crate) fn format_decimal(value: i128) -> (text: Vec<u8>)
    ensures
        text@ == decimal(value as int),
{
    let mut buffer = itoa::Buffer::new();
    buffer.format(value).as_bytes().to_vec()
}

/// Writes the decimal representation of an integer to the given buffer and
/// updates the offset.
///
/// # Errors
///
/// This function errors if the [`usize`] tracking the offset within the
/// buffer would overflow or if the buffer is too small.
pub fn write_integer(buffer: &mut [u8], offset: &mut usize, integer: i128) -> (r: Result<
    (),
    PostSpawnGuest,
>)
    ensures
        r is Ok <==> *old(offset) + decimal(integer as int).len() <= old(buffer)@.len(),
        r is Ok ==> {
            &&& *final(offset) == *old(offset) + decimal(integer as int).len()
            &&& final(buffer)@ == old(buffer)@.subrange(0, *old(offset) as int) + decimal(
                integer as int,
            ) + old(buffer)@.subrange(
                *old(offset) + decimal(integer as int).len(),
                old(buffer)@.len() as int,
            )
        },
        r is Err ==> {
            &&& r == Err::<(), _>(PostSpawnGuest::Other(PostSpawnGuestOther::BufferTooSmall))
            &&& *final(offset) == *old(offset)
            &&& final(buffer)@ == old(buffer)@
        },
{
    let text = format_decimal(integer);
    write_bytes(buffer, offset, text.as_slice())
}

} // verus!
