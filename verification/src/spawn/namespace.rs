//! Contents of the namespace configuration files written by the guest:
//! `timens_offsets`, `uid_map`, `setgroups` and `gid_map`.

use super::errors::{PostSpawnGuest, PostSpawnGuestOther};
use super::fmt::{
    decimal, decimal_digits, lemma_decimal_digits_len_bound, lemma_decimal_digits_monotone,
    pow10, signed_decimal_digits_upper_bound, signed_min_magnitude_of_width,
    unsigned_decimal_digits_upper_bound, unsigned_max_of_width, write_bytes, write_integer,
};
use crate::meowix::ids::{Gid, Uid};
use crate::policy::namespace::TimeOffset;
use crate::text::{lemma_ascii_bytes, literal, push_text, texts_view};
use vstd::arithmetic::power2::{lemma2_to64, pow2};
use vstd::prelude::*;
use vstd::string::StringSliceAdditionalSpecFns;

verus! {

/// A clock whose offset a time namespace sets.
#[derive(PartialEq, Eq, Structural, Copy, Clone, Debug)]
pub enum TimeClock {
    /// `CLOCK_MONOTONIC`.
    Monotonic,
    /// `CLOCK_BOOTTIME`.
    Boottime,
}

/// The name of a clock in `timens_offsets`, followed by a space.
pub open spec fn clock_label(clock: TimeClock) -> Seq<u8> {
    match clock {
        TimeClock::Monotonic => "monotonic ".spec_bytes(),
        TimeClock::Boottime => "boottime ".spec_bytes(),
    }
}

/// The line of `timens_offsets` that sets a clock's offset: the clock's
/// name, the seconds and the nanoseconds, separated by spaces.
pub open spec fn timens_offset_text(clock: TimeClock, offset: TimeOffset) -> Seq<u8> {
    clock_label(clock) + decimal(offset.seconds.spec_raw() as int) + " ".spec_bytes() + decimal(
        offset.nanoseconds.spec_raw() as int,
    )
}

/// The most bytes a signed 64-bit integer takes in decimal, with its sign.
pub open spec fn i64_decimal_max() -> nat {
    decimal_digits(signed_min_magnitude_of_width(8)).len() + 1
}

/// The most bytes an unsigned 32-bit integer takes in decimal.
pub open spec fn u32_decimal_max() -> nat {
    decimal_digits(unsigned_max_of_width(4)).len()
}

/// The decimal form of every [`i64`] fits in [`i64_decimal_max`] bytes, which
/// is twenty.
pub proof fn lemma_i64_decimal_len(v: i64)
    ensures
        decimal(v as int).len() <= i64_decimal_max(),
        i64_decimal_max() == 20,
{
    lemma2_to64();
    reveal_with_fuel(pow10, 21);
    let top: nat = signed_min_magnitude_of_width(8);
    assert(top == pow2(63));
    vstd::arithmetic::power2::lemma_pow2_adds(63, 1);
    assert(top == 0x8000_0000_0000_0000nat);
    if v < 0 {
        lemma_decimal_digits_monotone((-v) as nat, top);
    } else {
        lemma_decimal_digits_monotone(v as nat, top);
    }
    lemma_decimal_digits_len_bound(top, 19);
    crate::spawn::fmt::lemma_decimal_digits_len_lower(top, 19);
}

/// The decimal form of every [`u32`] fits in [`u32_decimal_max`] bytes, which
/// is ten.
pub proof fn lemma_u32_decimal_len(v: u32)
    ensures
        decimal(v as int).len() <= u32_decimal_max(),
        u32_decimal_max() == 10,
{
    lemma2_to64();
    reveal_with_fuel(pow10, 11);
    let top: nat = unsigned_max_of_width(4);
    assert(top == 0xffff_ffffnat);
    lemma_decimal_digits_monotone(v as nat, top);
    lemma_decimal_digits_len_bound(top, 10);
    crate::spawn::fmt::lemma_decimal_digits_len_lower(top, 10);
}

/// Sizes the buffer that holds one line of `timens_offsets`: the digits and
/// sign of an [`i64`], the digits of a [`u32`] and eleven bytes for the
/// longest clock name and the spaces.
pub fn timens_offset_buffer_size() -> (size: usize)
    ensures
        size == i64_decimal_max() + u32_decimal_max() + 11,
        size == 41,
{
    broadcast use vstd::layout::layout_of_primitives;

    proof {
        lemma_i64_decimal_len(0);
        lemma_u32_decimal_len(0);
    }
    signed_decimal_digits_upper_bound::<i64>().saturating_add(
        unsigned_decimal_digits_upper_bound::<u32>(),
    ).saturating_add(11)
}

/// Formats the line of `timens_offsets` for a clock at the start of
/// `buffer` and returns its length.
///
/// # Errors
///
/// Fails with [`PostSpawnGuestOther::BufferTooSmall`] exactly when the line
/// is longer than the buffer.
pub fn format_timens_offset(buffer: &mut [u8], clock: TimeClock, offset: &TimeOffset) -> (r:
    Result<usize, PostSpawnGuest>)
    ensures
        final(buffer)@.len() == old(buffer)@.len(),
        r is Ok <==> timens_offset_text(clock, *offset).len() <= old(buffer)@.len(),
        r matches Ok(n) ==> {
            &&& n == timens_offset_text(clock, *offset).len()
            &&& final(buffer)@.subrange(0, n as int) == timens_offset_text(clock, *offset)
        },
        r is Err ==> r == Err::<usize, PostSpawnGuest>(
            PostSpawnGuest::Other(PostSpawnGuestOther::BufferTooSmall),
        ),
{
    let label = match clock {
        TimeClock::Monotonic => literal("monotonic "),
        TimeClock::Boottime => literal("boottime "),
    };
    let space = literal(" ");
    let seconds = offset.seconds.into_raw();
    let nanoseconds = offset.nanoseconds.into_raw();
    let ghost l = label@;
    let ghost sec = decimal(seconds as int);
    let ghost sp = space@;
    let ghost nsec = decimal(nanoseconds as int);
    let ghost text = l + sec + sp + nsec;
    assert(text == timens_offset_text(clock, *offset));
    let ghost before = buffer@;
    let mut offset_in_buffer: usize = 0;
    if let Err(e) = write_bytes(buffer, &mut offset_in_buffer, label.as_slice()) {
        return Err(e);
    }
    if let Err(e) = write_integer(buffer, &mut offset_in_buffer, seconds as i128) {
        return Err(e);
    }
    if let Err(e) = write_bytes(buffer, &mut offset_in_buffer, space.as_slice()) {
        return Err(e);
    }
    if let Err(e) = write_integer(buffer, &mut offset_in_buffer, nanoseconds as i128) {
        return Err(e);
    }
    assert(buffer@.subrange(0, offset_in_buffer as int) =~= text);
    Ok(offset_in_buffer)
}

/// The lines written to `timens_offsets`: the monotonic offset, then the
/// boottime offset, each when set, each in a write of its own.
pub open spec fn timens_offsets_text(
    monotonic: Option<TimeOffset>,
    boottime: Option<TimeOffset>,
) -> Seq<Seq<u8>> {
    (match monotonic {
        Some(o) => seq![timens_offset_text(TimeClock::Monotonic, o)],
        None => Seq::empty(),
    }) + (match boottime {
        Some(o) => seq![timens_offset_text(TimeClock::Boottime, o)],
        None => Seq::empty(),
    })
}

/// Formats one line into a fresh buffer of [`timens_offset_buffer_size`]
/// bytes, which every offset fits.
fn timens_offset_line(clock: TimeClock, offset: &TimeOffset) -> (line: Vec<u8>)
    ensures
        line@ == timens_offset_text(clock, *offset),
{
    let size = timens_offset_buffer_size();
    let mut buffer = vec![0u8; size];
    proof {
        lemma_i64_decimal_len(offset.seconds.spec_raw());
        lemma_u32_decimal_len(offset.nanoseconds.spec_raw());
        reveal_strlit("monotonic ");
        reveal_strlit("boottime ");
        reveal_strlit(" ");
        lemma_ascii_bytes("monotonic ");
        lemma_ascii_bytes("boottime ");
        lemma_ascii_bytes(" ");
        assert(clock_label(clock).len() <= 10);
        assert(" ".spec_bytes().len() == 1);
    }
    let r = format_timens_offset(buffer.as_mut_slice(), clock, offset);
    match r {
        Ok(n) => {
            let mut line: Vec<u8> = Vec::new();
            let mut i: usize = 0;
            while i < n
                invariant
                    i <= n <= buffer@.len(),
                    buffer@.subrange(0, n as int) == timens_offset_text(clock, *offset),
                    line@ == buffer@.subrange(0, i as int),
                decreases n - i,
            {
                line.push(buffer[i]);
                i = i + 1;
                assert(line@ =~= buffer@.subrange(0, i as int));
            }
            line
        },
        Err(_) => {
            assert(false);
            Vec::new()
        },
    }
}

/// The contents of the writes to `timens_offsets` that set the clocks'
/// offsets, in order. Every offset fits the buffer, so formatting never
/// fails.
pub fn timens_offsets_writes(monotonic: Option<TimeOffset>, boottime: Option<TimeOffset>) -> (lines:
    Vec<Vec<u8>>)
    ensures
        texts_view(lines@) == timens_offsets_text(monotonic, boottime),
{
    let mut lines: Vec<Vec<u8>> = Vec::new();
    if let Some(offset) = monotonic {
        push_text(&mut lines, timens_offset_line(TimeClock::Monotonic, &offset));
    }
    if let Some(offset) = boottime {
        push_text(&mut lines, timens_offset_line(TimeClock::Boottime, &offset));
    }
    assert(texts_view(lines@) =~= timens_offsets_text(monotonic, boottime));
    lines
}

/// A file of `/proc/self` written to set up the user namespace.
#[derive(PartialEq, Eq, Structural, Copy, Clone, Debug)]
pub enum IdMapFile {
    /// `uid_map`.
    UidMap,
    /// `setgroups`.
    Setgroups,
    /// `gid_map`.
    GidMap,
}

impl IdMapFile {
    /// The file's name within `/proc/self`.
    pub fn file_name(&self) -> (name: &'static str)
        ensures
            name@ == match *self {
                IdMapFile::UidMap => "uid_map"@,
                IdMapFile::Setgroups => "setgroups"@,
                IdMapFile::GidMap => "gid_map"@,
            },
    {
        match *self {
            IdMapFile::UidMap => "uid_map",
            IdMapFile::Setgroups => "setgroups",
            IdMapFile::GidMap => "gid_map",
        }
    }
}

/// A line of `uid_map` or `gid_map` that maps one id: the id inside the
/// namespace, the id outside it and the length `1`, separated by spaces.
pub open spec fn id_map_text(dest: u32, source: u32) -> Seq<u8> {
    decimal(dest as int) + " ".spec_bytes() + decimal(source as int) + " 1".spec_bytes()
}

/// Sizes the buffer of an id mapping: the two ids, the two spaces and the
/// single `1`.
pub fn id_map_buffer_size() -> (size: usize)
    ensures
        size == 2 * u32_decimal_max() + 3,
        size == 23,
{
    broadcast use vstd::layout::layout_of_primitives;

    proof {
        lemma_u32_decimal_len(0);
    }
    let digits = unsigned_decimal_digits_upper_bound::<u32>();
    (digits + digits).saturating_add(3)
}

/// Formats an id mapping line at the start of `buffer` and returns its
/// length.
///
/// # Errors
///
/// Fails with [`PostSpawnGuestOther::BufferTooSmall`] exactly when the line
/// is longer than the buffer.
pub fn format_id_map(buffer: &mut [u8], dest: u32, source: u32) -> (r: Result<
    usize,
    PostSpawnGuest,
>)
    ensures
        final(buffer)@.len() == old(buffer)@.len(),
        r is Ok <==> id_map_text(dest, source).len() <= old(buffer)@.len(),
        r matches Ok(n) ==> {
            &&& n == id_map_text(dest, source).len()
            &&& final(buffer)@.subrange(0, n as int) == id_map_text(dest, source)
        },
        r is Err ==> r == Err::<usize, PostSpawnGuest>(
            PostSpawnGuest::Other(PostSpawnGuestOther::BufferTooSmall),
        ),
{
    let space = literal(" ");
    let one = literal(" 1");
    let ghost text = decimal(dest as int) + space@ + decimal(source as int) + one@;
    assert(text == id_map_text(dest, source));
    let mut offset: usize = 0;
    if let Err(e) = write_integer(buffer, &mut offset, dest as i128) {
        return Err(e);
    }
    if let Err(e) = write_bytes(buffer, &mut offset, space.as_slice()) {
        return Err(e);
    }
    if let Err(e) = write_integer(buffer, &mut offset, source as i128) {
        return Err(e);
    }
    if let Err(e) = write_bytes(buffer, &mut offset, one.as_slice()) {
        return Err(e);
    }
    assert(buffer@.subrange(0, offset as int) =~= text);
    Ok(offset)
}

/// Formats an id mapping line into a fresh buffer of
/// [`id_map_buffer_size`] bytes, which every pair of ids fits.
fn id_map_line(dest: u32, source: u32) -> (line: Vec<u8>)
    ensures
        line@ == id_map_text(dest, source),
{
    let size = id_map_buffer_size();
    let mut buffer = vec![0u8; size];
    proof {
        lemma_u32_decimal_len(dest);
        lemma_u32_decimal_len(source);
        reveal_strlit(" ");
        reveal_strlit(" 1");
        lemma_ascii_bytes(" ");
        lemma_ascii_bytes(" 1");
    }
    let r = format_id_map(buffer.as_mut_slice(), dest, source);
    match r {
        Ok(n) => {
            let mut line: Vec<u8> = Vec::new();
            let mut i: usize = 0;
            while i < n
                invariant
                    i <= n <= buffer@.len(),
                    buffer@.subrange(0, n as int) == id_map_text(dest, source),
                    line@ == buffer@.subrange(0, i as int),
                decreases n - i,
            {
                line.push(buffer[i]);
                i = i + 1;
                assert(line@ =~= buffer@.subrange(0, i as int));
            }
            line
        },
        Err(_) => {
            assert(false);
            Vec::new()
        },
    }
}

/// The writes of a file list, each as its file and its bytes.
pub open spec fn id_map_writes_view(writes: Seq<(IdMapFile, Vec<u8>)>) -> Seq<(IdMapFile, Seq<u8>)> {
    writes.map_values(|w: (IdMapFile, Vec<u8>)| (w.0, w.1@))
}

/// The writes that set up a simple user namespace mapping, in order: the
/// line of `uid_map`, `deny` to `setgroups` when asked, and the line of
/// `gid_map`.
pub open spec fn simple_uid_gid_map_text(
    source_uid: Uid,
    source_gid: Gid,
    dest_uid: Uid,
    dest_gid: Gid,
    deny_setgroups: bool,
) -> Seq<(IdMapFile, Seq<u8>)> {
    seq![(IdMapFile::UidMap, id_map_text(dest_uid.spec_raw(), source_uid.spec_raw()))] + (
    if deny_setgroups {
        seq![(IdMapFile::Setgroups, "deny".spec_bytes())]
    } else {
        Seq::empty()
    }) + seq![(IdMapFile::GidMap, id_map_text(dest_gid.spec_raw(), source_gid.spec_raw()))]
}

/// The writes to `/proc/self` that map the caller's uid and gid into the
/// new user namespace. Every id fits the buffer, so formatting never fails.
pub fn simple_uid_gid_map_writes(
    source_uid: Uid,
    source_gid: Gid,
    dest_uid: Uid,
    dest_gid: Gid,
    deny_setgroups: bool,
) -> (writes: Vec<(IdMapFile, Vec<u8>)>)
    ensures
        id_map_writes_view(writes@) == simple_uid_gid_map_text(
            source_uid,
            source_gid,
            dest_uid,
            dest_gid,
            deny_setgroups,
        ),
{
    let mut writes: Vec<(IdMapFile, Vec<u8>)> = Vec::new();
    let uid_line = id_map_line(dest_uid.into_raw(), source_uid.into_raw());
    writes.push((IdMapFile::UidMap, uid_line));
    if deny_setgroups {
        writes.push((IdMapFile::Setgroups, literal("deny")));
    }
    let gid_line = id_map_line(dest_gid.into_raw(), source_gid.into_raw());
    writes.push((IdMapFile::GidMap, gid_line));
    assert(id_map_writes_view(writes@) =~= simple_uid_gid_map_text(
        source_uid,
        source_gid,
        dest_uid,
        dest_gid,
        deny_setgroups,
    ));
    writes
}

} // verus!
