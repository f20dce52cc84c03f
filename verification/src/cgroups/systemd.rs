//! Decisions of the systemd backend: the name of the transient scope unit,
//! the controllers delegated to the settings cgroup and the handshake with
//! the guest.

use super::policy::{CgroupControllers, Policy};
use crate::spawn::errors::{PostSpawnGuest, PostSpawnGuestOther};
use crate::text::{append_bytes, lemma_ascii_bytes, literal, push_text, texts_view};
use vstd::prelude::*;
use vstd::string::StringSliceAdditionalSpecFns;

verus! {

/// The lowercase hexadecimal digit of a value below 16.
pub open spec fn hex_digit(n: int) -> u8 {
    if n < 10 {
        (48 + n) as u8
    } else {
        (87 + n) as u8
    }
}

/// The two lowercase hexadecimal digits of a byte, high nibble first.
pub open spec fn byte_hex(b: u8) -> Seq<u8> {
    seq![hex_digit(b as int / 16), hex_digit(b as int % 16)]
}

/// The hexadecimal digits of the bytes `from..to`, in order.
pub open spec fn hex_of(bytes: Seq<u8>, from: int, to: int) -> Seq<u8>
    decreases to - from,
{
    if from >= to {
        Seq::empty()
    } else {
        byte_hex(bytes[from]) + hex_of(bytes, from + 1, to)
    }
}

/// The hyphenated lowercase text of the 16 bytes of a UUID: 8, 4, 4, 4 and
/// 12 digits, joined by hyphens.
pub open spec fn hyphenated_text(bytes: Seq<u8>) -> Seq<u8> {
    hex_of(bytes, 0, 4) + seq![45u8] + hex_of(bytes, 4, 6) + seq![45u8] + hex_of(bytes, 6, 8)
        + seq![45u8] + hex_of(bytes, 8, 10) + seq![45u8] + hex_of(bytes, 10, 16)
}

/// The bytes of the version 4 UUID made from 16 random bytes: the version
/// nibble of byte 6 set to 4 and the variant bits of byte 8 set to `10`.
pub open spec fn v4_bytes(random: Seq<u8>) -> Seq<u8> {
    random.update(6, (random[6] & 0x0f) | 0x40).update(8, (random[8] & 0x3f) | 0x80)
}

proof fn lemma_hex_of_len(bytes: Seq<u8>, from: int, to: int)
    requires
        from <= to,
    ensures
        hex_of(bytes, from, to).len() == 2 * (to - from),
    decreases to - from,
{
    if from < to {
        lemma_hex_of_len(bytes, from + 1, to);
    }
}

/// The text of a version 4 UUID: 36 characters with hyphens at 8, 13, 18
/// and 23, the version digit `4` at 14, a variant digit of `8`, `9`, `a` or
/// `b` at 19, and every other character a lowercase hexadecimal digit.
pub proof fn lemma_uuid_v4_text_form(random: Seq<u8>)
    requires
        random.len() == 16,
    ensures
        hyphenated_text(v4_bytes(random)).len() == 36,
        hyphenated_text(v4_bytes(random))[8] == 45u8,
        hyphenated_text(v4_bytes(random))[13] == 45u8,
        hyphenated_text(v4_bytes(random))[18] == 45u8,
        hyphenated_text(v4_bytes(random))[23] == 45u8,
        hyphenated_text(v4_bytes(random))[14] == 52u8,
        hyphenated_text(v4_bytes(random))[19] == 56u8 || hyphenated_text(v4_bytes(random))[19] == 57u8
            || hyphenated_text(v4_bytes(random))[19] == 97u8 || hyphenated_text(v4_bytes(random))[19]
            == 98u8,
{
    let b = v4_bytes(random);
    lemma_hex_of_len(b, 0, 4);
    lemma_hex_of_len(b, 4, 6);
    lemma_hex_of_len(b, 6, 8);
    lemma_hex_of_len(b, 8, 10);
    lemma_hex_of_len(b, 10, 16);
    let b6 = random[6];
    let b8 = random[8];
    assert(((b6 & 0x0f) | 0x40) / 16 == 4) by (bit_vector);
    assert(((b8 & 0x3f) | 0x80) / 16 >= 8 && ((b8 & 0x3f) | 0x80) / 16 <= 11) by (bit_vector);
    assert(b[6] == (b6 & 0x0f) | 0x40);
    assert(b[8] == (b8 & 0x3f) | 0x80);
    assert(hex_of(b, 6, 8) == byte_hex(b[6]) + hex_of(b, 7, 8));
    assert(hex_of(b, 8, 10) == byte_hex(b[8]) + hex_of(b, 9, 10));
    let t = hyphenated_text(b);
    assert(t[14] == hex_of(b, 6, 8)[0]);
    assert(t[19] == hex_of(b, 8, 10)[0]);
}

/// The name of every transient scope unit is `bubblebox-`, the UUID text and
/// `.scope`.
pub proof fn lemma_scope_unit_name_form(id: Seq<u8>)
    ensures
        scope_unit_name_text(id).subrange(0, 10) == "bubblebox-".spec_bytes(),
        scope_unit_name_text(id).subrange(10, 10 + id.len() as int) == id,
        scope_unit_name_text(id).subrange(10 + id.len() as int, 16 + id.len() as int) == ".scope".spec_bytes(),
        scope_unit_name_text(id).len() == 16 + id.len(),
{
    reveal_strlit("bubblebox-");
    reveal_strlit(".scope");
    lemma_ascii_bytes("bubblebox-");
    lemma_ascii_bytes(".scope");
    let n = scope_unit_name_text(id);
    assert(n.subrange(0, 10) =~= "bubblebox-".spec_bytes());
    assert(n.subrange(10, 10 + id.len() as int) =~= id);
    assert(n.subrange(10 + id.len() as int, 16 + id.len() as int) =~= ".scope".spec_bytes());
}

/// Formats the version 4 UUID made from the given random bytes.
///
/// Calls `uuid::Builder::from_random_bytes`, which sets the version and
/// variant bits as `v4_bytes` states, then `into_uuid` and the `Display`
/// impl, which writes the hyphenated lowercase form as `hyphenated_text`
/// states.
#[verifier::external_body]
fn uuid_v4_text(random: [u8; 16]) -> (text: Vec<u8>)
    ensures
        text@ == hyphenated_text(v4_bytes(random@)),
{
    uuid::Builder::from_random_bytes(random).into_uuid().to_string().into_bytes()
}

/// The name of the transient scope unit for the given UUID text.
pub open spec fn scope_unit_name_text(id: Seq<u8>) -> Seq<u8> {
    "bubblebox-".spec_bytes() + id + ".scope".spec_bytes()
}

/// Formats the name of the transient scope unit: `bubblebox-`, the id and
/// `.scope`.
pub fn scope_unit_name(id: &[u8]) -> (name: Vec<u8>)
    ensures
        name@ == scope_unit_name_text(id@),
{
    let mut name = literal("bubblebox-");
    append_bytes(&mut name, id);
    let suffix = literal(".scope");
    append_bytes(&mut name, suffix.as_slice());
    name
}

/// The name of the transient scope unit for the version 4 UUID made from
/// the given random bytes.
pub fn new_scope_unit_name(random: [u8; 16]) -> (name: Vec<u8>)
    ensures
        name@ == scope_unit_name_text(hyphenated_text(v4_bytes(random@))),
{
    let id = uuid_v4_text(random);
    scope_unit_name(id.as_slice())
}

/// The path of the unit's control group relative to the cgroup mount: the
/// path systemd reports, without its leading `/` when it has one.
pub open spec fn relative_cgroup_path_text(path: Seq<u8>) -> Seq<u8> {
    if path.len() > 0 && path[0] == 47u8 {
        path.subrange(1, path.len() as int)
    } else {
        path
    }
}

/// Strips the leading `/` from the control group path systemd reports.
pub fn relative_cgroup_path(path: &[u8]) -> (relative: Vec<u8>)
    ensures
        relative@ == relative_cgroup_path_text(path@),
{
    let mut relative: Vec<u8> = Vec::new();
    let start: usize = if path.len() > 0 && path[0] == 47u8 {
        1
    } else {
        0
    };
    let mut i = start;
    while i < path.len()
        invariant
            start <= i <= path@.len(),
            start == (if path@.len() > 0 && path@[0] == 47u8 {
                1int
            } else {
                0int
            }),
            relative@ == path@.subrange(start as int, i as int),
        decreases path@.len() - i,
    {
        relative.push(path[i]);
        i = i + 1;
        assert(relative@ =~= path@.subrange(start as int, i as int));
    }
    assert(path@.subrange(0, path@.len() as int) =~= path@);
    relative
}

/// The controllers delegated from the unit's cgroup to the settings cgroup:
/// each controller that the policy enables and the unit's cgroup offers, as
/// the line written to `cgroup.subtree_control`, in the order cpu, memory,
/// io, pids. A requested controller that is not offered is left for the
/// policy to report.
pub open spec fn delegation_text(policy: Policy, parent: CgroupControllers) -> Seq<Seq<u8>> {
    (if policy.cpu is Some && parent.cpu {
        seq!["+cpu".spec_bytes()]
    } else {
        Seq::empty()
    }) + (if policy.memory is Some && parent.memory {
        seq!["+memory".spec_bytes()]
    } else {
        Seq::empty()
    }) + (if policy.io is Some && parent.io {
        seq!["+io".spec_bytes()]
    } else {
        Seq::empty()
    }) + (if policy.pids is Some && parent.pids {
        seq!["+pids".spec_bytes()]
    } else {
        Seq::empty()
    })
}

/// A line that is present when a condition holds.
pub open spec fn line_when(set: bool, line: Seq<u8>) -> Seq<Seq<u8>> {
    if set {
        seq![line]
    } else {
        Seq::empty()
    }
}

proof fn lemma_line_when_contains(set: bool, line: Seq<u8>, x: Seq<u8>)
    ensures
        line_when(set, line).contains(x) <==> set && x == line,
{
    if set && x == line {
        assert(line_when(set, line)[0] == x);
    }
}

/// Each controller is delegated, by its own `+name` line, exactly when the
/// policy configures it and the unit's cgroup offers it, whatever the other
/// controllers are.
pub proof fn lemma_delegation_per_controller(policy: Policy, parent: CgroupControllers)
    ensures
        delegation_text(policy, parent).contains("+cpu".spec_bytes()) <==> (policy.cpu is Some
            && parent.cpu),
        delegation_text(policy, parent).contains("+memory".spec_bytes()) <==> (policy.memory is Some
            && parent.memory),
        delegation_text(policy, parent).contains("+io".spec_bytes()) <==> (policy.io is Some
            && parent.io),
        delegation_text(policy, parent).contains("+pids".spec_bytes()) <==> (policy.pids is Some
            && parent.pids),
{
    broadcast use vstd::seq_lib::lemma_seq_concat_contains_all_elements;

    reveal_strlit("+cpu");
    reveal_strlit("+memory");
    reveal_strlit("+io");
    reveal_strlit("+pids");
    lemma_ascii_bytes("+cpu");
    lemma_ascii_bytes("+memory");
    lemma_ascii_bytes("+io");
    lemma_ascii_bytes("+pids");
    let cpu = "+cpu".spec_bytes();
    let memory = "+memory".spec_bytes();
    let io = "+io".spec_bytes();
    let pids = "+pids".spec_bytes();
    assert(cpu.len() == 4 && memory.len() == 7 && io.len() == 3 && pids.len() == 5);
    let a = line_when(policy.cpu is Some && parent.cpu, cpu);
    let b = line_when(policy.memory is Some && parent.memory, memory);
    let c = line_when(policy.io is Some && parent.io, io);
    let d = line_when(policy.pids is Some && parent.pids, pids);
    assert(delegation_text(policy, parent) == a + b + c + d);
    let lines = seq![cpu, memory, io, pids];
    assert forall|k: int| 0 <= k < 4 implies {
        let x = #[trigger] lines[k];
        &&& a.contains(x) <==> (policy.cpu is Some && parent.cpu && x == cpu)
        &&& b.contains(x) <==> (policy.memory is Some && parent.memory && x == memory)
        &&& c.contains(x) <==> (policy.io is Some && parent.io && x == io)
        &&& d.contains(x) <==> (policy.pids is Some && parent.pids && x == pids)
    } by {
        lemma_line_when_contains(policy.cpu is Some && parent.cpu, cpu, lines[k]);
        lemma_line_when_contains(policy.memory is Some && parent.memory, memory, lines[k]);
        lemma_line_when_contains(policy.io is Some && parent.io, io, lines[k]);
        lemma_line_when_contains(policy.pids is Some && parent.pids, pids, lines[k]);
    }
    assert(lines[0] == cpu && lines[1] == memory && lines[2] == io && lines[3] == pids);
}

/// The writes to the unit cgroup's `cgroup.subtree_control` that delegate the
/// policy's controllers to the settings cgroup.
pub fn delegation_writes(policy: &Policy, parent: &CgroupControllers) -> (lines: Vec<Vec<u8>>)
    ensures
        texts_view(lines@) == delegation_text(*policy, *parent),
{
    let mut lines: Vec<Vec<u8>> = Vec::new();
    if policy.cpu.is_some() && parent.cpu {
        push_text(&mut lines, literal("+cpu"));
    }
    if policy.memory.is_some() && parent.memory {
        push_text(&mut lines, literal("+memory"));
    }
    if policy.io.is_some() && parent.io {
        push_text(&mut lines, literal("+io"));
    }
    if policy.pids.is_some() && parent.pids {
        push_text(&mut lines, literal("+pids"));
    }
    assert(texts_view(lines@) =~= delegation_text(*policy, *parent));
    lines
}

/// The guest's side of the handshake: the host signals through an eventfd
/// that the cgroup is ready; a zero counter means it is not.
pub fn check_cgroup_ready(counter: u64) -> (r: Result<(), PostSpawnGuest>)
    ensures
        counter == 0 ==> r == Err::<(), PostSpawnGuest>(
            PostSpawnGuest::Other(PostSpawnGuestOther::InvalidCgroupsState),
        ),
        counter != 0 ==> r is Ok,
{
    if counter == 0 {
        Err(PostSpawnGuest::Other(PostSpawnGuestOther::InvalidCgroupsState))
    } else {
        Ok(())
    }
}

} // verus!
