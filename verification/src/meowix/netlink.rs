//! Route netlink messages that configure the loopback device, and the reading
//! of the kernel's acknowledgement.
//!
//! Messages are laid out in little-endian byte order, the order of the
//! targets this library runs on.

use super::errno::Errno;
use super::errors::Netlink;
use vstd::prelude::*;

verus! {

/// Size of `struct nlmsghdr`.
pub const NLMSGHDR_LEN: usize = 16;

/// Size of `struct nlmsgerr`: the error number and the offending header.
pub const NLMSGERR_LEN: usize = 20;

/// Size of `struct rtattr`.
pub const RTATTR_LEN: usize = 4;

/// `NLMSG_ERROR`.
pub const NLMSG_ERROR: u16 = 2;

/// `NLMSG_DONE`.
pub const NLMSG_DONE: u16 = 3;

/// `RTM_NEWLINK`.
pub const RTM_NEWLINK: u16 = 16;

/// `RTM_NEWADDR`.
pub const RTM_NEWADDR: u16 = 20;

/// `NLM_F_REQUEST | NLM_F_CREATE | NLM_F_EXCL | NLM_F_ACK`.
pub const NEWADDR_FLAGS: u16 = 0x605;

/// `NLM_F_REQUEST | NLM_F_ACK`.
pub const NEWLINK_FLAGS: u16 = 0x5;

/// The little-endian bytes of a 16-bit value.
pub open spec fn le16(v: u16) -> Seq<u8> {
    seq![(v % 256) as u8, (v / 256) as u8]
}

/// The little-endian bytes of a 32-bit value.
pub open spec fn le32(v: u32) -> Seq<u8> {
    seq![
        (v % 256) as u8,
        ((v / 256) % 256) as u8,
        ((v / 65536) % 256) as u8,
        (v / 16777216) as u8,
    ]
}

/// The 16-bit value stored little-endian at `at`.
pub open spec fn read_le16(buf: Seq<u8>, at: int) -> u16 {
    (buf[at] + buf[at + 1] * 256) as u16
}

/// The 32-bit value stored little-endian at `at`.
pub open spec fn read_le32(buf: Seq<u8>, at: int) -> u32 {
    (buf[at] + buf[at + 1] * 256 + buf[at + 2] * 65536 + buf[at + 3] * 16777216) as u32
}

/// The bytes of a `struct nlmsghdr`.
pub open spec fn nlmsghdr_bytes(len: u32, ty: u16, flags: u16, seq: u32, pid: u32) -> Seq<u8> {
    le32(len) + le16(ty) + le16(flags) + le32(seq) + le32(pid)
}

/// The bytes of a `struct rtattr` header.
pub open spec fn rtattr_bytes(len: u16, ty: u16) -> Seq<u8> {
    le16(len) + le16(ty)
}

/// Writes `bytes` at `offset` and advances it.
fn put(buffer: &mut [u8], offset: &mut usize, bytes: &[u8]) -> (r: Result<(), Netlink>)
    ensures
        final(buffer)@.len() == old(buffer)@.len(),
        r is Ok <==> *old(offset) + bytes@.len() <= old(buffer)@.len(),
        r is Ok ==> {
            &&& *final(offset) == *old(offset) + bytes@.len()
            &&& final(buffer)@ == old(buffer)@.subrange(0, *old(offset) as int) + bytes@
                + old(buffer)@.subrange(*old(offset) + bytes@.len(), old(buffer)@.len() as int)
        },
        r is Err ==> r == Err::<(), Netlink>(Netlink::BufferTooSmall) && *final(offset) == *old(offset)
            && final(buffer)@ == old(buffer)@,
{
    let start = *offset;
    let len = bytes.len();
    if start > buffer.len() || len > buffer.len() - start {
        return Err(Netlink::BufferTooSmall);
    }
    let end = start + len;
    let mut i: usize = 0;
    while i < len
        invariant
            start + len == end,
            end <= buffer@.len(),
            len == bytes@.len(),
            buffer@.len() == old(buffer)@.len(),
            i <= len,
            forall|j: int| 0 <= j < start ==> buffer@[j] == old(buffer)@[j],
            forall|j: int| end <= j < buffer@.len() ==> buffer@[j] == old(buffer)@[j],
            forall|j: int| 0 <= j < i ==> buffer@[start + j] == bytes@[j],
        decreases len - i,
    {
        buffer[start + i] = bytes[i];
        i = i + 1;
    }
    *offset = end;
    assert(buffer@ =~= old(buffer)@.subrange(0, start as int) + bytes@ + old(buffer)@.subrange(
        end as int,
        old(buffer)@.len() as int,
    ));
    Ok(())
}

/// The little-endian bytes of a 16-bit value.
fn bytes16(v: u16) -> (b: [u8; 2])
    ensures
        b@ == le16(v),
{
    [(v % 256) as u8, (v / 256) as u8]
}

/// The little-endian bytes of a 32-bit value.
fn bytes32(v: u32) -> (b: [u8; 4])
    ensures
        b@ == le32(v),
{
    [(v % 256) as u8, ((v / 256) % 256) as u8, ((v / 65536) % 256) as u8, (v / 16777216) as u8]
}

/// The offset rounded up to the next multiple of four.
pub open spec fn align4(n: int) -> int {
    if n % 4 == 0 {
        n
    } else {
        n + (4 - n % 4)
    }
}

/// Writes a route attribute at `offset`: its header, with the length of the
/// header and payload truncated to 16 bits, then the payload, and advances
/// the offset to the next multiple of four. The padding bytes are left as
/// they were.
///
/// # Errors
///
/// Fails with [`Netlink::BufferTooSmall`] when the header, the payload or
/// the padding does not fit the buffer.
pub fn write_attribute(buffer: &mut [u8], offset: &mut usize, ty: u16, payload: &[u8]) -> (r: Result<
    (),
    Netlink,
>)
    ensures
        final(buffer)@.len() == old(buffer)@.len(),
        r is Ok <==> align4(*old(offset) + RTATTR_LEN + payload@.len()) <= old(buffer)@.len(),
        r is Ok ==> {
            &&& *final(offset) == align4(*old(offset) + RTATTR_LEN + payload@.len())
            &&& final(buffer)@.subrange(*old(offset) as int, *old(offset) + RTATTR_LEN + payload@.len())
                == rtattr_bytes(((RTATTR_LEN + payload@.len()) % 65536) as u16, ty) + payload@
            &&& final(buffer)@.subrange(0, *old(offset) as int) == old(buffer)@.subrange(
                0,
                *old(offset) as int,
            )
            &&& final(buffer)@.subrange(
                *old(offset) + RTATTR_LEN + payload@.len(),
                old(buffer)@.len() as int,
            ) == old(buffer)@.subrange(
                *old(offset) + RTATTR_LEN + payload@.len(),
                old(buffer)@.len() as int,
            )
        },
        r is Err ==> r == Err::<(), Netlink>(Netlink::BufferTooSmall),
{
    let ghost start = *offset;
    let ghost before = buffer@;
    let payload16 = (payload.len() % 65536) as u16;
    let length16 = payload16.wrapping_add(RTATTR_LEN as u16);
    assert(length16 == ((RTATTR_LEN + payload@.len()) % 65536) as u16);
    let header = bytes16(length16);
    let kind = bytes16(ty);
    let r1 = put(buffer, offset, &header);
    if r1.is_err() {
        return r1;
    }
    let r2 = put(buffer, offset, &kind);
    if r2.is_err() {
        return r2;
    }
    let r3 = put(buffer, offset, payload);
    if r3.is_err() {
        return r3;
    }
    let end = *offset;
    let rem = end % 4;
    if rem != 0 {
        let pad = 4 - rem;
        if pad > buffer.len() || end > buffer.len() - pad {
            return Err(Netlink::BufferTooSmall);
        }
        *offset = end + pad;
    }
    proof {
        let text = rtattr_bytes(length16, ty) + payload@;
        assert(buffer@.subrange(start as int, end as int) =~= text);
        assert(buffer@.subrange(0, start as int) =~= before.subrange(0, start as int));
        assert(buffer@.subrange(end as int, buffer@.len() as int) =~= before.subrange(
            end as int,
            before.len() as int,
        ));
    }
    Ok(())
}

/// Writes the header of a netlink message at the start of `buffer` and
/// takes a sequence number for it: the message's length, type and flags,
/// the current sequence number and the port id `0`. Returns the sequence
/// number and the message's length.
///
/// # Errors
///
/// Fails with [`Netlink::BufferTooSmall`] when the header does not fit or
/// the message is longer than the buffer, and with
/// [`Netlink::IntegerOverflow`] when the sequence number is exhausted.
pub fn finish_netlink_message(
    buffer: &mut [u8],
    length: usize,
    ty: u16,
    flags: u16,
    sequence: &mut u32,
) -> (r: Result<(u32, usize), Netlink>)
    ensures
        final(buffer)@.len() == old(buffer)@.len(),
        old(buffer)@.len() < NLMSGHDR_LEN ==> r == Err::<(u32, usize), Netlink>(Netlink::BufferTooSmall)
            && *final(sequence) == *old(sequence),
        old(buffer)@.len() >= NLMSGHDR_LEN ==> final(buffer)@ == nlmsghdr_bytes(
            (length as int % 0x1_0000_0000int) as u32,
            ty,
            flags,
            *old(sequence),
            0,
        ) + old(buffer)@.subrange(NLMSGHDR_LEN as int, old(buffer)@.len() as int),
        old(buffer)@.len() >= NLMSGHDR_LEN && *old(sequence) == u32::MAX ==> r == Err::<
            (u32, usize),
            Netlink,
        >(Netlink::IntegerOverflow) && *final(sequence) == *old(sequence),
        old(buffer)@.len() >= NLMSGHDR_LEN && *old(sequence) < u32::MAX ==> {
            &&& *final(sequence) == *old(sequence) + 1
            &&& length <= old(buffer)@.len() ==> r == Ok::<(u32, usize), Netlink>(
                (*old(sequence), length),
            )
            &&& length > old(buffer)@.len() ==> r == Err::<(u32, usize), Netlink>(
                Netlink::BufferTooSmall,
            )
        },
{
    let ghost before = buffer@;
    let mut offset: usize = 0;
    let len32 = (length as u64 % 0x1_0000_0000) as u32;
    let a = bytes32(len32);
    let b = bytes16(ty);
    let c = bytes16(flags);
    let d = bytes32(*sequence);
    let e = bytes32(0);
    if buffer.len() < NLMSGHDR_LEN {
        return Err(Netlink::BufferTooSmall);
    }
    let _ = put(buffer, &mut offset, &a);
    let _ = put(buffer, &mut offset, &b);
    let _ = put(buffer, &mut offset, &c);
    let _ = put(buffer, &mut offset, &d);
    let _ = put(buffer, &mut offset, &e);
    proof {
        assert(buffer@ =~= nlmsghdr_bytes(len32, ty, flags, *old(sequence), 0) + before.subrange(
            NLMSGHDR_LEN as int,
            before.len() as int,
        ));
    }
    let old_sequence = *sequence;
    if old_sequence == u32::MAX {
        return Err(Netlink::IntegerOverflow);
    }
    *sequence = old_sequence + 1;
    if length > buffer.len() {
        return Err(Netlink::BufferTooSmall);
    }
    Ok((old_sequence, length))
}

/// The bytes of the request that gives the loopback device the address
/// `127.0.0.1/8`: an `RTM_NEWADDR` header asking for creation, exclusivity
/// and an acknowledgement, the `struct ifaddrmsg` (`AF_INET`, prefix length
/// 8, `IFA_F_PERMANENT`, host scope, the interface index), then the
/// `IFA_LOCAL` and `IFA_ADDRESS` attributes holding the address.
pub open spec fn add_loopback_address_bytes(index: u32, sequence: u32) -> Seq<u8> {
    nlmsghdr_bytes(40, RTM_NEWADDR, NEWADDR_FLAGS, sequence, 0) + seq![2u8, 8u8, 0x80u8, 254u8]
        + le32(index) + rtattr_bytes(8, 2) + seq![127u8, 0u8, 0u8, 1u8] + rtattr_bytes(8, 1) + seq![
        127u8,
        0u8,
        0u8,
        1u8,
    ]
}

/// The bytes of the request that brings the loopback device up: an
/// `RTM_NEWLINK` header asking for an acknowledgement, then the
/// `struct ifinfomsg` (`AF_UNSPEC`, the interface index, `IFF_UP` set in
/// both the flags and the change mask).
pub open spec fn bring_up_loopback_bytes(index: u32, sequence: u32) -> Seq<u8> {
    nlmsghdr_bytes(32, RTM_NEWLINK, NEWLINK_FLAGS, sequence, 0) + seq![0u8, 0u8] + le16(0) + le32(
        index,
    ) + le32(1) + le32(1)
}

/// Writes the request that gives the loopback device its address at the
/// start of `buffer`. Returns its sequence number and length.
///
/// # Errors
///
/// Fails with [`Netlink::BufferTooSmall`] when the buffer is shorter than
/// the message, and with [`Netlink::IntegerOverflow`] when the sequence
/// number is exhausted.
pub fn write_add_loopback_address(buffer: &mut [u8], index: u32, sequence: &mut u32) -> (r: Result<
    (u32, usize),
    Netlink,
>)
    ensures
        final(buffer)@.len() == old(buffer)@.len(),
        old(buffer)@.len() < 40 ==> r == Err::<(u32, usize), Netlink>(Netlink::BufferTooSmall)
            && *final(sequence) == *old(sequence),
        old(buffer)@.len() >= 40 && *old(sequence) == u32::MAX ==> r == Err::<(u32, usize), Netlink>(
            Netlink::IntegerOverflow,
        ) && *final(sequence) == *old(sequence),
        old(buffer)@.len() >= 40 && *old(sequence) < u32::MAX ==> {
            &&& r == Ok::<(u32, usize), Netlink>((*old(sequence), 40))
            &&& *final(sequence) == *old(sequence) + 1
            &&& final(buffer)@.subrange(0, 40) == add_loopback_address_bytes(index, *old(sequence))
        },
{
    let ghost s0 = *sequence;
    if buffer.len() < 40 {
        return Err(Netlink::BufferTooSmall);
    }
    let mut offset: usize = NLMSGHDR_LEN;
    let ifaddr: [u8; 4] = [2, 8, 0x80, 254];
    let idx = bytes32(index);
    let address: [u8; 4] = [127, 0, 0, 1];
    let _ = put(buffer, &mut offset, &ifaddr);
    let _ = put(buffer, &mut offset, &idx);
    let ghost after_ifaddr = buffer@;
    let _ = write_attribute(buffer, &mut offset, 2, &address);
    let ghost after_local = buffer@;
    let _ = write_attribute(buffer, &mut offset, 1, &address);
    assert(offset == 40);
    let ghost body = buffer@.subrange(16, 40);
    proof {
        assert(address@ =~= seq![127u8, 0u8, 0u8, 1u8]);
        assert(((RTATTR_LEN + 4) % 65536) as u16 == 8u16);
        assert(after_local.subrange(24, 32) == rtattr_bytes(8, 2) + address@);
        assert(buffer@.subrange(32, 40) == rtattr_bytes(8, 1) + address@);
        assert forall|j: int| 24 <= j < 32 implies buffer@[j] == after_local[j] by {
            assert(buffer@.subrange(0, 32)[j] == after_local.subrange(0, 32)[j]);
        }
        assert(after_ifaddr.subrange(16, 24) =~= seq![2u8, 8u8, 0x80u8, 254u8] + le32(index));
        assert(after_local.subrange(16, 24) =~= after_ifaddr.subrange(16, 24)) by {
            assert(after_local.subrange(0, 24) == after_ifaddr.subrange(0, 24));
            assert forall|j: int| 16 <= j < 24 implies after_local[j] == after_ifaddr[j] by {
                assert(after_local.subrange(0, 24)[j] == after_ifaddr.subrange(0, 24)[j]);
            }
        }
        assert(buffer@.subrange(16, 32) =~= after_local.subrange(16, 32)) by {
            assert(buffer@.subrange(0, 32) == after_local.subrange(0, 32));
            assert forall|j: int| 16 <= j < 32 implies buffer@[j] == after_local[j] by {
                assert(buffer@.subrange(0, 32)[j] == after_local.subrange(0, 32)[j]);
            }
        }
        let p1 = seq![2u8, 8u8, 0x80u8, 254u8] + le32(index);
        let p2 = rtattr_bytes(8, 2) + address@;
        let p3 = rtattr_bytes(8, 1) + address@;
        assert forall|j: int| 0 <= j < 24 implies #[trigger] body[j] == (p1 + p2 + p3)[j] by {
            if j < 8 {
                assert(buffer@.subrange(16, 32)[j] == after_local.subrange(16, 32)[j]);
                assert(buffer@[16 + j] == after_local[16 + j]);
                assert(after_local.subrange(16, 24)[j] == after_ifaddr.subrange(16, 24)[j]);
            } else if j < 16 {
                assert(buffer@.subrange(16, 32)[j] == after_local.subrange(16, 32)[j]);
                assert(buffer@[16 + j] == after_local[16 + j]);
                assert(after_local.subrange(24, 32)[j - 8] == p2[j - 8]);
            } else {
                assert(buffer@.subrange(32, 40)[j - 16] == p3[j - 16]);
            }
        }
        assert(body =~= p1 + p2 + p3);
    }
    let r = finish_netlink_message(buffer, offset, RTM_NEWADDR, NEWADDR_FLAGS, sequence);
    proof {
        if r is Ok {
            assert(buffer@.subrange(0, 40) =~= add_loopback_address_bytes(index, s0));
        }
    }
    r
}

/// Writes the request that brings the loopback device up at the start of
/// `buffer`. Returns its sequence number and length.
///
/// # Errors
///
/// Fails with [`Netlink::BufferTooSmall`] when the buffer is shorter than
/// the message, and with [`Netlink::IntegerOverflow`] when the sequence
/// number is exhausted.
pub fn write_bring_up_loopback_device(
    buffer: &mut [u8],
    index: u32,
    sequence: &mut u32,
) -> (r: Result<(u32, usize), Netlink>)
    ensures
        final(buffer)@.len() == old(buffer)@.len(),
        old(buffer)@.len() < 32 ==> r == Err::<(u32, usize), Netlink>(Netlink::BufferTooSmall)
            && *final(sequence) == *old(sequence),
        old(buffer)@.len() >= 32 && *old(sequence) == u32::MAX ==> r == Err::<(u32, usize), Netlink>(
            Netlink::IntegerOverflow,
        ) && *final(sequence) == *old(sequence),
        old(buffer)@.len() >= 32 && *old(sequence) < u32::MAX ==> {
            &&& r == Ok::<(u32, usize), Netlink>((*old(sequence), 32))
            &&& *final(sequence) == *old(sequence) + 1
            &&& final(buffer)@.subrange(0, 32) == bring_up_loopback_bytes(index, *old(sequence))
        },
{
    let ghost s0 = *sequence;
    if buffer.len() < 32 {
        return Err(Netlink::BufferTooSmall);
    }
    let mut offset: usize = NLMSGHDR_LEN;
    let family: [u8; 2] = [0, 0];
    let kind = bytes16(0);
    let idx = bytes32(index);
    let up = bytes32(1);
    let _ = put(buffer, &mut offset, &family);
    let _ = put(buffer, &mut offset, &kind);
    let _ = put(buffer, &mut offset, &idx);
    let _ = put(buffer, &mut offset, &up);
    let _ = put(buffer, &mut offset, &up);
    proof {
        assert(buffer@.subrange(16, 32) =~= seq![0u8, 0u8] + le16(0) + le32(index) + le32(1) + le32(
            1,
        ));
    }
    let r = finish_netlink_message(buffer, offset, RTM_NEWLINK, NEWLINK_FLAGS, sequence);
    proof {
        if r is Ok {
            assert(buffer@.subrange(0, 32) =~= bring_up_loopback_bytes(index, s0));
        }
    }
    r
}

/// How reading an acknowledgement goes on from the message at `offset` of
/// the first `n` bytes received: `None` when no whole header is left and
/// more must be received, otherwise the answer. A message must be at least a
/// header long, lie within what was received and carry the request's
/// sequence number; an error message answers with its error number, zero
/// meaning success; a done message answers success; other messages are
/// skipped, rounded up to four bytes.
pub open spec fn ack_outcome(buf: Seq<u8>, n: int, sequence: u32, offset: int) -> Option<
    Result<(), Netlink>,
>
    decreases (if offset < n {
        n - offset
    } else {
        0
    }),
{
    if offset < 0 || offset + NLMSGHDR_LEN > n {
        None
    } else {
        let length = read_le32(buf, offset) as int;
        let ty = read_le16(buf, offset + 4);
        let seq = read_le32(buf, offset + 8);
        if length < NLMSGHDR_LEN {
            Some(Err(Netlink::MalformedHeader))
        } else if offset + length > n {
            Some(Err(Netlink::TruncatedMessage))
        } else if seq != sequence {
            Some(Err(Netlink::SequenceMismatch))
        } else if ty == NLMSG_ERROR {
            if NLMSGHDR_LEN + NLMSGERR_LEN > length {
                Some(Err(Netlink::IncorrectSize))
            } else {
                let error = read_le32(buf, offset + NLMSGHDR_LEN as int) as i32;
                if error == 0 {
                    Some(Ok(()))
                } else {
                    Some(Err(Netlink::Errno(Errno::spec_from_raw(-(error as int)))))
                }
            }
        } else if ty == NLMSG_DONE {
            Some(Ok(()))
        } else if align4(length) > usize::MAX || offset + align4(length) > usize::MAX {
            Some(Err(Netlink::IntegerOverflow))
        } else {
            ack_outcome(buf, n, sequence, offset + align4(length))
        }
    }
}

/// Reads a 16-bit little-endian value.
fn get16(buf: &[u8], at: usize) -> (v: u16)
    requires
        at + 2 <= buf@.len(),
    ensures
        v == read_le16(buf@, at as int),
{
    buf[at] as u16 + buf[at + 1] as u16 * 256
}

/// Reads a 32-bit little-endian value.
fn get32(buf: &[u8], at: usize) -> (v: u32)
    requires
        at + 4 <= buf@.len(),
    ensures
        v == read_le32(buf@, at as int),
{
    buf[at] as u32 + buf[at + 1] as u32 * 256 + buf[at + 2] as u32 * 65536 + buf[at + 3] as u32
        * 16777216
}

/// Reads the answer to a request from the first `n_read` bytes received:
/// `None` when it is not among them and more must be received.
pub fn parse_ack(buffer: &[u8], n_read: usize, sequence: u32) -> (r: Option<Result<(), Netlink>>)
    requires
        n_read <= buffer@.len(),
    ensures
        r == ack_outcome(buffer@, n_read as int, sequence, 0),
{
    let mut offset: usize = 0;
    loop
        invariant
            n_read <= buffer@.len(),
            ack_outcome(buffer@, n_read as int, sequence, offset as int) == ack_outcome(
                buffer@,
                n_read as int,
                sequence,
                0,
            ),
        decreases (if offset < n_read {
            n_read - offset
        } else {
            0
        }),
    {
        if offset > n_read || n_read - offset < NLMSGHDR_LEN {
            return None;
        }
        let length32 = get32(buffer, offset);
        let ty = get16(buffer, offset + 4);
        let seq = get32(buffer, offset + 8);
        if (length32 as u64) < (NLMSGHDR_LEN as u64) {
            return Some(Err(Netlink::MalformedHeader));
        }
        if (length32 as u64) > ((n_read - offset) as u64) {
            return Some(Err(Netlink::TruncatedMessage));
        }
        let length = length32 as usize;
        if seq != sequence {
            return Some(Err(Netlink::SequenceMismatch));
        }
        if ty == NLMSG_ERROR {
            if NLMSGHDR_LEN + NLMSGERR_LEN > length {
                return Some(Err(Netlink::IncorrectSize));
            }
            let error = get32(buffer, offset + NLMSGHDR_LEN) as i32;
            if error == 0 {
                return Some(Ok(()));
            }
            let raw: i32 = if error == i32::MIN {
                i32::MIN
            } else {
                -error
            };
            proof {
                super::errno::lemma_errno_of_min();
            }
            return Some(Err(Netlink::Errno(Errno::from_raw_os_error(raw))));
        }
        if ty == NLMSG_DONE {
            return Some(Ok(()));
        }
        let rem = length % 4;
        let pad: usize = if rem == 0 {
            0
        } else {
            4 - rem
        };
        if length > usize::MAX - pad {
            return Some(Err(Netlink::IntegerOverflow));
        }
        let aligned = length + pad;
        if offset > usize::MAX - aligned {
            return Some(Err(Netlink::IntegerOverflow));
        }
        offset = offset + aligned;
    }
}

} // verus!
