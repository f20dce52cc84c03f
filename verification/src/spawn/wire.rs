//! Wire error type used to communicate with the host process from the guest.

use super::errors::{guest_error_of_code, other_code, PostSpawnGuest, PostSpawnGuestOther};
use crate::meowix::errno::{lemma_errno_from_own_raw, lemma_errno_raw_bounds, Errno};
use crate::meowix::errors::{
    lemma_syscall_code_roundtrip, syscall_code, syscall_of_code, Netlink, SyscallError,
};
use vstd::prelude::*;

verus! {

/// Simplified post-spawn guest error type for the wire format.
///
/// On the wire it is the packed sequence `tag`, `subtag`, `value`.
#[derive(PartialEq, Eq, Structural, Copy, Clone, Debug)]
pub struct PostSpawnGuestWire {
    /// Which of the enum variants this corresponds to.
    pub tag: u8,

    /// If `tag` referred to a variant which contains another enum, which
    /// variant of that enum this corresponds to.
    pub subtag: u8,

    /// If `tag` or `subtag` referred to a variant which contains a value, the
    /// value contained within that variant.
    pub value: i32,
}

/// The wire form of a netlink error: its subtag and value.
pub open spec fn netlink_wire(e: Netlink) -> (u8, i32) {
    match e {
        Netlink::MalformedHeader => (0, 1),
        Netlink::TruncatedMessage => (0, 2),
        Netlink::SequenceMismatch => (0, 3),
        Netlink::IncorrectSize => (0, 4),
        Netlink::BufferTooSmall => (0, 5),
        Netlink::IntegerOverflow => (0, 6),
        Netlink::IncompleteWrite => (0, 7),
        Netlink::Errno(error) => (255, error.spec_raw() as i32),
        Netlink::Syscall(error) => (syscall_code(error.syscall), error.error.spec_raw() as i32),
    }
}

/// The wire form of the outcome of the guest's setup.
pub open spec fn wire_of(outcome: Result<(), PostSpawnGuest>) -> PostSpawnGuestWire {
    match outcome {
        Ok(()) => PostSpawnGuestWire { tag: 255, subtag: 0, value: 0 },
        Err(PostSpawnGuest::Syscall(error)) => PostSpawnGuestWire {
            tag: 254,
            subtag: syscall_code(error.syscall),
            value: error.error.spec_raw() as i32,
        },
        Err(PostSpawnGuest::Netlink(error)) => PostSpawnGuestWire {
            tag: 253,
            subtag: netlink_wire(error).0,
            value: netlink_wire(error).1,
        },
        Err(PostSpawnGuest::IncompleteWrite) => PostSpawnGuestWire { tag: 252, subtag: 0, value: 0 },
        Err(PostSpawnGuest::CStrBufferTooSmall) => PostSpawnGuestWire {
            tag: 251,
            subtag: 0,
            value: 0,
        },
        Err(PostSpawnGuest::FromBytesWithNulError) => PostSpawnGuestWire {
            tag: 250,
            subtag: 0,
            value: 0,
        },
        Err(PostSpawnGuest::InvalidWireFormat) => PostSpawnGuestWire {
            tag: 249,
            subtag: 0,
            value: 0,
        },
        Err(PostSpawnGuest::Other(e)) => PostSpawnGuestWire { tag: other_code(e), subtag: 0, value: 0 },
    }
}

/// The guest error that the host reads a wire value as.
pub open spec fn guest_of_wire(w: PostSpawnGuestWire) -> PostSpawnGuest {
    if w.tag == 254 {
        PostSpawnGuest::Syscall(
            SyscallError {
                syscall: syscall_of_code(w.subtag),
                error: Errno::spec_from_raw(w.value as int),
            },
        )
    } else if w.tag == 253 {
        if w.subtag == 0 {
            if w.value == 1 {
                PostSpawnGuest::Netlink(Netlink::MalformedHeader)
            } else if w.value == 2 {
                PostSpawnGuest::Netlink(Netlink::TruncatedMessage)
            } else if w.value == 3 {
                PostSpawnGuest::Netlink(Netlink::SequenceMismatch)
            } else if w.value == 4 {
                PostSpawnGuest::Netlink(Netlink::IncorrectSize)
            } else if w.value == 5 {
                PostSpawnGuest::Netlink(Netlink::BufferTooSmall)
            } else if w.value == 6 {
                PostSpawnGuest::Netlink(Netlink::IntegerOverflow)
            } else if w.value == 7 {
                PostSpawnGuest::Netlink(Netlink::IncompleteWrite)
            } else {
                PostSpawnGuest::InvalidWireFormat
            }
        } else if w.subtag == 255 {
            PostSpawnGuest::Netlink(Netlink::Errno(Errno::spec_from_raw(w.value as int)))
        } else {
            PostSpawnGuest::Netlink(
                Netlink::Syscall(
                    SyscallError {
                        syscall: syscall_of_code(w.subtag),
                        error: Errno::spec_from_raw(w.value as int),
                    },
                ),
            )
        }
    } else if w.tag == 252 {
        PostSpawnGuest::IncompleteWrite
    } else if w.tag == 251 {
        PostSpawnGuest::CStrBufferTooSmall
    } else if w.tag == 250 {
        PostSpawnGuest::FromBytesWithNulError
    } else {
        guest_error_of_code(w.tag)
    }
}

impl From<Result<(), PostSpawnGuest>> for PostSpawnGuestWire {
    fn from(value: Result<(), PostSpawnGuest>) -> (w: Self) {
        match value {
            Ok(()) => PostSpawnGuestWire { tag: 255, subtag: 0, value: 0 },
            Err(PostSpawnGuest::Syscall(error)) => PostSpawnGuestWire {
                tag: 254,
                subtag: error.syscall().into_u8(),
                value: error.error().raw_os_error(),
            },
            Err(PostSpawnGuest::Netlink(netlink_error)) => {
                let (subtag, value): (u8, i32) = match netlink_error {
                    Netlink::MalformedHeader => (0, 1),
                    Netlink::TruncatedMessage => (0, 2),
                    Netlink::SequenceMismatch => (0, 3),
                    Netlink::IncorrectSize => (0, 4),
                    Netlink::BufferTooSmall => (0, 5),
                    Netlink::IntegerOverflow => (0, 6),
                    Netlink::IncompleteWrite => (0, 7),
                    Netlink::Errno(error) => (255, error.raw_os_error()),
                    Netlink::Syscall(error) => (
                        error.syscall().into_u8(),
                        error.error().raw_os_error(),
                    ),
                };
                PostSpawnGuestWire { tag: 253, subtag, value }
            },
            Err(PostSpawnGuest::IncompleteWrite) => PostSpawnGuestWire {
                tag: 252,
                subtag: 0,
                value: 0,
            },
            Err(PostSpawnGuest::CStrBufferTooSmall) => PostSpawnGuestWire {
                tag: 251,
                subtag: 0,
                value: 0,
            },
            Err(PostSpawnGuest::FromBytesWithNulError) => PostSpawnGuestWire {
                tag: 250,
                subtag: 0,
                value: 0,
            },
            Err(PostSpawnGuest::InvalidWireFormat) => PostSpawnGuestWire {
                tag: 249,
                subtag: 0,
                value: 0,
            },
            Err(PostSpawnGuest::Other(e)) => PostSpawnGuestWire {
                tag: e.into_u8(),
                subtag: 0,
                value: 0,
            },
        }
    }
}

impl vstd::std_specs::convert::FromSpecImpl<Result<(), PostSpawnGuest>> for PostSpawnGuestWire {
    open spec fn obeys_from_spec() -> bool {
        true
    }

    open spec fn from_spec(value: Result<(), PostSpawnGuest>) -> Self {
        wire_of(value)
    }
}

impl From<PostSpawnGuestWire> for PostSpawnGuest {
    fn from(w: PostSpawnGuestWire) -> (decoded: Self) {
    let PostSpawnGuestWire { tag, subtag, value } = w;
    if tag == 254 {
        PostSpawnGuest::Syscall(SyscallError::new(subtag.into(), Errno::from_raw_os_error(value)))
    } else if tag == 253 {
        if subtag == 0 {
            PostSpawnGuest::Netlink(
                match value {
                    1 => Netlink::MalformedHeader,
                    2 => Netlink::TruncatedMessage,
                    3 => Netlink::SequenceMismatch,
                    4 => Netlink::IncorrectSize,
                    5 => Netlink::BufferTooSmall,
                    6 => Netlink::IntegerOverflow,
                    7 => Netlink::IncompleteWrite,
                    _ => return PostSpawnGuest::InvalidWireFormat,
                },
            )
        } else if subtag == 255 {
            PostSpawnGuest::Netlink(Netlink::Errno(Errno::from_raw_os_error(value)))
        } else {
            PostSpawnGuest::Netlink(
                Netlink::Syscall(SyscallError::new(subtag.into(), Errno::from_raw_os_error(value))),
            )
        }
    } else if tag == 252 {
        PostSpawnGuest::IncompleteWrite
    } else if tag == 251 {
        PostSpawnGuest::CStrBufferTooSmall
    } else if tag == 250 {
        PostSpawnGuest::FromBytesWithNulError
    } else {
        tag.into()
    }
}
}

impl vstd::std_specs::convert::FromSpecImpl<PostSpawnGuestWire> for PostSpawnGuest {
    open spec fn obeys_from_spec() -> bool {
        true
    }

    open spec fn from_spec(w: PostSpawnGuestWire) -> Self {
        guest_of_wire(w)
    }
}

/// Whether a netlink error keeps its identity on the wire: a netlink
/// syscall error whose syscall is numbered 0 or 255 shares its subtag with
/// the plain netlink errors or with the errno values, and is read back as
/// one of those.
pub open spec fn netlink_survives_wire(e: Netlink) -> bool {
    match e {
        Netlink::Syscall(error) => syscall_code(error.syscall) != 0 && syscall_code(error.syscall)
            != 255,
        _ => true,
    }
}

/// Whether a guest error keeps its identity on the wire.
pub open spec fn survives_wire(e: PostSpawnGuest) -> bool {
    match e {
        PostSpawnGuest::Netlink(n) => netlink_survives_wire(n),
        _ => true,
    }
}

/// The error the guest reports is the error the host reads back, for every
/// error whose netlink syscall, if any, has a subtag of its own.
pub proof fn lemma_wire_roundtrip(e: PostSpawnGuest)
    requires
        survives_wire(e),
    ensures
        guest_of_wire(wire_of(Err(e))) == e,
{
    match e {
        PostSpawnGuest::Syscall(error) => {
            lemma_syscall_code_roundtrip(error.syscall);
            lemma_errno_from_own_raw(error.error);
            lemma_errno_raw_bounds(error.error);
        },
        PostSpawnGuest::Netlink(n) => {
            match n {
                Netlink::Errno(error) => {
                    lemma_errno_from_own_raw(error);
                    lemma_errno_raw_bounds(error);
                },
                Netlink::Syscall(error) => {
                    lemma_syscall_code_roundtrip(error.syscall);
                    lemma_errno_from_own_raw(error.error);
                    lemma_errno_raw_bounds(error.error);
                },
                _ => {},
            }
        },
        _ => {},
    }
}

} // verus!
