//! `errno(3)` values, stored negated in sixteen bits.

use vstd::prelude::*;

verus! {

/// The sixteen-bit pattern that stores the OS error number `raw`: the
/// negation of `raw`, taken modulo 2^16.
pub open spec fn errno_bits(raw: int) -> int {
    (-raw) % 65536
}

/// The two's-complement value of a sixteen-bit pattern.
pub open spec fn signed16(bits: int) -> int {
    if bits < 32768 {
        bits
    } else {
        bits - 65536
    }
}

/// Error value.
///
/// The OS error number is stored negated, as a sixteen-bit pattern.
#[derive(PartialEq, Eq, Structural, Copy, Clone, Debug, Hash)]
pub struct Errno(pub(crate) u16);

impl Errno {
    /// The stored sixteen-bit pattern.
    pub closed spec fn spec_bits(self) -> int {
        self.0 as int
    }

    /// The value that stands for the OS error number `raw`.
    pub closed spec fn spec_from_raw(raw: int) -> Errno {
        Errno(errno_bits(raw) as u16)
    }

    /// The OS error number that this value stands for.
    pub open spec fn spec_raw(self) -> int {
        -signed16(self.spec_bits())
    }

    /// Extract the raw OS error number.
    pub fn raw_os_error(self) -> (raw: i32)
        ensures
            raw == self.spec_raw(),
    {
        let signed: i32 = if self.0 < 32768 {
            self.0 as i32
        } else {
            self.0 as i32 - 65536
        };
        0i32.wrapping_sub(signed)
    }

    /// Construct an [`Errno`] from the given os error number.
    pub fn from_raw_os_error(raw: i32) -> (e: Self)
        ensures
            e.spec_bits() == errno_bits(raw as int),
            e == Errno::spec_from_raw(raw as int),
    {
        let low: u32 = if raw >= 0 {
            (raw % 65536) as u32
        } else {
            let m: i32 = raw % 65536;
            if m == 0 {
                0
            } else {
                (m + 65536) as u32
            }
        };
        assert(low == (raw as int) % 65536);
        Self::from_errno(low)
    }

    /// Construct an [`Errno`] from a C errno.
    pub fn from_errno(raw: u32) -> (e: Self)
        ensures
            e.spec_bits() == errno_bits(raw as int),
    {
        let low: u32 = raw % 65536;
        if low == 0 {
            Errno(0)
        } else {
            Errno((65536 - low) as u16)
        }
    }

    /// `E2BIG`.
    pub fn toobig() -> (e: Errno)
        ensures
            e.spec_bits() == 65529,
            e.spec_raw() == 7,
    {
        Errno(65529)
    }

    /// `EACCES`.
    pub fn access() -> (e: Errno)
        ensures
            e.spec_bits() == 65523,
            e.spec_raw() == 13,
    {
        Errno(65523)
    }

    /// `EADDRINUSE`.
    pub fn addrinuse() -> (e: Errno)
        ensures
            e.spec_bits() == 65438,
            e.spec_raw() == 98,
    {
        Errno(65438)
    }

    /// `EADDRNOTAVAIL`.
    pub fn addrnotavail() -> (e: Errno)
        ensures
            e.spec_bits() == 65437,
            e.spec_raw() == 99,
    {
        Errno(65437)
    }

    /// `EADV`.
    pub fn adv() -> (e: Errno)
        ensures
            e.spec_bits() == 65468,
            e.spec_raw() == 68,
    {
        Errno(65468)
    }

    /// `EAFNOSUPPORT`.
    pub fn afnosupport() -> (e: Errno)
        ensures
            e.spec_bits() == 65439,
            e.spec_raw() == 97,
    {
        Errno(65439)
    }

    /// `EAGAIN`.
    pub fn again() -> (e: Errno)
        ensures
            e.spec_bits() == 65525,
            e.spec_raw() == 11,
    {
        Errno(65525)
    }

    /// `EALREADY`.
    pub fn already() -> (e: Errno)
        ensures
            e.spec_bits() == 65422,
            e.spec_raw() == 114,
    {
        Errno(65422)
    }

    /// `EBADE`.
    pub fn bade() -> (e: Errno)
        ensures
            e.spec_bits() == 65484,
            e.spec_raw() == 52,
    {
        Errno(65484)
    }

    /// `EBADF`.
    pub fn badf() -> (e: Errno)
        ensures
            e.spec_bits() == 65527,
            e.spec_raw() == 9,
    {
        Errno(65527)
    }

    /// `EBADFD`.
    pub fn badfd() -> (e: Errno)
        ensures
            e.spec_bits() == 65459,
            e.spec_raw() == 77,
    {
        Errno(65459)
    }

    /// `EBADMSG`.
    pub fn badmsg() -> (e: Errno)
        ensures
            e.spec_bits() == 65462,
            e.spec_raw() == 74,
    {
        Errno(65462)
    }

    /// `EBADR`.
    pub fn badr() -> (e: Errno)
        ensures
            e.spec_bits() == 65483,
            e.spec_raw() == 53,
    {
        Errno(65483)
    }

    /// `EBADRQC`.
    pub fn badrqc() -> (e: Errno)
        ensures
            e.spec_bits() == 65480,
            e.spec_raw() == 56,
    {
        Errno(65480)
    }

    /// `EBADSLT`.
    pub fn badslt() -> (e: Errno)
        ensures
            e.spec_bits() == 65479,
            e.spec_raw() == 57,
    {
        Errno(65479)
    }

    /// `EBFONT`.
    pub fn bfont() -> (e: Errno)
        ensures
            e.spec_bits() == 65477,
            e.spec_raw() == 59,
    {
        Errno(65477)
    }

    /// `EBUSY`.
    pub fn busy() -> (e: Errno)
        ensures
            e.spec_bits() == 65520,
            e.spec_raw() == 16,
    {
        Errno(65520)
    }

    /// `ECANCELED`.
    pub fn canceled() -> (e: Errno)
        ensures
            e.spec_bits() == 65411,
            e.spec_raw() == 125,
    {
        Errno(65411)
    }

    /// `ECHILD`.
    pub fn child() -> (e: Errno)
        ensures
            e.spec_bits() == 65526,
            e.spec_raw() == 10,
    {
        Errno(65526)
    }

    /// `ECHRNG`.
    pub fn chrng() -> (e: Errno)
        ensures
            e.spec_bits() == 65492,
            e.spec_raw() == 44,
    {
        Errno(65492)
    }

    /// `ECOMM`.
    pub fn comm() -> (e: Errno)
        ensures
            e.spec_bits() == 65466,
            e.spec_raw() == 70,
    {
        Errno(65466)
    }

    /// `ECONNABORTED`.
    pub fn connaborted() -> (e: Errno)
        ensures
            e.spec_bits() == 65433,
            e.spec_raw() == 103,
    {
        Errno(65433)
    }

    /// `ECONNREFUSED`.
    pub fn connrefused() -> (e: Errno)
        ensures
            e.spec_bits() == 65425,
            e.spec_raw() == 111,
    {
        Errno(65425)
    }

    /// `ECONNRESET`.
    pub fn connreset() -> (e: Errno)
        ensures
            e.spec_bits() == 65432,
            e.spec_raw() == 104,
    {
        Errno(65432)
    }

    /// `EDEADLK`.
    pub fn deadlk() -> (e: Errno)
        ensures
            e.spec_bits() == 65501,
            e.spec_raw() == 35,
    {
        Errno(65501)
    }

    /// `EDEADLOCK`.
    pub fn deadlock() -> (e: Errno)
        ensures
            e.spec_bits() == 65501,
            e.spec_raw() == 35,
    {
        Errno(65501)
    }

    /// `EDESTADDRREQ`.
    pub fn destaddrreq() -> (e: Errno)
        ensures
            e.spec_bits() == 65447,
            e.spec_raw() == 89,
    {
        Errno(65447)
    }

    /// `EDOM`.
    pub fn dom() -> (e: Errno)
        ensures
            e.spec_bits() == 65503,
            e.spec_raw() == 33,
    {
        Errno(65503)
    }

    /// `EDOTDOT`.
    pub fn dotdot() -> (e: Errno)
        ensures
            e.spec_bits() == 65463,
            e.spec_raw() == 73,
    {
        Errno(65463)
    }

    /// `EDQUOT`.
    pub fn dquot() -> (e: Errno)
        ensures
            e.spec_bits() == 65414,
            e.spec_raw() == 122,
    {
        Errno(65414)
    }

    /// `EEXIST`.
    pub fn exist() -> (e: Errno)
        ensures
            e.spec_bits() == 65519,
            e.spec_raw() == 17,
    {
        Errno(65519)
    }

    /// `EFAULT`.
    pub fn fault() -> (e: Errno)
        ensures
            e.spec_bits() == 65522,
            e.spec_raw() == 14,
    {
        Errno(65522)
    }

    /// `EFBIG`.
    pub fn fbig() -> (e: Errno)
        ensures
            e.spec_bits() == 65509,
            e.spec_raw() == 27,
    {
        Errno(65509)
    }

    /// `EHOSTDOWN`.
    pub fn hostdown() -> (e: Errno)
        ensures
            e.spec_bits() == 65424,
            e.spec_raw() == 112,
    {
        Errno(65424)
    }

    /// `EHOSTUNREACH`.
    pub fn hostunreach() -> (e: Errno)
        ensures
            e.spec_bits() == 65423,
            e.spec_raw() == 113,
    {
        Errno(65423)
    }

    /// `EHWPOISON`.
    pub fn hwpoison() -> (e: Errno)
        ensures
            e.spec_bits() == 65403,
            e.spec_raw() == 133,
    {
        Errno(65403)
    }

    /// `EIDRM`.
    pub fn idrm() -> (e: Errno)
        ensures
            e.spec_bits() == 65493,
            e.spec_raw() == 43,
    {
        Errno(65493)
    }

    /// `EILSEQ`.
    pub fn ilseq() -> (e: Errno)
        ensures
            e.spec_bits() == 65452,
            e.spec_raw() == 84,
    {
        Errno(65452)
    }

    /// `EINPROGRESS`.
    pub fn inprogress() -> (e: Errno)
        ensures
            e.spec_bits() == 65421,
            e.spec_raw() == 115,
    {
        Errno(65421)
    }

    /// `EINTR`.
    pub fn intr() -> (e: Errno)
        ensures
            e.spec_bits() == 65532,
            e.spec_raw() == 4,
    {
        Errno(65532)
    }

    /// `EINVAL`.
    pub fn inval() -> (e: Errno)
        ensures
            e.spec_bits() == 65514,
            e.spec_raw() == 22,
    {
        Errno(65514)
    }

    /// `EIO`.
    pub fn io() -> (e: Errno)
        ensures
            e.spec_bits() == 65531,
            e.spec_raw() == 5,
    {
        Errno(65531)
    }

    /// `EISCONN`.
    pub fn isconn() -> (e: Errno)
        ensures
            e.spec_bits() == 65430,
            e.spec_raw() == 106,
    {
        Errno(65430)
    }

    /// `EISDIR`.
    pub fn isdir() -> (e: Errno)
        ensures
            e.spec_bits() == 65515,
            e.spec_raw() == 21,
    {
        Errno(65515)
    }

    /// `EISNAM`.
    pub fn isnam() -> (e: Errno)
        ensures
            e.spec_bits() == 65416,
            e.spec_raw() == 120,
    {
        Errno(65416)
    }

    /// `EKEYEXPIRED`.
    pub fn keyexpired() -> (e: Errno)
        ensures
            e.spec_bits() == 65409,
            e.spec_raw() == 127,
    {
        Errno(65409)
    }

    /// `EKEYREJECTED`.
    pub fn keyrejected() -> (e: Errno)
        ensures
            e.spec_bits() == 65407,
            e.spec_raw() == 129,
    {
        Errno(65407)
    }

    /// `EKEYREVOKED`.
    pub fn keyrevoked() -> (e: Errno)
        ensures
            e.spec_bits() == 65408,
            e.spec_raw() == 128,
    {
        Errno(65408)
    }

    /// `EL2HLT`.
    pub fn l2hlt() -> (e: Errno)
        ensures
            e.spec_bits() == 65485,
            e.spec_raw() == 51,
    {
        Errno(65485)
    }

    /// `EL2NSYNC`.
    pub fn l2nsync() -> (e: Errno)
        ensures
            e.spec_bits() == 65491,
            e.spec_raw() == 45,
    {
        Errno(65491)
    }

    /// `EL3HLT`.
    pub fn l3hlt() -> (e: Errno)
        ensures
            e.spec_bits() == 65490,
            e.spec_raw() == 46,
    {
        Errno(65490)
    }

    /// `EL3RST`.
    pub fn l3rst() -> (e: Errno)
        ensures
            e.spec_bits() == 65489,
            e.spec_raw() == 47,
    {
        Errno(65489)
    }

    /// `ELIBACC`.
    pub fn libacc() -> (e: Errno)
        ensures
            e.spec_bits() == 65457,
            e.spec_raw() == 79,
    {
        Errno(65457)
    }

    /// `ELIBBAD`.
    pub fn libbad() -> (e: Errno)
        ensures
            e.spec_bits() == 65456,
            e.spec_raw() == 80,
    {
        Errno(65456)
    }

    /// `ELIBEXEC`.
    pub fn libexec() -> (e: Errno)
        ensures
            e.spec_bits() == 65453,
            e.spec_raw() == 83,
    {
        Errno(65453)
    }

    /// `ELIBMAX`.
    pub fn libmax() -> (e: Errno)
        ensures
            e.spec_bits() == 65454,
            e.spec_raw() == 82,
    {
        Errno(65454)
    }

    /// `ELIBSCN`.
    pub fn libscn() -> (e: Errno)
        ensures
            e.spec_bits() == 65455,
            e.spec_raw() == 81,
    {
        Errno(65455)
    }

    /// `ELNRNG`.
    pub fn lnrng() -> (e: Errno)
        ensures
            e.spec_bits() == 65488,
            e.spec_raw() == 48,
    {
        Errno(65488)
    }

    /// `ELOOP`.
    pub fn loop_() -> (e: Errno)
        ensures
            e.spec_bits() == 65496,
            e.spec_raw() == 40,
    {
        Errno(65496)
    }

    /// `EMEDIUMTYPE`.
    pub fn mediumtype() -> (e: Errno)
        ensures
            e.spec_bits() == 65412,
            e.spec_raw() == 124,
    {
        Errno(65412)
    }

    /// `EMFILE`.
    pub fn mfile() -> (e: Errno)
        ensures
            e.spec_bits() == 65512,
            e.spec_raw() == 24,
    {
        Errno(65512)
    }

    /// `EMLINK`.
    pub fn mlink() -> (e: Errno)
        ensures
            e.spec_bits() == 65505,
            e.spec_raw() == 31,
    {
        Errno(65505)
    }

    /// `EMSGSIZE`.
    pub fn msgsize() -> (e: Errno)
        ensures
            e.spec_bits() == 65446,
            e.spec_raw() == 90,
    {
        Errno(65446)
    }

    /// `EMULTIHOP`.
    pub fn multihop() -> (e: Errno)
        ensures
            e.spec_bits() == 65464,
            e.spec_raw() == 72,
    {
        Errno(65464)
    }

    /// `ENAMETOOLONG`.
    pub fn nametoolong() -> (e: Errno)
        ensures
            e.spec_bits() == 65500,
            e.spec_raw() == 36,
    {
        Errno(65500)
    }

    /// `ENAVAIL`.
    pub fn navail() -> (e: Errno)
        ensures
            e.spec_bits() == 65417,
            e.spec_raw() == 119,
    {
        Errno(65417)
    }

    /// `ENETDOWN`.
    pub fn netdown() -> (e: Errno)
        ensures
            e.spec_bits() == 65436,
            e.spec_raw() == 100,
    {
        Errno(65436)
    }

    /// `ENETRESET`.
    pub fn netreset() -> (e: Errno)
        ensures
            e.spec_bits() == 65434,
            e.spec_raw() == 102,
    {
        Errno(65434)
    }

    /// `ENETUNREACH`.
    pub fn netunreach() -> (e: Errno)
        ensures
            e.spec_bits() == 65435,
            e.spec_raw() == 101,
    {
        Errno(65435)
    }

    /// `ENFILE`.
    pub fn nfile() -> (e: Errno)
        ensures
            e.spec_bits() == 65513,
            e.spec_raw() == 23,
    {
        Errno(65513)
    }

    /// `ENOANO`.
    pub fn noano() -> (e: Errno)
        ensures
            e.spec_bits() == 65481,
            e.spec_raw() == 55,
    {
        Errno(65481)
    }

    /// `ENOBUFS`.
    pub fn nobufs() -> (e: Errno)
        ensures
            e.spec_bits() == 65431,
            e.spec_raw() == 105,
    {
        Errno(65431)
    }

    /// `ENOCSI`.
    pub fn nocsi() -> (e: Errno)
        ensures
            e.spec_bits() == 65486,
            e.spec_raw() == 50,
    {
        Errno(65486)
    }

    /// `ENODATA`.
    pub fn nodata() -> (e: Errno)
        ensures
            e.spec_bits() == 65475,
            e.spec_raw() == 61,
    {
        Errno(65475)
    }

    /// `ENODEV`.
    pub fn nodev() -> (e: Errno)
        ensures
            e.spec_bits() == 65517,
            e.spec_raw() == 19,
    {
        Errno(65517)
    }

    /// `ENOENT`.
    pub fn noent() -> (e: Errno)
        ensures
            e.spec_bits() == 65534,
            e.spec_raw() == 2,
    {
        Errno(65534)
    }

    /// `ENOEXEC`.
    pub fn noexec() -> (e: Errno)
        ensures
            e.spec_bits() == 65528,
            e.spec_raw() == 8,
    {
        Errno(65528)
    }

    /// `ENOKEY`.
    pub fn nokey() -> (e: Errno)
        ensures
            e.spec_bits() == 65410,
            e.spec_raw() == 126,
    {
        Errno(65410)
    }

    /// `ENOLCK`.
    pub fn nolck() -> (e: Errno)
        ensures
            e.spec_bits() == 65499,
            e.spec_raw() == 37,
    {
        Errno(65499)
    }

    /// `ENOLINK`.
    pub fn nolink() -> (e: Errno)
        ensures
            e.spec_bits() == 65469,
            e.spec_raw() == 67,
    {
        Errno(65469)
    }

    /// `ENOMEDIUM`.
    pub fn nomedium() -> (e: Errno)
        ensures
            e.spec_bits() == 65413,
            e.spec_raw() == 123,
    {
        Errno(65413)
    }

    /// `ENOMEM`.
    pub fn nomem() -> (e: Errno)
        ensures
            e.spec_bits() == 65524,
            e.spec_raw() == 12,
    {
        Errno(65524)
    }

    /// `ENOMSG`.
    pub fn nomsg() -> (e: Errno)
        ensures
            e.spec_bits() == 65494,
            e.spec_raw() == 42,
    {
        Errno(65494)
    }

    /// `ENONET`.
    pub fn nonet() -> (e: Errno)
        ensures
            e.spec_bits() == 65472,
            e.spec_raw() == 64,
    {
        Errno(65472)
    }

    /// `ENOPKG`.
    pub fn nopkg() -> (e: Errno)
        ensures
            e.spec_bits() == 65471,
            e.spec_raw() == 65,
    {
        Errno(65471)
    }

    /// `ENOPROTOOPT`.
    pub fn noprotoopt() -> (e: Errno)
        ensures
            e.spec_bits() == 65444,
            e.spec_raw() == 92,
    {
        Errno(65444)
    }

    /// `ENOSPC`.
    pub fn nospc() -> (e: Errno)
        ensures
            e.spec_bits() == 65508,
            e.spec_raw() == 28,
    {
        Errno(65508)
    }

    /// `ENOSR`.
    pub fn nosr() -> (e: Errno)
        ensures
            e.spec_bits() == 65473,
            e.spec_raw() == 63,
    {
        Errno(65473)
    }

    /// `ENOSTR`.
    pub fn nostr() -> (e: Errno)
        ensures
            e.spec_bits() == 65476,
            e.spec_raw() == 60,
    {
        Errno(65476)
    }

    /// `ENOSYS`.
    pub fn nosys() -> (e: Errno)
        ensures
            e.spec_bits() == 65498,
            e.spec_raw() == 38,
    {
        Errno(65498)
    }

    /// `ENOTBLK`.
    pub fn notblk() -> (e: Errno)
        ensures
            e.spec_bits() == 65521,
            e.spec_raw() == 15,
    {
        Errno(65521)
    }

    /// `ENOTCONN`.
    pub fn notconn() -> (e: Errno)
        ensures
            e.spec_bits() == 65429,
            e.spec_raw() == 107,
    {
        Errno(65429)
    }

    /// `ENOTDIR`.
    pub fn notdir() -> (e: Errno)
        ensures
            e.spec_bits() == 65516,
            e.spec_raw() == 20,
    {
        Errno(65516)
    }

    /// `ENOTEMPTY`.
    pub fn notempty() -> (e: Errno)
        ensures
            e.spec_bits() == 65497,
            e.spec_raw() == 39,
    {
        Errno(65497)
    }

    /// `ENOTNAM`.
    pub fn notnam() -> (e: Errno)
        ensures
            e.spec_bits() == 65418,
            e.spec_raw() == 118,
    {
        Errno(65418)
    }

    /// `ENOTRECOVERABLE`.
    pub fn notrecoverable() -> (e: Errno)
        ensures
            e.spec_bits() == 65405,
            e.spec_raw() == 131,
    {
        Errno(65405)
    }

    /// `ENOTSOCK`.
    pub fn notsock() -> (e: Errno)
        ensures
            e.spec_bits() == 65448,
            e.spec_raw() == 88,
    {
        Errno(65448)
    }

    /// `ENOTTY`.
    pub fn notty() -> (e: Errno)
        ensures
            e.spec_bits() == 65511,
            e.spec_raw() == 25,
    {
        Errno(65511)
    }

    /// `ENOTUNIQ`.
    pub fn notuniq() -> (e: Errno)
        ensures
            e.spec_bits() == 65460,
            e.spec_raw() == 76,
    {
        Errno(65460)
    }

    /// `ENXIO`.
    pub fn nxio() -> (e: Errno)
        ensures
            e.spec_bits() == 65530,
            e.spec_raw() == 6,
    {
        Errno(65530)
    }

    /// `EOPNOTSUPP`.
    pub fn opnotsupp() -> (e: Errno)
        ensures
            e.spec_bits() == 65441,
            e.spec_raw() == 95,
    {
        Errno(65441)
    }

    /// `EOVERFLOW`.
    pub fn overflow() -> (e: Errno)
        ensures
            e.spec_bits() == 65461,
            e.spec_raw() == 75,
    {
        Errno(65461)
    }

    /// `EOWNERDEAD`.
    pub fn ownerdead() -> (e: Errno)
        ensures
            e.spec_bits() == 65406,
            e.spec_raw() == 130,
    {
        Errno(65406)
    }

    /// `EPERM`.
    pub fn perm() -> (e: Errno)
        ensures
            e.spec_bits() == 65535,
            e.spec_raw() == 1,
    {
        Errno(65535)
    }

    /// `EPFNOSUPPORT`.
    pub fn pfnosupport() -> (e: Errno)
        ensures
            e.spec_bits() == 65440,
            e.spec_raw() == 96,
    {
        Errno(65440)
    }

    /// `EPIPE`.
    pub fn pipe() -> (e: Errno)
        ensures
            e.spec_bits() == 65504,
            e.spec_raw() == 32,
    {
        Errno(65504)
    }

    /// `EPROTO`.
    pub fn proto() -> (e: Errno)
        ensures
            e.spec_bits() == 65465,
            e.spec_raw() == 71,
    {
        Errno(65465)
    }

    /// `EPROTONOSUPPORT`.
    pub fn protonosupport() -> (e: Errno)
        ensures
            e.spec_bits() == 65443,
            e.spec_raw() == 93,
    {
        Errno(65443)
    }

    /// `EPROTOTYPE`.
    pub fn prototype() -> (e: Errno)
        ensures
            e.spec_bits() == 65445,
            e.spec_raw() == 91,
    {
        Errno(65445)
    }

    /// `ERANGE`.
    pub fn range() -> (e: Errno)
        ensures
            e.spec_bits() == 65502,
            e.spec_raw() == 34,
    {
        Errno(65502)
    }

    /// `EREMCHG`.
    pub fn remchg() -> (e: Errno)
        ensures
            e.spec_bits() == 65458,
            e.spec_raw() == 78,
    {
        Errno(65458)
    }

    /// `EREMOTE`.
    pub fn remote() -> (e: Errno)
        ensures
            e.spec_bits() == 65470,
            e.spec_raw() == 66,
    {
        Errno(65470)
    }

    /// `EREMOTEIO`.
    pub fn remoteio() -> (e: Errno)
        ensures
            e.spec_bits() == 65415,
            e.spec_raw() == 121,
    {
        Errno(65415)
    }

    /// `ERESTART`.
    pub fn restart() -> (e: Errno)
        ensures
            e.spec_bits() == 65451,
            e.spec_raw() == 85,
    {
        Errno(65451)
    }

    /// `ERFKILL`.
    pub fn rfkill() -> (e: Errno)
        ensures
            e.spec_bits() == 65404,
            e.spec_raw() == 132,
    {
        Errno(65404)
    }

    /// `EROFS`.
    pub fn rofs() -> (e: Errno)
        ensures
            e.spec_bits() == 65506,
            e.spec_raw() == 30,
    {
        Errno(65506)
    }

    /// `ESHUTDOWN`.
    pub fn shutdown() -> (e: Errno)
        ensures
            e.spec_bits() == 65428,
            e.spec_raw() == 108,
    {
        Errno(65428)
    }

    /// `ESOCKTNOSUPPORT`.
    pub fn socktnosupport() -> (e: Errno)
        ensures
            e.spec_bits() == 65442,
            e.spec_raw() == 94,
    {
        Errno(65442)
    }

    /// `ESPIPE`.
    pub fn spipe() -> (e: Errno)
        ensures
            e.spec_bits() == 65507,
            e.spec_raw() == 29,
    {
        Errno(65507)
    }

    /// `ESRCH`.
    pub fn srch() -> (e: Errno)
        ensures
            e.spec_bits() == 65533,
            e.spec_raw() == 3,
    {
        Errno(65533)
    }

    /// `ESRMNT`.
    pub fn srmnt() -> (e: Errno)
        ensures
            e.spec_bits() == 65467,
            e.spec_raw() == 69,
    {
        Errno(65467)
    }

    /// `ESTALE`.
    pub fn stale() -> (e: Errno)
        ensures
            e.spec_bits() == 65420,
            e.spec_raw() == 116,
    {
        Errno(65420)
    }

    /// `ESTRPIPE`.
    pub fn strpipe() -> (e: Errno)
        ensures
            e.spec_bits() == 65450,
            e.spec_raw() == 86,
    {
        Errno(65450)
    }

    /// `ETIME`.
    pub fn time() -> (e: Errno)
        ensures
            e.spec_bits() == 65474,
            e.spec_raw() == 62,
    {
        Errno(65474)
    }

    /// `ETIMEDOUT`.
    pub fn timedout() -> (e: Errno)
        ensures
            e.spec_bits() == 65426,
            e.spec_raw() == 110,
    {
        Errno(65426)
    }

    /// `ETOOMANYREFS`.
    pub fn toomanyrefs() -> (e: Errno)
        ensures
            e.spec_bits() == 65427,
            e.spec_raw() == 109,
    {
        Errno(65427)
    }

    /// `ETXTBSY`.
    pub fn txtbsy() -> (e: Errno)
        ensures
            e.spec_bits() == 65510,
            e.spec_raw() == 26,
    {
        Errno(65510)
    }

    /// `EUCLEAN`.
    pub fn uclean() -> (e: Errno)
        ensures
            e.spec_bits() == 65419,
            e.spec_raw() == 117,
    {
        Errno(65419)
    }

    /// `EUNATCH`.
    pub fn unatch() -> (e: Errno)
        ensures
            e.spec_bits() == 65487,
            e.spec_raw() == 49,
    {
        Errno(65487)
    }

    /// `EUSERS`.
    pub fn users() -> (e: Errno)
        ensures
            e.spec_bits() == 65449,
            e.spec_raw() == 87,
    {
        Errno(65449)
    }

    /// `EWOULDBLOCK`.
    pub fn wouldblock() -> (e: Errno)
        ensures
            e.spec_bits() == 65525,
            e.spec_raw() == 11,
    {
        Errno(65525)
    }

    /// `EXDEV`.
    pub fn xdev() -> (e: Errno)
        ensures
            e.spec_bits() == 65518,
            e.spec_raw() == 18,
    {
        Errno(65518)
    }

    /// `EXFULL`.
    pub fn xfull() -> (e: Errno)
        ensures
            e.spec_bits() == 65482,
            e.spec_raw() == 54,
    {
        Errno(65482)
    }

    /// The symbolic name of this error, such as `EINTR`, when it has one.
    pub fn into_str(self) -> (name: Option<&'static str>)
        ensures
            name == errno_name(self.spec_raw()),
    {
        match self.0 {
            65529 => Some("E2BIG"),
            65523 => Some("EACCES"),
            65438 => Some("EADDRINUSE"),
            65437 => Some("EADDRNOTAVAIL"),
            65468 => Some("EADV"),
            65439 => Some("EAFNOSUPPORT"),
            65525 => Some("EAGAIN"),
            65422 => Some("EALREADY"),
            65484 => Some("EBADE"),
            65527 => Some("EBADF"),
            65459 => Some("EBADFD"),
            65462 => Some("EBADMSG"),
            65483 => Some("EBADR"),
            65480 => Some("EBADRQC"),
            65479 => Some("EBADSLT"),
            65477 => Some("EBFONT"),
            65520 => Some("EBUSY"),
            65411 => Some("ECANCELED"),
            65526 => Some("ECHILD"),
            65492 => Some("ECHRNG"),
            65466 => Some("ECOMM"),
            65433 => Some("ECONNABORTED"),
            65425 => Some("ECONNREFUSED"),
            65432 => Some("ECONNRESET"),
            65501 => Some("EDEADLK"),
            65447 => Some("EDESTADDRREQ"),
            65503 => Some("EDOM"),
            65463 => Some("EDOTDOT"),
            65414 => Some("EDQUOT"),
            65519 => Some("EEXIST"),
            65522 => Some("EFAULT"),
            65509 => Some("EFBIG"),
            65424 => Some("EHOSTDOWN"),
            65423 => Some("EHOSTUNREACH"),
            65403 => Some("EHWPOISON"),
            65493 => Some("EIDRM"),
            65452 => Some("EILSEQ"),
            65421 => Some("EINPROGRESS"),
            65532 => Some("EINTR"),
            65514 => Some("EINVAL"),
            65531 => Some("EIO"),
            65430 => Some("EISCONN"),
            65515 => Some("EISDIR"),
            65416 => Some("EISNAM"),
            65409 => Some("EKEYEXPIRED"),
            65407 => Some("EKEYREJECTED"),
            65408 => Some("EKEYREVOKED"),
            65485 => Some("EL2HLT"),
            65491 => Some("EL2NSYNC"),
            65490 => Some("EL3HLT"),
            65489 => Some("EL3RST"),
            65457 => Some("ELIBACC"),
            65456 => Some("ELIBBAD"),
            65453 => Some("ELIBEXEC"),
            65454 => Some("ELIBMAX"),
            65455 => Some("ELIBSCN"),
            65488 => Some("ELNRNG"),
            65496 => Some("ELOOP"),
            65412 => Some("EMEDIUMTYPE"),
            65512 => Some("EMFILE"),
            65505 => Some("EMLINK"),
            65446 => Some("EMSGSIZE"),
            65464 => Some("EMULTIHOP"),
            65500 => Some("ENAMETOOLONG"),
            65417 => Some("ENAVAIL"),
            65436 => Some("ENETDOWN"),
            65434 => Some("ENETRESET"),
            65435 => Some("ENETUNREACH"),
            65513 => Some("ENFILE"),
            65481 => Some("ENOANO"),
            65431 => Some("ENOBUFS"),
            65486 => Some("ENOCSI"),
            65475 => Some("ENODATA"),
            65517 => Some("ENODEV"),
            65534 => Some("ENOENT"),
            65528 => Some("ENOEXEC"),
            65410 => Some("ENOKEY"),
            65499 => Some("ENOLCK"),
            65469 => Some("ENOLINK"),
            65413 => Some("ENOMEDIUM"),
            65524 => Some("ENOMEM"),
            65494 => Some("ENOMSG"),
            65472 => Some("ENONET"),
            65471 => Some("ENOPKG"),
            65444 => Some("ENOPROTOOPT"),
            65508 => Some("ENOSPC"),
            65473 => Some("ENOSR"),
            65476 => Some("ENOSTR"),
            65498 => Some("ENOSYS"),
            65521 => Some("ENOTBLK"),
            65429 => Some("ENOTCONN"),
            65516 => Some("ENOTDIR"),
            65497 => Some("ENOTEMPTY"),
            65418 => Some("ENOTNAM"),
            65405 => Some("ENOTRECOVERABLE"),
            65448 => Some("ENOTSOCK"),
            65511 => Some("ENOTTY"),
            65460 => Some("ENOTUNIQ"),
            65530 => Some("ENXIO"),
            65441 => Some("EOPNOTSUPP"),
            65461 => Some("EOVERFLOW"),
            65406 => Some("EOWNERDEAD"),
            65535 => Some("EPERM"),
            65440 => Some("EPFNOSUPPORT"),
            65504 => Some("EPIPE"),
            65465 => Some("EPROTO"),
            65443 => Some("EPROTONOSUPPORT"),
            65445 => Some("EPROTOTYPE"),
            65502 => Some("ERANGE"),
            65458 => Some("EREMCHG"),
            65470 => Some("EREMOTE"),
            65415 => Some("EREMOTEIO"),
            65451 => Some("ERESTART"),
            65404 => Some("ERFKILL"),
            65506 => Some("EROFS"),
            65428 => Some("ESHUTDOWN"),
            65442 => Some("ESOCKTNOSUPPORT"),
            65507 => Some("ESPIPE"),
            65533 => Some("ESRCH"),
            65467 => Some("ESRMNT"),
            65420 => Some("ESTALE"),
            65450 => Some("ESTRPIPE"),
            65474 => Some("ETIME"),
            65426 => Some("ETIMEDOUT"),
            65427 => Some("ETOOMANYREFS"),
            65510 => Some("ETXTBSY"),
            65419 => Some("EUCLEAN"),
            65487 => Some("EUNATCH"),
            65449 => Some("EUSERS"),
            65518 => Some("EXDEV"),
            65482 => Some("EXFULL"),
            _ => None,
        }
    }
}

/// The symbolic name of an OS error number, when it has one; where two names
/// share a number, the first of the pair (`EAGAIN` before `EWOULDBLOCK`).
pub open spec fn errno_name(raw: int) -> Option<&'static str> {
    if raw == 7 {
        Some("E2BIG")
    } else if raw == 13 {
        Some("EACCES")
    } else if raw == 98 {
        Some("EADDRINUSE")
    } else if raw == 99 {
        Some("EADDRNOTAVAIL")
    } else if raw == 68 {
        Some("EADV")
    } else if raw == 97 {
        Some("EAFNOSUPPORT")
    } else if raw == 11 {
        Some("EAGAIN")
    } else if raw == 114 {
        Some("EALREADY")
    } else if raw == 52 {
        Some("EBADE")
    } else if raw == 9 {
        Some("EBADF")
    } else if raw == 77 {
        Some("EBADFD")
    } else if raw == 74 {
        Some("EBADMSG")
    } else if raw == 53 {
        Some("EBADR")
    } else if raw == 56 {
        Some("EBADRQC")
    } else if raw == 57 {
        Some("EBADSLT")
    } else if raw == 59 {
        Some("EBFONT")
    } else if raw == 16 {
        Some("EBUSY")
    } else if raw == 125 {
        Some("ECANCELED")
    } else if raw == 10 {
        Some("ECHILD")
    } else if raw == 44 {
        Some("ECHRNG")
    } else if raw == 70 {
        Some("ECOMM")
    } else if raw == 103 {
        Some("ECONNABORTED")
    } else if raw == 111 {
        Some("ECONNREFUSED")
    } else if raw == 104 {
        Some("ECONNRESET")
    } else if raw == 35 {
        Some("EDEADLK")
    } else if raw == 89 {
        Some("EDESTADDRREQ")
    } else if raw == 33 {
        Some("EDOM")
    } else if raw == 73 {
        Some("EDOTDOT")
    } else if raw == 122 {
        Some("EDQUOT")
    } else if raw == 17 {
        Some("EEXIST")
    } else if raw == 14 {
        Some("EFAULT")
    } else if raw == 27 {
        Some("EFBIG")
    } else if raw == 112 {
        Some("EHOSTDOWN")
    } else if raw == 113 {
        Some("EHOSTUNREACH")
    } else if raw == 133 {
        Some("EHWPOISON")
    } else if raw == 43 {
        Some("EIDRM")
    } else if raw == 84 {
        Some("EILSEQ")
    } else if raw == 115 {
        Some("EINPROGRESS")
    } else if raw == 4 {
        Some("EINTR")
    } else if raw == 22 {
        Some("EINVAL")
    } else if raw == 5 {
        Some("EIO")
    } else if raw == 106 {
        Some("EISCONN")
    } else if raw == 21 {
        Some("EISDIR")
    } else if raw == 120 {
        Some("EISNAM")
    } else if raw == 127 {
        Some("EKEYEXPIRED")
    } else if raw == 129 {
        Some("EKEYREJECTED")
    } else if raw == 128 {
        Some("EKEYREVOKED")
    } else if raw == 51 {
        Some("EL2HLT")
    } else if raw == 45 {
        Some("EL2NSYNC")
    } else if raw == 46 {
        Some("EL3HLT")
    } else if raw == 47 {
        Some("EL3RST")
    } else if raw == 79 {
        Some("ELIBACC")
    } else if raw == 80 {
        Some("ELIBBAD")
    } else if raw == 83 {
        Some("ELIBEXEC")
    } else if raw == 82 {
        Some("ELIBMAX")
    } else if raw == 81 {
        Some("ELIBSCN")
    } else if raw == 48 {
        Some("ELNRNG")
    } else if raw == 40 {
        Some("ELOOP")
    } else if raw == 124 {
        Some("EMEDIUMTYPE")
    } else if raw == 24 {
        Some("EMFILE")
    } else if raw == 31 {
        Some("EMLINK")
    } else if raw == 90 {
        Some("EMSGSIZE")
    } else if raw == 72 {
        Some("EMULTIHOP")
    } else if raw == 36 {
        Some("ENAMETOOLONG")
    } else if raw == 119 {
        Some("ENAVAIL")
    } else if raw == 100 {
        Some("ENETDOWN")
    } else if raw == 102 {
        Some("ENETRESET")
    } else if raw == 101 {
        Some("ENETUNREACH")
    } else if raw == 23 {
        Some("ENFILE")
    } else if raw == 55 {
        Some("ENOANO")
    } else if raw == 105 {
        Some("ENOBUFS")
    } else if raw == 50 {
        Some("ENOCSI")
    } else if raw == 61 {
        Some("ENODATA")
    } else if raw == 19 {
        Some("ENODEV")
    } else if raw == 2 {
        Some("ENOENT")
    } else if raw == 8 {
        Some("ENOEXEC")
    } else if raw == 126 {
        Some("ENOKEY")
    } else if raw == 37 {
        Some("ENOLCK")
    } else if raw == 67 {
        Some("ENOLINK")
    } else if raw == 123 {
        Some("ENOMEDIUM")
    } else if raw == 12 {
        Some("ENOMEM")
    } else if raw == 42 {
        Some("ENOMSG")
    } else if raw == 64 {
        Some("ENONET")
    } else if raw == 65 {
        Some("ENOPKG")
    } else if raw == 92 {
        Some("ENOPROTOOPT")
    } else if raw == 28 {
        Some("ENOSPC")
    } else if raw == 63 {
        Some("ENOSR")
    } else if raw == 60 {
        Some("ENOSTR")
    } else if raw == 38 {
        Some("ENOSYS")
    } else if raw == 15 {
        Some("ENOTBLK")
    } else if raw == 107 {
        Some("ENOTCONN")
    } else if raw == 20 {
        Some("ENOTDIR")
    } else if raw == 39 {
        Some("ENOTEMPTY")
    } else if raw == 118 {
        Some("ENOTNAM")
    } else if raw == 131 {
        Some("ENOTRECOVERABLE")
    } else if raw == 88 {
        Some("ENOTSOCK")
    } else if raw == 25 {
        Some("ENOTTY")
    } else if raw == 76 {
        Some("ENOTUNIQ")
    } else if raw == 6 {
        Some("ENXIO")
    } else if raw == 95 {
        Some("EOPNOTSUPP")
    } else if raw == 75 {
        Some("EOVERFLOW")
    } else if raw == 130 {
        Some("EOWNERDEAD")
    } else if raw == 1 {
        Some("EPERM")
    } else if raw == 96 {
        Some("EPFNOSUPPORT")
    } else if raw == 32 {
        Some("EPIPE")
    } else if raw == 71 {
        Some("EPROTO")
    } else if raw == 93 {
        Some("EPROTONOSUPPORT")
    } else if raw == 91 {
        Some("EPROTOTYPE")
    } else if raw == 34 {
        Some("ERANGE")
    } else if raw == 78 {
        Some("EREMCHG")
    } else if raw == 66 {
        Some("EREMOTE")
    } else if raw == 121 {
        Some("EREMOTEIO")
    } else if raw == 85 {
        Some("ERESTART")
    } else if raw == 132 {
        Some("ERFKILL")
    } else if raw == 30 {
        Some("EROFS")
    } else if raw == 108 {
        Some("ESHUTDOWN")
    } else if raw == 94 {
        Some("ESOCKTNOSUPPORT")
    } else if raw == 29 {
        Some("ESPIPE")
    } else if raw == 3 {
        Some("ESRCH")
    } else if raw == 69 {
        Some("ESRMNT")
    } else if raw == 116 {
        Some("ESTALE")
    } else if raw == 86 {
        Some("ESTRPIPE")
    } else if raw == 62 {
        Some("ETIME")
    } else if raw == 110 {
        Some("ETIMEDOUT")
    } else if raw == 109 {
        Some("ETOOMANYREFS")
    } else if raw == 26 {
        Some("ETXTBSY")
    } else if raw == 117 {
        Some("EUCLEAN")
    } else if raw == 49 {
        Some("EUNATCH")
    } else if raw == 87 {
        Some("EUSERS")
    } else if raw == 18 {
        Some("EXDEV")
    } else if raw == 54 {
        Some("EXFULL")
    } else {
        None
    }
}

/// Round trip of the stored form: every OS error number in
/// `-32767..=32768`, stored and read back, is the number itself.
pub proof fn lemma_errno_roundtrip(raw: int)
    requires
        -32767 <= raw <= 32768,
    ensures
        Errno::spec_from_raw(raw).spec_raw() == raw,
{
}

/// Two error values are equal exactly when they stand for the same OS error
/// number.
pub proof fn lemma_errno_raw_injective(a: Errno, b: Errno)
    ensures
        a.spec_raw() == b.spec_raw() <==> a == b,
{
}

/// Reading the stored form back gives back the error value itself.
pub proof fn lemma_errno_from_own_raw(e: Errno)
    ensures
        Errno::spec_from_raw(e.spec_raw()) == e,
{
}

/// The most negative [`i32`] and its magnitude stand for the same error
/// value: negating it wraps to itself.
pub proof fn lemma_errno_of_min()
    ensures
        Errno::spec_from_raw(i32::MIN as int) == Errno::spec_from_raw(-(i32::MIN as int)),
{
}

/// Every error value stands for an OS error number in `-32767..=32768`.
pub proof fn lemma_errno_raw_bounds(e: Errno)
    ensures
        -32767 <= e.spec_raw() <= 32768,
{
}

} // verus!
