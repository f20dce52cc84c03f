use bubblebox::meowix::process::exit_code;
use bubblebox::mounts::Mode;
use bubblebox::meowix::errno::Errno;
use bubblebox::meowix::errors::{Syscall, SyscallError};
use bubblebox::meowix::ids::{Gid, Pid, Uid};
use bubblebox::meowix::util::check_if_incomplete;
use bubblebox::spawn::fmt::{compute_decimal_digits_u128, write_bytes, write_integer};

#[test]
fn errno_round_trips() {
    for raw in [1, 2, 22, 4095, 32768] {
        assert_eq!(Errno::from_raw_os_error(raw).raw_os_error(), raw);
    }
    assert_eq!(Errno::from_raw_os_error(-5).raw_os_error(), -5);
    assert_eq!(Errno::inval().raw_os_error(), 22);
    assert_eq!(Errno::from_raw_os_error(22), Errno::inval());
}

#[test]
fn syscall_errors_keep_their_parts() {
    let e = SyscallError::new(Syscall::Clone3, Errno::perm());
    assert_eq!(e.syscall(), Syscall::Clone3);
    assert_eq!(e.error().raw_os_error(), 1);
    for code in 0u8..=60 {
        let s = Syscall::from(code);
        if code <= 43 {
            assert_eq!(s.into_u8(), code);
        } else {
            assert_eq!(s, Syscall::Unknown);
        }
    }
}

#[test]
fn ids() {
    assert!(Uid::from_raw(u32::MAX).is_none());
    assert_eq!(Uid::from_raw(0).unwrap().into_raw(), 0);
    assert!(Gid::from_raw(u32::MAX).is_none());
    assert!(Pid::from_raw(0).is_none());
    assert!(Pid::from_raw(-1).is_none());
    assert_eq!(Pid::from_raw(1).unwrap().into_raw(), 1);
}

#[test]
fn incomplete_writes() {
    assert!(check_if_incomplete(4, 4).is_ok());
    assert!(check_if_incomplete(3, 4).is_err());
}

#[test]
fn decimal_formatting() {
    assert_eq!(compute_decimal_digits_u128(0), 1);
    assert_eq!(compute_decimal_digits_u128(9), 1);
    assert_eq!(compute_decimal_digits_u128(10), 2);
    assert_eq!(compute_decimal_digits_u128(u128::MAX), 39);
    let mut buffer = [0u8; 8];
    let mut offset = 0;
    write_bytes(&mut buffer, &mut offset, b"ab").unwrap();
    write_integer(&mut buffer, &mut offset, -45).unwrap();
    assert_eq!(&buffer[..offset], b"ab-45");
    assert!(write_integer(&mut buffer, &mut offset, 1234).is_err());
    assert_eq!(offset, 5);
}

#[test]
fn wait_status_exit_codes() {
    assert_eq!(exit_code(0), Some(0));
    assert_eq!(exit_code(3 << 8), Some(3));
    assert_eq!(exit_code(255 << 8), Some(255));
    assert_eq!(exit_code(9), None);
    assert_eq!(exit_code(0x7f), None);
}

#[test]
fn file_modes_from_bits() {
    assert_eq!(Mode::empty().bits(), 0);
    assert_eq!(Mode::from_bits(0o755).map(|m| m.bits()), Some(0o755));
    assert_eq!(Mode::from_bits(0o7777).map(|m| m.bits()), Some(0o7777));
    assert!(Mode::from_bits(0o10000).is_none());
}

#[test]
fn errno_names() {
    assert_eq!(Errno::from_raw_os_error(4), Errno::intr());
    assert_eq!(Errno::from_raw_os_error(4).into_str(), Some("EINTR"));
    assert_eq!(Errno::again().into_str(), Some("EAGAIN"));
    assert_eq!(Errno::wouldblock(), Errno::again());
    assert_eq!(Errno::toobig().raw_os_error(), 7);
    assert_eq!(Errno::loop_().into_str(), Some("ELOOP"));
    assert_eq!(Errno::from_raw_os_error(4000).into_str(), None);
}
