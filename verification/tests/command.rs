use bubblebox::command::{termination_outcome, Command};
use bubblebox::errors::{Command as CommandError, Error, GuestTermination, PlatformError};
use bubblebox::meowix::errno::Errno;
use bubblebox::meowix::errors::{Syscall, SyscallError};
use bubblebox::paths::Guest;

fn env_entries(c: &Command) -> Vec<String> {
    let mut v: Vec<String> = c.environment().iter().map(|(_, e)| String::from_utf8(e.clone()).unwrap()).collect();
    v.sort();
    v
}

#[test]
fn commands_hold_their_arguments() {
    let c = Command::new(b"/bin/sh").unwrap().arg(b"-c").unwrap().args(&[b"echo".to_vec(), b"hi".to_vec()]).unwrap();
    assert_eq!(c.program(), b"/bin/sh");
    assert_eq!(c.arguments(), &[b"/bin/sh".to_vec(), b"-c".to_vec(), b"echo".to_vec(), b"hi".to_vec()]);
    let c = c.arg0(b"sh").unwrap();
    assert_eq!(c.arguments()[0], b"sh".to_vec());
    assert_eq!(c.program(), b"/bin/sh");
}

#[test]
fn nul_bytes_are_rejected() {
    let nul = Error::Platform(PlatformError::Command(CommandError::NulError));
    assert_eq!(Command::new(b"/bin/\0sh").unwrap_err(), nul);
    let c = Command::new(b"/bin/sh").unwrap();
    assert_eq!(c.arg(b"a\0").unwrap_err(), nul);
    let c = Command::new(b"/bin/sh").unwrap();
    assert_eq!(c.args(&[b"ok".to_vec(), b"\0".to_vec()]).unwrap_err(), nul);
    let c = Command::new(b"/bin/sh").unwrap();
    assert_eq!(c.env(b"K", b"v\0").unwrap_err(), nul);
}

#[test]
fn environment_variables() {
    let c = Command::new(b"/bin/sh").unwrap();
    assert_eq!(
        c.env(b"A=B", b"c").unwrap_err(),
        Error::Platform(PlatformError::Command(CommandError::InvalidEnvironmentVariable))
    );
    let c = Command::new(b"/bin/sh").unwrap().env(b"HOME", b"/root").unwrap().env(b"PATH", b"/bin").unwrap();
    assert_eq!(env_entries(&c), vec!["HOME=/root", "PATH=/bin"]);
    let c = c.env(b"HOME", b"/home/me").unwrap();
    assert_eq!(env_entries(&c), vec!["HOME=/home/me", "PATH=/bin"]);
    let c = c.env_remove(b"PATH").env_remove(b"MISSING");
    assert_eq!(env_entries(&c), vec!["HOME=/home/me"]);
    let c = c.current_dir(Guest::new(b"/work").unwrap());
    assert!(c.working_directory().is_some());
}

#[test]
fn termination_outcomes() {
    let srch = SyscallError::new(Syscall::PidfdSendSignal, Errno::from_raw_os_error(3));
    assert_eq!(termination_outcome(Some(srch), Ok(9), None), Ok(9));
    let perm = SyscallError::new(Syscall::PidfdSendSignal, Errno::from_raw_os_error(1));
    assert_eq!(
        termination_outcome(Some(perm), Ok(9), None),
        Err(GuestTermination { signal: Some(perm), wait: None, cgroup: None })
    );
    assert_eq!(
        termination_outcome(None, Err(CommandError::MissingInformation), None),
        Err(GuestTermination { signal: None, wait: Some(CommandError::MissingInformation), cgroup: None })
    );
}

#[test]
fn several_environment_variables() {
    let vars = vec![
        (b"A".to_vec(), b"1".to_vec()),
        (b"B".to_vec(), b"2".to_vec()),
        (b"A".to_vec(), b"3".to_vec()),
    ];
    let c = Command::new(b"/bin/sh").unwrap().envs(&vars).unwrap();
    let mut entries = env_entries(&c);
    entries.sort();
    assert_eq!(entries, vec!["A=3".to_string(), "B=2".to_string()]);
    let bad = vec![(b"A".to_vec(), b"1".to_vec()), (b"B=C".to_vec(), b"2".to_vec())];
    assert_eq!(
        Command::new(b"/bin/sh").unwrap().envs(&bad).err(),
        Some(Error::Platform(PlatformError::Command(CommandError::InvalidEnvironmentVariable)))
    );
    let nul = vec![(b"A".to_vec(), b"1\0".to_vec())];
    assert_eq!(
        Command::new(b"/bin/sh").unwrap().envs(&nul).err(),
        Some(Error::Platform(PlatformError::Command(CommandError::NulError)))
    );
}
