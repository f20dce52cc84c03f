use bubblebox::cgroups::NullCgroups;
use bubblebox::errors::PlatformError;
use bubblebox::meowix::capabilities::CapabilitySet;
use bubblebox::meowix::errno::Errno;
use bubblebox::meowix::errors::{Netlink, Syscall, SyscallError};
use bubblebox::meowix::ids::{Gid, Uid};
use bubblebox::meowix::process::{Cwd, PidfdInfoV0};
use bubblebox::meowix::sigaction::{signals_to_reset, sigchld_disposition_of, SigchldDisposition};
use bubblebox::meowix::stat::{is_directory_mode, is_regular_mode, same_file_identity, FileIdentity};
use bubblebox::mounts::{
    HostFile, Mode, Mount, MountAttributes, ProcHidepid, ProcSubset, MOUNT_ATTR_NODEV, MOUNT_ATTR_NOEXEC,
    MOUNT_ATTR_NOSUID, MOUNT_ATTR_NOSYMFOLLOW, MOUNT_ATTR_RDONLY,
};
use bubblebox::policy::namespace::{Namespaces, TimeOffset};
use bubblebox::policy::Policy;
use bubblebox::spawn::errors::{PostSpawnGuest, PostSpawnGuestOther, PostSpawnHost};
use bubblebox::spawn::mounts::{bind_plan, filesystem_plan, placement, tmpfs_mode, FsType, Placement, PlacementKind};
use bubblebox::spawn::plan::{
    clone_flags, guest_ids, guest_plan, host_outcome, GuestReport, GuestStep, CLONE_AUTOREAP, CLONE_INTO_CGROUP,
    CLONE_NEWIPC, CLONE_NEWNET, CLONE_NEWPID, CLONE_NEWUSER, CLONE_NEWUTS, CLONE_NNP, CLONE_PIDFD,
    CLONE_PIDFD_AUTOKILL,
};
use bubblebox::spawn::wire::PostSpawnGuestWire;
use bubblebox::policy::namespace::UserMappingMode;

#[test]
fn mount_attribute_flags() {
    assert_eq!(MountAttributes::default().into_mount_attr(), 0x20000f);
    let a = MountAttributes::default().read_only(false).no_symlink_folowing(false);
    assert_eq!(a.into_mount_attr(), MOUNT_ATTR_NOSUID | MOUNT_ATTR_NODEV | MOUNT_ATTR_NOEXEC);
    assert_eq!(MOUNT_ATTR_RDONLY, linux_raw_sys::general::MOUNT_ATTR_RDONLY);
    assert_eq!(MOUNT_ATTR_NOSUID, linux_raw_sys::general::MOUNT_ATTR_NOSUID);
    assert_eq!(MOUNT_ATTR_NODEV, linux_raw_sys::general::MOUNT_ATTR_NODEV);
    assert_eq!(MOUNT_ATTR_NOEXEC, linux_raw_sys::general::MOUNT_ATTR_NOEXEC);
    assert_eq!(MOUNT_ATTR_NOSYMFOLLOW, linux_raw_sys::general::MOUNT_ATTR_NOSYMFOLLOW);
}

#[test]
fn clone_flags_follow_the_namespaces() {
    let base = CLONE_NEWUSER | CLONE_PIDFD | CLONE_AUTOREAP | CLONE_NNP | CLONE_PIDFD_AUTOKILL;
    let all = Namespaces::default();
    assert_eq!(
        clone_flags(&all, false),
        base | CLONE_NEWIPC | CLONE_NEWPID | CLONE_NEWNET | CLONE_NEWUTS
    );
    let shared = Namespaces::default().share_ipc().share_pid().share_network().share_uts();
    assert_eq!(clone_flags(&shared, true), base | CLONE_INTO_CGROUP);
    assert_eq!(CLONE_NEWUSER, linux_raw_sys::general::CLONE_NEWUSER as u64);
    assert_eq!(CLONE_INTO_CGROUP, linux_raw_sys::general::CLONE_INTO_CGROUP);
}

#[test]
fn guest_ids_default_to_the_host() {
    let host = (Uid::from_raw(1000).unwrap(), Gid::from_raw(1000).unwrap());
    let mode = UserMappingMode::Simple { uid: None, gid: Some(Gid::from_raw(0).unwrap()) };
    let (uid, gid) = guest_ids(mode, host.0, host.1);
    assert_eq!(uid.into_raw(), 1000);
    assert_eq!(gid.into_raw(), 0);
}

#[test]
fn guest_setup_steps() {
    let policy: Policy<NullCgroups> = Policy::default();
    let host_uid = Uid::from_raw(1000).unwrap();
    let host_gid = Gid::from_raw(100).unwrap();
    let steps = guest_plan(&policy, host_uid, host_gid);
    assert_eq!(steps[0], GuestStep::DropBoundingSet(CapabilitySet::empty()));
    assert!(steps.contains(&GuestStep::SetupLoopback));
    assert!(steps.contains(&GuestStep::NewSession));
    assert!(steps.contains(&GuestStep::LimitUserNamespaces));
    assert!(steps.contains(&GuestStep::UnshareTimeNamespace));
    assert!(!steps.contains(&GuestStep::SetHostname));
    assert_eq!(steps.last(), Some(&GuestStep::RunCallback));
    let policy = policy
        .namespace(|n| {
            n.share_network()
                .share_time()
                .unshare_uts(|u| u.set_hostname(b"box"))
                .user_namespace(|u| u.disable_userns(false))
        })
        .new_session(false);
    let steps = guest_plan(&policy, host_uid, host_gid);
    assert!(!steps.contains(&GuestStep::SetupLoopback));
    assert!(!steps.contains(&GuestStep::NewSession));
    assert!(!steps.contains(&GuestStep::LimitUserNamespaces));
    assert!(!steps.contains(&GuestStep::UnshareTimeNamespace));
    assert!(steps.contains(&GuestStep::SetHostname));
    assert!(steps.contains(&GuestStep::WriteIdMaps {
        source_uid: host_uid,
        source_gid: host_gid,
        dest_uid: host_uid,
        dest_gid: host_gid,
        deny_setgroups: true,
    }));
    let unshared_time = Policy::<NullCgroups>::default()
        .namespace(|n| n.unshare_time(|t| t.monotonic_offset(|o| o)));
    let steps = guest_plan(&unshared_time, host_uid, host_gid);
    assert!(steps.contains(&GuestStep::WriteTimensOffsets {
        monotonic: Some(TimeOffset::default()),
        boottime: None,
    }));
}

#[test]
fn host_outcomes() {
    assert_eq!(host_outcome(GuestReport::Nothing), Ok(()));
    assert_eq!(
        host_outcome(GuestReport::Malformed),
        Err(PlatformError::PostSpawnHost(PostSpawnHost::PodCastError))
    );
    let wire: PostSpawnGuestWire = Err(PostSpawnGuest::Other(PostSpawnGuestOther::BufferTooSmall)).into();
    assert_eq!(
        host_outcome(GuestReport::Wire(wire)),
        Err(PlatformError::PostSpawnGuest(PostSpawnGuest::Other(PostSpawnGuestOther::BufferTooSmall)))
    );
}

#[test]
fn wire_encoding() {
    let ok: PostSpawnGuestWire = Ok(()).into();
    assert_eq!((ok.tag, ok.subtag, ok.value), (255, 0, 0));
    let invalid: PostSpawnGuestWire = Err(PostSpawnGuest::InvalidWireFormat).into();
    assert_eq!(PostSpawnGuest::from(invalid), PostSpawnGuest::InvalidWireFormat);
    let other: PostSpawnGuestWire = Err(PostSpawnGuest::Other(PostSpawnGuestOther::DestinationExists)).into();
    assert_eq!(PostSpawnGuest::from(other), PostSpawnGuest::Other(PostSpawnGuestOther::DestinationExists));
    let syscall = SyscallError::new(Syscall::Pipe2, Errno::from_raw_os_error(1));
    let encoded: PostSpawnGuestWire = Err(PostSpawnGuest::Syscall(syscall)).into();
    assert_eq!(encoded.tag, 254);
    assert_eq!(encoded.value, 1);
    assert_eq!(PostSpawnGuest::from(encoded), PostSpawnGuest::Syscall(syscall));
    let errors = [
        PostSpawnGuest::Netlink(Netlink::SequenceMismatch),
        PostSpawnGuest::Netlink(Netlink::Errno(Errno::from_raw_os_error(22))),
        PostSpawnGuest::Netlink(Netlink::Syscall(SyscallError::new(Syscall::Sendto, Errno::perm()))),
        PostSpawnGuest::IncompleteWrite,
        PostSpawnGuest::CStrBufferTooSmall,
        PostSpawnGuest::FromBytesWithNulError,
    ];
    for error in errors {
        let encoded: PostSpawnGuestWire = Err(error).into();
        assert_eq!(PostSpawnGuest::from(encoded), error);
    }
}

#[test]
fn filesystem_plans() {
    let proc = Mount::proc(ProcHidepid::Ptraceable, ProcSubset::Pid);
    let plan = filesystem_plan(&proc.inner).unwrap().unwrap();
    assert_eq!(plan.fstype, FsType::Proc);
    assert_eq!(
        plan.options,
        vec![(b"hidepid".to_vec(), b"ptraceable".to_vec()), (b"subset".to_vec(), b"pid".to_vec())]
    );
    assert_eq!(plan.pid_namespace, None);
    assert_eq!(plan.mount_attr, MOUNT_ATTR_NOSUID | MOUNT_ATTR_NODEV | MOUNT_ATTR_NOEXEC);
    let proc = Mount::proc_with_privileged_gid_and_pid_namespace(
        ProcHidepid::Off,
        Gid::from_raw(42).unwrap(),
        ProcSubset::Full,
        7,
    );
    let plan = filesystem_plan(&proc.inner).unwrap().unwrap();
    assert_eq!(plan.options, vec![(b"hidepid".to_vec(), b"off".to_vec()), (b"gid".to_vec(), b"42".to_vec())]);
    assert_eq!(plan.pid_namespace, Some(7));
    let tmpfs = Mount::tmpfs(Some(b"64m".to_vec()), Mode::from_bits_retain(0o1755));
    let plan = filesystem_plan(&tmpfs.inner).unwrap().unwrap();
    assert_eq!(plan.options, vec![(b"size".to_vec(), b"64m".to_vec()), (b"mode".to_vec(), b"1755".to_vec())]);
    let big = Mount::tmpfs(Some(b"123456789012".to_vec()), Mode::rwxu());
    assert_eq!(filesystem_plan(&big.inner).unwrap().unwrap_err(), PostSpawnGuest::CStrBufferTooSmall);
    let nul = Mount::tmpfs(Some(b"1\0".to_vec()), Mode::rwxu());
    assert_eq!(filesystem_plan(&nul.inner).unwrap().unwrap_err(), PostSpawnGuest::FromBytesWithNulError);
    assert_eq!(filesystem_plan(&Mount::mqueue().inner).unwrap().unwrap().fstype, FsType::Mqueue);
    assert!(filesystem_plan(&Mount::directory(Mode::rwxu()).inner).is_none());
    assert_eq!(tmpfs_mode(0o755), b"0755".to_vec());
    assert_eq!(tmpfs_mode(0o170777), b"0777".to_vec());
}

#[test]
fn bind_plans() {
    let file = Mount::read_only_file(HostFile { dirfd: 3, name: b"passwd".to_vec(), fd: 4 });
    let plan = bind_plan(&file.inner).unwrap();
    assert_eq!(plan.source_fd, 3);
    assert_eq!(plan.file, Some((b"passwd".to_vec(), 4)));
    assert!(!plan.is_recursive);
    assert_eq!(plan.namespace_flags, 0x2 | 0x80000 | 0x1000);
    assert_eq!(plan.clone_flags, 0x1 | 0x80000);
    let dir = Mount::read_write_directory(bubblebox::mounts::HostDirectory { fd: 9 });
    let plan = bind_plan(&dir.inner).unwrap();
    assert!(plan.is_recursive);
    assert_eq!(plan.namespace_flags, 0x2 | 0x80000 | 0x1000 | 0x8000);
    assert_eq!(plan.clone_flags, 0x1 | 0x80000 | 0x8000);
    assert!(bind_plan(&Mount::mqueue().inner).is_none());
}

#[test]
fn signals_and_dispositions() {
    let signals = signals_to_reset();
    assert_eq!(signals.len(), 62);
    assert!(!signals.contains(&9) && !signals.contains(&19));
    assert_eq!(signals[0], 1);
    assert_eq!(*signals.last().unwrap(), 64);
    assert_eq!(sigchld_disposition_of(1, 2), SigchldDisposition::Ignored);
    assert_eq!(sigchld_disposition_of(0, 2), SigchldDisposition::NoChildWait);
    assert_eq!(sigchld_disposition_of(0, 0), SigchldDisposition::Default);
    assert_eq!(sigchld_disposition_of(0x1234, 0), SigchldDisposition::Handler);
}

#[test]
fn process_information() {
    let mut info = PidfdInfoV0 {
        mask: 8,
        cgroupid: 0,
        pid: 1,
        tgid: 1,
        ppid: 0,
        ruid: 0,
        rgid: 0,
        euid: 0,
        egid: 0,
        suid: 0,
        sgid: 0,
        fsuid: 0,
        fsgid: 0,
        exit_code: 256,
    };
    assert_eq!(info.exit_status(), Ok(256));
    info.mask = 1;
    assert_eq!(info.exit_status(), Err(bubblebox::errors::Command::MissingInformation));
    assert_eq!(Cwd.as_raw_fd(), -100);
}

#[test]
fn file_identity() {
    let a = FileIdentity { mask: 0x100, dev_major: 8, dev_minor: 1, ino: 42 };
    assert!(same_file_identity(a, a));
    assert!(!same_file_identity(a, FileIdentity { ino: 43, ..a }));
    assert!(!same_file_identity(FileIdentity { mask: 0, ..a }, a));
    assert!(is_directory_mode(0o040755));
    assert!(!is_directory_mode(0o100644));
    assert!(is_regular_mode(0o100644));
}

#[test]
fn mount_point_placements() {
    let dir = 0o040755;
    let file = 0o100644;
    let other = |e| Err(PostSpawnGuest::Other(e));
    assert_eq!(placement(PlacementKind::DirectoryMount, None), Ok(Placement::CreateDirectory));
    assert_eq!(placement(PlacementKind::DirectoryMount, Some(dir)), Ok(Placement::UseExisting));
    assert_eq!(placement(PlacementKind::DirectoryMount, Some(file)), other(PostSpawnGuestOther::InvalidDirectoryMountPoint));
    assert_eq!(placement(PlacementKind::FileMount, None), Ok(Placement::CreateFile));
    assert_eq!(placement(PlacementKind::FileMount, Some(file)), Ok(Placement::UseExisting));
    assert_eq!(placement(PlacementKind::FileMount, Some(dir)), other(PostSpawnGuestOther::InvalidRegularFileMountPoint));
    assert_eq!(placement(PlacementKind::File, None), Ok(Placement::CreateFile));
    assert_eq!(placement(PlacementKind::File, Some(file)), other(PostSpawnGuestOther::DestinationExists));
    assert_eq!(placement(PlacementKind::Directory, None), Ok(Placement::CreateDirectory));
    assert_eq!(placement(PlacementKind::Directory, Some(dir)), other(PostSpawnGuestOther::DestinationExists));
    assert_eq!(placement(PlacementKind::Symlink, None), Ok(Placement::CreateSymlink));
}
