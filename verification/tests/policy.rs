use bubblebox::cgroups::NullCgroups;
use bubblebox::errors::PlatformError;
use bubblebox::meowix::capabilities::CapabilitySet;
use bubblebox::mounts::{HostDirectory, HostFile, Mode, Mount, ProcHidepid, ProcSubset};
use bubblebox::paths::Guest;
use bubblebox::policy::errors::Policy as PolicyError;
use bubblebox::policy::fd::{Action, FdPolicy};
use bubblebox::policy::mounts::MountTree;
use bubblebox::policy::Policy;
use bubblebox::spawn::fd::{file_descriptor_plan, FdOp};

fn guest(path: &str) -> Guest {
    Guest::new(path.as_bytes()).unwrap()
}

fn bind_dir() -> Mount {
    Mount::read_only_directory(HostDirectory { fd: 3 })
}

fn tree(mounts: Vec<(&str, Mount)>) -> MountTree {
    let mut t = MountTree::empty();
    for (path, mount) in mounts {
        t = t.mount(mount, guest(path));
    }
    t
}

#[test]
fn nothing_may_be_mounted_below_a_bind_mount() {
    assert!(tree(vec![]).is_valid());
    assert!(tree(vec![("/usr", bind_dir()), ("/etc", bind_dir())]).is_valid());
    assert!(!tree(vec![("/usr", bind_dir()), ("/usr/lib", Mount::directory(Mode::rwxu()))]).is_valid());
    assert!(!tree(vec![("/usr/lib", bind_dir()), ("/usr", bind_dir())]).is_valid());
    assert!(tree(vec![
        ("/tmp", Mount::tmpfs(None, Mode::rwxu())),
        ("/tmp/x", bind_dir()),
        ("/tmp/y", bind_dir()),
        ("/proc", Mount::proc(ProcHidepid::Off, ProcSubset::Full)),
    ])
    .is_valid());
    assert!(!tree(vec![
        ("/a", Mount::directory(Mode::rwxu())),
        ("/a/b", bind_dir()),
        ("/a/c", bind_dir()),
        ("/a/c/d", Mount::mqueue()),
    ])
    .is_valid());
    assert!(tree(vec![("/usr", bind_dir()), ("/usrlocal", Mount::mqueue())]).is_valid());
}

#[test]
fn mount_tree_replaces_and_unmounts() {
    let t = tree(vec![("/b", bind_dir()), ("/a", bind_dir()), ("/a/x", Mount::mqueue())]);
    assert!(!t.is_valid());
    let t = t.mount(Mount::directory(Mode::rwxu()), guest("/a"));
    assert!(t.is_valid());
    assert_eq!(t.entries().len(), 3);
    let order: Vec<Vec<u8>> = t.entries().iter().map(|(g, _)| g.file_name()).collect();
    assert_eq!(order, vec![b"a".to_vec(), b"x".to_vec(), b"b".to_vec()]);
    let t = t.unmount(guest("/a/x")).unmount(guest("/nothing"));
    assert_eq!(t.entries().len(), 2);
    assert!(t.clear().entries().is_empty());
}

#[test]
fn fd_policy_validity() {
    assert!(FdPolicy::empty().is_valid());
    assert!(FdPolicy::empty().ignore(0).map(7, 3).is_valid());
    assert!(!FdPolicy::empty().ignore(-1).is_valid());
    assert!(!FdPolicy::empty().map(4, 3).ignore(4).is_valid());
    assert!(!FdPolicy::empty().map(3, 3).is_valid());
    assert!(FdPolicy::empty().map(4, 3).ignore(4).close(4).is_valid());
    let p = FdPolicy::empty().map(9, 5).ignore(1).ignore(5);
    assert_eq!(p.entries(), &[(1, Action::Ignore), (5, Action::Ignore)]);
    assert!(p.clear().entries().is_empty());
}

#[test]
fn fd_plan_leaves_open_exactly_the_policy() {
    let p = FdPolicy::empty().ignore(0).map(20, 2).map(21, 7);
    let (ops, deferred) = file_descriptor_plan(&p, 99);
    assert_eq!(
        ops,
        vec![
            FdOp::Dup { from: 20, to: 2 },
            FdOp::CloseRange { first: 1, last: 1 },
            FdOp::Dup { from: 21, to: 7 },
            FdOp::CloseRange { first: 3, last: 6 },
            FdOp::CloseRange { first: 8, last: u32::MAX },
        ]
    );
    assert_eq!(deferred, None);
    let (ops, deferred) = file_descriptor_plan(&p, 7);
    assert_eq!(deferred, Some(21));
    assert!(!ops.contains(&FdOp::Dup { from: 21, to: 7 }));
    let (ops, _) = file_descriptor_plan(&FdPolicy::empty(), 3);
    assert_eq!(ops, vec![FdOp::CloseRange { first: 0, last: u32::MAX }]);
}

#[test]
fn policy_rejects_invalid_trees_and_fd_policies() {
    let policy: Policy<NullCgroups> = Policy::default();
    assert!(policy.new_session);
    let policy = policy
        .mount_tree(|t| t.mount(bind_dir(), guest("/usr")))
        .unwrap()
        .fd_policy(|f| f.ignore(1))
        .unwrap()
        .set_target_capabilities(CapabilitySet::from_str("NET_RAW").unwrap())
        .new_session(false);
    assert!(!policy.new_session);
    assert_eq!(policy.target_capabilities.bits(), 1 << 13);
    let policy = policy.clear_target_capabilities();
    assert_eq!(policy.target_capabilities.bits(), 0);
    let err = policy
        .mount_tree(|t| t.mount(Mount::mqueue(), guest("/usr/mq")))
        .unwrap_err();
    assert_eq!(err, PlatformError::Policy(PolicyError::InvalidMountPolicy));
    let policy: Policy<NullCgroups> = Policy::default();
    let err = policy.fd_policy(|f| f.map(5, 5)).unwrap_err();
    assert_eq!(err, PlatformError::Policy(PolicyError::InvalidFdPolicy));
}

#[test]
fn mounts_are_synthetic_unless_bind_mounts() {
    let file = HostFile { dirfd: 3, name: b"f".to_vec(), fd: 4 };
    assert!(!Mount::read_only_file(file.clone()).is_synthetic());
    assert!(!Mount::bind_directory(HostDirectory { fd: 5 }, Default::default(), false).is_synthetic());
    assert!(Mount::symlink(guest("/a")).is_synthetic());
    assert!(Mount::file(b"x".to_vec(), Mode::from_bits_retain(0o644)).is_synthetic());
    assert!(Mount::proc_with_pid_namespace(ProcHidepid::Invisible, ProcSubset::Pid, 9).is_synthetic());
}
