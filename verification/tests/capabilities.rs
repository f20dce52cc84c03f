use bubblebox::meowix::capabilities::{drop_bounding_set, set_ambient_capabilities, walk_step, CapabilitySet, CapabilitySets, UserCapData, WalkStep};
use bubblebox::meowix::errno::Errno;
use bubblebox::meowix::errors::{Syscall, SyscallError};

#[test]
fn capability_names() {
    assert_eq!(CapabilitySet::from_str("CHOWN").unwrap().bits(), 1);
    assert_eq!(CapabilitySet::from_str("SYS_ADMIN").unwrap().bits(), 1 << 21);
    assert_eq!(CapabilitySet::from_str("CHECKPOINT_RESTORE").unwrap().bits(), 1 << 40);
    assert!(CapabilitySet::from_str("sys_admin").is_none());
    assert!(CapabilitySet::from_str("CAP_SYS_ADMIN").is_none());
    assert!(CapabilitySet::from_str("").is_none());
}

#[test]
fn capability_sets_contain_and_join() {
    let a = CapabilitySet::from_bits_retain(0b1010);
    assert!(a.contains(CapabilitySet::from_bits_retain(0b10)));
    assert!(!a.contains(CapabilitySet::from_bits_retain(0b11)));
    assert_eq!(a.union(CapabilitySet::from_bits_retain(1)).bits(), 0b1011);
    assert_eq!(CapabilitySet::empty().bits(), 0);
    assert_eq!(CapabilitySet::default().bits(), 0);
}

#[test]
fn user_cap_data_halves() {
    let sets = CapabilitySets {
        effective: CapabilitySet::from_bits_retain(0x0000_0001_8000_0002),
        permitted: CapabilitySet::from_bits_retain(u64::MAX),
        inheritable: CapabilitySet::empty(),
    };
    let data = sets.into_user_cap_data_struct();
    assert_eq!(data[0], UserCapData { effective: 0x8000_0002, permitted: u32::MAX, inheritable: 0 });
    assert_eq!(data[1], UserCapData { effective: 1, permitted: u32::MAX, inheritable: 0 });
    let back = ((data[1].effective as u64) << 32) | data[0].effective as u64;
    assert_eq!(back, 0x0000_0001_8000_0002);
}

#[test]
fn dropping_a_capability_toggles_it() {
    let chown = CapabilitySet::from_str("CHOWN").unwrap();
    let kill = CapabilitySet::from_str("KILL").unwrap();
    let both = chown.union(kill);
    assert_eq!(both.symmetric_difference(kill).bits(), chown.bits());
    assert_eq!(chown.symmetric_difference(kill).bits(), both.bits());
    assert_eq!(CapabilitySet::empty().symmetric_difference(chown).bits(), 1);
}

#[test]
fn capability_walk_steps() {
    assert_eq!(walk_step(Ok(())), WalkStep::Next);
    assert_eq!(walk_step(Err(22)), WalkStep::Done);
    assert_eq!(walk_step(Err(1)), WalkStep::Fail(SyscallError::new(Syscall::Prctl, Errno::perm())));
}

#[test]
fn walks_with_nothing_to_do_succeed() {
    assert_eq!(drop_bounding_set(CapabilitySet::from_bits_retain(u64::MAX)), Ok(()));
    assert_eq!(set_ambient_capabilities(CapabilitySet::empty()), Ok(()));
}

#[test]
fn capability_walk_targets() {
    let all_but_chown = CapabilitySet::from_bits_retain(u64::MAX & !1);
    assert_eq!(bubblebox::meowix::capabilities::bounding_set_targets(all_but_chown), vec![0]);
    let kill_and_admin = CapabilitySet::from_bits_retain((1 << 5) | (1 << 21));
    assert_eq!(bubblebox::meowix::capabilities::ambient_targets(kill_and_admin), vec![5, 21]);
    let dropped = bubblebox::meowix::capabilities::bounding_set_targets(kill_and_admin);
    assert_eq!(dropped.len(), 62);
    assert_eq!(&dropped[..6], &[0, 1, 2, 3, 4, 6]);
}

#[test]
fn dropping_removes_only_that_capability() {
    let chown = CapabilitySet::from_str("CHOWN").unwrap();
    let kill = CapabilitySet::from_str("KILL").unwrap();
    assert_eq!(chown.union(kill).difference(kill).bits(), chown.bits());
    assert_eq!(chown.difference(kill).bits(), chown.bits());
}

#[test]
fn capability_walks_stop_at_the_first_answer_that_ends_them() {
    use_walk();
}

fn use_walk() {
    let (r, answers) = bubblebox::meowix::capabilities::walk_capabilities(&[3, 5, 9], |c| if c == 5 { Err(22) } else { Ok(()) });
    assert_eq!(r, Ok(()));
    assert_eq!(answers, vec![Ok(()), Err(22)]);
    let (r, answers) = bubblebox::meowix::capabilities::walk_capabilities(&[3, 5, 9], |c| if c == 5 { Err(1) } else { Ok(()) });
    assert_eq!(r, Err(SyscallError::new(Syscall::Prctl, Errno::perm())));
    assert_eq!(answers, vec![Ok(()), Err(1)]);
    let (r, answers) = bubblebox::meowix::capabilities::walk_capabilities(&[3, 5, 9], |_| Ok(()));
    assert_eq!(r, Ok(()));
    assert_eq!(answers.len(), 3);
    let (r, answers) = bubblebox::meowix::capabilities::walk_capabilities(&[], |_| Err(1));
    assert_eq!((r, answers.len()), (Ok(()), 0));
}
