use bubblebox::cgroups::policy::{
    parse_controllers_text, CgroupControllers, CgroupFile, CgroupProperties, CgroupWrite, CpuController,
    CpuWeight, IoController, MemoryController, PidsController, Policy, Resource, UclampValue,
};
use bubblebox::cgroups::systemd::{
    check_cgroup_ready, delegation_writes, new_scope_unit_name, relative_cgroup_path, scope_unit_name,
};
use bubblebox::cgroups::{Cgroups, NullCgroups, OwnedFdCgroups, SystemdCgroups};
use bubblebox::spawn::errors::{Controller, Host, PostSpawnGuest, PostSpawnGuestOther};

fn pairs(writes: &[CgroupWrite]) -> Vec<(String, String)> {
    writes
        .iter()
        .map(|w| (w.file.file_name().to_string(), String::from_utf8(w.contents.clone()).unwrap()))
        .collect()
}

fn pair(file: &str, contents: &str) -> (String, String) {
    (file.to_string(), contents.to_string())
}

#[test]
fn uclamp_parts_recompose_the_value() {
    let v = UclampValue::new(2374).unwrap();
    assert_eq!(v.into_parts(), (23, 74));
    assert_eq!(v.into_u16(), 2374);
    for raw in [0u16, 5, 99, 100, 101, 9999, 10000] {
        let (whole, fractional) = UclampValue::new(raw).unwrap().into_parts();
        assert_eq!(whole as u16 * 100 + fractional as u16, raw);
        assert!(fractional < 100);
    }
}

#[test]
fn uclamp_rejects_values_above_a_hundred_percent() {
    assert!(UclampValue::new(10001).is_none());
    assert!(UclampValue::new(u16::MAX).is_none());
    assert!(UclampValue::new(10000).is_some());
}

#[test]
fn cpu_weight_ranges() {
    assert!(CpuWeight::new(0).is_none());
    assert!(CpuWeight::new(10001).is_none());
    assert_eq!(CpuWeight::new(1).unwrap().into_weight(), Some(1));
    assert_eq!(CpuWeight::new(10000).unwrap().into_nice(), None);
    assert!(CpuWeight::new_nice(-21).is_none());
    assert!(CpuWeight::new_nice(20).is_none());
    assert_eq!(CpuWeight::new_nice(-20).unwrap().into_nice(), Some(-20));
    assert_eq!(CpuWeight::new_nice(19).unwrap().into_weight(), None);
}

#[test]
fn cpu_controller_writes_every_setting_in_order() {
    let cpu = CpuController::default()
        .subtree_control(true)
        .weight(CpuWeight::new(100).unwrap())
        .max(Resource::Value(50000), 100000)
        .max_burst(1000)
        .uclamp_min(Resource::Value(UclampValue::new(2374).unwrap()))
        .uclamp_max(Resource::Max)
        .idle(true);
    assert_eq!(
        pairs(&cpu.writes()),
        vec![
            pair("cgroup.subtree_control", "+cpu"),
            pair("cpu.weight", "100"),
            pair("cpu.max", "50000 100000"),
            pair("cpu.max.burst", "1000"),
            pair("cpu.uclamp.min", "23.74"),
            pair("cpu.uclamp.max", "max"),
            pair("cpu.idle", "1"),
        ]
    );
}

#[test]
fn cpu_controller_nice_weight_and_small_clamp() {
    let cpu = CpuController::default()
        .weight(CpuWeight::new_nice(-5).unwrap())
        .max(Resource::Max, 100000)
        .uclamp_min(Resource::Value(UclampValue::new(5).unwrap()))
        .idle(false);
    assert_eq!(
        pairs(&cpu.writes()),
        vec![
            pair("cpu.weight.nice", "-5"),
            pair("cpu.max", "max 100000"),
            pair("cpu.uclamp.min", "0.05"),
            pair("cpu.idle", "0"),
        ]
    );
    let cleared = cpu.clear_weight().clear_max().clear_uclamp_min().clear_idle();
    assert!(cleared.writes().is_empty());
}

#[test]
fn memory_controller_writes_and_inverts_zswap_writeback() {
    let memory = MemoryController::default()
        .subtree_control(true)
        .min(Resource::Value(1024))
        .max(Resource::Max)
        .indivisible(true)
        .swap_max(Resource::Value(0))
        .disable_zswap_writeback(true);
    assert_eq!(
        pairs(&memory.writes()),
        vec![
            pair("cgroup.subtree_control", "+memory"),
            pair("memory.min", "1024"),
            pair("memory.max", "max"),
            pair("memory.oom.group", "1"),
            pair("memory.swap.max", "0"),
            pair("memory.zswap.writeback", "0"),
        ]
    );
    let enabled = memory.disable_zswap_writeback(false);
    assert_eq!(pairs(&enabled.writes()).last().unwrap(), &pair("memory.zswap.writeback", "1"));
}

#[test]
fn io_pids_and_properties_writes() {
    assert_eq!(pairs(&IoController::default().subtree_control(true).writes()), vec![pair("cgroup.subtree_control", "+io")]);
    assert_eq!(
        pairs(&PidsController::default().max(Resource::Value(64)).writes()),
        vec![pair("pids.max", "64")]
    );
    let properties = CgroupProperties::default().threaded(true).psi_accounting(false);
    assert_eq!(
        pairs(&properties.writes()),
        vec![pair("cgroup.type", "threaded"), pair("cgroup.pressure", "0")]
    );
    assert!(properties.clear_psi_accounting().threaded(false).writes().is_empty());
}

#[test]
fn controllers_are_read_as_whole_words() {
    let c = parse_controllers_text(b"cpuset cpu io memory\n");
    assert_eq!(c, CgroupControllers { cpu: true, memory: true, io: true, pids: false });
    let c = parse_controllers_text(b"cpuset\tmisc hugetlb pids");
    assert_eq!(c, CgroupControllers { cpu: false, memory: false, io: false, pids: true });
    let c = parse_controllers_text(b"");
    assert_eq!(c, CgroupControllers { cpu: false, memory: false, io: false, pids: false });
}

#[test]
fn missing_controller_stops_after_the_earlier_writes() {
    let policy = Policy::default()
        .cpu(|cpu| cpu.idle(true))
        .memory(|memory| memory.max(Resource::Max))
        .pids(|pids| pids.max(Resource::Value(8)));
    let available = CgroupControllers { cpu: true, memory: false, io: true, pids: true };
    let (writes, outcome) = policy.controller_writes(&available);
    assert_eq!(pairs(&writes), vec![pair("cpu.idle", "1")]);
    assert_eq!(outcome, Err(Host::MissingCgroupController(Controller::Memory)));

    let all = CgroupControllers { cpu: true, memory: true, io: true, pids: true };
    let (writes, outcome) = policy.controller_writes(&all);
    assert_eq!(outcome, Ok(()));
    assert_eq!(
        pairs(&writes),
        vec![pair("cpu.idle", "1"), pair("memory.max", "max"), pair("pids.max", "8")]
    );
    let (writes, outcome) = policy.disable_cpu().disable_memory().disable_pids().controller_writes(
        &CgroupControllers { cpu: false, memory: false, io: false, pids: false },
    );
    assert!(writes.is_empty());
    assert_eq!(outcome, Ok(()));
}

#[test]
fn core_writes_come_from_the_properties() {
    let policy = Policy::default().cgroup(|c| c.psi_accounting(true));
    assert_eq!(pairs(&policy.core_writes()), vec![pair("cgroup.pressure", "1")]);
    assert_eq!(CgroupFile::Controllers.file_name(), "cgroup.controllers");
}

#[test]
fn backends_start_with_an_empty_policy() {
    let null = Cgroups::<NullCgroups>::null_unenforced();
    assert!(null.policy.cpu.is_none());
    let owned = Cgroups::<OwnedFdCgroups>::new_fd().policy(|p| p.io(|io| io.subtree_control(true)));
    assert_eq!(owned.policy.io, Some(IoController { subtree_control: true }));
    let systemd = Cgroups::<SystemdCgroups>::new_systemd();
    assert!(systemd.policy.pids.is_none());
}

#[test]
fn scope_unit_names() {
    assert_eq!(scope_unit_name(b"1234"), b"bubblebox-1234.scope".to_vec());
    assert_eq!(
        String::from_utf8(new_scope_unit_name([0; 16])).unwrap(),
        "bubblebox-00000000-0000-4000-8000-000000000000.scope"
    );
    assert_eq!(
        String::from_utf8(new_scope_unit_name([0xff; 16])).unwrap(),
        "bubblebox-ffffffff-ffff-4fff-bfff-ffffffffffff.scope"
    );
    let bytes = [0x12, 0x34, 0x56, 0x78, 0x9a, 0xbc, 0xde, 0xf0, 0x12, 0x34, 0x56, 0x78, 0x9a, 0xbc, 0xde, 0xf0];
    assert_eq!(
        String::from_utf8(new_scope_unit_name(bytes)).unwrap(),
        "bubblebox-12345678-9abc-4ef0-9234-56789abcdef0.scope"
    );
}

#[test]
fn cgroup_paths_lose_their_leading_slash() {
    assert_eq!(relative_cgroup_path(b"/user.slice/a.scope"), b"user.slice/a.scope".to_vec());
    assert_eq!(relative_cgroup_path(b"user.slice"), b"user.slice".to_vec());
    assert_eq!(relative_cgroup_path(b"//x"), b"/x".to_vec());
    assert_eq!(relative_cgroup_path(b""), Vec::<u8>::new());
}

#[test]
fn delegation_covers_requested_and_offered_controllers() {
    let policy = Policy::default().cpu(|c| c).io(|io| io).pids(|p| p);
    let parent = CgroupControllers { cpu: true, memory: true, io: false, pids: true };
    assert_eq!(delegation_writes(&policy, &parent), vec![b"+cpu".to_vec(), b"+pids".to_vec()]);
}

#[test]
fn cgroup_handshake() {
    assert_eq!(check_cgroup_ready(1), Ok(()));
    assert_eq!(
        check_cgroup_ready(0),
        Err(PostSpawnGuest::Other(PostSpawnGuestOther::InvalidCgroupsState))
    );
}

#[test]
fn cpu_weight_kinds_exclude_each_other() {
    let hard = CpuWeight::new(100).unwrap();
    assert_eq!((hard.into_weight(), hard.into_nice()), (Some(100), None));
    let nice = CpuWeight::new_nice(-5).unwrap();
    assert_eq!((nice.into_weight(), nice.into_nice()), (None, Some(-5)));
}
