use bubblebox::meowix::ids::{Gid, Uid};
use bubblebox::policy::namespace::{TimeOffset, TimeOffsetNanoseconds, TimeOffsetSeconds};
use bubblebox::spawn::errors::{PostSpawnGuest, PostSpawnGuestOther};
use bubblebox::spawn::namespace::{
    format_id_map, format_timens_offset, id_map_buffer_size, simple_uid_gid_map_writes, timens_offset_buffer_size,
    timens_offsets_writes, IdMapFile, TimeClock,
};

fn offset(seconds: i64, nanoseconds: u32) -> TimeOffset {
    TimeOffset::default()
        .set_seconds(TimeOffsetSeconds::new(seconds).unwrap())
        .set_nanoseconds(TimeOffsetNanoseconds::new(nanoseconds).unwrap())
}

fn text(bytes: &[u8]) -> String {
    String::from_utf8(bytes.to_vec()).unwrap()
}

#[test]
fn buffer_sizes_fit_the_widest_values() {
    assert_eq!(timens_offset_buffer_size(), 41);
    assert_eq!(id_map_buffer_size(), 23);
}

#[test]
fn timens_offsets_lines() {
    let lines = timens_offsets_writes(Some(offset(5, 100)), Some(offset(-3, 0)));
    let lines: Vec<String> = lines.iter().map(|l| text(l)).collect();
    assert_eq!(lines, vec!["monotonic 5 100".to_string(), "boottime -3 0".to_string()]);
    assert!(timens_offsets_writes(None, None).is_empty());
    let only_boottime = timens_offsets_writes(None, Some(offset(0, 999_999_999)));
    assert_eq!(text(&only_boottime[0]), "boottime 0 999999999");
}

#[test]
fn timens_offset_of_the_widest_value_fits() {
    let widest = TimeOffset::default()
        .set_seconds(TimeOffsetSeconds::new(-9_223_372_036).unwrap())
        .set_nanoseconds(TimeOffsetNanoseconds::new(999_999_999).unwrap());
    let lines = timens_offsets_writes(Some(widest), None);
    assert_eq!(text(&lines[0]), "monotonic -9223372036 999999999");
}

#[test]
fn seconds_beyond_ktime_sec_max_are_refused() {
    assert!(TimeOffsetSeconds::new(i64::MIN).is_none());
    assert!(TimeOffsetSeconds::new(9_223_372_037).is_none());
    assert!(TimeOffsetSeconds::new(-9_223_372_037).is_none());
    assert_eq!(TimeOffsetSeconds::new(9_223_372_036).map(|s| s.into_raw()), Some(9_223_372_036));
}

#[test]
fn timens_offset_in_a_small_buffer_fails() {
    let mut buffer = [0u8; 10];
    assert_eq!(
        format_timens_offset(&mut buffer, TimeClock::Monotonic, &offset(1, 1)),
        Err(PostSpawnGuest::Other(PostSpawnGuestOther::BufferTooSmall))
    );
    let mut buffer = [0u8; 16];
    let n = format_timens_offset(&mut buffer, TimeClock::Boottime, &offset(12, 3)).unwrap();
    assert_eq!(&buffer[..n], b"boottime 12 3");
}

#[test]
fn simple_id_maps() {
    let writes = simple_uid_gid_map_writes(
        Uid::from_raw(1000).unwrap(),
        Gid::from_raw(100).unwrap(),
        Uid::from_raw(0).unwrap(),
        Gid::from_raw(0).unwrap(),
        true,
    );
    let writes: Vec<(&str, String)> = writes.iter().map(|(f, c)| (f.file_name(), text(c))).collect();
    assert_eq!(
        writes,
        vec![
            ("uid_map", "0 1000 1".to_string()),
            ("setgroups", "deny".to_string()),
            ("gid_map", "0 100 1".to_string()),
        ]
    );
    let writes = simple_uid_gid_map_writes(
        Uid::from_raw(4294967294).unwrap(),
        Gid::from_raw(4294967294).unwrap(),
        Uid::from_raw(4294967294).unwrap(),
        Gid::from_raw(4294967294).unwrap(),
        false,
    );
    assert_eq!(writes.len(), 2);
    assert_eq!(writes[0].0, IdMapFile::UidMap);
    assert_eq!(text(&writes[1].1), "4294967294 4294967294 1");
}

#[test]
fn id_map_in_a_small_buffer_fails() {
    let mut buffer = [0u8; 5];
    assert_eq!(
        format_id_map(&mut buffer, 10, 20),
        Err(PostSpawnGuest::Other(PostSpawnGuestOther::BufferTooSmall))
    );
    let mut buffer = [0u8; 7];
    assert_eq!(format_id_map(&mut buffer, 10, 20), Ok(7));
    assert_eq!(&buffer, b"10 20 1");
}
