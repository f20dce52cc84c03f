use bubblebox::meowix::errno::Errno;
use bubblebox::meowix::errors::Netlink;
use bubblebox::meowix::netlink::{
    finish_netlink_message, parse_ack, write_add_loopback_address, write_attribute,
    write_bring_up_loopback_device,
};

#[test]
fn add_loopback_address_message() {
    let mut buffer = [0xaau8; 64];
    let mut sequence = 7u32;
    let (seq, len) = write_add_loopback_address(&mut buffer, 1, &mut sequence).unwrap();
    assert_eq!((seq, len, sequence), (7, 40, 8));
    let expected: [u8; 40] = [
        40, 0, 0, 0, 20, 0, 0x05, 0x06, 7, 0, 0, 0, 0, 0, 0, 0, // nlmsghdr
        2, 8, 0x80, 254, 1, 0, 0, 0, // ifaddrmsg
        8, 0, 2, 0, 127, 0, 0, 1, // IFA_LOCAL
        8, 0, 1, 0, 127, 0, 0, 1, // IFA_ADDRESS
    ];
    assert_eq!(&buffer[..40], &expected);
}

#[test]
fn bring_up_loopback_message() {
    let mut buffer = [0u8; 32];
    let mut sequence = 0u32;
    let (seq, len) = write_bring_up_loopback_device(&mut buffer, 0x0102, &mut sequence).unwrap();
    assert_eq!((seq, len, sequence), (0, 32, 1));
    let expected: [u8; 32] = [
        32, 0, 0, 0, 16, 0, 5, 0, 0, 0, 0, 0, 0, 0, 0, 0, // nlmsghdr
        0, 0, 0, 0, 2, 1, 0, 0, 1, 0, 0, 0, 1, 0, 0, 0, // ifinfomsg
    ];
    assert_eq!(buffer, expected);
}

#[test]
fn message_errors() {
    let mut small = [0u8; 39];
    let mut sequence = 3u32;
    assert_eq!(write_add_loopback_address(&mut small, 1, &mut sequence), Err(Netlink::BufferTooSmall));
    assert_eq!(sequence, 3);
    let mut buffer = [0u8; 64];
    let mut exhausted = u32::MAX;
    assert_eq!(
        write_bring_up_loopback_device(&mut buffer, 1, &mut exhausted),
        Err(Netlink::IntegerOverflow)
    );
    assert_eq!(exhausted, u32::MAX);
    let mut sequence = 5u32;
    assert_eq!(finish_netlink_message(&mut buffer, 100, 1, 1, &mut sequence), Err(Netlink::BufferTooSmall));
    assert_eq!(sequence, 6);
}

#[test]
fn attributes_are_padded() {
    let mut buffer = [0xffu8; 16];
    let mut offset = 0usize;
    write_attribute(&mut buffer, &mut offset, 3, b"abcde").unwrap();
    assert_eq!(offset, 12);
    assert_eq!(&buffer[..9], &[9, 0, 3, 0, b'a', b'b', b'c', b'd', b'e']);
    let mut offset = 8usize;
    assert_eq!(write_attribute(&mut buffer, &mut offset, 3, b"abcde"), Err(Netlink::BufferTooSmall));
}

fn header(len: u32, ty: u16, seq: u32) -> Vec<u8> {
    let mut h = Vec::new();
    h.extend_from_slice(&len.to_le_bytes());
    h.extend_from_slice(&ty.to_le_bytes());
    h.extend_from_slice(&0u16.to_le_bytes());
    h.extend_from_slice(&seq.to_le_bytes());
    h.extend_from_slice(&0u32.to_le_bytes());
    h
}

fn error_message(seq: u32, error: i32) -> Vec<u8> {
    let mut m = header(36, 2, seq);
    m.extend_from_slice(&error.to_le_bytes());
    m.extend_from_slice(&header(16, 20, seq));
    m
}

#[test]
fn acknowledgements() {
    let ok = error_message(4, 0);
    assert_eq!(parse_ack(&ok, ok.len(), 4), Some(Ok(())));
    let eperm = error_message(4, -1);
    assert_eq!(
        parse_ack(&eperm, eperm.len(), 4),
        Some(Err(Netlink::Errno(Errno::from_raw_os_error(1))))
    );
    assert_eq!(parse_ack(&ok, ok.len(), 5), Some(Err(Netlink::SequenceMismatch)));
    assert_eq!(parse_ack(&ok, 10, 4), None);
    let done = header(16, 3, 4);
    assert_eq!(parse_ack(&done, done.len(), 4), Some(Ok(())));
    let malformed = header(8, 3, 4);
    assert_eq!(parse_ack(&malformed, malformed.len(), 4), Some(Err(Netlink::MalformedHeader)));
    let truncated = header(64, 3, 4);
    assert_eq!(parse_ack(&truncated, truncated.len(), 4), Some(Err(Netlink::TruncatedMessage)));
    let short_error = header(20, 2, 4);
    let mut padded = short_error.clone();
    padded.extend_from_slice(&[0, 0, 0, 0]);
    assert_eq!(parse_ack(&padded, padded.len(), 4), Some(Err(Netlink::IncorrectSize)));
    let mut skipped = header(18, 16, 4);
    skipped.extend_from_slice(&[0, 0, 0, 0]);
    skipped.extend_from_slice(&error_message(4, 0));
    assert_eq!(parse_ack(&skipped, skipped.len(), 4), Some(Ok(())));
    let mut unanswered = header(16, 16, 4);
    unanswered.extend_from_slice(&[1, 2, 3]);
    assert_eq!(parse_ack(&unanswered, unanswered.len(), 4), None);
}

#[test]
fn attribute_padding_and_tail_are_left_alone() {
    let mut buffer = [0u8; 16];
    let mut offset = 0;
    assert_eq!(write_attribute(&mut buffer, &mut offset, 1, &[1, 2, 3]), Ok(()));
    assert_eq!(offset, 8);
    assert_eq!(&buffer[..8], &[7, 0, 1, 0, 1, 2, 3, 0]);
    assert_eq!(&buffer[8..], &[0; 8]);
}
