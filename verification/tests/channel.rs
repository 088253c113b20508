use dbus_launch::channel::{decode, encode, verdict, Verdict, MESSAGE_LEN};

#[test]
fn message_has_four_bytes() {
    assert_eq!(4, MESSAGE_LEN);
    assert_eq!(4, encode(2).len());
}

#[test]
fn message_is_in_native_byte_order() {
    assert_eq!(2i32.to_ne_bytes(), encode(2));
    assert_eq!((-1i32).to_ne_bytes(), encode(-1));
    assert_eq!(0x0102_0304i32.to_ne_bytes(), encode(0x0102_0304));
    let bytes = encode(0x0102_0304);
    if u16::from_ne_bytes([1, 0]) == 1 {
        assert_eq!([4, 3, 2, 1], bytes);
    } else {
        assert_eq!([1, 2, 3, 4], bytes);
    }
}

#[test]
fn decode_reads_native_byte_order() {
    assert_eq!(2, decode(2i32.to_ne_bytes()));
    assert_eq!(i32::MIN, decode(i32::MIN.to_ne_bytes()));
    assert_eq!(0x0102_0304, decode(0x0102_0304i32.to_ne_bytes()));
}

#[test]
fn message_round_trip() {
    for code in [0, 1, 2, 9, 13, 22, 255, 256, 65536, i32::MAX, -1, -22, i32::MIN] {
        assert_eq!(code, decode(encode(code)));
    }
}

#[test]
fn closed_channel_without_data_means_started() {
    assert_eq!(Verdict::Started, verdict(&[]));
}

#[test]
fn whole_message_means_failed() {
    assert_eq!(Verdict::Failed(libc::ENOENT), verdict(&libc::ENOENT.to_ne_bytes()));
    assert_eq!(Verdict::Failed(libc::EACCES), verdict(&encode(libc::EACCES)));
}

#[test]
fn more_than_a_message_means_broken() {
    assert_eq!(Verdict::Broken, verdict(&[2, 0, 0, 0, 0]));
}

#[test]
fn part_of_a_message_means_broken() {
    assert_eq!(Verdict::Broken, verdict(&[2]));
    assert_eq!(Verdict::Broken, verdict(&[2, 0]));
    assert_eq!(Verdict::Broken, verdict(&[2, 0, 0]));
}
