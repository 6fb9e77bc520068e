//! The primitive wire encodings: exact bytes of the varint and of the
//! little-endian integers, and their round trips.

use zenoh_plugin_remote_api::wire::{Reader, Writer};

#[test]
fn varint_layout() {
    let mut w = Writer::new();
    w.put_varint(0);
    w.put_varint(127);
    w.put_varint(128);
    w.put_varint(300);
    w.put_varint(u64::MAX);
    let bytes = w.into_vec();
    assert_eq!(
        &bytes[..6],
        &[0x00, 0x7f, 0x80, 0x01, 0xac, 0x02],
        "seven bits per byte, least significant group first"
    );
    let mut r = Reader::new(&bytes);
    assert_eq!(r.get_varint(), Some(0));
    assert_eq!(r.get_varint(), Some(127));
    assert_eq!(r.get_varint(), Some(128));
    assert_eq!(r.get_varint(), Some(300));
    assert_eq!(r.get_varint(), Some(u64::MAX));
    assert!(r.is_done());
}

#[test]
fn integers_are_little_endian() {
    let mut w = Writer::new();
    w.put_u16(0x1234);
    w.put_u32(0xa1b2_c3d4);
    w.put_u64(0x0102_0304_0506_0708);
    let bytes = w.into_vec();
    assert_eq!(&bytes[..2], &[0x34, 0x12]);
    assert_eq!(&bytes[2..6], &[0xd4, 0xc3, 0xb2, 0xa1]);
    assert_eq!(&bytes[6..], &[8, 7, 6, 5, 4, 3, 2, 1]);
    let mut r = Reader::new(&bytes);
    assert_eq!(r.get_u16(), Some(0x1234));
    assert_eq!(r.get_u32(), Some(0xa1b2_c3d4));
    assert_eq!(r.get_u64(), Some(0x0102_0304_0506_0708));
}

#[test]
fn byte_strings_are_length_prefixed() {
    let mut w = Writer::new();
    w.put_bytes(b"hello");
    w.put_opt_bytes(&None);
    w.put_opt_bytes(&Some(b"x".to_vec()));
    let bytes = w.into_vec();
    assert_eq!(bytes, vec![5, b'h', b'e', b'l', b'l', b'o', 0, 1, 1, b'x']);
    let mut r = Reader::new(&bytes);
    assert_eq!(r.get_bytes(), Some(b"hello".to_vec()));
    assert_eq!(r.get_opt_bytes(), Some(None));
    assert_eq!(r.get_opt_bytes(), Some(Some(b"x".to_vec())));
    assert!(r.is_done());
}

#[test]
fn truncated_reads_fail() {
    let bytes = vec![5u8, b'h', b'i'];
    let mut r = Reader::new(&bytes);
    assert_eq!(r.get_bytes(), None);
    let mut r = Reader::new(&bytes);
    assert_eq!(r.get_u32(), None);
    let mut r = Reader::new(&[0x80u8]);
    assert_eq!(r.get_varint(), None);
}
