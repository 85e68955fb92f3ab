use yubihsm::codec::{bytes_eq, copy_bytes, put_bytes, put_u16, put_u32, put_u64, put_u8,
    read_bytes, read_u16, read_u32, read_u64};

#[test]
fn integers_are_written_big_endian() {
    let mut buf = Vec::new();
    put_u8(&mut buf, 0x01);
    put_u16(&mut buf, 0x0203);
    put_u32(&mut buf, 0x0405_0607);
    put_u64(&mut buf, 0x0809_0a0b_0c0d_0e0f);
    assert_eq!(buf, vec![1, 2, 3, 4, 5, 6, 7, 8, 9, 10, 11, 12, 13, 14, 15]);
}

#[test]
fn integers_read_back() {
    let buf = vec![0xff, 0x12, 0x34, 0x56, 0x78, 0x9a, 0xbc, 0xde, 0xf0, 0x11];
    assert_eq!(read_u16(&buf, 1), 0x1234);
    assert_eq!(read_u32(&buf, 1), 0x1234_5678);
    assert_eq!(read_u64(&buf, 1), 0x1234_5678_9abc_def0);
    assert_eq!(read_u16(&buf, 8), 0xf011);
}

#[test]
fn byte_strings_travel_without_prefix() {
    let mut buf = vec![9u8];
    put_bytes(&mut buf, b"abc");
    assert_eq!(buf, vec![9, b'a', b'b', b'c']);
    assert_eq!(read_bytes(&buf, 1, 3), b"ab".to_vec());
    assert_eq!(read_bytes(&buf, 2, 2), Vec::<u8>::new());
}

#[test]
fn equal_byte_strings_are_found_equal() {
    assert!(bytes_eq(b"", b""));
    assert!(bytes_eq(b"abc", b"abc"));
    assert!(!bytes_eq(b"abc", b"abd"));
    assert!(!bytes_eq(b"abc", b"ab"));
    assert_eq!(copy_bytes(b"xyz"), b"xyz".to_vec());
}

#[test]
fn integer_round_trip_on_extreme_values() {
    for x in [0u16, 1, 0x00ff, 0x0100, 0x7fff, 0x8000, 0xffff] {
        let mut buf = vec![0xaa];
        put_u16(&mut buf, x);
        assert_eq!(buf.len(), 3);
        assert_eq!(read_u16(&buf, 1), x);
    }
    for x in [0u32, 1, 0xffff, 0x1_0000, 0x8000_0000, 0xffff_ffff] {
        let mut buf = Vec::new();
        put_u32(&mut buf, x);
        assert_eq!(buf.len(), 4);
        assert_eq!(read_u32(&buf, 0), x);
    }
    for x in [0u64, 1, 0xffff_ffff, 0x1_0000_0000, 0x8000_0000_0000_0000, u64::MAX] {
        let mut buf = Vec::new();
        put_u64(&mut buf, x);
        assert_eq!(buf.len(), 8);
        assert_eq!(read_u64(&buf, 0), x);
    }
}
