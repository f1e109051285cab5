use linux_perf_event_reader::{decode_u16, decode_u32, decode_u64, DecodeError, Endianness, RawData, RawDataU64};

#[test]
fn test_reading_from_split() {
    let full = b"CDEF===AB"; // 0123___78"
    assert_eq!(full.len(), 9);
    let mut split = RawData::Split(&full[7..9], &full[0..4]);
    let mut dest = vec![0; 6];
    split.read_exact(&mut dest).unwrap();
    assert_eq!(&dest, b"ABCDEF");
}

#[test]
fn read_exact_too_long_leaves_view_unchanged() {
    let mut data = RawData::Split(b"ab", b"cd");
    let mut dest = vec![0; 5];
    assert_eq!(data.read_exact(&mut dest), Err(DecodeError::UnexpectedEnd));
    assert_eq!(data, RawData::Split(b"ab", b"cd"));
    assert_eq!(dest, vec![0; 5]);
}

fn all_splits(bytes: &[u8]) -> Vec<RawData<'_>> {
    let mut views = vec![RawData::Single(bytes)];
    for k in 0..=bytes.len() {
        views.push(RawData::Split(&bytes[..k], &bytes[k..]));
    }
    views
}

#[test]
fn split_views_read_like_single_views() {
    let bytes: &[u8] = b"\x01\x02\x03\x04\x05\x06\x07\x08\x09\x0a\x0b\x0c";
    for view in all_splits(bytes) {
        let mut v = view;
        assert_eq!(v.read_u32(Endianness::LittleEndian), Ok(0x04030201));
        assert_eq!(v.read_u16(Endianness::BigEndian), Ok(0x0506));
        assert_eq!(v.read_u8(), Ok(7));
        assert_eq!(v.read_u64(Endianness::LittleEndian), Err(DecodeError::UnexpectedEnd));
        assert_eq!(v.as_slice(), vec![8, 9, 10, 11, 12]);
        let mut w = view;
        let prefix = w.split_off_prefix(5).unwrap();
        assert_eq!(prefix.as_slice(), bytes[..5].to_vec());
        assert_eq!(w.as_slice(), bytes[5..].to_vec());
        let mut x = view;
        x.skip(10).unwrap();
        assert_eq!(x.as_slice(), bytes[10..].to_vec());
        assert_eq!(x.skip(3), Err(DecodeError::UnexpectedEnd));
        assert_eq!(x.len(), 2);
        assert_eq!(view.get(3..9).unwrap().as_slice(), bytes[3..9].to_vec());
        assert_eq!(view.get(0..12).unwrap().as_slice(), bytes.to_vec());
        assert!(view.get(4..13).is_none());
        assert!(view.get(12..12).unwrap().is_empty());
        let words = RawDataU64::from_raw_data(view, Endianness::BigEndian);
        assert_eq!(words.len(), 1);
        assert_eq!(words.get(0), Some(0x0102030405060708));
        assert_eq!(words.get(1), None);
    }
}

#[test]
fn split_views_find_strings_like_single_views() {
    let bytes: &[u8] = b"abc\0de\0f";
    for view in all_splits(bytes) {
        let mut v = view;
        assert_eq!(v.read_string().unwrap().as_slice(), b"abc".to_vec());
        assert_eq!(v.read_string().unwrap().as_slice(), b"de".to_vec());
        assert_eq!(v.read_string(), None);
        assert_eq!(v.as_slice(), b"f".to_vec());
    }
}

#[test]
fn read_string_without_terminator_keeps_view() {
    let mut v = RawData::Split(b"ab", b"cd");
    assert_eq!(v.read_string(), None);
    assert_eq!(v, RawData::Split(b"ab", b"cd"));
}

#[test]
fn empty_view_has_no_bytes() {
    let v = RawData::empty();
    assert!(v.is_empty());
    assert_eq!(v.len(), 0);
}

#[test]
fn integers_decode_in_both_byte_orders() {
    let b: &[u8] = &[0x12, 0x34, 0x56, 0x78, 0x9a, 0xbc, 0xde, 0xf0];
    assert_eq!(decode_u16(b, Endianness::LittleEndian), 0x3412);
    assert_eq!(decode_u16(b, Endianness::BigEndian), 0x1234);
    assert_eq!(decode_u32(b, Endianness::LittleEndian), 0x78563412);
    assert_eq!(decode_u32(b, Endianness::BigEndian), 0x12345678);
    assert_eq!(decode_u64(b, Endianness::LittleEndian), 0xf0debc9a78563412);
    assert_eq!(decode_u64(b, Endianness::BigEndian), 0x123456789abcdef0);
}

#[test]
fn signed_reads_keep_the_sign() {
    let mut v = RawData::Single(&[0xff, 0xff, 0xff, 0xff]);
    assert_eq!(v.read_i32(Endianness::LittleEndian), Ok(-1));
}

#[test]
fn words_in_little_endian_drop_partial_tail() {
    let bytes: &[u8] = &[1, 0, 0, 0, 0, 0, 0, 0, 2, 0, 0, 0, 0, 0, 0, 0, 9];
    let words = RawDataU64::from_raw_data(RawData::Split(&bytes[..3], &bytes[3..]), Endianness::LittleEndian);
    assert_eq!(words.len(), 2);
    assert_eq!(words.get(0), Some(1));
    assert_eq!(words.get(1), Some(2));
    assert_eq!(words.get(2), None);
    assert!(!words.is_empty());
}
