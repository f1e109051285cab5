use linux_perf_event_reader::{
    get_record_id, get_record_identifier, get_record_timestamp, AttrFlags, BranchSampleFormat,
    DecodeError, Endianness, ParsedRecord, PerfEventAttr, RawData, RawRecord, ReadFormat,
    RecordIdParseInfo, RecordParseInfo, RecordType, SampleFormat, SampleRecord,
};

fn put(buf: &mut [u8], off: usize, bytes: &[u8]) {
    buf[off..off + bytes.len()].copy_from_slice(bytes);
}

fn attr(sample_type: u64, flags: u64, read_format: u64, branch: u64, regs_user: u64, regs_intr: u64) -> PerfEventAttr {
    let mut b = vec![0u8; 128];
    put(&mut b, 4, &128u32.to_le_bytes());
    put(&mut b, 24, &sample_type.to_le_bytes());
    put(&mut b, 32, &read_format.to_le_bytes());
    put(&mut b, 40, &flags.to_le_bytes());
    put(&mut b, 72, &branch.to_le_bytes());
    put(&mut b, 80, &regs_user.to_le_bytes());
    put(&mut b, 96, &regs_intr.to_le_bytes());
    PerfEventAttr::parse(&mut RawData::Single(&b), Endianness::LittleEndian, None).unwrap()
}

fn w(body: &mut Vec<u8>, v: u64) {
    body.extend_from_slice(&v.to_le_bytes());
}

#[test]
fn sample_sections_are_read_in_order() {
    let sf = SampleFormat::IDENTIFIER
        | SampleFormat::IP
        | SampleFormat::TID
        | SampleFormat::TIME
        | SampleFormat::ADDR
        | SampleFormat::ID
        | SampleFormat::STREAM_ID
        | SampleFormat::CPU
        | SampleFormat::PERIOD
        | SampleFormat::READ
        | SampleFormat::CALLCHAIN
        | SampleFormat::RAW
        | SampleFormat::BRANCH_STACK
        | SampleFormat::REGS_USER
        | SampleFormat::STACK_USER
        | SampleFormat::WEIGHT
        | SampleFormat::DATA_SRC
        | SampleFormat::TRANSACTION
        | SampleFormat::REGS_INTR
        | SampleFormat::PHYS_ADDR
        | SampleFormat::AUX
        | SampleFormat::DATA_PAGE_SIZE
        | SampleFormat::CODE_PAGE_SIZE;
    let a = attr(
        sf,
        0,
        ReadFormat::GROUP | ReadFormat::ID | ReadFormat::TOTAL_TIME_ENABLED,
        BranchSampleFormat::HW_INDEX,
        0b1010,
        0b111,
    );
    let info = RecordParseInfo::new(&a, Endianness::LittleEndian);
    assert_eq!(info.user_regs_count, 2);
    assert_eq!(info.intr_regs_count, 3);
    let mut body = Vec::new();
    w(&mut body, 0xAAAA); // identifier
    w(&mut body, 0x400000); // ip
    body.extend_from_slice(&5i32.to_le_bytes());
    body.extend_from_slice(&6i32.to_le_bytes());
    w(&mut body, 1234); // time
    w(&mut body, 0xdead); // addr
    w(&mut body, 0xBBBB); // id
    w(&mut body, 77); // stream id
    body.extend_from_slice(&3u32.to_le_bytes());
    body.extend_from_slice(&0u32.to_le_bytes());
    w(&mut body, 1000); // period
    w(&mut body, 2); // read: nr
    w(&mut body, 9); // time enabled
    for v in [1u64, 11, 2, 22] {
        w(&mut body, v); // value, id
    }
    w(&mut body, 2); // callchain length
    w(&mut body, 0x10);
    w(&mut body, 0x20);
    body.extend_from_slice(&3u32.to_le_bytes()); // raw size
    body.extend_from_slice(&[7, 8, 9]);
    w(&mut body, 1); // branch nr
    w(&mut body, 0); // hw index
    for v in [1u64, 2, 3] {
        w(&mut body, v);
    }
    w(&mut body, 2); // user regs abi
    w(&mut body, 101);
    w(&mut body, 103);
    w(&mut body, 4); // stack size
    body.extend_from_slice(&[1, 2, 3, 4]);
    w(&mut body, 4); // dynamic size
    w(&mut body, 50); // weight
    w(&mut body, 51); // data src
    w(&mut body, 52); // transaction
    w(&mut body, 2); // intr regs abi
    for v in [1u64, 2, 3] {
        w(&mut body, v);
    }
    w(&mut body, 0xfeed); // phys addr
    w(&mut body, 2); // aux size
    body.extend_from_slice(&[0, 0]);
    w(&mut body, 4096); // data page size
    w(&mut body, 8192); // code page size
    let expected_len = 8 * 8 + 8 + (8 + 8 + 32) + (8 + 16) + (4 + 3) + (8 + 8 + 24) + (8 + 16)
        + (8 + 4 + 8) + 24 + (8 + 24) + 8 + (8 + 2) + 16;
    assert_eq!(body.len(), expected_len);

    for k in [0usize, 13, 100, body.len()] {
        let view = RawData::Split(&body[..k], &body[k..]);
        let rec = SampleRecord::parse(view, &info).unwrap();
        assert_eq!(rec.id, Some(0xAAAA));
        assert_eq!(rec.ip, Some(0x400000));
        assert_eq!(rec.pid, Some(5));
        assert_eq!(rec.tid, Some(6));
        assert_eq!(rec.timestamp, Some(1234));
        assert_eq!(rec.addr, Some(0xdead));
        assert_eq!(rec.stream_id, Some(77));
        assert_eq!(rec.cpu, Some(3));
        assert_eq!(rec.period, Some(1000));
        let cc = rec.callchain.unwrap();
        assert_eq!(cc.len(), 2);
        assert_eq!(cc.get(0), Some(0x10));
        assert_eq!(cc.get(1), Some(0x20));
        assert_eq!(rec.raw.unwrap().as_slice(), vec![7, 8, 9]);
        let regs = rec.user_regs.unwrap();
        assert_eq!(regs.get(1), Some(101));
        assert_eq!(regs.get(3), Some(103));
        assert_eq!(regs.get(2), None);
        assert_eq!(regs.get(64), None);
        let (stack, dynamic_size) = rec.user_stack.unwrap();
        assert_eq!(stack.as_slice(), vec![1, 2, 3, 4]);
        assert_eq!(dynamic_size, 4);
        assert_eq!(rec.phys_addr, Some(0xfeed));
        assert_eq!(rec.data_page_size, Some(4096));
        assert_eq!(rec.code_page_size, Some(8192));

        let raw = RawRecord::new(RecordType(RecordType::SAMPLE), 0, view, info);
        assert_eq!(raw.timestamp(), Some(1234));
        assert_eq!(raw.id(), Some(0xAAAA));
        let common = raw.common_data().unwrap();
        assert_eq!(common.timestamp, Some(1234));
        assert_eq!(common.id, Some(0xAAAA));
        assert!(matches!(raw.parse(), Ok(ParsedRecord::Sample(_))));
    }
    for cut in [1usize, 8, 100, body.len() - 1] {
        assert_eq!(
            SampleRecord::parse(RawData::Single(&body[..body.len() - cut]), &info),
            Err(DecodeError::UnexpectedEnd)
        );
    }
}

#[test]
fn sample_with_no_flags_is_empty() {
    let a = attr(0, 0, 0, 0, 0, 0);
    let info = RecordParseInfo::new(&a, Endianness::LittleEndian);
    let rec = SampleRecord::parse(RawData::empty(), &info).unwrap();
    assert_eq!(rec.id, None);
    assert_eq!(rec.callchain, None);
    assert_eq!(rec.user_stack, None);
}

#[test]
fn sample_plain_id_and_zero_abi() {
    let a = attr(SampleFormat::TIME | SampleFormat::ID | SampleFormat::REGS_USER | SampleFormat::STACK_USER, 0, 0, 0, 0xff, 0);
    let info = RecordParseInfo::new(&a, Endianness::LittleEndian);
    let mut body = Vec::new();
    w(&mut body, 42);
    w(&mut body, 9);
    w(&mut body, 0); // abi 0: no registers follow
    w(&mut body, 0); // empty stack, no dynamic size
    let rec = SampleRecord::parse(RawData::Single(&body), &info).unwrap();
    assert_eq!(rec.timestamp, Some(42));
    assert_eq!(rec.id, Some(9));
    assert_eq!(rec.user_regs, None);
    let (stack, dynamic_size) = rec.user_stack.unwrap();
    assert!(stack.is_empty());
    assert_eq!(dynamic_size, 0);
    assert_eq!(info.sample_record_time_offset_from_start, Some(0));
    assert_eq!(info.id_parse_info.sample_record_id_offset_from_start, Some(8));
}

#[test]
fn nonsample_identifier_wins_over_id() {
    let sf = SampleFormat::TID | SampleFormat::TIME | SampleFormat::ID | SampleFormat::STREAM_ID
        | SampleFormat::CPU | SampleFormat::IDENTIFIER;
    let a = attr(sf, AttrFlags::SAMPLE_ID_ALL, 0, 0, 0, 0);
    let info = RecordParseInfo::new(&a, Endianness::LittleEndian);
    assert_eq!(info.common_data_offset_from_end, Some(48));
    assert_eq!(info.nonsample_record_time_offset_from_end, Some(40));
    assert_eq!(info.id_parse_info.nonsample_record_id_offset_from_end, Some(8));
    let mut body = Vec::new();
    w(&mut body, 100); // lost id
    w(&mut body, 3); // lost count
    body.extend_from_slice(&1i32.to_le_bytes());
    body.extend_from_slice(&2i32.to_le_bytes());
    w(&mut body, 555); // time
    w(&mut body, 0x1111); // id
    w(&mut body, 0x2222); // stream id
    body.extend_from_slice(&4u32.to_le_bytes());
    body.extend_from_slice(&0u32.to_le_bytes());
    w(&mut body, 0x3333); // identifier
    let rec = RawRecord::new(RecordType(RecordType::LOST), 0, RawData::Single(&body), info);
    let common = rec.common_data().unwrap();
    assert_eq!(common.pid, Some(1));
    assert_eq!(common.tid, Some(2));
    assert_eq!(common.timestamp, Some(555));
    assert_eq!(common.id, Some(0x3333));
    assert_eq!(common.stream_id, Some(0x2222));
    assert_eq!(common.cpu, Some(4));
    assert_eq!(rec.timestamp(), Some(555));
    assert_eq!(rec.id(), Some(0x3333));
    assert_eq!(
        get_record_identifier(RecordType(RecordType::LOST), RawData::Single(&body), true, Endianness::LittleEndian),
        Some(0x3333)
    );
    assert_eq!(
        get_record_identifier(RecordType(RecordType::LOST), RawData::Single(&body), false, Endianness::LittleEndian),
        None
    );
}

#[test]
fn sample_identifier_wins_over_id() {
    let a = attr(SampleFormat::IDENTIFIER | SampleFormat::ID, 0, 0, 0, 0, 0);
    let info = RecordParseInfo::new(&a, Endianness::LittleEndian);
    let mut body = Vec::new();
    w(&mut body, 7);
    w(&mut body, 8);
    let rec = SampleRecord::parse(RawData::Single(&body), &info).unwrap();
    assert_eq!(rec.id, Some(7));
    assert_eq!(
        get_record_identifier(RecordType(RecordType::SAMPLE), RawData::Single(&body), false, Endianness::LittleEndian),
        Some(7)
    );
}

#[test]
fn plain_id_offsets_in_trailer() {
    let sf = SampleFormat::TIME | SampleFormat::ID | SampleFormat::CPU;
    let a = attr(sf, AttrFlags::SAMPLE_ID_ALL, 0, 0, 0, 0);
    let info = RecordParseInfo::new(&a, Endianness::LittleEndian);
    assert_eq!(info.id_parse_info.nonsample_record_id_offset_from_end, Some(16));
    let mut body = vec![0xffu8; 5];
    w(&mut body, 10); // time
    w(&mut body, 20); // id
    w(&mut body, 1); // cpu + reserved
    let data = RawData::Single(&body);
    assert_eq!(get_record_timestamp(RecordType(RecordType::COMM), data, &info), Some(10));
    assert_eq!(get_record_id(RecordType(RecordType::COMM), data, &info.id_parse_info, Endianness::LittleEndian), Some(20));
    assert_eq!(get_record_id(RecordType(100), data, &info.id_parse_info, Endianness::LittleEndian), None);
    let short = RawData::Single(&body[..10]);
    assert_eq!(get_record_timestamp(RecordType(RecordType::COMM), short, &info), None);
    assert_eq!(
        RawRecord::new(RecordType(RecordType::COMM), 0, short, info).common_data(),
        Err(DecodeError::UnexpectedEnd)
    );
}

#[test]
fn no_trailer_without_sample_id_all() {
    let a = attr(SampleFormat::TIME | SampleFormat::ID, 0, 0, 0, 0, 0);
    let info = RecordParseInfo::new(&a, Endianness::LittleEndian);
    assert_eq!(info.common_data_offset_from_end, None);
    assert_eq!(info.nonsample_record_time_offset_from_end, None);
    let ids = RecordIdParseInfo::new(&a);
    assert_eq!(ids.nonsample_record_id_offset_from_end, None);
    assert_eq!(ids.sample_record_id_offset_from_start, Some(8));
    let body = [0u8; 16];
    let rec = RawRecord::new(RecordType(RecordType::EXIT), 0, RawData::Single(&body), info);
    assert_eq!(rec.timestamp(), None);
    assert_eq!(rec.common_data().unwrap().timestamp, None);
}
