use linux_perf_event_reader::{
    AttrFlags, CommOrExecRecord, ContextSwitchRecord, DecodeError, Endianness, EventRecord,
    ForkOrExitRecord, LostRecord, Mmap2FileId, Mmap2InodeAndVersion, Mmap2Record, MmapRecord,
    ParsedRecord, PerfEventAttr, RawData, RawEventRecord, RawRecord, RecordParseInfo, RecordType,
    SampleFormat, TaskWasPreempted, ThrottleRecord, CpuMode,
};

fn put(buf: &mut [u8], off: usize, bytes: &[u8]) {
    buf[off..off + bytes.len()].copy_from_slice(bytes);
}

/// A little-endian configuration of 128 bytes with the given sample format and flags.
fn attr_with(sample_type: u64, flags: u64) -> PerfEventAttr {
    let mut b = vec![0u8; 128];
    put(&mut b, 4, &128u32.to_le_bytes());
    put(&mut b, 24, &sample_type.to_le_bytes());
    put(&mut b, 40, &flags.to_le_bytes());
    PerfEventAttr::parse(&mut RawData::Single(&b), Endianness::LittleEndian, None).unwrap()
}

#[test]
fn it_works() {
    // Read the perf_event_attr data.
    let attr_data = vec![
        0, 0, 0, 0, 128, 0, 0, 0, 0, 0, 0, 0, 0, 0, 0, 0, 229, 3, 0, 0, 0, 0, 0, 0, 47, 177, 0,
        0, 0, 0, 0, 0, 4, 0, 0, 0, 0, 0, 0, 0, 3, 183, 215, 97, 0, 0, 0, 0, 0, 0, 0, 0, 0, 0,
        0, 0, 0, 0, 0, 0, 0, 0, 0, 0, 0, 0, 0, 0, 0, 0, 0, 0, 0, 0, 0, 0, 0, 0, 0, 0, 255, 15,
        255, 0, 0, 0, 0, 0, 0, 128, 0, 0, 0, 0, 0, 0, 0, 0, 0, 0, 0, 0, 0, 0, 0, 0, 0, 0, 0, 0,
        0, 0, 0, 0, 0, 0, 0, 0, 0, 0, 0, 0, 0, 0, 0, 0, 0, 0, 104, 0, 0, 0, 0, 0, 0, 0, 128, 0,
        0, 0, 0, 0, 0, 0,
    ];
    let attr =
        PerfEventAttr::parse(&mut RawData::Single(&attr_data[..]), Endianness::LittleEndian, None)
            .unwrap();
    let parse_info = RecordParseInfo::new(&attr, Endianness::LittleEndian);

    let body = b"lG\x08\0lG\x08\0dump_syms\0\0\0\0\0\0\0lG\x08\0lG\x08\08\x1b\xf8\x18hX\x04\0";
    let body_raw_data = RawData::Single(&body[..]);
    let raw_record =
        RawEventRecord::new(RecordType(RecordType::COMM), 0x2000, body_raw_data, parse_info);
    let parsed_record = raw_record.parse().unwrap();

    assert_eq!(
        parsed_record,
        EventRecord::Comm(CommOrExecRecord {
            pid: 542572,
            tid: 542572,
            name: RawData::Single(b"dump_syms"),
            is_execve: true
        })
    );
}

#[test]
fn comm_with_tid_and_identifier_trailer() {
    let attr = attr_with(SampleFormat::TID | SampleFormat::IDENTIFIER, AttrFlags::SAMPLE_ID_ALL);
    let info = RecordParseInfo::new(&attr, Endianness::LittleEndian);
    let mut body = Vec::new();
    body.extend_from_slice(&7i32.to_le_bytes());
    body.extend_from_slice(&8i32.to_le_bytes());
    body.extend_from_slice(b"a\0");
    body.extend_from_slice(&7i32.to_le_bytes());
    body.extend_from_slice(&8i32.to_le_bytes());
    body.extend_from_slice(&0x1122334455667788u64.to_le_bytes());
    let rec = RawRecord::new(RecordType(RecordType::COMM), 0, RawData::Single(&body), info);
    assert_eq!(
        rec.parse().unwrap(),
        ParsedRecord::Comm(CommOrExecRecord {
            pid: 7,
            tid: 8,
            name: RawData::Single(b"a"),
            is_execve: false
        })
    );
    assert_eq!(rec.id(), Some(0x1122334455667788));
    assert_eq!(rec.timestamp(), None);
    let common = rec.common_data().unwrap();
    assert_eq!(common.pid, Some(7));
    assert_eq!(common.tid, Some(8));
    assert_eq!(common.id, Some(0x1122334455667788));
}

#[test]
fn comm_name_without_terminator_runs_to_the_end() {
    let body = b"\x01\0\0\0\x02\0\0\0abc";
    let rec = CommOrExecRecord::parse(RawData::Single(body), 0x2000, Endianness::LittleEndian).unwrap();
    assert_eq!(rec.name.as_slice(), b"abc".to_vec());
    assert!(rec.is_execve);
}

#[test]
fn throttle_reads_timestamp_before_id() {
    let mut body = Vec::new();
    body.extend_from_slice(&100u64.to_le_bytes());
    body.extend_from_slice(&200u64.to_le_bytes());
    let rec = ThrottleRecord::parse(RawData::Single(&body), Endianness::LittleEndian).unwrap();
    assert_eq!(rec, ThrottleRecord { timestamp: 100, id: 200 });
    let lost = LostRecord::parse(RawData::Single(&body), Endianness::LittleEndian).unwrap();
    assert_eq!(lost, LostRecord { id: 100, count: 200 });
}

#[test]
fn fork_needs_its_whole_body() {
    let mut body = Vec::new();
    for v in [1i32, 2, 3, 4] {
        body.extend_from_slice(&v.to_be_bytes());
    }
    body.extend_from_slice(&5u64.to_be_bytes());
    let rec = ForkOrExitRecord::parse(RawData::Single(&body), Endianness::BigEndian).unwrap();
    assert_eq!(rec, ForkOrExitRecord { pid: 1, ppid: 2, tid: 3, ptid: 4, timestamp: 5 });
    assert_eq!(
        ForkOrExitRecord::parse(RawData::Single(&body[..23]), Endianness::BigEndian),
        Err(DecodeError::UnexpectedEnd)
    );
}

fn mmap2_head(misc_build_id: bool, build_id_len: u8) -> Vec<u8> {
    let mut body = Vec::new();
    body.extend_from_slice(&10i32.to_le_bytes());
    body.extend_from_slice(&11i32.to_le_bytes());
    body.extend_from_slice(&0x1000u64.to_le_bytes());
    body.extend_from_slice(&0x2000u64.to_le_bytes());
    body.extend_from_slice(&0x30u64.to_le_bytes());
    if misc_build_id {
        body.push(build_id_len);
        body.extend_from_slice(&[0, 0, 0]);
        for i in 0..20u8 {
            body.push(i + 1);
        }
    } else {
        body.extend_from_slice(&1u32.to_le_bytes());
        body.extend_from_slice(&2u32.to_le_bytes());
        body.extend_from_slice(&3u64.to_le_bytes());
        body.extend_from_slice(&4u64.to_le_bytes());
    }
    body.extend_from_slice(&5u32.to_le_bytes());
    body.extend_from_slice(&6u32.to_le_bytes());
    body.extend_from_slice(b"/lib\0");
    body
}

#[test]
fn mmap2_build_id_longer_than_twenty_is_invalid() {
    let body = mmap2_head(true, 21);
    assert_eq!(
        Mmap2Record::parse(RawData::Single(&body), 0x4000, Endianness::LittleEndian),
        Err(DecodeError::InvalidInput)
    );
}

#[test]
fn mmap2_build_id_is_cut_to_its_length() {
    let body = mmap2_head(true, 3);
    let rec = Mmap2Record::parse(RawData::Single(&body), 0x4002, Endianness::LittleEndian).unwrap();
    assert_eq!(rec.file_id, Mmap2FileId::BuildId(vec![1, 2, 3]));
    assert_eq!(rec.protection, 5);
    assert_eq!(rec.flags, 6);
    assert_eq!(rec.cpu_mode, CpuMode::User);
    assert_eq!(rec.path.as_slice(), b"/lib".to_vec());
}

#[test]
fn mmap2_inode_identity() {
    let body = mmap2_head(false, 0);
    let rec = Mmap2Record::parse(RawData::Split(&body[..30], &body[30..]), 1, Endianness::LittleEndian).unwrap();
    assert_eq!(
        rec.file_id,
        Mmap2FileId::InodeAndVersion(Mmap2InodeAndVersion { major: 1, minor: 2, inode: 3, inode_generation: 4 })
    );
    assert_eq!((rec.pid, rec.tid, rec.address, rec.length, rec.page_offset), (10, 11, 0x1000, 0x2000, 0x30));
    assert_eq!(rec.cpu_mode, CpuMode::Kernel);
}

#[test]
fn mmap_executable_bit() {
    let mut body = Vec::new();
    body.extend_from_slice(&(-1i32).to_le_bytes());
    body.extend_from_slice(&0i32.to_le_bytes());
    body.extend_from_slice(&1u64.to_le_bytes());
    body.extend_from_slice(&2u64.to_le_bytes());
    body.extend_from_slice(&3u64.to_le_bytes());
    body.extend_from_slice(b"[kernel]\0");
    let rec = MmapRecord::parse(RawData::Single(&body), 0x2000, Endianness::LittleEndian).unwrap();
    assert_eq!(rec.pid, -1);
    assert!(!rec.is_executable);
    assert_eq!(rec.path.as_slice(), b"[kernel]".to_vec());
    let rec = MmapRecord::parse(RawData::Single(&body), 0, Endianness::LittleEndian).unwrap();
    assert!(rec.is_executable);
}

#[test]
fn context_switch_from_misc() {
    assert_eq!(
        ContextSwitchRecord::from_misc(0x2000 | 0x4000),
        ContextSwitchRecord::Out { next_pid: None, next_tid: None, preempted: TaskWasPreempted::Yes }
    );
    assert_eq!(
        ContextSwitchRecord::from_misc(0),
        ContextSwitchRecord::In { prev_pid: None, prev_tid: None }
    );
    let body = [3u8, 0, 0, 0, 4, 0, 0, 0];
    assert_eq!(
        ContextSwitchRecord::parse_cpu_wide(RawData::Single(&body), 0x2000, Endianness::LittleEndian),
        Ok(ContextSwitchRecord::Out { next_pid: Some(3), next_tid: Some(4), preempted: TaskWasPreempted::No })
    );
}

#[test]
fn unknown_and_user_kinds_come_back_raw() {
    let attr = attr_with(0, 0);
    let info = RecordParseInfo::new(&attr, Endianness::LittleEndian);
    let body = [1u8, 2, 3];
    let rec = RawRecord::new(RecordType(70), 5, RawData::Single(&body), info);
    assert_eq!(rec.parse(), Ok(ParsedRecord::Raw(rec.clone())));
    assert_eq!(rec.id(), None);
    assert_eq!(rec.timestamp(), None);
    assert_eq!(rec.common_data().unwrap().pid, None);
    let rec = RawRecord::new(RecordType(RecordType::NAMESPACES), 0, RawData::Single(&body), info);
    assert_eq!(rec.parse(), Ok(ParsedRecord::Raw(rec.clone())));
}

#[test]
fn switch_record_parses_from_misc_alone() {
    let attr = attr_with(0, 0);
    let info = RecordParseInfo::new(&attr, Endianness::LittleEndian);
    let rec = RawRecord::new(RecordType(RecordType::SWITCH), 0x2000, RawData::empty(), info);
    assert_eq!(
        rec.parse(),
        Ok(ParsedRecord::ContextSwitch(ContextSwitchRecord::Out {
            next_pid: None,
            next_tid: None,
            preempted: TaskWasPreempted::No
        }))
    );
}

#[test]
fn thread_map_splits_off_its_entries() {
    let attr = attr_with(0, 0);
    let info = RecordParseInfo::new(&attr, Endianness::LittleEndian);
    let mut body = Vec::new();
    body.extend_from_slice(&2u64.to_le_bytes());
    for pid in [100u64, 200] {
        body.extend_from_slice(&pid.to_le_bytes());
        body.extend_from_slice(&[b'x'; 16]);
    }
    body.extend_from_slice(&[0, 0]);
    let rec = RawRecord::new(RecordType(RecordType::THREAD_MAP), 0, RawData::from(&body[..]), info);
    match rec.parse().unwrap() {
        ParsedRecord::ThreadMap(map) => {
            assert_eq!(map.count, 2);
            assert_eq!(map.entries.as_slice(), body[8..56].to_vec());
        }
        other => panic!("unexpected record {:?}", other),
    }
    let short = RawRecord::new(RecordType(RecordType::THREAD_MAP), 0, RawData::from(&body[..40]), info);
    assert_eq!(short.parse(), Err(DecodeError::UnexpectedEnd));
}
