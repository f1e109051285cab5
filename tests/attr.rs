use linux_perf_event_reader::{
    AttrFlags, ClockId, CpuMode, DecodeError, Endianness, HardwareCacheId, HardwareCacheOp,
    HardwareCacheOpResult, HardwareEventId, HwBreakpointAddr, HwBreakpointLen, HwBreakpointType,
    IpSkidConstraint, PerfClock, PerfEventAttr, PerfEventHeader, PerfEventType, PmuTypeId,
    RawData, RecordType, SampleFormat, SamplingPolicy, SoftwareCounterType, WakeupPolicy,
};

fn put(buf: &mut [u8], off: usize, bytes: &[u8]) {
    buf[off..off + bytes.len()].copy_from_slice(bytes);
}

fn attr_bytes(declared: u32, len: usize) -> Vec<u8> {
    let mut b = vec![0u8; len];
    put(&mut b, 4, &declared.to_be_bytes());
    put(&mut b, 16, &4000u64.to_be_bytes());
    put(&mut b, 24, &SampleFormat::TIME.to_be_bytes());
    put(&mut b, 48, &3u32.to_be_bytes());
    if len >= 72 {
        put(&mut b, 72, &0x20000u64.to_be_bytes());
    }
    if len >= 96 {
        put(&mut b, 80, &0xffu64.to_be_bytes());
        put(&mut b, 88, &8192u32.to_be_bytes());
    }
    if len >= 104 {
        put(&mut b, 96, &0x3u64.to_be_bytes());
    }
    if len >= 128 {
        put(&mut b, 120, &99u64.to_be_bytes());
    }
    b
}

#[test]
fn oldest_version_defaults_newer_fields() {
    let b = attr_bytes(64, 200);
    let mut data = RawData::Single(&b);
    let attr = PerfEventAttr::parse(&mut data, Endianness::BigEndian, None).unwrap();
    assert_eq!(data.len(), 200 - 64);
    assert_eq!(attr.sampling_policy, SamplingPolicy::Period(4000));
    assert_eq!(attr.wakeup_policy, WakeupPolicy::EventCount(3));
    assert!(attr.sample_format.contains(SampleFormat::TIME));
    assert_eq!(attr.branch_sample_format.bits(), 0);
    assert_eq!(attr.sample_regs_user, 0);
    assert_eq!(attr.sample_stack_user, 0);
    assert_eq!(attr.sample_regs_intr, 0);
    assert_eq!(attr.sig_data, 0);
    assert_eq!(attr.clock, PerfClock::Default);
    assert_eq!(attr.type_, PerfEventType::Hardware(HardwareEventId::CpuCycles, PmuTypeId(0)));
}

#[test]
fn newer_version_equals_explicit_override() {
    let b = attr_bytes(136, 140);
    let mut d1 = RawData::Single(&b);
    let mut d2 = RawData::Split(&b[..50], &b[50..]);
    let a1 = PerfEventAttr::parse(&mut d1, Endianness::BigEndian, None).unwrap();
    let a2 = PerfEventAttr::parse(&mut d2, Endianness::BigEndian, Some(136)).unwrap();
    assert_eq!(a1, a2);
    assert_eq!(d1.len(), 4);
    assert_eq!(d2.len(), 4);
    assert_eq!(a1.sig_data, 99);
    assert_eq!(a1.sample_regs_intr, 3);
    assert_eq!(a1.sample_regs_user, 0xff);
    assert_eq!(a1.sample_stack_user, 8192);
    assert_eq!(a1.branch_sample_format.bits(), 0x20000);
}

#[test]
fn override_can_shrink_the_version() {
    let b = attr_bytes(128, 128);
    let attr = PerfEventAttr::parse(&mut RawData::Single(&b), Endianness::BigEndian, Some(80)).unwrap();
    assert_eq!(attr.branch_sample_format.bits(), 0x20000);
    assert_eq!(attr.sample_regs_user, 0);
    assert_eq!(attr.sig_data, 0);
}

#[test]
fn attr_errors() {
    let b = attr_bytes(63, 128);
    assert_eq!(
        PerfEventAttr::parse(&mut RawData::Single(&b), Endianness::BigEndian, None),
        Err(DecodeError::InvalidInput)
    );
    let b = attr_bytes(128, 100);
    assert_eq!(
        PerfEventAttr::parse(&mut RawData::Single(&b), Endianness::BigEndian, None),
        Err(DecodeError::UnexpectedEnd)
    );
    assert_eq!(
        PerfEventAttr::parse(&mut RawData::Single(&b[..10]), Endianness::BigEndian, None),
        Err(DecodeError::UnexpectedEnd)
    );
    // An unknown hardware event id.
    let mut b = attr_bytes(128, 128);
    put(&mut b, 8, &0x42u64.to_be_bytes());
    assert_eq!(
        PerfEventAttr::parse(&mut RawData::Single(&b), Endianness::BigEndian, None),
        Err(DecodeError::InvalidInput)
    );
    // An unknown clock id with the clock flag set.
    let mut b = attr_bytes(128, 128);
    put(&mut b, 40, &AttrFlags::USE_CLOCKID.to_be_bytes());
    put(&mut b, 92, &77u32.to_be_bytes());
    assert_eq!(
        PerfEventAttr::parse(&mut RawData::Single(&b), Endianness::BigEndian, None),
        Err(DecodeError::InvalidInput)
    );
    put(&mut b, 92, &1u32.to_be_bytes());
    let attr = PerfEventAttr::parse(&mut RawData::Single(&b), Endianness::BigEndian, None).unwrap();
    assert_eq!(attr.clock, PerfClock::ClockId(ClockId::Monotonic));
}

#[test]
fn attr_policies_follow_flags() {
    let mut b = attr_bytes(128, 128);
    put(&mut b, 40, &(AttrFlags::FREQ | AttrFlags::WATERMARK | AttrFlags::PRECISE_IP_BIT_16).to_be_bytes());
    let attr = PerfEventAttr::parse(&mut RawData::Single(&b), Endianness::BigEndian, None).unwrap();
    assert_eq!(attr.sampling_policy, SamplingPolicy::Frequency(4000));
    assert_eq!(attr.wakeup_policy, WakeupPolicy::Watermark(3));
    assert_eq!(attr.flags.ip_skid_constraint(), IpSkidConstraint::ZeroSkid);
    put(&mut b, 16, &0u64.to_be_bytes());
    put(&mut b, 40, &0u64.to_be_bytes());
    let attr = PerfEventAttr::parse(&mut RawData::Single(&b), Endianness::BigEndian, None).unwrap();
    assert_eq!(attr.sampling_policy, SamplingPolicy::NoSampling);
    assert_eq!(attr.flags.ip_skid_constraint(), IpSkidConstraint::ArbitrarySkid);
}

#[test]
fn event_types_decode() {
    assert_eq!(
        PerfEventType::parse(0, 0, 0x0000_0008_0000_0001, 0, 0),
        Some(PerfEventType::Hardware(HardwareEventId::Instructions, PmuTypeId(8)))
    );
    assert_eq!(PerfEventType::parse(0, 0, 10, 0, 0), None);
    assert_eq!(PerfEventType::parse(1, 0, 9, 0, 0), Some(PerfEventType::Software(SoftwareCounterType::Dummy)));
    assert_eq!(PerfEventType::parse(1, 0, 12, 0, 0), None);
    assert_eq!(PerfEventType::parse(2, 0, 1234, 0, 0), Some(PerfEventType::Tracepoint(1234)));
    assert_eq!(
        PerfEventType::parse(3, 0, 0x0000_0002_0001_0102, 0, 0),
        Some(PerfEventType::HwCache(HardwareCacheId::Ll, HardwareCacheOp::Write, HardwareCacheOpResult::Miss, PmuTypeId(2)))
    );
    assert_eq!(PerfEventType::parse(3, 0, 0x0000_0000_0002_0000, 0, 0), None);
    assert_eq!(
        PerfEventType::parse(5, 0xff, 0, 0x1000, 8),
        Some(PerfEventType::Breakpoint(
            HwBreakpointType::from_bits_truncate(HwBreakpointType::INVALID),
            HwBreakpointAddr(0x1000),
            HwBreakpointLen(8)
        ))
    );
    assert_eq!(PerfEventType::parse(9, 0, 1, 2, 3), Some(PerfEventType::DynamicPmu(9, 1, 2, 3)));
    assert_eq!(HardwareCacheId::parse(7), None);
    assert_eq!(HardwareCacheOp::parse(3), None);
    assert_eq!(HardwareCacheOpResult::parse(2), None);
}

#[test]
fn small_lookups() {
    assert_eq!(ClockId::from_u32(0), Some(ClockId::Realtime));
    assert_eq!(ClockId::from_u32(9), Some(ClockId::BoottimeAlarm));
    assert_eq!(ClockId::from_u32(10), None);
    assert_eq!(CpuMode::from_misc(0x2003), CpuMode::Hypervisor);
    assert_eq!(CpuMode::from_misc(5), CpuMode::GuestUser);
    assert_eq!(CpuMode::from_misc(7), CpuMode::Unknown);
    assert!(RecordType(RecordType::SAMPLE).is_builtin_type());
    assert!(RecordType(64).is_user_type());
    assert!(!RecordType(63).is_user_type());
    let flags = AttrFlags::from_bits_truncate(AttrFlags::PRECISE_IP_BITMASK | (1 << 63));
    assert_eq!(flags.bits(), AttrFlags::PRECISE_IP_BITMASK);
    assert_eq!(flags.ip_skid_constraint(), IpSkidConstraint::ZeroSkidOrRandomization);
    assert!(flags.intersects(AttrFlags::PRECISE_IP_BIT_15));
    assert!(!flags.contains(AttrFlags::FREQ));
}

#[test]
fn header_reads_type_misc_size() {
    let b = [9u8, 0, 0, 0, 2, 0, 40, 0];
    let mut data = RawData::Single(&b);
    let h = PerfEventHeader::parse(&mut data, Endianness::LittleEndian).unwrap();
    assert_eq!((h.type_, h.misc, h.size), (9, 2, 40));
    assert!(data.is_empty());
    assert!(PerfEventHeader::parse(&mut RawData::Single(&b[..7]), Endianness::LittleEndian).is_err());
}
