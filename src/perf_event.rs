use crate::constants::{
    PERF_COUNT_HW_BRANCH_INSTRUCTIONS, PERF_COUNT_HW_BRANCH_MISSES, PERF_COUNT_HW_BUS_CYCLES,
    PERF_COUNT_HW_CACHE_BPU, PERF_COUNT_HW_CACHE_DTLB, PERF_COUNT_HW_CACHE_ITLB,
    PERF_COUNT_HW_CACHE_L1D, PERF_COUNT_HW_CACHE_L1I, PERF_COUNT_HW_CACHE_LL,
    PERF_COUNT_HW_CACHE_MISSES, PERF_COUNT_HW_CACHE_NODE, PERF_COUNT_HW_CACHE_OP_PREFETCH,
    PERF_COUNT_HW_CACHE_OP_READ, PERF_COUNT_HW_CACHE_OP_WRITE, PERF_COUNT_HW_CACHE_REFERENCES,
    PERF_COUNT_HW_CACHE_RESULT_ACCESS, PERF_COUNT_HW_CACHE_RESULT_MISS, PERF_COUNT_HW_CPU_CYCLES,
    PERF_COUNT_HW_INSTRUCTIONS, PERF_COUNT_HW_REF_CPU_CYCLES,
    PERF_COUNT_HW_STALLED_CYCLES_BACKEND, PERF_COUNT_HW_STALLED_CYCLES_FRONTEND,
    PERF_COUNT_SW_ALIGNMENT_FAULTS, PERF_COUNT_SW_BPF_OUTPUT, PERF_COUNT_SW_CGROUP_SWITCHES,
    PERF_COUNT_SW_CONTEXT_SWITCHES, PERF_COUNT_SW_CPU_CLOCK, PERF_COUNT_SW_CPU_MIGRATIONS,
    PERF_COUNT_SW_DUMMY, PERF_COUNT_SW_EMULATION_FAULTS, PERF_COUNT_SW_PAGE_FAULTS,
    PERF_COUNT_SW_PAGE_FAULTS_MAJ, PERF_COUNT_SW_PAGE_FAULTS_MIN, PERF_COUNT_SW_TASK_CLOCK,
    PERF_TYPE_BREAKPOINT, PERF_TYPE_HARDWARE, PERF_TYPE_HW_CACHE, PERF_TYPE_SOFTWARE,
    PERF_TYPE_TRACEPOINT, PERF_ATTR_SIZE_VER0, PERF_ATTR_SIZE_VER1, PERF_ATTR_SIZE_VER2,
    PERF_ATTR_SIZE_VER3, PERF_ATTR_SIZE_VER4, PERF_ATTR_SIZE_VER5, PERF_ATTR_SIZE_VER6,
    PERF_ATTR_SIZE_VER7,
};
use crate::endian::Endianness;
use crate::error::DecodeError;
use crate::raw_data::{read_u16_at, read_u32_at, read_u64_at, skip_at, uint_at, RawData};
use crate::types::{
    clock_id_of, AttrFlags, BranchSampleFormat, ClockId, HwBreakpointType, ReadFormat,
    SampleFormat,
};
use vstd::prelude::*;

verus! {

/// `perf_event_header`
#[derive(Debug, Clone, Copy)]
pub struct PerfEventHeader {
    pub type_: u32,
    pub misc: u16,
    pub size: u16,
}

impl PerfEventHeader {
    pub const STRUCT_SIZE: usize = 8;

    /// Reads a record header: type, misc bits and total size.
    pub fn parse(data: &mut RawData, endian: Endianness) -> (r: Result<Self, DecodeError>)
        ensures
            match r {
                Ok(h) => {
                    let s = old(data)@;
                    &&& 8 <= s.len()
                    &&& h.type_ as nat == uint_at(s, 0, 4, endian)
                    &&& h.misc as nat == uint_at(s, 4, 2, endian)
                    &&& h.size as nat == uint_at(s, 6, 2, endian)
                    &&& final(data)@ == s.skip(8)
                },
                Err(e) => e == DecodeError::UnexpectedEnd && old(data)@.len() < 8,
            },
    {
        let ghost s = data@;
        assert(s.skip(0) =~= s);
        let type_ = read_u32_at(data, endian, Ghost(s), Ghost(0))?;
        let misc = read_u16_at(data, endian, Ghost(s), Ghost(4))?;
        let size = read_u16_at(data, endian, Ghost(s), Ghost(6))?;
        Ok(Self { type_, misc, size })
    }
}

/// `perf_event_attr`
#[derive(Debug, Clone, Copy, PartialEq, Eq)]
pub struct PerfEventAttr {
    /// The type of the perf event.
    pub type_: PerfEventType,
    /// The sampling policy.
    pub sampling_policy: SamplingPolicy,
    /// Specifies values included in sample. (the kernel calls it `sample_type`)
    pub sample_format: SampleFormat,
    /// Specifies the structure values returned by read() on a perf event fd.
    pub read_format: ReadFormat,
    /// Bitset of flags.
    pub flags: AttrFlags,
    /// The wake-up policy.
    pub wakeup_policy: WakeupPolicy,
    /// Branch-sample specific flags.
    pub branch_sample_format: BranchSampleFormat,
    /// Defines set of user regs to dump on samples.
    pub sample_regs_user: u64,
    /// Defines size of the user stack to dump on samples.
    pub sample_stack_user: u32,
    /// The clock ID.
    pub clock: PerfClock,
    /// Defines set of regs to dump for each sample.
    pub sample_regs_intr: u64,
    /// Wakeup watermark for AUX area
    pub aux_watermark: u32,
    /// The maximum number of stack frames (user + kernel) to collect.
    pub sample_max_stack: u16,
    /// When sampling AUX events, this is the size of the AUX sample.
    pub aux_sample_size: u32,
    /// User provided data if sigtrap=1.
    pub sig_data: u64,
}

/// The size that decides which field groups a configuration holds: the one
/// given, else the one the configuration declares at byte 4.
pub open spec fn attr_size(s: Seq<u8>, e: Endianness, size: Option<u32>) -> u32 {
    match size {
        Some(n) => n,
        None => uint_at(s, 4, 4, e) as u32,
    }
}

/// How many bytes a configuration of size `size` takes in the stream: the
/// newest version footprint that `size` reaches, or all of `size` past the
/// newest known version.
pub open spec fn attr_footprint(size: u32) -> int {
    if size >= PERF_ATTR_SIZE_VER7 {
        size as int
    } else if size >= PERF_ATTR_SIZE_VER6 {
        PERF_ATTR_SIZE_VER6 as int
    } else if size >= PERF_ATTR_SIZE_VER5 {
        PERF_ATTR_SIZE_VER5 as int
    } else if size >= PERF_ATTR_SIZE_VER4 {
        PERF_ATTR_SIZE_VER4 as int
    } else if size >= PERF_ATTR_SIZE_VER3 {
        PERF_ATTR_SIZE_VER3 as int
    } else if size >= PERF_ATTR_SIZE_VER2 {
        PERF_ATTR_SIZE_VER2 as int
    } else if size >= PERF_ATTR_SIZE_VER1 {
        PERF_ATTR_SIZE_VER1 as int
    } else {
        PERF_ATTR_SIZE_VER0 as int
    }
}

/// The `n`-byte field at `off`, if a configuration of size `size` reaches
/// version size `ver`, else zero.
pub open spec fn gated(s: Seq<u8>, off: int, n: int, e: Endianness, size: u32, ver: u32) -> nat {
    if size >= ver {
        uint_at(s, off, n, e)
    } else {
        0
    }
}

/// The decoded configuration whose bytes start `s`, for a size `size` that
/// `s` covers.
pub open spec fn attr_of(s: Seq<u8>, e: Endianness, size: u32) -> Result<PerfEventAttr, DecodeError> {
    let flags = AttrFlags::spec_from_bits_truncate(uint_at(s, 40, 8, e) as u64);
    let period = uint_at(s, 16, 8, e) as u64;
    let wakeup = uint_at(s, 48, 4, e) as u32;
    let clockid = gated(s, 92, 4, e, size, PERF_ATTR_SIZE_VER3) as u32;
    let type_ = event_type_of(
        uint_at(s, 0, 4, e) as u32,
        uint_at(s, 52, 4, e) as u32,
        uint_at(s, 8, 8, e) as u64,
        uint_at(s, 56, 8, e) as u64,
        gated(s, 64, 8, e, size, PERF_ATTR_SIZE_VER1) as u64,
    );
    let clock = if flags.has(AttrFlags::USE_CLOCKID) {
        match clock_id_of(clockid) {
            Some(c) => Some(PerfClock::ClockId(c)),
            None => None,
        }
    } else {
        Some(PerfClock::Default)
    };
    match (type_, clock) {
        (Some(type_), Some(clock)) => Ok(
            PerfEventAttr {
                type_,
                sampling_policy: if flags.has(AttrFlags::FREQ) {
                    SamplingPolicy::Frequency(period)
                } else if period != 0 {
                    SamplingPolicy::Period(period)
                } else {
                    SamplingPolicy::NoSampling
                },
                sample_format: SampleFormat::spec_from_bits_truncate(uint_at(s, 24, 8, e) as u64),
                read_format: ReadFormat::spec_from_bits_truncate(uint_at(s, 32, 8, e) as u64),
                flags,
                wakeup_policy: if flags.has(AttrFlags::WATERMARK) {
                    WakeupPolicy::Watermark(wakeup)
                } else {
                    WakeupPolicy::EventCount(wakeup)
                },
                branch_sample_format: BranchSampleFormat::spec_from_bits_truncate(
                    gated(s, 72, 8, e, size, PERF_ATTR_SIZE_VER2) as u64,
                ),
                sample_regs_user: gated(s, 80, 8, e, size, PERF_ATTR_SIZE_VER3) as u64,
                sample_stack_user: gated(s, 88, 4, e, size, PERF_ATTR_SIZE_VER3) as u32,
                clock,
                sample_regs_intr: gated(s, 96, 8, e, size, PERF_ATTR_SIZE_VER4) as u64,
                aux_watermark: gated(s, 104, 4, e, size, PERF_ATTR_SIZE_VER5) as u32,
                sample_max_stack: gated(s, 108, 2, e, size, PERF_ATTR_SIZE_VER5) as u16,
                aux_sample_size: gated(s, 112, 4, e, size, PERF_ATTR_SIZE_VER6) as u32,
                sig_data: gated(s, 120, 8, e, size, PERF_ATTR_SIZE_VER7) as u64,
            },
        ),
        _ => Err(DecodeError::InvalidInput),
    }
}

/// The outcome of decoding a configuration from the bytes `s`, with the
/// size override `size`.
pub open spec fn decode_attr(s: Seq<u8>, e: Endianness, size: Option<u32>) -> Result<PerfEventAttr, DecodeError> {
    if s.len() < 16 {
        Err(DecodeError::UnexpectedEnd)
    } else if attr_size(s, e, size) < PERF_ATTR_SIZE_VER0 {
        Err(DecodeError::InvalidInput)
    } else if s.len() < attr_footprint(attr_size(s, e, size)) {
        Err(DecodeError::UnexpectedEnd)
    } else {
        attr_of(s, e, attr_size(s, e, size))
    }
}

impl PerfEventAttr {
    /// Decodes a configuration from the front of `data`. The size that decides
    /// which version's fields are present is `size` if given, else the one
    /// that the configuration declares. On success `data` has moved past the
    /// whole configuration, including bytes of newer versions.
    #[verifier::rlimit(50)]
    pub fn parse(data: &mut RawData, endian: Endianness, size: Option<u32>) -> (r: Result<Self, DecodeError>)
        ensures
            r == decode_attr(old(data)@, endian, size),
            r is Ok ==> final(data)@ == old(data)@.skip(
                attr_footprint(attr_size(old(data)@, endian, size)),
            ),
    {
        let ghost s = data@;
        let e = endian;
        assert(s.skip(0) =~= s);
        let type_ = read_u32_at(data, e, Ghost(s), Ghost(0))?;
        let self_described_size = read_u32_at(data, e, Ghost(s), Ghost(4))?;
        let config = read_u64_at(data, e, Ghost(s), Ghost(8))?;

        let size = match size {
            Some(n) => n,
            None => self_described_size,
        };
        if size < PERF_ATTR_SIZE_VER0 {
            return Err(DecodeError::InvalidInput);
        }

        let sampling_period_or_frequency = read_u64_at(data, e, Ghost(s), Ghost(16))?;
        let sample_type = read_u64_at(data, e, Ghost(s), Ghost(24))?;
        let read_format = read_u64_at(data, e, Ghost(s), Ghost(32))?;
        let flags = read_u64_at(data, e, Ghost(s), Ghost(40))?;
        let wakeup_events_or_watermark = read_u32_at(data, e, Ghost(s), Ghost(48))?;
        let bp_type = read_u32_at(data, e, Ghost(s), Ghost(52))?;
        let config1 = read_u64_at(data, e, Ghost(s), Ghost(56))?;

        let config2 = if size >= PERF_ATTR_SIZE_VER1 {
            read_u64_at(data, e, Ghost(s), Ghost(64))?
        } else {
            0
        };

        let branch_sample_type = if size >= PERF_ATTR_SIZE_VER2 {
            read_u64_at(data, e, Ghost(s), Ghost(72))?
        } else {
            0
        };

        let (sample_regs_user, sample_stack_user, clockid) = if size >= PERF_ATTR_SIZE_VER3 {
            let sample_regs_user = read_u64_at(data, e, Ghost(s), Ghost(80))?;
            let sample_stack_user = read_u32_at(data, e, Ghost(s), Ghost(88))?;
            let clockid = read_u32_at(data, e, Ghost(s), Ghost(92))?;
            (sample_regs_user, sample_stack_user, clockid)
        } else {
            (0, 0, 0)
        };

        let sample_regs_intr = if size >= PERF_ATTR_SIZE_VER4 {
            read_u64_at(data, e, Ghost(s), Ghost(96))?
        } else {
            0
        };

        let (aux_watermark, sample_max_stack) = if size >= PERF_ATTR_SIZE_VER5 {
            let aux_watermark = read_u32_at(data, e, Ghost(s), Ghost(104))?;
            let sample_max_stack = read_u16_at(data, e, Ghost(s), Ghost(108))?;
            let _reserved_2 = read_u16_at(data, e, Ghost(s), Ghost(110))?;
            (aux_watermark, sample_max_stack)
        } else {
            (0, 0)
        };

        let aux_sample_size = if size >= PERF_ATTR_SIZE_VER6 {
            let aux_sample_size = read_u32_at(data, e, Ghost(s), Ghost(112))?;
            let _reserved_3 = read_u32_at(data, e, Ghost(s), Ghost(116))?;
            aux_sample_size
        } else {
            0
        };

        let sig_data = if size >= PERF_ATTR_SIZE_VER7 {
            read_u64_at(data, e, Ghost(s), Ghost(120))?
        } else {
            0
        };

        // Consume any remaining bytes.
        if size > PERF_ATTR_SIZE_VER7 {
            let remaining = size - PERF_ATTR_SIZE_VER7;
            skip_at(data, remaining as usize, Ghost(s), Ghost(PERF_ATTR_SIZE_VER7 as int))?;
        }
        assert(data@ == s.skip(attr_footprint(size)));

        let flags = AttrFlags::from_bits_truncate(flags);
        let type_ = match PerfEventType::parse(type_, bp_type, config, config1, config2) {
            Some(t) => t,
            None => {
                return Err(DecodeError::InvalidInput);
            },
        };

        // If AttrFlags::FREQ is set in `flags`, this is the sample frequency,
        // otherwise it is the sample period.
        let sampling_policy = if flags.contains(AttrFlags::FREQ) {
            SamplingPolicy::Frequency(sampling_period_or_frequency)
        } else if sampling_period_or_frequency != 0 {
            SamplingPolicy::Period(sampling_period_or_frequency)
        } else {
            SamplingPolicy::NoSampling
        };

        let wakeup_policy = if flags.contains(AttrFlags::WATERMARK) {
            WakeupPolicy::Watermark(wakeup_events_or_watermark)
        } else {
            WakeupPolicy::EventCount(wakeup_events_or_watermark)
        };

        let clock = if flags.contains(AttrFlags::USE_CLOCKID) {
            match ClockId::from_u32(clockid) {
                Some(c) => PerfClock::ClockId(c),
                None => {
                    return Err(DecodeError::InvalidInput);
                },
            }
        } else {
            PerfClock::Default
        };

        Ok(Self {
            type_,
            sampling_policy,
            sample_format: SampleFormat::from_bits_truncate(sample_type),
            read_format: ReadFormat::from_bits_truncate(read_format),
            flags,
            wakeup_policy,
            branch_sample_format: BranchSampleFormat::from_bits_truncate(branch_sample_type),
            sample_regs_user,
            sample_stack_user,
            clock,
            sample_regs_intr,
            aux_watermark,
            sample_max_stack,
            aux_sample_size,
            sig_data,
        })
    }
}

/// The type of perf event
#[derive(Debug, Clone, Copy, PartialEq, Eq)]
pub enum PerfEventType {
    /// A hardware perf event. (`PERF_TYPE_HARDWARE`)
    Hardware(HardwareEventId, PmuTypeId),
    /// A software perf event. (`PERF_TYPE_SOFTWARE`)
    Software(SoftwareCounterType),
    /// A tracepoint perf event. (`PERF_TYPE_TRACEPOINT`)
    Tracepoint(u64),
    /// A hardware cache perf event. (`PERF_TYPE_HW_CACHE`)
    ///
    /// Selects a certain combination of CacheId, CacheOp, CacheOpResult, PMU type ID.
    HwCache(HardwareCacheId, HardwareCacheOp, HardwareCacheOpResult, PmuTypeId),
    /// A hardware breakpoint perf event. (`PERF_TYPE_BREAKPOINT`)
    Breakpoint(HwBreakpointType, HwBreakpointAddr, HwBreakpointLen),
    /// Dynamic PMU: `(pmu, config, config1, config2)`.
    DynamicPmu(u32, u64, u64, u64),
}

/// PMU type ID: zero observes both "atom" and "core" PMUs.
#[derive(Debug, Clone, Copy, PartialEq, Eq)]
pub struct PmuTypeId(pub u32);

/// The address of the breakpoint.
#[derive(Debug, Clone, Copy, PartialEq, Eq)]
pub struct HwBreakpointAddr(pub u64);

/// The length of the breakpoint being measured.
#[derive(Debug, Clone, Copy, PartialEq, Eq)]
pub struct HwBreakpointLen(pub u64);

/// The event type that the type code and config values describe, if the
/// codes within a hardware, software or cache type are known.
pub open spec fn event_type_of(type_: u32, bp_type: u32, config: u64, config1: u64, config2: u64) -> Option<PerfEventType> {
    if type_ == PERF_TYPE_HARDWARE {
        match hardware_event_id_of((config & 0xff) as u8) {
            Some(h) => Some(PerfEventType::Hardware(h, PmuTypeId((config >> 32u64) as u32))),
            None => None,
        }
    } else if type_ == PERF_TYPE_SOFTWARE {
        match software_counter_of(config) {
            Some(c) => Some(PerfEventType::Software(c)),
            None => None,
        }
    } else if type_ == PERF_TYPE_TRACEPOINT {
        Some(PerfEventType::Tracepoint(config))
    } else if type_ == PERF_TYPE_HW_CACHE {
        match (
            cache_id_of(config as u8),
            cache_op_of((config >> 8u64) as u8),
            cache_result_of((config >> 16u64) as u8),
        ) {
            (Some(id), Some(op), Some(res)) => Some(
                PerfEventType::HwCache(id, op, res, PmuTypeId((config >> 32u64) as u32)),
            ),
            _ => None,
        }
    } else if type_ == PERF_TYPE_BREAKPOINT {
        Some(
            PerfEventType::Breakpoint(
                HwBreakpointType::spec_from_bits_truncate(bp_type),
                HwBreakpointAddr(config1),
                HwBreakpointLen(config2),
            ),
        )
    } else {
        Some(PerfEventType::DynamicPmu(type_, config, config1, config2))
    }
}

impl PerfEventType {
    pub fn parse(type_: u32, bp_type: u32, config: u64, config1: u64, config2: u64) -> (r: Option<Self>)
        ensures
            r == event_type_of(type_, bp_type, config, config1, config2),
    {
        if type_ == PERF_TYPE_HARDWARE {
            // Config format: 0xEEEEEEEE000000AA
            //
            //  - AA: hardware event ID
            //  - EEEEEEEE: PMU type ID
            let hardware_event_id = (config & 0xff) as u8;
            let pmu_type = PmuTypeId((config >> 32) as u32);
            match HardwareEventId::parse(hardware_event_id) {
                Some(h) => Some(Self::Hardware(h, pmu_type)),
                None => None,
            }
        } else if type_ == PERF_TYPE_SOFTWARE {
            match SoftwareCounterType::parse(config) {
                Some(c) => Some(Self::Software(c)),
                None => None,
            }
        } else if type_ == PERF_TYPE_TRACEPOINT {
            Some(Self::Tracepoint(config))
        } else if type_ == PERF_TYPE_HW_CACHE {
            // Config format: 0xEEEEEEEE00DDCCBB
            //
            //  - BB: hardware cache ID
            //  - CC: hardware cache op ID
            //  - DD: hardware cache op result ID
            //  - EEEEEEEE: PMU type ID
            let cache_id = config as u8;
            let cache_op_id = (config >> 8) as u8;
            let cache_op_result = (config >> 16) as u8;
            let pmu_type = PmuTypeId((config >> 32) as u32);
            match (
                HardwareCacheId::parse(cache_id),
                HardwareCacheOp::parse(cache_op_id),
                HardwareCacheOpResult::parse(cache_op_result),
            ) {
                (Some(id), Some(op), Some(res)) => Some(Self::HwCache(id, op, res, pmu_type)),
                _ => None,
            }
        } else if type_ == PERF_TYPE_BREAKPOINT {
            let bp_type = HwBreakpointType::from_bits_truncate(bp_type);
            Some(Self::Breakpoint(bp_type, HwBreakpointAddr(config1), HwBreakpointLen(config2)))
        } else {
            // PERF_TYPE_RAW is handled as part of DynamicPmu.
            Some(Self::DynamicPmu(type_, config, config1, config2))
        }
    }
}

#[derive(Debug, Clone, Copy, PartialEq, Eq)]
#[non_exhaustive]
pub enum HardwareEventId {
    /// `PERF_COUNT_HW_CPU_CYCLES`
    CpuCycles,
    /// `PERF_COUNT_HW_INSTRUCTIONS`
    Instructions,
    /// `PERF_COUNT_HW_CACHE_REFERENCES`
    CacheReferences,
    /// `PERF_COUNT_HW_CACHE_MISSES`
    CacheMisses,
    /// `PERF_COUNT_HW_BRANCH_INSTRUCTIONS`
    BranchInstructions,
    /// `PERF_COUNT_HW_BRANCH_MISSES`
    BranchMisses,
    /// `PERF_COUNT_HW_BUS_CYCLES`
    BusCycles,
    /// `PERF_COUNT_HW_STALLED_CYCLES_FRONTEND`
    StalledCyclesFrontend,
    /// `PERF_COUNT_HW_STALLED_CYCLES_BACKEND`
    StalledCyclesBackend,
    /// `PERF_COUNT_HW_REF_CPU_CYCLES`
    RefCpuCycles,
}

pub open spec fn hardware_event_id_of(id: u8) -> Option<HardwareEventId> {
    match id {
        0 => Some(HardwareEventId::CpuCycles),
        1 => Some(HardwareEventId::Instructions),
        2 => Some(HardwareEventId::CacheReferences),
        3 => Some(HardwareEventId::CacheMisses),
        4 => Some(HardwareEventId::BranchInstructions),
        5 => Some(HardwareEventId::BranchMisses),
        6 => Some(HardwareEventId::BusCycles),
        7 => Some(HardwareEventId::StalledCyclesFrontend),
        8 => Some(HardwareEventId::StalledCyclesBackend),
        9 => Some(HardwareEventId::RefCpuCycles),
        _ => None,
    }
}

impl HardwareEventId {
    pub fn parse(hardware_event_id: u8) -> (r: Option<Self>)
        ensures
            r == hardware_event_id_of(hardware_event_id),
    {
        match hardware_event_id {
            PERF_COUNT_HW_CPU_CYCLES => Some(Self::CpuCycles),
            PERF_COUNT_HW_INSTRUCTIONS => Some(Self::Instructions),
            PERF_COUNT_HW_CACHE_REFERENCES => Some(Self::CacheReferences),
            PERF_COUNT_HW_CACHE_MISSES => Some(Self::CacheMisses),
            PERF_COUNT_HW_BRANCH_INSTRUCTIONS => Some(Self::BranchInstructions),
            PERF_COUNT_HW_BRANCH_MISSES => Some(Self::BranchMisses),
            PERF_COUNT_HW_BUS_CYCLES => Some(Self::BusCycles),
            PERF_COUNT_HW_STALLED_CYCLES_FRONTEND => Some(Self::StalledCyclesFrontend),
            PERF_COUNT_HW_STALLED_CYCLES_BACKEND => Some(Self::StalledCyclesBackend),
            PERF_COUNT_HW_REF_CPU_CYCLES => Some(Self::RefCpuCycles),
            _ => None,
        }
    }
}

#[derive(Debug, Clone, Copy, PartialEq, Eq)]
#[non_exhaustive]
pub enum SoftwareCounterType {
    /// `PERF_COUNT_SW_CPU_CLOCK`
    CpuClock,
    /// `PERF_COUNT_SW_TASK_CLOCK`
    TaskClock,
    /// `PERF_COUNT_SW_PAGE_FAULTS`
    PageFaults,
    /// `PERF_COUNT_SW_CONTEXT_SWITCHES`
    ContextSwitches,
    /// `PERF_COUNT_SW_CPU_MIGRATIONS`
    CpuMigrations,
    /// `PERF_COUNT_SW_PAGE_FAULTS_MIN`
    PageFaultsMin,
    /// `PERF_COUNT_SW_PAGE_FAULTS_MAJ`
    PageFaultsMaj,
    /// `PERF_COUNT_SW_ALIGNMENT_FAULTS`
    AlignmentFaults,
    /// `PERF_COUNT_SW_EMULATION_FAULTS`
    EmulationFaults,
    /// `PERF_COUNT_SW_DUMMY`
    Dummy,
    /// `PERF_COUNT_SW_BPF_OUTPUT`
    BpfOutput,
    /// `PERF_COUNT_SW_CGROUP_SWITCHES`
    CgroupSwitches,
}

pub open spec fn software_counter_of(config: u64) -> Option<SoftwareCounterType> {
    match config {
        0 => Some(SoftwareCounterType::CpuClock),
        1 => Some(SoftwareCounterType::TaskClock),
        2 => Some(SoftwareCounterType::PageFaults),
        3 => Some(SoftwareCounterType::ContextSwitches),
        4 => Some(SoftwareCounterType::CpuMigrations),
        5 => Some(SoftwareCounterType::PageFaultsMin),
        6 => Some(SoftwareCounterType::PageFaultsMaj),
        7 => Some(SoftwareCounterType::AlignmentFaults),
        8 => Some(SoftwareCounterType::EmulationFaults),
        9 => Some(SoftwareCounterType::Dummy),
        10 => Some(SoftwareCounterType::BpfOutput),
        11 => Some(SoftwareCounterType::CgroupSwitches),
        _ => None,
    }
}

impl SoftwareCounterType {
    pub fn parse(config: u64) -> (r: Option<Self>)
        ensures
            r == software_counter_of(config),
    {
        match config {
            PERF_COUNT_SW_CPU_CLOCK => Some(Self::CpuClock),
            PERF_COUNT_SW_TASK_CLOCK => Some(Self::TaskClock),
            PERF_COUNT_SW_PAGE_FAULTS => Some(Self::PageFaults),
            PERF_COUNT_SW_CONTEXT_SWITCHES => Some(Self::ContextSwitches),
            PERF_COUNT_SW_CPU_MIGRATIONS => Some(Self::CpuMigrations),
            PERF_COUNT_SW_PAGE_FAULTS_MIN => Some(Self::PageFaultsMin),
            PERF_COUNT_SW_PAGE_FAULTS_MAJ => Some(Self::PageFaultsMaj),
            PERF_COUNT_SW_ALIGNMENT_FAULTS => Some(Self::AlignmentFaults),
            PERF_COUNT_SW_EMULATION_FAULTS => Some(Self::EmulationFaults),
            PERF_COUNT_SW_DUMMY => Some(Self::Dummy),
            PERF_COUNT_SW_BPF_OUTPUT => Some(Self::BpfOutput),
            PERF_COUNT_SW_CGROUP_SWITCHES => Some(Self::CgroupSwitches),
            _ => None,
        }
    }
}

#[derive(Debug, Clone, Copy, PartialEq, Eq)]
#[non_exhaustive]
pub enum HardwareCacheId {
    /// `PERF_COUNT_HW_CACHE_L1D`
    L1d,
    /// `PERF_COUNT_HW_CACHE_L1I`
    L1i,
    /// `PERF_COUNT_HW_CACHE_LL`
    Ll,
    /// `PERF_COUNT_HW_CACHE_DTLB`
    Dtlb,
    /// `PERF_COUNT_HW_CACHE_ITLB`
    Itlb,
    /// `PERF_COUNT_HW_CACHE_BPU`
    Bpu,
    /// `PERF_COUNT_HW_CACHE_NODE`
    Node,
}

pub open spec fn cache_id_of(id: u8) -> Option<HardwareCacheId> {
    match id {
        0 => Some(HardwareCacheId::L1d),
        1 => Some(HardwareCacheId::L1i),
        2 => Some(HardwareCacheId::Ll),
        3 => Some(HardwareCacheId::Dtlb),
        4 => Some(HardwareCacheId::Itlb),
        5 => Some(HardwareCacheId::Bpu),
        6 => Some(HardwareCacheId::Node),
        _ => None,
    }
}

impl HardwareCacheId {
    pub fn parse(cache_id: u8) -> (r: Option<Self>)
        ensures
            r == cache_id_of(cache_id),
    {
        match cache_id {
            PERF_COUNT_HW_CACHE_L1D => Some(Self::L1d),
            PERF_COUNT_HW_CACHE_L1I => Some(Self::L1i),
            PERF_COUNT_HW_CACHE_LL => Some(Self::Ll),
            PERF_COUNT_HW_CACHE_DTLB => Some(Self::Dtlb),
            PERF_COUNT_HW_CACHE_ITLB => Some(Self::Itlb),
            PERF_COUNT_HW_CACHE_BPU => Some(Self::Bpu),
            PERF_COUNT_HW_CACHE_NODE => Some(Self::Node),
            _ => None,
        }
    }
}

#[derive(Debug, Clone, Copy, PartialEq, Eq)]
pub enum HardwareCacheOp {
    /// `PERF_COUNT_HW_CACHE_OP_READ`
    Read,
    /// `PERF_COUNT_HW_CACHE_OP_WRITE`
    Write,
    /// `PERF_COUNT_HW_CACHE_OP_PREFETCH`
    Prefetch,
}

pub open spec fn cache_op_of(op: u8) -> Option<HardwareCacheOp> {
    match op {
        0 => Some(HardwareCacheOp::Read),
        1 => Some(HardwareCacheOp::Write),
        2 => Some(HardwareCacheOp::Prefetch),
        _ => None,
    }
}

impl HardwareCacheOp {
    pub fn parse(cache_op: u8) -> (r: Option<Self>)
        ensures
            r == cache_op_of(cache_op),
    {
        match cache_op {
            PERF_COUNT_HW_CACHE_OP_READ => Some(Self::Read),
            PERF_COUNT_HW_CACHE_OP_WRITE => Some(Self::Write),
            PERF_COUNT_HW_CACHE_OP_PREFETCH => Some(Self::Prefetch),
            _ => None,
        }
    }
}

#[derive(Debug, Clone, Copy, PartialEq, Eq)]
pub enum HardwareCacheOpResult {
    /// `PERF_COUNT_HW_CACHE_RESULT_ACCESS`
    Access,
    /// `PERF_COUNT_HW_CACHE_RESULT_MISS`
    Miss,
}

pub open spec fn cache_result_of(res: u8) -> Option<HardwareCacheOpResult> {
    match res {
        0 => Some(HardwareCacheOpResult::Access),
        1 => Some(HardwareCacheOpResult::Miss),
        _ => None,
    }
}

impl HardwareCacheOpResult {
    pub fn parse(cache_op_result: u8) -> (r: Option<Self>)
        ensures
            r == cache_result_of(cache_op_result),
    {
        match cache_op_result {
            PERF_COUNT_HW_CACHE_RESULT_ACCESS => Some(Self::Access),
            PERF_COUNT_HW_CACHE_RESULT_MISS => Some(Self::Miss),
            _ => None,
        }
    }
}

/// Sampling Policy
#[derive(Debug, Clone, Copy, PartialEq, Eq)]
pub enum SamplingPolicy {
    /// `NoSampling` means that the event is a count and not a sampling event.
    NoSampling,
    /// A fixed sampling period, in the unit of the observed count; never zero.
    Period(u64),
    /// A frequency for a sampling event, in "samples per (wall-clock) second".
    Frequency(u64),
}

/// Wakeup policy for "overflow notifications".
#[derive(Debug, Clone, Copy, PartialEq, Eq)]
pub enum WakeupPolicy {
    /// Wake up every time N records of type `RecordType::SAMPLE` have been
    /// written to the mmap ring buffer.
    EventCount(u32),
    /// Wake up after N bytes of any record type have been written to the mmap
    /// ring buffer.
    Watermark(u32),
}

/// Which internal Linux clock to use when generating timestamps.
#[derive(Debug, Clone, Copy, PartialEq, Eq)]
pub enum PerfClock {
    /// The default clock.
    Default,
    /// A specific clock.
    ClockId(ClockId),
}

} // verus!
