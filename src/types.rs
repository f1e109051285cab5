use crate::constants::{
    PERF_RECORD_AUX, PERF_RECORD_AUX_OUTPUT_HW_ID, PERF_RECORD_BPF_EVENT, PERF_RECORD_CGROUP,
    PERF_RECORD_COMM, PERF_RECORD_EXIT, PERF_RECORD_FORK, PERF_RECORD_ITRACE_START,
    PERF_RECORD_KSYMBOL, PERF_RECORD_LOST, PERF_RECORD_LOST_SAMPLES, PERF_RECORD_MISC_CPUMODE_MASK,
    PERF_RECORD_MISC_GUEST_KERNEL, PERF_RECORD_MISC_GUEST_USER, PERF_RECORD_MISC_HYPERVISOR,
    PERF_RECORD_MISC_KERNEL, PERF_RECORD_MISC_USER, PERF_RECORD_MMAP, PERF_RECORD_MMAP2,
    PERF_RECORD_NAMESPACES, PERF_RECORD_READ, PERF_RECORD_SAMPLE, PERF_RECORD_SWITCH,
    PERF_RECORD_SWITCH_CPU_WIDE, PERF_RECORD_TEXT_POKE, PERF_RECORD_THREAD_MAP,
    PERF_RECORD_THROTTLE, PERF_RECORD_UNTHROTTLE, PERF_RECORD_USER_TYPE_START,
};
use vstd::prelude::*;

verus! {

/// Which optional fields a sample record carries (`sample_type`).
#[derive(Debug, Clone, Copy, PartialEq, Eq, Hash)]
pub struct SampleFormat {
    bits: u64,
}

impl View for SampleFormat {
    type V = u64;

    closed spec fn view(&self) -> u64 {
        self.bits
    }
}

impl SampleFormat {
    pub const IP: u64 = 0x1;

    pub const TID: u64 = 0x2;

    pub const TIME: u64 = 0x4;

    pub const ADDR: u64 = 0x8;

    pub const READ: u64 = 0x10;

    pub const CALLCHAIN: u64 = 0x20;

    pub const ID: u64 = 0x40;

    pub const CPU: u64 = 0x80;

    pub const PERIOD: u64 = 0x100;

    pub const STREAM_ID: u64 = 0x200;

    pub const RAW: u64 = 0x400;

    pub const BRANCH_STACK: u64 = 0x800;

    pub const REGS_USER: u64 = 0x1000;

    pub const STACK_USER: u64 = 0x2000;

    pub const WEIGHT: u64 = 0x4000;

    pub const DATA_SRC: u64 = 0x8000;

    pub const IDENTIFIER: u64 = 0x10000;

    pub const TRANSACTION: u64 = 0x20000;

    pub const REGS_INTR: u64 = 0x40000;

    pub const PHYS_ADDR: u64 = 0x80000;

    pub const AUX: u64 = 0x100000;

    pub const CGROUP: u64 = 0x200000;

    pub const DATA_PAGE_SIZE: u64 = 0x400000;

    pub const CODE_PAGE_SIZE: u64 = 0x800000;

    pub const WEIGHT_STRUCT: u64 = 0x1000000;

    /// Every bit that has a name.
    pub const ALL_BITS: u64 = 0x1ffffff;

    /// The bits that `from_bits_truncate(bits)` keeps.
    pub open spec fn truncated(bits: u64) -> u64 {
        bits & Self::ALL_BITS
    }

    /// Every bit of `flags` is set in `self`.
    pub open spec fn has(self, flags: u64) -> bool {
        self@ & flags == flags
    }

    pub fn empty() -> (r: Self)
        ensures
            r@ == 0,
    {
        SampleFormat { bits: 0 }
    }

    pub fn bits(&self) -> (r: u64)
        ensures
            r == self@,
    {
        self.bits
    }

    /// The value that keeps the named bits of `bits`.
    pub closed spec fn spec_from_bits_truncate(bits: u64) -> Self {
        SampleFormat { bits: bits & Self::ALL_BITS }
    }

    /// Keeps the named bits of `bits` and drops the others.
    pub fn from_bits_truncate(bits: u64) -> (r: Self)
        ensures
            r == Self::spec_from_bits_truncate(bits),
            r@ == Self::truncated(bits),
    {
        SampleFormat { bits: bits & Self::ALL_BITS }
    }

    /// Whether every bit of `flags` is set.
    pub fn contains(&self, flags: u64) -> (r: bool)
        ensures
            r == self.has(flags),
    {
        self.bits & flags == flags
    }

    /// Whether any bit of `flags` is set.
    pub fn intersects(&self, flags: u64) -> (r: bool)
        ensures
            r == (self@ & flags != 0),
    {
        self.bits & flags != 0
    }

    pub fn union(self, other: Self) -> (r: Self)
        ensures
            r@ == self@ | other@,
    {
        SampleFormat { bits: self.bits | other.bits }
    }

    pub fn intersection(self, other: Self) -> (r: Self)
        ensures
            r@ == self@ & other@,
    {
        SampleFormat { bits: self.bits & other.bits }
    }
}

/// Branch-sample qualifiers (`branch_sample_type`).
#[derive(Debug, Clone, Copy, PartialEq, Eq, Hash)]
pub struct BranchSampleFormat {
    bits: u64,
}

impl View for BranchSampleFormat {
    type V = u64;

    closed spec fn view(&self) -> u64 {
        self.bits
    }
}

impl BranchSampleFormat {
    /// user branches
    pub const USER: u64 = 0x1;

    /// kernel branches
    pub const KERNEL: u64 = 0x2;

    /// hypervisor branches
    pub const HV: u64 = 0x4;

    /// any branch types
    pub const ANY: u64 = 0x8;

    /// any call branch
    pub const ANY_CALL: u64 = 0x10;

    /// any return branch
    pub const ANY_RETURN: u64 = 0x20;

    /// indirect calls
    pub const IND_CALL: u64 = 0x40;

    /// transaction aborts
    pub const ABORT_TX: u64 = 0x80;

    /// in transaction
    pub const IN_TX: u64 = 0x100;

    /// not in transaction
    pub const NO_TX: u64 = 0x200;

    /// conditional branches
    pub const COND: u64 = 0x400;

    /// call/ret stack
    pub const CALL_STACK: u64 = 0x800;

    /// indirect jumps
    pub const IND_JUMP: u64 = 0x1000;

    /// direct call
    pub const CALL: u64 = 0x2000;

    /// no flags
    pub const NO_FLAGS: u64 = 0x4000;

    /// no cycles
    pub const NO_CYCLES: u64 = 0x8000;

    /// save branch type
    pub const TYPE_SAVE: u64 = 0x10000;

    /// save low level index of raw branch records
    pub const HW_INDEX: u64 = 0x20000;

    /// Every bit that has a name.
    pub const ALL_BITS: u64 = 0x3ffff;

    /// The bits that `from_bits_truncate(bits)` keeps.
    pub open spec fn truncated(bits: u64) -> u64 {
        bits & Self::ALL_BITS
    }

    /// Every bit of `flags` is set in `self`.
    pub open spec fn has(self, flags: u64) -> bool {
        self@ & flags == flags
    }

    pub fn empty() -> (r: Self)
        ensures
            r@ == 0,
    {
        BranchSampleFormat { bits: 0 }
    }

    pub fn bits(&self) -> (r: u64)
        ensures
            r == self@,
    {
        self.bits
    }

    /// The value that keeps the named bits of `bits`.
    pub closed spec fn spec_from_bits_truncate(bits: u64) -> Self {
        BranchSampleFormat { bits: bits & Self::ALL_BITS }
    }

    /// The bits of the value that keeps the named bits of `bits`.
    pub proof fn lemma_truncate_view(bits: u64)
        ensures
            Self::spec_from_bits_truncate(bits)@ == Self::truncated(bits),
    {
    }

    /// Keeps the named bits of `bits` and drops the others.
    pub fn from_bits_truncate(bits: u64) -> (r: Self)
        ensures
            r == Self::spec_from_bits_truncate(bits),
            r@ == Self::truncated(bits),
    {
        BranchSampleFormat { bits: bits & Self::ALL_BITS }
    }

    /// Whether every bit of `flags` is set.
    pub fn contains(&self, flags: u64) -> (r: bool)
        ensures
            r == self.has(flags),
    {
        self.bits & flags == flags
    }

    /// Whether any bit of `flags` is set.
    pub fn intersects(&self, flags: u64) -> (r: bool)
        ensures
            r == (self@ & flags != 0),
    {
        self.bits & flags != 0
    }

    pub fn union(self, other: Self) -> (r: Self)
        ensures
            r@ == self@ | other@,
    {
        BranchSampleFormat { bits: self.bits | other.bits }
    }

    pub fn intersection(self, other: Self) -> (r: Self)
        ensures
            r@ == self@ & other@,
    {
        BranchSampleFormat { bits: self.bits & other.bits }
    }
}

/// The bitset of flags of an event configuration.
#[derive(Debug, Clone, Copy, PartialEq, Eq, Hash)]
pub struct AttrFlags {
    bits: u64,
}

impl View for AttrFlags {
    type V = u64;

    closed spec fn view(&self) -> u64 {
        self.bits
    }
}

impl AttrFlags {
    /// off by default
    pub const DISABLED: u64 = 0x1;

    /// children inherit it
    pub const INHERIT: u64 = 0x2;

    /// must always be on PMU
    pub const PINNED: u64 = 0x4;

    /// only group on PMU
    pub const EXCLUSIVE: u64 = 0x8;

    /// don't count user
    pub const EXCLUDE_USER: u64 = 0x10;

    /// don't count kernel
    pub const EXCLUDE_KERNEL: u64 = 0x20;

    /// don't count hypervisor
    pub const EXCLUDE_HV: u64 = 0x40;

    /// don't count when idle
    pub const EXCLUDE_IDLE: u64 = 0x80;

    /// include mmap data
    pub const MMAP: u64 = 0x100;

    /// include comm data
    pub const COMM: u64 = 0x200;

    /// use freq, not period
    pub const FREQ: u64 = 0x400;

    /// per task counts
    pub const INHERIT_STAT: u64 = 0x800;

    /// next exec enables
    pub const ENABLE_ON_EXEC: u64 = 0x1000;

    /// trace fork/exit
    pub const TASK: u64 = 0x2000;

    /// wakeup_watermark
    pub const WATERMARK: u64 = 0x4000;

    /// one of the two PRECISE_IP bitmask bits
    pub const PRECISE_IP_BIT_15: u64 = 0x8000;

    /// one of the two PRECISE_IP bitmask bits
    pub const PRECISE_IP_BIT_16: u64 = 0x10000;

    /// non-exec mmap data
    pub const MMAP_DATA: u64 = 0x20000;

    /// sample_type all events
    pub const SAMPLE_ID_ALL: u64 = 0x40000;

    /// don't count in host
    pub const EXCLUDE_HOST: u64 = 0x80000;

    /// don't count in guest
    pub const EXCLUDE_GUEST: u64 = 0x100000;

    /// exclude kernel callchains
    pub const EXCLUDE_CALLCHAIN_KERNEL: u64 = 0x200000;

    /// exclude user callchains
    pub const EXCLUDE_CALLCHAIN_USER: u64 = 0x400000;

    /// include mmap with inode data
    pub const MMAP2: u64 = 0x800000;

    /// flag comm events that are due to exec
    pub const COMM_EXEC: u64 = 0x1000000;

    /// use @clockid for time fields
    pub const USE_CLOCKID: u64 = 0x2000000;

    /// context switch data
    pub const CONTEXT_SWITCH: u64 = 0x4000000;

    /// Write ring buffer from end to beginning
    pub const WRITE_BACKWARD: u64 = 0x8000000;

    /// include namespaces data
    pub const NAMESPACES: u64 = 0x10000000;

    /// include ksymbol events
    pub const KSYMBOL: u64 = 0x20000000;

    /// include bpf events
    pub const BPF_EVENT: u64 = 0x40000000;

    /// generate AUX records instead of events
    pub const AUX_OUTPUT: u64 = 0x80000000;

    /// include cgroup events
    pub const CGROUP: u64 = 0x100000000;

    /// include text poke events
    pub const TEXT_POKE: u64 = 0x200000000;

    /// use build id in mmap2 events
    pub const BUILD_ID: u64 = 0x400000000;

    /// children only inherit if cloned with CLONE_THREAD
    pub const INHERIT_THREAD: u64 = 0x800000000;

    /// event is removed from task on exec
    pub const REMOVE_ON_EXEC: u64 = 0x1000000000;

    /// send synchronous SIGTRAP on event
    pub const SIGTRAP: u64 = 0x2000000000;

    /// the full PRECISE_IP bitmask
    pub const PRECISE_IP_BITMASK: u64 = 0x18000;

    /// Every bit that has a name.
    pub const ALL_BITS: u64 = 0x3fffffffff;

    /// The bits that `from_bits_truncate(bits)` keeps.
    pub open spec fn truncated(bits: u64) -> u64 {
        bits & Self::ALL_BITS
    }

    /// Every bit of `flags` is set in `self`.
    pub open spec fn has(self, flags: u64) -> bool {
        self@ & flags == flags
    }

    pub fn empty() -> (r: Self)
        ensures
            r@ == 0,
    {
        AttrFlags { bits: 0 }
    }

    pub fn bits(&self) -> (r: u64)
        ensures
            r == self@,
    {
        self.bits
    }

    /// The value that keeps the named bits of `bits`.
    pub closed spec fn spec_from_bits_truncate(bits: u64) -> Self {
        AttrFlags { bits: bits & Self::ALL_BITS }
    }

    /// Keeps the named bits of `bits` and drops the others.
    pub fn from_bits_truncate(bits: u64) -> (r: Self)
        ensures
            r == Self::spec_from_bits_truncate(bits),
            r@ == Self::truncated(bits),
    {
        AttrFlags { bits: bits & Self::ALL_BITS }
    }

    /// Whether every bit of `flags` is set.
    pub fn contains(&self, flags: u64) -> (r: bool)
        ensures
            r == self.has(flags),
    {
        self.bits & flags == flags
    }

    /// Whether any bit of `flags` is set.
    pub fn intersects(&self, flags: u64) -> (r: bool)
        ensures
            r == (self@ & flags != 0),
    {
        self.bits & flags != 0
    }

    pub fn union(self, other: Self) -> (r: Self)
        ensures
            r@ == self@ | other@,
    {
        AttrFlags { bits: self.bits | other.bits }
    }

    pub fn intersection(self, other: Self) -> (r: Self)
        ensures
            r@ == self@ & other@,
    {
        AttrFlags { bits: self.bits & other.bits }
    }
}

/// The fields of a read-result block (`read_format`).
#[derive(Debug, Clone, Copy, PartialEq, Eq, Hash)]
pub struct ReadFormat {
    bits: u64,
}

impl View for ReadFormat {
    type V = u64;

    closed spec fn view(&self) -> u64 {
        self.bits
    }
}

impl ReadFormat {
    pub const TOTAL_TIME_ENABLED: u64 = 0x1;

    pub const TOTAL_TIME_RUNNING: u64 = 0x2;

    pub const ID: u64 = 0x4;

    pub const GROUP: u64 = 0x8;

    /// Every bit that has a name.
    pub const ALL_BITS: u64 = 0xf;

    /// The bits that `from_bits_truncate(bits)` keeps.
    pub open spec fn truncated(bits: u64) -> u64 {
        bits & Self::ALL_BITS
    }

    /// Every bit of `flags` is set in `self`.
    pub open spec fn has(self, flags: u64) -> bool {
        self@ & flags == flags
    }

    pub fn empty() -> (r: Self)
        ensures
            r@ == 0,
    {
        ReadFormat { bits: 0 }
    }

    pub fn bits(&self) -> (r: u64)
        ensures
            r == self@,
    {
        self.bits
    }

    /// The value that keeps the named bits of `bits`.
    pub closed spec fn spec_from_bits_truncate(bits: u64) -> Self {
        ReadFormat { bits: bits & Self::ALL_BITS }
    }

    /// Keeps the named bits of `bits` and drops the others.
    pub fn from_bits_truncate(bits: u64) -> (r: Self)
        ensures
            r == Self::spec_from_bits_truncate(bits),
            r@ == Self::truncated(bits),
    {
        ReadFormat { bits: bits & Self::ALL_BITS }
    }

    /// Whether every bit of `flags` is set.
    pub fn contains(&self, flags: u64) -> (r: bool)
        ensures
            r == self.has(flags),
    {
        self.bits & flags == flags
    }

    /// Whether any bit of `flags` is set.
    pub fn intersects(&self, flags: u64) -> (r: bool)
        ensures
            r == (self@ & flags != 0),
    {
        self.bits & flags != 0
    }

    pub fn union(self, other: Self) -> (r: Self)
        ensures
            r@ == self@ | other@,
    {
        ReadFormat { bits: self.bits | other.bits }
    }

    pub fn intersection(self, other: Self) -> (r: Self)
        ensures
            r@ == self@ & other@,
    {
        ReadFormat { bits: self.bits & other.bits }
    }
}

/// The kind of access a breakpoint event counts.
#[derive(Debug, Clone, Copy, PartialEq, Eq, Hash)]
pub struct HwBreakpointType {
    bits: u32,
}

impl View for HwBreakpointType {
    type V = u32;

    closed spec fn view(&self) -> u32 {
        self.bits
    }
}

impl HwBreakpointType {
    /// Count when we read the memory location. (`HW_BREAKPOINT_R`)
    pub const R: u32 = 0x1;

    /// Count when we write the memory location. (`HW_BREAKPOINT_W`)
    pub const W: u32 = 0x2;

    /// Count when we execute code at the memory location. (`HW_BREAKPOINT_X`)
    pub const X: u32 = 0x4;

    /// No breakpoint. (`HW_BREAKPOINT_EMPTY`)
    pub const EMPTY: u32 = 0;

    /// Count when we read or write the memory location. (`HW_BREAKPOINT_RW`)
    pub const RW: u32 = 0x3;

    /// The combination of `HW_BREAKPOINT_R` or `HW_BREAKPOINT_W` with
    /// `HW_BREAKPOINT_X` is not allowed. (`HW_BREAKPOINT_INVALID`)
    pub const INVALID: u32 = 0x7;

    /// Every bit that has a name.
    pub const ALL_BITS: u32 = 0x7;

    /// The bits that `from_bits_truncate(bits)` keeps.
    pub open spec fn truncated(bits: u32) -> u32 {
        bits & Self::ALL_BITS
    }

    /// Every bit of `flags` is set in `self`.
    pub open spec fn has(self, flags: u32) -> bool {
        self@ & flags == flags
    }

    pub fn empty() -> (r: Self)
        ensures
            r@ == 0,
    {
        HwBreakpointType { bits: 0 }
    }

    pub fn bits(&self) -> (r: u32)
        ensures
            r == self@,
    {
        self.bits
    }

    /// The value that keeps the named bits of `bits`.
    pub closed spec fn spec_from_bits_truncate(bits: u32) -> Self {
        HwBreakpointType { bits: bits & Self::ALL_BITS }
    }

    /// Keeps the named bits of `bits` and drops the others.
    pub fn from_bits_truncate(bits: u32) -> (r: Self)
        ensures
            r == Self::spec_from_bits_truncate(bits),
            r@ == Self::truncated(bits),
    {
        HwBreakpointType { bits: bits & Self::ALL_BITS }
    }

    /// Whether every bit of `flags` is set.
    pub fn contains(&self, flags: u32) -> (r: bool)
        ensures
            r == self.has(flags),
    {
        self.bits & flags == flags
    }

    /// Whether any bit of `flags` is set.
    pub fn intersects(&self, flags: u32) -> (r: bool)
        ensures
            r == (self@ & flags != 0),
    {
        self.bits & flags != 0
    }

    pub fn union(self, other: Self) -> (r: Self)
        ensures
            r@ == self@ | other@,
    {
        HwBreakpointType { bits: self.bits | other.bits }
    }

    pub fn intersection(self, other: Self) -> (r: Self)
        ensures
            r@ == self@ & other@,
    {
        HwBreakpointType { bits: self.bits & other.bits }
    }
}

/// Specifies how precise the instruction address should be.
/// With `perf record -e` you can set the precision by appending /p to the
/// event name, with varying numbers of `p`s.
#[derive(Debug, Clone, Copy, PartialEq, Eq, PartialOrd, Ord, Hash)]
pub enum IpSkidConstraint {
    /// 0 - SAMPLE_IP can have arbitrary skid
    ArbitrarySkid,
    /// 1 - SAMPLE_IP must have constant skid
    ConstantSkid,
    /// 2 - SAMPLE_IP requested to have 0 skid
    ZeroSkid,
    /// 3 - SAMPLE_IP must have 0 skid, or uses randomization to avoid
    /// sample shadowing effects.
    ZeroSkidOrRandomization,
}

impl AttrFlags {
    /// Extract the IpSkidConstraint from the bits.
    pub fn ip_skid_constraint(&self) -> (r: IpSkidConstraint)
        ensures
            r == match (self@ >> 15u64) & 3 {
                0 => IpSkidConstraint::ArbitrarySkid,
                1 => IpSkidConstraint::ConstantSkid,
                2 => IpSkidConstraint::ZeroSkid,
                _ => IpSkidConstraint::ZeroSkidOrRandomization,
            },
    {
        let b = self.bits;
        assert((b & 0x18000u64) >> 15u64 == (b >> 15u64) & 3) by (bit_vector);
        match (self.bits & Self::PRECISE_IP_BITMASK) >> 15 {
            0 => IpSkidConstraint::ArbitrarySkid,
            1 => IpSkidConstraint::ConstantSkid,
            2 => IpSkidConstraint::ZeroSkid,
            _ => IpSkidConstraint::ZeroSkidOrRandomization,
        }
    }
}

#[derive(Debug, Clone, Copy, PartialEq, Eq, PartialOrd, Ord, Hash)]
pub enum ClockId {
    Realtime,
    Monotonic,
    ProcessCputimeId,
    ThreadCputimeId,
    MonotonicRaw,
    RealtimeCoarse,
    MonotonicCoarse,
    Boottime,
    RealtimeAlarm,
    BoottimeAlarm,
}

/// The clock with kernel id `clockid`, if it has one.
pub open spec fn clock_id_of(clockid: u32) -> Option<ClockId> {
    match clockid {
        0 => Some(ClockId::Realtime),
        1 => Some(ClockId::Monotonic),
        2 => Some(ClockId::ProcessCputimeId),
        3 => Some(ClockId::ThreadCputimeId),
        4 => Some(ClockId::MonotonicRaw),
        5 => Some(ClockId::RealtimeCoarse),
        6 => Some(ClockId::MonotonicCoarse),
        7 => Some(ClockId::Boottime),
        8 => Some(ClockId::RealtimeAlarm),
        9 => Some(ClockId::BoottimeAlarm),
        _ => None,
    }
}

impl ClockId {
    pub fn from_u32(clockid: u32) -> (r: Option<Self>)
        ensures
            r == clock_id_of(clockid),
    {
        match clockid {
            0 => Some(Self::Realtime),
            1 => Some(Self::Monotonic),
            2 => Some(Self::ProcessCputimeId),
            3 => Some(Self::ThreadCputimeId),
            4 => Some(Self::MonotonicRaw),
            5 => Some(Self::RealtimeCoarse),
            6 => Some(Self::MonotonicCoarse),
            7 => Some(Self::Boottime),
            8 => Some(Self::RealtimeAlarm),
            9 => Some(Self::BoottimeAlarm),
            _ => None,
        }
    }
}

/// The kind of a record: kernel built-in below `PERF_RECORD_USER_TYPE_START`,
/// defined by the producer of the stream from there on.
#[derive(Debug, Clone, Copy, PartialEq, Eq, PartialOrd, Ord, Hash)]
pub struct RecordType(pub u32);

impl RecordType {
    // Kernel-built-in record types
    pub const MMAP: u32 = PERF_RECORD_MMAP;
    pub const LOST: u32 = PERF_RECORD_LOST;
    pub const COMM: u32 = PERF_RECORD_COMM;
    pub const EXIT: u32 = PERF_RECORD_EXIT;
    pub const THROTTLE: u32 = PERF_RECORD_THROTTLE;
    pub const UNTHROTTLE: u32 = PERF_RECORD_UNTHROTTLE;
    pub const FORK: u32 = PERF_RECORD_FORK;
    pub const READ: u32 = PERF_RECORD_READ;
    pub const SAMPLE: u32 = PERF_RECORD_SAMPLE;
    pub const MMAP2: u32 = PERF_RECORD_MMAP2;
    pub const AUX: u32 = PERF_RECORD_AUX;
    pub const ITRACE_START: u32 = PERF_RECORD_ITRACE_START;
    pub const LOST_SAMPLES: u32 = PERF_RECORD_LOST_SAMPLES;
    pub const SWITCH: u32 = PERF_RECORD_SWITCH;
    pub const SWITCH_CPU_WIDE: u32 = PERF_RECORD_SWITCH_CPU_WIDE;
    pub const NAMESPACES: u32 = PERF_RECORD_NAMESPACES;
    pub const KSYMBOL: u32 = PERF_RECORD_KSYMBOL;
    pub const BPF_EVENT: u32 = PERF_RECORD_BPF_EVENT;
    pub const CGROUP: u32 = PERF_RECORD_CGROUP;
    pub const TEXT_POKE: u32 = PERF_RECORD_TEXT_POKE;
    pub const AUX_OUTPUT_HW_ID: u32 = PERF_RECORD_AUX_OUTPUT_HW_ID;
    // Record types added by the `perf` tool from user space
    pub const THREAD_MAP: u32 = PERF_RECORD_THREAD_MAP;

    pub open spec fn spec_is_user_type(self) -> bool {
        self.0 >= PERF_RECORD_USER_TYPE_START
    }

    pub fn is_builtin_type(&self) -> (r: bool)
        ensures
            r == !self.spec_is_user_type(),
    {
        self.0 < PERF_RECORD_USER_TYPE_START
    }

    pub fn is_user_type(&self) -> (r: bool)
        ensures
            r == self.spec_is_user_type(),
    {
        self.0 >= PERF_RECORD_USER_TYPE_START
    }
}

#[derive(Debug, Clone, Copy, PartialEq, Eq, Hash)]
pub enum CpuMode {
    Unknown,
    Kernel,
    User,
    Hypervisor,
    GuestKernel,
    GuestUser,
}

/// The CPU mode that the low three bits of a record's `misc` field encode.
pub open spec fn cpu_mode_of(misc: u16) -> CpuMode {
    match misc & PERF_RECORD_MISC_CPUMODE_MASK {
        1 => CpuMode::Kernel,
        2 => CpuMode::User,
        3 => CpuMode::Hypervisor,
        4 => CpuMode::GuestKernel,
        5 => CpuMode::GuestUser,
        _ => CpuMode::Unknown,
    }
}

impl CpuMode {
    /// Initialize from the misc field of the perf event header.
    pub fn from_misc(misc: u16) -> (r: Self)
        ensures
            r == cpu_mode_of(misc),
    {
        match misc & PERF_RECORD_MISC_CPUMODE_MASK {
            PERF_RECORD_MISC_KERNEL => Self::Kernel,
            PERF_RECORD_MISC_USER => Self::User,
            PERF_RECORD_MISC_HYPERVISOR => Self::Hypervisor,
            PERF_RECORD_MISC_GUEST_KERNEL => Self::GuestKernel,
            PERF_RECORD_MISC_GUEST_USER => Self::GuestUser,
            _ => Self::Unknown,
        }
    }
}

} // verus!
