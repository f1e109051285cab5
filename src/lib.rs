//! Decoding of the Linux perf event stream: the event configuration
//! (`perf_event_attr`), the layout information derived from it, and the
//! bodies of the records, read from byte views that may be split in two.
pub mod constants;
mod common_data;
mod endian;
mod error;
mod event_record;
mod laws;
mod parse_info;
mod perf_event;
mod raw_data;
mod records;
mod registers;
mod sample;
mod types;

pub use common_data::CommonData;
pub use endian::{decode_u16, decode_u32, decode_u64, Endianness};
pub use error::DecodeError;
pub use event_record::{
    get_record_id, get_record_identifier, get_record_timestamp, EventRecord, ParsedRecord,
    RawEventRecord, RawRecord,
};
pub use laws::{
    lemma_build_id_bound, lemma_declared_size_is_override, lemma_identifier_wins,
    lemma_older_versions_default, lemma_peek_matches_common_data, lemma_peek_matches_sample, lemma_placed_field_reads_back,
    lemma_sample_size_is_sum_of_sections, lemma_split_equivalence, lemma_uint_round_trip,
};
pub use parse_info::{RecordIdParseInfo, RecordParseInfo};
pub use perf_event::{
    HardwareCacheId, HardwareCacheOp, HardwareCacheOpResult, HardwareEventId, HwBreakpointAddr,
    HwBreakpointLen, PerfClock, PerfEventAttr, PerfEventHeader, PerfEventType, PmuTypeId,
    SamplingPolicy, SoftwareCounterType, WakeupPolicy,
};
pub use raw_data::{RawData, RawDataU64};
pub use records::{
    CommOrExecRecord, ContextSwitchRecord, ForkOrExitRecord, LostRecord, Mmap2FileId,
    Mmap2InodeAndVersion, Mmap2Record, MmapRecord, TaskWasPreempted, ThreadMap, ThrottleRecord,
};
pub use registers::Regs;
pub use sample::SampleRecord;
pub use types::{
    AttrFlags, BranchSampleFormat, ClockId, CpuMode, HwBreakpointType, IpSkidConstraint,
    ReadFormat, RecordType, SampleFormat,
};
