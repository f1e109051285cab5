use crate::endian::Endianness;
use crate::perf_event::PerfEventAttr;
use crate::registers::{count_bits_below, popcount};
use crate::types::{AttrFlags, BranchSampleFormat, ReadFormat, SampleFormat};
use vstd::prelude::*;

verus! {

/// The byte count of a fixed 8-byte field that `sf` requests with `flag`.
pub open spec fn field_size(sf: SampleFormat, flag: u64) -> nat {
    if sf.has(flag) {
        8
    } else {
        0
    }
}

/// Where the trailer of common fields starts, counted from the end of a
/// non-sample record: the size of the whole trailer.
pub open spec fn trailer_size(sf: SampleFormat) -> nat {
    field_size(sf, SampleFormat::TID) + field_size(sf, SampleFormat::TIME) + field_size(
        sf,
        SampleFormat::ID,
    ) + field_size(sf, SampleFormat::STREAM_ID) + field_size(sf, SampleFormat::CPU) + field_size(
        sf,
        SampleFormat::IDENTIFIER,
    )
}

/// Where the timestamp starts, counted from the end of a non-sample record.
pub open spec fn trailer_time_offset(sf: SampleFormat) -> nat {
    field_size(sf, SampleFormat::TIME) + field_size(sf, SampleFormat::ID) + field_size(
        sf,
        SampleFormat::STREAM_ID,
    ) + field_size(sf, SampleFormat::CPU) + field_size(sf, SampleFormat::IDENTIFIER)
}

/// Where the id starts, counted from the end of a non-sample record: the
/// identifier is always last; otherwise the plain id comes before the
/// stream id and the cpu.
pub open spec fn trailer_id_offset(sf: SampleFormat) -> nat {
    if sf.has(SampleFormat::IDENTIFIER) {
        8
    } else {
        field_size(sf, SampleFormat::ID) + field_size(sf, SampleFormat::STREAM_ID) + field_size(
            sf,
            SampleFormat::CPU,
        )
    }
}

/// Where the timestamp starts in a sample record: after the identifier, the
/// instruction pointer and the pid/tid pair.
pub open spec fn sample_time_offset(sf: SampleFormat) -> nat {
    field_size(sf, SampleFormat::IDENTIFIER) + field_size(sf, SampleFormat::IP) + field_size(
        sf,
        SampleFormat::TID,
    )
}

/// Where the plain id starts in a sample record: after the identifier, the
/// instruction pointer, the pid/tid pair, the timestamp and the address.
pub open spec fn sample_id_offset(sf: SampleFormat) -> nat {
    sample_time_offset(sf) + field_size(sf, SampleFormat::TIME) + field_size(
        sf,
        SampleFormat::ADDR,
    )
}

/// The offsets that locate a record's id without parsing the record.
#[derive(Clone, Copy, Debug, PartialEq, Eq)]
pub struct RecordIdParseInfo {
    pub nonsample_record_id_offset_from_end: Option<u8>,  // 0..=32
    pub sample_record_id_offset_from_start: Option<u8>,  // 0..=24
}

/// What `RecordIdParseInfo::new` computes for a configuration.
pub open spec fn id_parse_info_of(attr: PerfEventAttr) -> RecordIdParseInfo {
    let sf = attr.sample_format;
    RecordIdParseInfo {
        nonsample_record_id_offset_from_end: if attr.flags.has(AttrFlags::SAMPLE_ID_ALL) && (
        sf.has(SampleFormat::ID) || sf.has(SampleFormat::IDENTIFIER)) {
            Some(trailer_id_offset(sf) as u8)
        } else {
            None
        },
        sample_record_id_offset_from_start: if sf.has(SampleFormat::IDENTIFIER) {
            Some(0u8)
        } else if sf.has(SampleFormat::ID) {
            Some(sample_id_offset(sf) as u8)
        } else {
            None
        },
    }
}

/// What a configuration tells about the layout of its records, computed once.
#[derive(Clone, Copy, Debug, PartialEq, Eq)]
pub struct RecordParseInfo {
    pub endian: Endianness,
    pub sample_format: SampleFormat,
    pub branch_sample_format: BranchSampleFormat,
    pub read_format: ReadFormat,
    pub common_data_offset_from_end: Option<u8>,  // 0..=48
    pub sample_regs_user: u64,
    pub user_regs_count: u8,  // 0..=64
    pub sample_regs_intr: u64,
    pub intr_regs_count: u8,  // 0..=64
    pub id_parse_info: RecordIdParseInfo,
    pub nonsample_record_time_offset_from_end: Option<u8>,  // 0..=40
    pub sample_record_time_offset_from_start: Option<u8>,  // 0..=32
}

/// What `RecordParseInfo::new` computes for a configuration.
pub open spec fn parse_info_of(attr: PerfEventAttr, endian: Endianness) -> RecordParseInfo {
    let sf = attr.sample_format;
    let id_all = attr.flags.has(AttrFlags::SAMPLE_ID_ALL);
    RecordParseInfo {
        endian,
        sample_format: sf,
        branch_sample_format: attr.branch_sample_format,
        read_format: attr.read_format,
        common_data_offset_from_end: if id_all {
            Some(trailer_size(sf) as u8)
        } else {
            None
        },
        sample_regs_user: attr.sample_regs_user,
        user_regs_count: popcount(attr.sample_regs_user) as u8,
        sample_regs_intr: attr.sample_regs_intr,
        intr_regs_count: popcount(attr.sample_regs_intr) as u8,
        id_parse_info: id_parse_info_of(attr),
        nonsample_record_time_offset_from_end: if id_all && sf.has(SampleFormat::TIME) {
            Some(trailer_time_offset(sf) as u8)
        } else {
            None
        },
        sample_record_time_offset_from_start: if sf.has(SampleFormat::TIME) {
            Some(sample_time_offset(sf) as u8)
        } else {
            None
        },
    }
}

/// 8 if `present`, else 0.
pub(crate) fn size_if(present: bool) -> (r: u8)
    ensures
        r == if present {
            8u8
        } else {
            0u8
        },
{
    if present {
        8
    } else {
        0
    }
}

impl RecordParseInfo {
    pub fn new(attr: &PerfEventAttr, endian: Endianness) -> (r: Self)
        ensures
            r == parse_info_of(*attr, endian),
    {
        let sf = attr.sample_format;
        let id_all = attr.flags.contains(AttrFlags::SAMPLE_ID_ALL);
        let tid = size_if(sf.contains(SampleFormat::TID));
        let time = size_if(sf.contains(SampleFormat::TIME));
        let id = size_if(sf.contains(SampleFormat::ID));
        let stream_id = size_if(sf.contains(SampleFormat::STREAM_ID));
        let cpu = size_if(sf.contains(SampleFormat::CPU));
        let identifier = size_if(sf.contains(SampleFormat::IDENTIFIER));
        let ip = size_if(sf.contains(SampleFormat::IP));

        // struct sample_id {
        //     { u32 pid, tid; }   /* if PERF_SAMPLE_TID set */
        //     { u64 time;     }   /* if PERF_SAMPLE_TIME set */
        //     { u64 id;       }   /* if PERF_SAMPLE_ID set */
        //     { u64 stream_id;}   /* if PERF_SAMPLE_STREAM_ID set  */
        //     { u32 cpu, res; }   /* if PERF_SAMPLE_CPU set */
        //     { u64 id;       }   /* if PERF_SAMPLE_IDENTIFIER set */
        // };
        let common_data_offset_from_end = if id_all {
            Some(tid + time + id + stream_id + cpu + identifier)
        } else {
            None
        };
        let nonsample_record_time_offset_from_end = if id_all && sf.contains(SampleFormat::TIME) {
            Some(time + id + stream_id + cpu + identifier)
        } else {
            None
        };

        // { u64 id;           } && PERF_SAMPLE_IDENTIFIER
        // { u64 ip;           } && PERF_SAMPLE_IP
        // { u32 pid; u32 tid; } && PERF_SAMPLE_TID
        // { u64 time;         } && PERF_SAMPLE_TIME
        let sample_record_time_offset_from_start = if sf.contains(SampleFormat::TIME) {
            Some(identifier + ip + tid)
        } else {
            None
        };

        Self {
            endian,
            sample_format: sf,
            branch_sample_format: attr.branch_sample_format,
            read_format: attr.read_format,
            common_data_offset_from_end,
            sample_regs_user: attr.sample_regs_user,
            user_regs_count: count_bits_below(attr.sample_regs_user, 64) as u8,
            sample_regs_intr: attr.sample_regs_intr,
            intr_regs_count: count_bits_below(attr.sample_regs_intr, 64) as u8,
            nonsample_record_time_offset_from_end,
            sample_record_time_offset_from_start,
            id_parse_info: RecordIdParseInfo::new(attr),
        }
    }
}

impl RecordIdParseInfo {
    pub fn new(attr: &PerfEventAttr) -> (r: Self)
        ensures
            r == id_parse_info_of(*attr),
    {
        let sf = attr.sample_format;
        let tid = size_if(sf.contains(SampleFormat::TID));
        let time = size_if(sf.contains(SampleFormat::TIME));
        let id = size_if(sf.contains(SampleFormat::ID));
        let stream_id = size_if(sf.contains(SampleFormat::STREAM_ID));
        let cpu = size_if(sf.contains(SampleFormat::CPU));
        let ip = size_if(sf.contains(SampleFormat::IP));
        let addr = size_if(sf.contains(SampleFormat::ADDR));
        let has_id = sf.contains(SampleFormat::ID);
        let has_identifier = sf.contains(SampleFormat::IDENTIFIER);

        let nonsample_record_id_offset_from_end = if attr.flags.contains(AttrFlags::SAMPLE_ID_ALL)
            && (has_id || has_identifier) {
            if has_identifier {
                Some(8)
            } else {
                Some(id + stream_id + cpu)
            }
        } else {
            None
        };

        // { u64 id;           } && PERF_SAMPLE_IDENTIFIER
        // { u64 ip;           } && PERF_SAMPLE_IP
        // { u32 pid; u32 tid; } && PERF_SAMPLE_TID
        // { u64 time;         } && PERF_SAMPLE_TIME
        // { u64 addr;         } && PERF_SAMPLE_ADDR
        // { u64 id;           } && PERF_SAMPLE_ID
        let sample_record_id_offset_from_start = if has_identifier {
            Some(0)
        } else if has_id {
            Some(ip + tid + time + addr)
        } else {
            None
        };

        Self { nonsample_record_id_offset_from_end, sample_record_id_offset_from_start }
    }
}

} // verus!
