use crate::common_data::{no_common_data, nonsample_common_of, sample_common_of, CommonData};
use crate::constants::{
    PERF_RECORD_COMM, PERF_RECORD_EXIT, PERF_RECORD_FORK, PERF_RECORD_LOST, PERF_RECORD_MMAP,
    PERF_RECORD_MMAP2, PERF_RECORD_SAMPLE, PERF_RECORD_SWITCH, PERF_RECORD_SWITCH_CPU_WIDE,
    PERF_RECORD_THREAD_MAP, PERF_RECORD_THROTTLE, PERF_RECORD_UNTHROTTLE,
};
use crate::endian::Endianness;
use crate::error::DecodeError;
use crate::parse_info::{RecordIdParseInfo, RecordParseInfo};
use crate::raw_data::{peek_u64, uint_at, RawData};
use crate::records::{
    comm_parsed, fork_exit_parsed, lost_parsed, mmap2_parsed, mmap_parsed, switch_cpu_wide_parsed,
    switch_of, thread_map_parsed, throttle_parsed, CommOrExecRecord, ContextSwitchRecord,
    ForkOrExitRecord, LostRecord, Mmap2Record, MmapRecord, ThreadMap, ThrottleRecord,
};
use crate::sample::{sample_parsed, SampleRecord};
use crate::types::RecordType;
use vstd::prelude::*;

verus! {

/// The 8-byte number at `pos` of `s`, if `s` reaches that far.
pub open spec fn word_if_fits(s: Seq<u8>, pos: int, e: Endianness) -> Option<u64> {
    if 0 <= pos && pos + 8 <= s.len() {
        Some(uint_at(s, pos, 8, e) as u64)
    } else {
        None
    }
}

/// The 8-byte number that ends `off` bytes before the end of `s` starts at,
/// if there is one.
pub open spec fn word_from_end(s: Seq<u8>, off: int, e: Endianness) -> Option<u64> {
    if off <= s.len() {
        word_if_fits(s, s.len() - off, e)
    } else {
        None
    }
}

/// The identifier of a record whose configuration requests it, if the body
/// `s` holds one where it should be.
pub open spec fn record_identifier_of(record_type: RecordType, s: Seq<u8>, sample_id_all: bool, e: Endianness) -> Option<u64> {
    if record_type.spec_is_user_type() {
        None
    } else if record_type.0 == PERF_RECORD_SAMPLE {
        word_if_fits(s, 0, e)
    } else if sample_id_all {
        word_from_end(s, 8, e)
    } else {
        None
    }
}

/// The id of a record, found through the offsets of `info`.
pub open spec fn record_id_of(record_type: RecordType, s: Seq<u8>, info: RecordIdParseInfo, e: Endianness) -> Option<u64> {
    if record_type.spec_is_user_type() {
        None
    } else if record_type.0 == PERF_RECORD_SAMPLE {
        match info.sample_record_id_offset_from_start {
            Some(off) => word_if_fits(s, off as int, e),
            None => None,
        }
    } else {
        match info.nonsample_record_id_offset_from_end {
            Some(off) => word_from_end(s, off as int, e),
            None => None,
        }
    }
}

/// The timestamp of a record, found through the offsets of `info`.
pub open spec fn record_timestamp_of(record_type: RecordType, s: Seq<u8>, info: RecordParseInfo) -> Option<u64> {
    if record_type.spec_is_user_type() {
        None
    } else if record_type.0 == PERF_RECORD_SAMPLE {
        match info.sample_record_time_offset_from_start {
            Some(off) => word_if_fits(s, off as int, info.endian),
            None => None,
        }
    } else {
        match info.nonsample_record_time_offset_from_end {
            Some(off) => word_from_end(s, off as int, info.endian),
            None => None,
        }
    }
}

/// The common fields of a record of type `record_type` with body `s`: none
/// for a producer-defined kind, from the head of a sample, else from the
/// trailer.
pub open spec fn record_common_of(record_type: RecordType, s: Seq<u8>, info: RecordParseInfo) -> Result<CommonData, DecodeError> {
    if record_type.spec_is_user_type() {
        Ok(no_common_data())
    } else if record_type.0 == PERF_RECORD_SAMPLE {
        sample_common_of(s, info.sample_format, info.endian)
    } else {
        nonsample_common_of(s, info)
    }
}

/// Reads the 8-byte number `off` bytes before the end of `data`.
fn word_from_end_of(data: RawData, off: usize, e: Endianness) -> (r: Option<u64>)
    requires
        data.wf(),
    ensures
        r == word_from_end(data@, off as int, e),
{
    let len = data.len();
    if off > len {
        return None;
    }
    peek_u64(data, len - off, e)
}

/// Get the ID from an event record, if the sample format includes SampleFormat::IDENTIFIER.
///
/// This can be used if it is not known which `perf_event_attr` describes this record,
/// but only if all potential attrs include `PERF_SAMPLE_IDENTIFIER`.
pub fn get_record_identifier(record_type: RecordType, data: RawData, sample_id_all: bool, endian: Endianness) -> (r: Option<u64>)
    requires
        data.wf(),
    ensures
        r == record_identifier_of(record_type, data@, sample_id_all, endian),
{
    if record_type.is_user_type() {
        None
    } else if record_type.0 == PERF_RECORD_SAMPLE {
        // if IDENTIFIER is set, every SAMPLE record starts with the event ID.
        peek_u64(data, 0, endian)
    } else if sample_id_all {
        // if IDENTIFIER and SAMPLE_ID_ALL are set, every non-SAMPLE record ends with the event ID.
        word_from_end_of(data, 8, endian)
    } else {
        None
    }
}

/// Get the ID from an event record, with the help of `RecordIdParseInfo`.
///
/// This can be used if it is not known which `perf_event_attr` describes this record,
/// but only if all potential attrs have the same `RecordIdParseInfo`.
pub fn get_record_id(record_type: RecordType, data: RawData, parse_info: &RecordIdParseInfo, endian: Endianness) -> (r: Option<u64>)
    requires
        data.wf(),
    ensures
        r == record_id_of(record_type, data@, *parse_info, endian),
{
    if record_type.is_user_type() {
        return None;
    }
    if record_type.0 == PERF_RECORD_SAMPLE {
        match parse_info.sample_record_id_offset_from_start {
            Some(off) => peek_u64(data, off as usize, endian),
            None => None,
        }
    } else {
        match parse_info.nonsample_record_id_offset_from_end {
            Some(off) => word_from_end_of(data, off as usize, endian),
            None => None,
        }
    }
}

/// Get the timestamp from an event record, with the help of `RecordParseInfo`.
///
/// This can be used for record sorting, without having to wrap the record into
/// a `RawRecord`.
pub fn get_record_timestamp(record_type: RecordType, data: RawData, parse_info: &RecordParseInfo) -> (r: Option<u64>)
    requires
        data.wf(),
    ensures
        r == record_timestamp_of(record_type, data@, *parse_info),
{
    if record_type.is_user_type() {
        return None;
    }
    if record_type.0 == PERF_RECORD_SAMPLE {
        match parse_info.sample_record_time_offset_from_start {
            Some(off) => peek_u64(data, off as usize, parse_info.endian),
            None => None,
        }
    } else {
        match parse_info.nonsample_record_time_offset_from_end {
            Some(off) => word_from_end_of(data, off as usize, parse_info.endian),
            None => None,
        }
    }
}

/// A fully parsed event record.
#[derive(Debug, Clone, PartialEq, Eq)]
pub enum ParsedRecord<'a> {
    Sample(SampleRecord<'a>),
    Comm(CommOrExecRecord<'a>),
    Exit(ForkOrExitRecord),
    Fork(ForkOrExitRecord),
    Mmap(MmapRecord<'a>),
    Mmap2(Mmap2Record<'a>),
    Lost(LostRecord),
    Throttle(ThrottleRecord),
    Unthrottle(ThrottleRecord),
    ContextSwitch(ContextSwitchRecord),
    ThreadMap(ThreadMap<'a>),
    Raw(RawRecord<'a>),
}

/// An unparsed event record.
///
/// This can be converted into a parsed record by calling `.parse()`.
///
/// The raw record also provides access to "common data" like the ID, timestamp,
/// tid etc., i.e. the information that was requested with `SampleFormat` and
/// `AttrFlags::SAMPLE_ID_ALL`.
#[derive(Debug, Clone, PartialEq, Eq)]
pub struct RawRecord<'a> {
    pub record_type: RecordType,
    pub misc: u16,
    pub data: RawData<'a>,
    pub parse_info: RecordParseInfo,
}

/// The record kinds that `RawRecord::parse` decodes; the others come back raw.
pub open spec fn is_known_kind(kind: u32) -> bool {
    kind == PERF_RECORD_MMAP || kind == PERF_RECORD_LOST || kind == PERF_RECORD_COMM || kind
        == PERF_RECORD_EXIT || kind == PERF_RECORD_THROTTLE || kind == PERF_RECORD_UNTHROTTLE
        || kind == PERF_RECORD_FORK || kind == PERF_RECORD_SAMPLE || kind == PERF_RECORD_MMAP2
        || kind == PERF_RECORD_SWITCH || kind == PERF_RECORD_SWITCH_CPU_WIDE || kind
        == PERF_RECORD_THREAD_MAP
}

/// What parsing the raw record `rec` gives: the parser of its kind, and for
/// a kind without one the record itself.
pub open spec fn record_parsed<'a>(rec: RawRecord<'a>, r: Result<ParsedRecord<'a>, DecodeError>) -> bool {
    let kind = rec.record_type.0;
    let s = rec.data@;
    let e = rec.parse_info.endian;
    let misc = rec.misc;
    match r {
        Ok(ParsedRecord::Mmap(m)) => kind == PERF_RECORD_MMAP && mmap_parsed(s, misc, e, Ok(m)),
        Ok(ParsedRecord::Lost(l)) => kind == PERF_RECORD_LOST && lost_parsed(s, e, Ok(l)),
        Ok(ParsedRecord::Comm(c)) => kind == PERF_RECORD_COMM && comm_parsed(s, misc, e, Ok(c)),
        Ok(ParsedRecord::Exit(f)) => kind == PERF_RECORD_EXIT && fork_exit_parsed(s, e, Ok(f)),
        Ok(ParsedRecord::Throttle(t)) => kind == PERF_RECORD_THROTTLE && throttle_parsed(s, e, Ok(t)),
        Ok(ParsedRecord::Unthrottle(t)) => kind == PERF_RECORD_UNTHROTTLE && throttle_parsed(s, e, Ok(t)),
        Ok(ParsedRecord::Fork(f)) => kind == PERF_RECORD_FORK && fork_exit_parsed(s, e, Ok(f)),
        Ok(ParsedRecord::Sample(x)) => kind == PERF_RECORD_SAMPLE && sample_parsed(s, rec.parse_info, Ok(x)),
        Ok(ParsedRecord::Mmap2(m)) => kind == PERF_RECORD_MMAP2 && mmap2_parsed(s, misc, e, Ok(m)),
        Ok(ParsedRecord::ContextSwitch(c)) => {
            ||| kind == PERF_RECORD_SWITCH && c == switch_of(misc, None, None)
            ||| kind == PERF_RECORD_SWITCH_CPU_WIDE && switch_cpu_wide_parsed(s, misc, e, Ok(c))
        },
        Ok(ParsedRecord::ThreadMap(t)) => kind == PERF_RECORD_THREAD_MAP && thread_map_parsed(s, e, Ok(t)),
        Ok(ParsedRecord::Raw(raw)) => !is_known_kind(kind) && raw == rec,
        Err(err) => {
            ||| kind == PERF_RECORD_MMAP && mmap_parsed(s, misc, e, Err(err))
            ||| kind == PERF_RECORD_LOST && lost_parsed(s, e, Err(err))
            ||| kind == PERF_RECORD_COMM && comm_parsed(s, misc, e, Err(err))
            ||| (kind == PERF_RECORD_EXIT || kind == PERF_RECORD_FORK) && fork_exit_parsed(s, e, Err(err))
            ||| (kind == PERF_RECORD_THROTTLE || kind == PERF_RECORD_UNTHROTTLE) && throttle_parsed(s, e, Err(err))
            ||| kind == PERF_RECORD_SAMPLE && sample_parsed(s, rec.parse_info, Err(err))
            ||| kind == PERF_RECORD_MMAP2 && mmap2_parsed(s, misc, e, Err(err))
            ||| kind == PERF_RECORD_SWITCH_CPU_WIDE && switch_cpu_wide_parsed(s, misc, e, Err(err))
            ||| kind == PERF_RECORD_THREAD_MAP && thread_map_parsed(s, e, Err(err))
        },
    }
}

impl<'a> RawRecord<'a> {
    pub fn new(record_type: RecordType, misc: u16, data: RawData<'a>, parse_info: RecordParseInfo) -> (r: Self)
        ensures
            r == (RawRecord { record_type, misc, data, parse_info }),
    {
        Self { record_type, misc, data, parse_info }
    }

    /// The common fields of this record: none for a producer-defined kind,
    /// from the head of a sample, else from the trailer.
    pub fn common_data(&self) -> (r: Result<CommonData, DecodeError>)
        requires
            self.data.wf(),
        ensures
            r == record_common_of(self.record_type, self.data@, self.parse_info),
    {
        if self.record_type.is_user_type() {
            return Ok(CommonData {
                pid: None,
                tid: None,
                timestamp: None,
                id: None,
                stream_id: None,
                cpu: None,
            });
        }
        if self.record_type.0 == PERF_RECORD_SAMPLE {
            CommonData::parse_sample(self.data, &self.parse_info)
        } else {
            CommonData::parse_nonsample(self.data, &self.parse_info)
        }
    }

    /// The record timestamp, if available.
    pub fn timestamp(&self) -> (r: Option<u64>)
        requires
            self.data.wf(),
        ensures
            r == record_timestamp_of(self.record_type, self.data@, self.parse_info),
    {
        get_record_timestamp(self.record_type, self.data, &self.parse_info)
    }

    /// The ID, if available.
    pub fn id(&self) -> (r: Option<u64>)
        requires
            self.data.wf(),
        ensures
            r == record_id_of(self.record_type, self.data@, self.parse_info.id_parse_info, self.parse_info.endian),
    {
        get_record_id(self.record_type, self.data, &self.parse_info.id_parse_info, self.parse_info.endian)
    }

    /// Parses this raw record into a `ParsedRecord`.
    pub fn parse(&self) -> (r: Result<ParsedRecord<'a>, DecodeError>)
        requires
            self.data.wf(),
        ensures
            record_parsed(*self, r),
    {
        let e = self.parse_info.endian;
        let data = self.data;
        let misc = self.misc;
        let kind = self.record_type.0;
        if kind == PERF_RECORD_MMAP {
            match MmapRecord::parse(data, misc, e) {
                Ok(m) => Ok(ParsedRecord::Mmap(m)),
                Err(err) => Err(err),
            }
        } else if kind == PERF_RECORD_LOST {
            match LostRecord::parse(data, e) {
                Ok(l) => Ok(ParsedRecord::Lost(l)),
                Err(err) => Err(err),
            }
        } else if kind == PERF_RECORD_COMM {
            match CommOrExecRecord::parse(data, misc, e) {
                Ok(c) => Ok(ParsedRecord::Comm(c)),
                Err(err) => Err(err),
            }
        } else if kind == PERF_RECORD_EXIT {
            match ForkOrExitRecord::parse(data, e) {
                Ok(f) => Ok(ParsedRecord::Exit(f)),
                Err(err) => Err(err),
            }
        } else if kind == PERF_RECORD_THROTTLE {
            match ThrottleRecord::parse(data, e) {
                Ok(t) => Ok(ParsedRecord::Throttle(t)),
                Err(err) => Err(err),
            }
        } else if kind == PERF_RECORD_UNTHROTTLE {
            match ThrottleRecord::parse(data, e) {
                Ok(t) => Ok(ParsedRecord::Unthrottle(t)),
                Err(err) => Err(err),
            }
        } else if kind == PERF_RECORD_FORK {
            match ForkOrExitRecord::parse(data, e) {
                Ok(f) => Ok(ParsedRecord::Fork(f)),
                Err(err) => Err(err),
            }
        } else if kind == PERF_RECORD_SAMPLE {
            match SampleRecord::parse(data, &self.parse_info) {
                Ok(x) => Ok(ParsedRecord::Sample(x)),
                Err(err) => Err(err),
            }
        } else if kind == PERF_RECORD_MMAP2 {
            match Mmap2Record::parse(data, misc, e) {
                Ok(m) => Ok(ParsedRecord::Mmap2(m)),
                Err(err) => Err(err),
            }
        } else if kind == PERF_RECORD_SWITCH {
            Ok(ParsedRecord::ContextSwitch(ContextSwitchRecord::from_misc(misc)))
        } else if kind == PERF_RECORD_SWITCH_CPU_WIDE {
            match ContextSwitchRecord::parse_cpu_wide(data, misc, e) {
                Ok(c) => Ok(ParsedRecord::ContextSwitch(c)),
                Err(err) => Err(err),
            }
        } else if kind == PERF_RECORD_THREAD_MAP {
            match ThreadMap::parse(data, e) {
                Ok(t) => Ok(ParsedRecord::ThreadMap(t)),
                Err(err) => Err(err),
            }
        } else {
            Ok(
                ParsedRecord::Raw(
                    RawRecord {
                        record_type: self.record_type,
                        misc,
                        data,
                        parse_info: self.parse_info,
                    },
                ),
            )
        }
    }
}

/// Another name for `ParsedRecord`.
pub type EventRecord<'a> = ParsedRecord<'a>;

/// Another name for `RawRecord`.
pub type RawEventRecord<'a> = RawRecord<'a>;

} // verus!
