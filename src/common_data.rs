use crate::endian::Endianness;
use crate::error::DecodeError;
use crate::parse_info::{
    field_size, sample_id_offset, sample_time_offset, size_if, trailer_size, RecordParseInfo,
};
use crate::raw_data::{read_i32_at, read_u32_at, read_u64_at, skip_at, uint_at, RawData};
use crate::types::SampleFormat;
use vstd::prelude::*;

verus! {

/// The identifying fields of a record that its configuration requested.
#[derive(Clone, Copy, Debug, Default, PartialEq, Eq)]
pub struct CommonData {
    pub pid: Option<i32>,
    pub tid: Option<i32>,
    pub timestamp: Option<u64>,
    pub id: Option<u64>,
    pub stream_id: Option<u64>,
    pub cpu: Option<u32>,
}

/// The common data with no field present.
pub open spec fn no_common_data() -> CommonData {
    CommonData { pid: None, tid: None, timestamp: None, id: None, stream_id: None, cpu: None }
}

/// The 8-byte number at `pos` of `s`, if `present`.
pub open spec fn u64_if(present: bool, s: Seq<u8>, pos: int, e: Endianness) -> Option<u64> {
    if present {
        Some(uint_at(s, pos, 8, e) as u64)
    } else {
        None
    }
}

/// The 4-byte number at `pos` of `s`, if `present`.
pub open spec fn u32_if(present: bool, s: Seq<u8>, pos: int, e: Endianness) -> Option<u32> {
    if present {
        Some(uint_at(s, pos, 4, e) as u32)
    } else {
        None
    }
}

/// The signed 4-byte number at `pos` of `s`, if `present`.
pub open spec fn i32_if(present: bool, s: Seq<u8>, pos: int, e: Endianness) -> Option<i32> {
    if present {
        Some(uint_at(s, pos, 4, e) as i32)
    } else {
        None
    }
}

/// The byte count of the common fields at the head of a sample record.
pub open spec fn sample_head_size(sf: SampleFormat) -> nat {
    sample_id_offset(sf) + field_size(sf, SampleFormat::ID) + field_size(
        sf,
        SampleFormat::STREAM_ID,
    ) + field_size(sf, SampleFormat::CPU)
}

/// The common fields at the head of the sample record body `s`, in the
/// order identifier, ip, pid/tid, time, addr, id, stream id, cpu. The
/// identifier wins over the plain id.
pub open spec fn sample_common_of(s: Seq<u8>, sf: SampleFormat, e: Endianness) -> Result<CommonData, DecodeError> {
    if s.len() < sample_head_size(sf) {
        Err(DecodeError::UnexpectedEnd)
    } else {
        let tid_pos: int = sample_time_offset(sf) - field_size(sf, SampleFormat::TID);
        let id_pos: int = sample_id_offset(sf) as int;
        let stream_pos: int = id_pos + field_size(sf, SampleFormat::ID);
        let cpu_pos: int = stream_pos + field_size(sf, SampleFormat::STREAM_ID);
        Ok(
            CommonData {
                pid: i32_if(sf.has(SampleFormat::TID), s, tid_pos, e),
                tid: i32_if(sf.has(SampleFormat::TID), s, tid_pos + 4, e),
                timestamp: u64_if(sf.has(SampleFormat::TIME), s, sample_time_offset(sf) as int, e),
                id: if sf.has(SampleFormat::IDENTIFIER) {
                    u64_if(true, s, 0, e)
                } else {
                    u64_if(sf.has(SampleFormat::ID), s, id_pos, e)
                },
                stream_id: u64_if(sf.has(SampleFormat::STREAM_ID), s, stream_pos, e),
                cpu: u32_if(sf.has(SampleFormat::CPU), s, cpu_pos, e),
            },
        )
    }
}

/// The common fields in the trailer of the non-sample record body `s`, in
/// the order pid/tid, time, id, stream id, cpu, identifier, with the trailer
/// starting `info.common_data_offset_from_end` bytes before the end. The
/// identifier wins over the plain id.
pub open spec fn nonsample_common_of(s: Seq<u8>, info: RecordParseInfo) -> Result<CommonData, DecodeError> {
    let sf = info.sample_format;
    let e = info.endian;
    match info.common_data_offset_from_end {
        None => Ok(no_common_data()),
        Some(off) => if s.len() < off || off < trailer_size(sf) {
            Err(DecodeError::UnexpectedEnd)
        } else {
            let tid_pos: int = s.len() - off;
            let time_pos: int = tid_pos + field_size(sf, SampleFormat::TID);
            let id_pos: int = time_pos + field_size(sf, SampleFormat::TIME);
            let stream_pos: int = id_pos + field_size(sf, SampleFormat::ID);
            let cpu_pos: int = stream_pos + field_size(sf, SampleFormat::STREAM_ID);
            let identifier_pos: int = cpu_pos + field_size(sf, SampleFormat::CPU);
            Ok(
                CommonData {
                    pid: i32_if(sf.has(SampleFormat::TID), s, tid_pos, e),
                    tid: i32_if(sf.has(SampleFormat::TID), s, tid_pos + 4, e),
                    timestamp: u64_if(sf.has(SampleFormat::TIME), s, time_pos, e),
                    id: if sf.has(SampleFormat::IDENTIFIER) {
                        u64_if(true, s, identifier_pos, e)
                    } else {
                        u64_if(sf.has(SampleFormat::ID), s, id_pos, e)
                    },
                    stream_id: u64_if(sf.has(SampleFormat::STREAM_ID), s, stream_pos, e),
                    cpu: u32_if(sf.has(SampleFormat::CPU), s, cpu_pos, e),
                },
            )
        },
    }
}

/// Reads an 8-byte field at `pos` of `s` if `present`.
fn opt_u64_at(data: &mut RawData, present: bool, e: Endianness, Ghost(s): Ghost<Seq<u8>>, Ghost(pos): Ghost<int>) -> (r: Result<Option<u64>, DecodeError>)
    requires
        0 <= pos <= s.len(),
        old(data)@ == s.skip(pos),
    ensures
        match r {
            Ok(v) => {
                &&& v == u64_if(present, s, pos, e)
                &&& pos + if present { 8int } else { 0int } <= s.len()
                &&& final(data)@ == s.skip(pos + if present { 8int } else { 0int })
            },
            Err(err) => present && err == DecodeError::UnexpectedEnd && s.len() < pos + 8,
        },
{
    if present {
        let v = read_u64_at(data, e, Ghost(s), Ghost(pos));
        match v {
            Ok(v) => Ok(Some(v)),
            Err(err) => Err(err),
        }
    } else {
        Ok(None)
    }
}

/// Reads the pid/tid pair at `pos` of `s` if `present`.
fn opt_pid_tid_at(data: &mut RawData, present: bool, e: Endianness, Ghost(s): Ghost<Seq<u8>>, Ghost(pos): Ghost<int>) -> (r: Result<(Option<i32>, Option<i32>), DecodeError>)
    requires
        0 <= pos <= s.len(),
        old(data)@ == s.skip(pos),
    ensures
        match r {
            Ok((pid, tid)) => {
                &&& pid == i32_if(present, s, pos, e)
                &&& tid == i32_if(present, s, pos + 4, e)
                &&& pos + (if present { 8int } else { 0int }) <= s.len()
                &&& final(data)@ == s.skip(pos + if present { 8int } else { 0int })
            },
            Err(err) => present && err == DecodeError::UnexpectedEnd && s.len() < pos + 8,
        },
{
    if present {
        let pid = read_i32_at(data, e, Ghost(s), Ghost(pos))?;
        let tid = read_i32_at(data, e, Ghost(s), Ghost(pos + 4))?;
        Ok((Some(pid), Some(tid)))
    } else {
        Ok((None, None))
    }
}

/// Reads the cpu number and the reserved word after it at `pos` of `s` if
/// `present`.
fn opt_cpu_at(data: &mut RawData, present: bool, e: Endianness, Ghost(s): Ghost<Seq<u8>>, Ghost(pos): Ghost<int>) -> (r: Result<Option<u32>, DecodeError>)
    requires
        0 <= pos <= s.len(),
        old(data)@ == s.skip(pos),
    ensures
        match r {
            Ok(cpu) => {
                &&& cpu == u32_if(present, s, pos, e)
                &&& pos + (if present { 8int } else { 0int }) <= s.len()
                &&& final(data)@ == s.skip(pos + if present { 8int } else { 0int })
            },
            Err(err) => present && err == DecodeError::UnexpectedEnd && s.len() < pos + 8,
        },
{
    if present {
        let cpu = read_u32_at(data, e, Ghost(s), Ghost(pos))?;
        let _reserved = read_u32_at(data, e, Ghost(s), Ghost(pos + 4))?;
        Ok(Some(cpu))
    } else {
        Ok(None)
    }
}

impl CommonData {
    /// Reads the common fields from the head of a sample record body.
    #[verifier::rlimit(50)]
    pub fn parse_sample(data: RawData, parse_info: &RecordParseInfo) -> (r: Result<CommonData, DecodeError>)
        ensures
            r == sample_common_of(data@, parse_info.sample_format, parse_info.endian),
    {
        let sf = parse_info.sample_format;
        let e = parse_info.endian;
        let ghost s = data@;
        let mut cur = data;
        assert(s.skip(0) =~= s);
        // { u64 id;       } && PERF_SAMPLE_IDENTIFIER
        // { u64 ip;       } && PERF_SAMPLE_IP
        // { u32 pid, tid; } && PERF_SAMPLE_TID
        // { u64 time;     } && PERF_SAMPLE_TIME
        // { u64 addr;     } && PERF_SAMPLE_ADDR
        // { u64 id;       } && PERF_SAMPLE_ID
        // { u64 stream_id;} && PERF_SAMPLE_STREAM_ID
        // { u32 cpu, res; } && PERF_SAMPLE_CPU
        let ghost mut pos: int = 0;
        let identifier = opt_u64_at(&mut cur, sf.contains(SampleFormat::IDENTIFIER), e, Ghost(s), Ghost(pos))?;
        proof { pos = pos + field_size(sf, SampleFormat::IDENTIFIER); }
        let _ip = opt_u64_at(&mut cur, sf.contains(SampleFormat::IP), e, Ghost(s), Ghost(pos))?;
        proof { pos = pos + field_size(sf, SampleFormat::IP); }
        let (pid, tid) = opt_pid_tid_at(&mut cur, sf.contains(SampleFormat::TID), e, Ghost(s), Ghost(pos))?;
        proof { pos = pos + field_size(sf, SampleFormat::TID); }
        let timestamp = opt_u64_at(&mut cur, sf.contains(SampleFormat::TIME), e, Ghost(s), Ghost(pos))?;
        proof { pos = pos + field_size(sf, SampleFormat::TIME); }
        let _addr = opt_u64_at(&mut cur, sf.contains(SampleFormat::ADDR), e, Ghost(s), Ghost(pos))?;
        proof { pos = pos + field_size(sf, SampleFormat::ADDR); }
        let id = opt_u64_at(&mut cur, sf.contains(SampleFormat::ID), e, Ghost(s), Ghost(pos))?;
        proof { pos = pos + field_size(sf, SampleFormat::ID); }
        let id = match identifier {
            Some(i) => Some(i),
            None => id,
        };
        let stream_id = opt_u64_at(&mut cur, sf.contains(SampleFormat::STREAM_ID), e, Ghost(s), Ghost(pos))?;
        proof { pos = pos + field_size(sf, SampleFormat::STREAM_ID); }
        let cpu = opt_cpu_at(&mut cur, sf.contains(SampleFormat::CPU), e, Ghost(s), Ghost(pos))?;
        Ok(CommonData { pid, tid, timestamp, id, stream_id, cpu })
    }

    /// Reads the common fields from the trailer of a non-sample record body.
    /// Without a trailer in the configuration, no field is present.
    #[verifier::rlimit(50)]
    pub fn parse_nonsample(data: RawData, parse_info: &RecordParseInfo) -> (r: Result<CommonData, DecodeError>)
        requires
            data.wf(),
        ensures
            r == nonsample_common_of(data@, *parse_info),
    {
        let off = match parse_info.common_data_offset_from_end {
            Some(off) => off,
            None => {
                return Ok(CommonData {
                    pid: None,
                    tid: None,
                    timestamp: None,
                    id: None,
                    stream_id: None,
                    cpu: None,
                });
            },
        };
        let sf = parse_info.sample_format;
        let e = parse_info.endian;
        let ghost s = data@;
        let trailer = size_if(sf.contains(SampleFormat::TID)) + size_if(sf.contains(SampleFormat::TIME))
            + size_if(sf.contains(SampleFormat::ID)) + size_if(sf.contains(SampleFormat::STREAM_ID))
            + size_if(sf.contains(SampleFormat::CPU)) + size_if(sf.contains(SampleFormat::IDENTIFIER));
        let len = data.len();
        if len < off as usize || off < trailer {
            return Err(DecodeError::UnexpectedEnd);
        }
        let start = len - off as usize;
        let mut cur = data;
        assert(s.skip(0) =~= s);
        skip_at(&mut cur, start, Ghost(s), Ghost(0))?;

        // struct sample_id {
        //     { u32 pid, tid;  }   /* if PERF_SAMPLE_TID set */
        //     { u64 timestamp; }   /* if PERF_SAMPLE_TIME set */
        //     { u64 id;        }   /* if PERF_SAMPLE_ID set */
        //     { u64 stream_id; }   /* if PERF_SAMPLE_STREAM_ID set  */
        //     { u32 cpu, res;  }   /* if PERF_SAMPLE_CPU set */
        //     { u64 identifier;}   /* if PERF_SAMPLE_IDENTIFIER set */
        // };
        let ghost mut pos: int = start as int;
        let (pid, tid) = opt_pid_tid_at(&mut cur, sf.contains(SampleFormat::TID), e, Ghost(s), Ghost(pos))?;
        proof { pos = pos + field_size(sf, SampleFormat::TID); }
        let timestamp = opt_u64_at(&mut cur, sf.contains(SampleFormat::TIME), e, Ghost(s), Ghost(pos))?;
        proof { pos = pos + field_size(sf, SampleFormat::TIME); }
        let id = opt_u64_at(&mut cur, sf.contains(SampleFormat::ID), e, Ghost(s), Ghost(pos))?;
        proof { pos = pos + field_size(sf, SampleFormat::ID); }
        let stream_id = opt_u64_at(&mut cur, sf.contains(SampleFormat::STREAM_ID), e, Ghost(s), Ghost(pos))?;
        proof { pos = pos + field_size(sf, SampleFormat::STREAM_ID); }
        let cpu = opt_cpu_at(&mut cur, sf.contains(SampleFormat::CPU), e, Ghost(s), Ghost(pos))?;
        proof { pos = pos + field_size(sf, SampleFormat::CPU); }
        let identifier = opt_u64_at(&mut cur, sf.contains(SampleFormat::IDENTIFIER), e, Ghost(s), Ghost(pos))?;
        let id = match identifier {
            Some(i) => Some(i),
            None => id,
        };
        Ok(CommonData { pid, tid, timestamp, id, stream_id, cpu })
    }
}

} // verus!
