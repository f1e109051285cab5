use crate::common_data::{i32_if, sample_common_of, sample_head_size, u32_if, u64_if, CommonData};
use crate::endian::Endianness;
use crate::error::DecodeError;
use crate::parse_info::{field_size, sample_id_offset, sample_time_offset, size_if, RecordParseInfo};
use crate::raw_data::{
    peek_u64, read_u32_at, read_u64_at, skip_at, split_off_at, uint_at, words_of, RawData,
    RawDataU64,
};
use crate::registers::Regs;
use crate::types::{BranchSampleFormat, ReadFormat, SampleFormat};
use vstd::prelude::*;

verus! {

/// A fully parsed sample record.
#[derive(Debug, Clone, PartialEq, Eq)]
pub struct SampleRecord<'a> {
    pub id: Option<u64>,
    pub addr: Option<u64>,
    pub stream_id: Option<u64>,
    pub raw: Option<RawData<'a>>,
    pub ip: Option<u64>,
    pub timestamp: Option<u64>,
    pub pid: Option<i32>,
    pub tid: Option<i32>,
    pub cpu: Option<u32>,
    pub period: Option<u64>,
    pub user_regs: Option<Regs<'a>>,
    pub user_stack: Option<(RawData<'a>, u64)>,
    pub callchain: Option<RawDataU64<'a>>,
    pub phys_addr: Option<u64>,
    pub data_page_size: Option<u64>,
    pub code_page_size: Option<u64>,
}

/// The 8-byte number at `pos` of `s`.
pub open spec fn word_at(s: Seq<u8>, pos: int, e: Endianness) -> nat {
    uint_at(s, pos, 8, e)
}

/// 8 if `rf` has `flag`, else 0.
pub open spec fn read_field_size(rf: ReadFormat, flag: u64) -> nat {
    if rf.has(flag) {
        8
    } else {
        0
    }
}

/// The size of the read-result block at `pos`: a count, the optional times
/// and as many values (each with an optional id) as the count says, if the
/// group flag is set; else one value with optional times and id.
pub open spec fn read_block_size(s: Seq<u8>, pos: int, info: RecordParseInfo) -> int {
    let rf = info.read_format;
    let times = read_field_size(rf, ReadFormat::TOTAL_TIME_ENABLED) + read_field_size(
        rf,
        ReadFormat::TOTAL_TIME_RUNNING,
    );
    if !info.sample_format.has(SampleFormat::READ) {
        0
    } else if rf.has(ReadFormat::GROUP) {
        (8 + times + word_at(s, pos, info.endian) * (8 + read_field_size(rf, ReadFormat::ID))) as int
    } else {
        (8 + times + read_field_size(rf, ReadFormat::ID)) as int
    }
}

/// The size of the call chain at `pos`: a count, then as many words.
pub open spec fn callchain_size(s: Seq<u8>, pos: int, info: RecordParseInfo) -> int {
    if info.sample_format.has(SampleFormat::CALLCHAIN) {
        (8 + 8 * word_at(s, pos, info.endian)) as int
    } else {
        0
    }
}

/// The size of the raw blob at `pos`: a 4-byte length, then as many bytes.
pub open spec fn raw_size(s: Seq<u8>, pos: int, info: RecordParseInfo) -> int {
    if info.sample_format.has(SampleFormat::RAW) {
        (4 + uint_at(s, pos, 4, info.endian)) as int
    } else {
        0
    }
}

/// The size of the branch stack at `pos`: a count, an optional hardware
/// index, then as many (from, to, flags) triples.
pub open spec fn branch_stack_size(s: Seq<u8>, pos: int, info: RecordParseInfo) -> int {
    if info.sample_format.has(SampleFormat::BRANCH_STACK) {
        8 + (if info.branch_sample_format.has(BranchSampleFormat::HW_INDEX) {
            8int
        } else {
            0int
        }) + 24 * word_at(s, pos, info.endian)
    } else {
        0
    }
}

/// The size of a register block at `pos`: an ABI word, then `count` words
/// unless the ABI word is zero.
pub open spec fn regs_size(s: Seq<u8>, pos: int, present: bool, count: u8, e: Endianness) -> int {
    if !present {
        0
    } else if word_at(s, pos, e) != 0 {
        8 + 8 * count
    } else {
        8
    }
}

/// The size of the user stack at `pos`: a length, as many bytes and, if the
/// length is not zero, a dynamic-size word.
pub open spec fn stack_size(s: Seq<u8>, pos: int, info: RecordParseInfo) -> int {
    let n = word_at(s, pos, info.endian);
    if !info.sample_format.has(SampleFormat::STACK_USER) {
        0
    } else if n != 0 {
        16 + n as int
    } else {
        8
    }
}

/// The size of the AUX blob at `pos`: a length, then as many bytes.
pub open spec fn aux_size(s: Seq<u8>, pos: int, info: RecordParseInfo) -> int {
    if info.sample_format.has(SampleFormat::AUX) {
        (8 + word_at(s, pos, info.endian)) as int
    } else {
        0
    }
}

/// Where the period starts: after the identifying head.
pub open spec fn period_pos(info: RecordParseInfo) -> int {
    sample_head_size(info.sample_format) as int
}

pub open spec fn read_pos(info: RecordParseInfo) -> int {
    period_pos(info) + field_size(info.sample_format, SampleFormat::PERIOD)
}

pub open spec fn callchain_pos(s: Seq<u8>, info: RecordParseInfo) -> int {
    read_pos(info) + read_block_size(s, read_pos(info), info)
}

pub open spec fn raw_pos(s: Seq<u8>, info: RecordParseInfo) -> int {
    callchain_pos(s, info) + callchain_size(s, callchain_pos(s, info), info)
}

pub open spec fn branch_pos(s: Seq<u8>, info: RecordParseInfo) -> int {
    raw_pos(s, info) + raw_size(s, raw_pos(s, info), info)
}

pub open spec fn user_regs_pos(s: Seq<u8>, info: RecordParseInfo) -> int {
    branch_pos(s, info) + branch_stack_size(s, branch_pos(s, info), info)
}

pub open spec fn stack_pos(s: Seq<u8>, info: RecordParseInfo) -> int {
    user_regs_pos(s, info) + regs_size(
        s,
        user_regs_pos(s, info),
        info.sample_format.has(SampleFormat::REGS_USER),
        info.user_regs_count,
        info.endian,
    )
}

/// Where the weight starts; data source and transaction follow it.
pub open spec fn weight_pos(s: Seq<u8>, info: RecordParseInfo) -> int {
    stack_pos(s, info) + stack_size(s, stack_pos(s, info), info)
}

pub open spec fn intr_regs_pos(s: Seq<u8>, info: RecordParseInfo) -> int {
    let sf = info.sample_format;
    weight_pos(s, info) + field_size(sf, SampleFormat::WEIGHT) + field_size(
        sf,
        SampleFormat::DATA_SRC,
    ) + field_size(sf, SampleFormat::TRANSACTION)
}

pub open spec fn phys_addr_pos(s: Seq<u8>, info: RecordParseInfo) -> int {
    intr_regs_pos(s, info) + regs_size(
        s,
        intr_regs_pos(s, info),
        info.sample_format.has(SampleFormat::REGS_INTR),
        info.intr_regs_count,
        info.endian,
    )
}

pub open spec fn aux_pos(s: Seq<u8>, info: RecordParseInfo) -> int {
    phys_addr_pos(s, info) + field_size(info.sample_format, SampleFormat::PHYS_ADDR)
}

pub open spec fn data_page_size_pos(s: Seq<u8>, info: RecordParseInfo) -> int {
    aux_pos(s, info) + aux_size(s, aux_pos(s, info), info)
}

pub open spec fn code_page_size_pos(s: Seq<u8>, info: RecordParseInfo) -> int {
    data_page_size_pos(s, info) + field_size(info.sample_format, SampleFormat::DATA_PAGE_SIZE)
}

/// The byte count of a sample body: the sum of the sizes of its sections.
pub open spec fn sample_size(s: Seq<u8>, info: RecordParseInfo) -> int {
    code_page_size_pos(s, info) + field_size(info.sample_format, SampleFormat::CODE_PAGE_SIZE)
}

/// What a successful parse of the sample body `s` holds.
pub open spec fn sample_fields_match(rec: SampleRecord, s: Seq<u8>, info: RecordParseInfo) -> bool {
    let sf = info.sample_format;
    let e = info.endian;
    let tid_pos = sample_time_offset(sf) - field_size(sf, SampleFormat::TID);
    let id_pos = sample_id_offset(sf) as int;
    let stream_pos = id_pos + field_size(sf, SampleFormat::ID);
    let cpu_pos = stream_pos + field_size(sf, SampleFormat::STREAM_ID);
    let cc = callchain_pos(s, info);
    let raw = raw_pos(s, info);
    let regs = user_regs_pos(s, info);
    let stack = stack_pos(s, info);
    &&& rec.id == if sf.has(SampleFormat::IDENTIFIER) {
        u64_if(true, s, 0, e)
    } else {
        u64_if(sf.has(SampleFormat::ID), s, id_pos, e)
    }
    &&& rec.ip == u64_if(sf.has(SampleFormat::IP), s, field_size(sf, SampleFormat::IDENTIFIER) as int, e)
    &&& rec.pid == i32_if(sf.has(SampleFormat::TID), s, tid_pos, e)
    &&& rec.tid == i32_if(sf.has(SampleFormat::TID), s, tid_pos + 4, e)
    &&& rec.timestamp == u64_if(sf.has(SampleFormat::TIME), s, sample_time_offset(sf) as int, e)
    &&& rec.addr == u64_if(sf.has(SampleFormat::ADDR), s, id_pos - field_size(sf, SampleFormat::ADDR), e)
    &&& rec.stream_id == u64_if(sf.has(SampleFormat::STREAM_ID), s, stream_pos, e)
    &&& rec.cpu == u32_if(sf.has(SampleFormat::CPU), s, cpu_pos, e)
    &&& rec.period == u64_if(sf.has(SampleFormat::PERIOD), s, period_pos(info), e)
    &&& if sf.has(SampleFormat::CALLCHAIN) {
        &&& rec.callchain is Some
        &&& rec.callchain->0@ == words_of(s.subrange(cc + 8, cc + 8 + 8 * word_at(s, cc, e)), e)
    } else {
        rec.callchain is None
    }
    &&& if sf.has(SampleFormat::RAW) {
        &&& rec.raw is Some
        &&& rec.raw->0@ == s.subrange(raw + 4, raw + 4 + uint_at(s, raw, 4, e))
    } else {
        rec.raw is None
    }
    &&& if sf.has(SampleFormat::REGS_USER) && word_at(s, regs, e) != 0 {
        &&& rec.user_regs is Some
        &&& rec.user_regs->0.mask() == info.sample_regs_user
        &&& rec.user_regs->0.values() == words_of(s.subrange(regs + 8, regs + 8 + 8 * info.user_regs_count), e)
    } else {
        rec.user_regs is None
    }
    &&& if sf.has(SampleFormat::STACK_USER) {
        let n = word_at(s, stack, e);
        let (stack_bytes, dynamic_size) = rec.user_stack->0;
        &&& rec.user_stack is Some
        &&& stack_bytes@ == s.subrange(stack + 8, stack + 8 + n)
        &&& dynamic_size == if n != 0 {
            word_at(s, stack + 8 + n, e) as u64
        } else {
            0u64
        }
    } else {
        rec.user_stack is None
    }
    &&& rec.phys_addr == u64_if(sf.has(SampleFormat::PHYS_ADDR), s, phys_addr_pos(s, info), e)
    &&& rec.data_page_size == u64_if(sf.has(SampleFormat::DATA_PAGE_SIZE), s, data_page_size_pos(s, info), e)
    &&& rec.code_page_size == u64_if(sf.has(SampleFormat::CODE_PAGE_SIZE), s, code_page_size_pos(s, info), e)
}

/// What parsing the sample body `s` gives: success exactly when `s` holds
/// every requested section, and then the fields that the sections hold.
pub open spec fn sample_parsed(s: Seq<u8>, info: RecordParseInfo, r: Result<SampleRecord, DecodeError>) -> bool {
    match r {
        Ok(rec) => sample_size(s, info) <= s.len() && sample_fields_match(rec, s, info),
        Err(e) => e == DecodeError::UnexpectedEnd && s.len() < sample_size(s, info),
    }
}

/// Reads an optional 8-byte field at `pos` of `s`.
fn opt_word(cur: &mut RawData, present: bool, e: Endianness, Ghost(s): Ghost<Seq<u8>>, Ghost(pos): Ghost<int>) -> (r: Result<Option<u64>, DecodeError>)
    requires
        0 <= pos <= s.len(),
        old(cur)@ == s.skip(pos),
    ensures
        match r {
            Ok(v) => {
                &&& v == u64_if(present, s, pos, e)
                &&& pos + (if present { 8int } else { 0int }) <= s.len()
                &&& final(cur)@ == s.skip(pos + if present { 8int } else { 0int })
            },
            Err(err) => present && err == DecodeError::UnexpectedEnd && s.len() < pos + 8,
        },
{
    if present {
        match read_u64_at(cur, e, Ghost(s), Ghost(pos)) {
            Ok(v) => Ok(Some(v)),
            Err(err) => Err(err),
        }
    } else {
        Ok(None)
    }
}

/// `count * unit` as a `usize`, if it fits.
fn byte_count(count: u64, unit: usize) -> (r: Option<usize>)
    ensures
        match r {
            Some(n) => n == count * unit,
            None => count * unit > usize::MAX,
        },
{
    if count > usize::MAX as u64 {
        if unit == 0 {
            return Some(0);
        }
        assert(count * unit >= count) by (nonlinear_arith)
            requires unit >= 1;
        return None;
    }
    (count as usize).checked_mul(unit)
}

/// Moves past `count * unit` bytes at `pos` of `s`.
fn skip_counted(cur: &mut RawData, count: u64, unit: usize, Ghost(s): Ghost<Seq<u8>>, Ghost(pos): Ghost<int>) -> (r: Result<(), DecodeError>)
    requires
        0 <= pos <= s.len(),
        s.len() <= usize::MAX,
        old(cur)@ == s.skip(pos),
    ensures
        match r {
            Ok(_) => pos + count * unit <= s.len() && final(cur)@ == s.skip(pos + count * unit),
            Err(err) => err == DecodeError::UnexpectedEnd && s.len() < pos + count * unit,
        },
{
    match byte_count(count, unit) {
        Some(n) => skip_at(cur, n, Ghost(s), Ghost(pos)),
        None => Err(DecodeError::UnexpectedEnd),
    }
}

/// Splits off the `count * unit` bytes at `pos` of `s`.
fn split_counted<'a>(cur: &mut RawData<'a>, count: u64, unit: usize, Ghost(s): Ghost<Seq<u8>>, Ghost(pos): Ghost<int>) -> (r: Result<RawData<'a>, DecodeError>)
    requires
        0 <= pos <= s.len(),
        s.len() <= usize::MAX,
        old(cur)@ == s.skip(pos),
    ensures
        match r {
            Ok(d) => {
                &&& pos + count * unit <= s.len()
                &&& d@ == s.subrange(pos, pos + count * unit)
                &&& final(cur)@ == s.skip(pos + count * unit)
            },
            Err(err) => err == DecodeError::UnexpectedEnd && s.len() < pos + count * unit,
        },
{
    match byte_count(count, unit) {
        Some(n) => split_off_at(cur, n, Ghost(s), Ghost(pos)),
        None => Err(DecodeError::UnexpectedEnd),
    }
}

/// Consumes the read-result block at `pos` of `s`.
fn skip_read_block(cur: &mut RawData, info: &RecordParseInfo, Ghost(s): Ghost<Seq<u8>>, Ghost(pos): Ghost<int>) -> (r: Result<(), DecodeError>)
    requires
        0 <= pos <= s.len(),
        s.len() <= usize::MAX,
        old(cur)@ == s.skip(pos),
    ensures
        match r {
            Ok(_) => {
                &&& pos + read_block_size(s, pos, *info) <= s.len()
                &&& final(cur)@ == s.skip(pos + read_block_size(s, pos, *info))
            },
            Err(err) => err == DecodeError::UnexpectedEnd && s.len() < pos + read_block_size(s, pos, *info),
        },
{
    if !info.sample_format.contains(SampleFormat::READ) {
        return Ok(());
    }
    let rf = info.read_format;
    let e = info.endian;
    let times = size_if(rf.contains(ReadFormat::TOTAL_TIME_ENABLED)) as usize + size_if(
        rf.contains(ReadFormat::TOTAL_TIME_RUNNING),
    ) as usize;
    let id = size_if(rf.contains(ReadFormat::ID)) as usize;
    if rf.contains(ReadFormat::GROUP) {
        let nr = read_u64_at(cur, e, Ghost(s), Ghost(pos))?;
        skip_at(cur, times, Ghost(s), Ghost(pos + 8))?;
        skip_counted(cur, nr, 8 + id, Ghost(s), Ghost(pos + 8 + times))
    } else {
        skip_at(cur, 8 + times + id, Ghost(s), Ghost(pos))
    }
}

/// Reads a register block at `pos` of `s`: the ABI word, then `count`
/// words unless the ABI word is zero.
fn read_regs<'a>(cur: &mut RawData<'a>, count: u8, e: Endianness, Ghost(s): Ghost<Seq<u8>>, Ghost(pos): Ghost<int>) -> (r: Result<Option<RawData<'a>>, DecodeError>)
    requires
        0 <= pos <= s.len(),
        s.len() <= usize::MAX,
        old(cur)@ == s.skip(pos),
    ensures
        match r {
            Ok(regs) => {
                &&& pos + regs_size(s, pos, true, count, e) <= s.len()
                &&& final(cur)@ == s.skip(pos + regs_size(s, pos, true, count, e))
                &&& if word_at(s, pos, e) != 0 {
                    regs is Some && regs->0@ == s.subrange(pos + 8, pos + 8 + 8 * count)
                } else {
                    regs is None
                }
            },
            Err(err) => err == DecodeError::UnexpectedEnd && s.len() < pos + regs_size(s, pos, true, count, e),
        },
{
    let abi = read_u64_at(cur, e, Ghost(s), Ghost(pos))?;
    if abi == 0 {
        Ok(None)
    } else {
        let regs = split_off_at(cur, count as usize * 8, Ghost(s), Ghost(pos + 8))?;
        Ok(Some(regs))
    }
}

/// Each section starts where the one before it ends, so the positions grow.
pub(crate) proof fn lemma_positions_grow(s: Seq<u8>, info: RecordParseInfo)
    ensures
        0 <= period_pos(info) <= read_pos(info) <= callchain_pos(s, info) <= raw_pos(s, info)
            <= branch_pos(s, info) <= user_regs_pos(s, info) <= stack_pos(s, info) <= weight_pos(
            s,
            info,
        ) <= intr_regs_pos(s, info) <= phys_addr_pos(s, info) <= aux_pos(s, info)
            <= data_page_size_pos(s, info) <= code_page_size_pos(s, info) <= sample_size(s, info),
        sample_head_size(info.sample_format) == period_pos(info),
{
}

/// Reads the identifying head of a sample: the common fields, the
/// instruction pointer and the address.
fn parse_head(cur: &mut RawData, info: &RecordParseInfo, Ghost(s): Ghost<Seq<u8>>) -> (r: Result<(CommonData, Option<u64>, Option<u64>), DecodeError>)
    requires
        old(cur)@ == s,
    ensures
        match r {
            Ok((common, ip, addr)) => {
                let sf = info.sample_format;
                let e = info.endian;
                &&& period_pos(*info) <= s.len()
                &&& final(cur)@ == s.skip(period_pos(*info))
                &&& sample_common_of(s, sf, e) == Ok::<CommonData, DecodeError>(common)
                &&& ip == u64_if(sf.has(SampleFormat::IP), s, field_size(sf, SampleFormat::IDENTIFIER) as int, e)
                &&& addr == u64_if(sf.has(SampleFormat::ADDR), s, sample_id_offset(sf) - field_size(sf, SampleFormat::ADDR), e)
            },
            Err(e) => e == DecodeError::UnexpectedEnd && s.len() < period_pos(*info),
        },
{
    let sf = info.sample_format;
    let e = info.endian;
    let common = CommonData::parse_sample(*cur, info)?;
    let identifier = size_if(sf.contains(SampleFormat::IDENTIFIER)) as usize;
    let ip_size = size_if(sf.contains(SampleFormat::IP)) as usize;
    let tid = size_if(sf.contains(SampleFormat::TID)) as usize;
    let time = size_if(sf.contains(SampleFormat::TIME)) as usize;
    let addr_size = size_if(sf.contains(SampleFormat::ADDR)) as usize;
    let id = size_if(sf.contains(SampleFormat::ID)) as usize;
    let stream_id = size_if(sf.contains(SampleFormat::STREAM_ID)) as usize;
    let cpu = size_if(sf.contains(SampleFormat::CPU)) as usize;
    let ip = if sf.contains(SampleFormat::IP) {
        peek_u64(*cur, identifier, e)
    } else {
        None
    };
    let addr = if sf.contains(SampleFormat::ADDR) {
        peek_u64(*cur, identifier + ip_size + tid + time, e)
    } else {
        None
    };
    assert(s.skip(0) =~= s);
    skip_at(cur, identifier + ip_size + tid + time + addr_size + id + stream_id + cpu, Ghost(s), Ghost(0))?;
    Ok((common, ip, addr))
}

/// Period, read block, call chain, raw blob and branch stack.
fn parse_middle<'a>(cur: &mut RawData<'a>, info: &RecordParseInfo, Ghost(s): Ghost<Seq<u8>>) -> (r: Result<(Option<u64>, Option<RawDataU64<'a>>, Option<RawData<'a>>), DecodeError>)
    requires
        s.len() <= usize::MAX,
        period_pos(*info) <= s.len(),
        old(cur)@ == s.skip(period_pos(*info)),
    ensures
        match r {
            Ok((period, callchain, raw)) => {
                let sf = info.sample_format;
                let e = info.endian;
                let cc = callchain_pos(s, *info);
                let rp = raw_pos(s, *info);
                &&& user_regs_pos(s, *info) <= s.len()
                &&& final(cur)@ == s.skip(user_regs_pos(s, *info))
                &&& period == u64_if(sf.has(SampleFormat::PERIOD), s, period_pos(*info), e)
                &&& if sf.has(SampleFormat::CALLCHAIN) {
                    &&& callchain is Some
                    &&& callchain->0@ == words_of(s.subrange(cc + 8, cc + 8 + 8 * word_at(s, cc, e)), e)
                } else {
                    callchain is None
                }
                &&& if sf.has(SampleFormat::RAW) {
                    &&& raw is Some
                    &&& raw->0@ == s.subrange(rp + 4, rp + 4 + uint_at(s, rp, 4, e))
                } else {
                    raw is None
                }
            },
            Err(e) => e == DecodeError::UnexpectedEnd && s.len() < user_regs_pos(s, *info),
        },
{
    let sf = info.sample_format;
    let e = info.endian;
    proof { lemma_positions_grow(s, *info); }
    let ghost mut pos: int = period_pos(*info);
    let period = opt_word(cur, sf.contains(SampleFormat::PERIOD), e, Ghost(s), Ghost(pos))?;
    proof { pos = pos + field_size(sf, SampleFormat::PERIOD); }

    skip_read_block(cur, info, Ghost(s), Ghost(pos))?;
    proof { pos = pos + read_block_size(s, pos, *info); }

    let callchain = if sf.contains(SampleFormat::CALLCHAIN) {
        let callchain_length = read_u64_at(cur, e, Ghost(s), Ghost(pos))?;
        let callchain = split_counted(cur, callchain_length, 8, Ghost(s), Ghost(pos + 8))?;
        Some(RawDataU64::from_raw_data(callchain, e))
    } else {
        None
    };
    proof { pos = pos + callchain_size(s, pos, *info); }

    let raw = if sf.contains(SampleFormat::RAW) {
        let size = read_u32_at(cur, e, Ghost(s), Ghost(pos))?;
        Some(split_counted(cur, size as u64, 1, Ghost(s), Ghost(pos + 4))?)
    } else {
        None
    };
    proof { pos = pos + raw_size(s, pos, *info); }

    if sf.contains(SampleFormat::BRANCH_STACK) {
        let nr = read_u64_at(cur, e, Ghost(s), Ghost(pos))?;
        let hw_index = size_if(info.branch_sample_format.contains(BranchSampleFormat::HW_INDEX)) as usize;
        skip_at(cur, hw_index, Ghost(s), Ghost(pos + 8))?;
        skip_counted(cur, nr, 24, Ghost(s), Ghost(pos + 8 + hw_index))?;
    }
    Ok((period, callchain, raw))
}

/// User registers, user stack and the words that follow them up to the
/// interrupt registers.
fn parse_user_state<'a>(cur: &mut RawData<'a>, info: &RecordParseInfo, Ghost(s): Ghost<Seq<u8>>) -> (r: Result<(Option<Regs<'a>>, Option<(RawData<'a>, u64)>), DecodeError>)
    requires
        s.len() <= usize::MAX,
        user_regs_pos(s, *info) <= s.len(),
        old(cur)@ == s.skip(user_regs_pos(s, *info)),
    ensures
        match r {
            Ok((user_regs, user_stack)) => {
                let sf = info.sample_format;
                let e = info.endian;
                let regs = user_regs_pos(s, *info);
                let stack = stack_pos(s, *info);
                &&& intr_regs_pos(s, *info) <= s.len()
                &&& final(cur)@ == s.skip(intr_regs_pos(s, *info))
                &&& if sf.has(SampleFormat::REGS_USER) && word_at(s, regs, e) != 0 {
                    &&& user_regs is Some
                    &&& user_regs->0.mask() == info.sample_regs_user
                    &&& user_regs->0.values() == words_of(s.subrange(regs + 8, regs + 8 + 8 * info.user_regs_count), e)
                } else {
                    user_regs is None
                }
                &&& if sf.has(SampleFormat::STACK_USER) {
                    let n = word_at(s, stack, e);
                    let (stack_bytes, dynamic_size) = user_stack->0;
                    &&& user_stack is Some
                    &&& stack_bytes@ == s.subrange(stack + 8, stack + 8 + n)
                    &&& dynamic_size == if n != 0 {
                        word_at(s, stack + 8 + n, e) as u64
                    } else {
                        0u64
                    }
                } else {
                    user_stack is None
                }
            },
            Err(e) => e == DecodeError::UnexpectedEnd && s.len() < intr_regs_pos(s, *info),
        },
{
    let sf = info.sample_format;
    let e = info.endian;
    proof { lemma_positions_grow(s, *info); }
    let ghost mut pos: int = user_regs_pos(s, *info);
    let user_regs = if sf.contains(SampleFormat::REGS_USER) {
        match read_regs(cur, info.user_regs_count, e, Ghost(s), Ghost(pos))? {
            Some(regs_data) => Some(
                Regs::new(info.sample_regs_user, RawDataU64::from_raw_data(regs_data, e)),
            ),
            None => None,
        }
    } else {
        None
    };
    proof { pos = pos + regs_size(s, pos, sf.has(SampleFormat::REGS_USER), info.user_regs_count, e); }

    let user_stack = if sf.contains(SampleFormat::STACK_USER) {
        let stack_len = read_u64_at(cur, e, Ghost(s), Ghost(pos))?;
        let stack = split_counted(cur, stack_len, 1, Ghost(s), Ghost(pos + 8))?;
        let dynamic_size = if stack_len != 0 {
            read_u64_at(cur, e, Ghost(s), Ghost(pos + 8 + stack_len))?
        } else {
            0
        };
        Some((stack, dynamic_size))
    } else {
        None
    };
    proof { pos = pos + stack_size(s, pos, *info); }

    let _weight = opt_word(cur, sf.contains(SampleFormat::WEIGHT), e, Ghost(s), Ghost(pos))?;
    proof { pos = pos + field_size(sf, SampleFormat::WEIGHT); }
    let _data_src = opt_word(cur, sf.contains(SampleFormat::DATA_SRC), e, Ghost(s), Ghost(pos))?;
    proof { pos = pos + field_size(sf, SampleFormat::DATA_SRC); }
    let _transaction = opt_word(cur, sf.contains(SampleFormat::TRANSACTION), e, Ghost(s), Ghost(pos))?;
    Ok((user_regs, user_stack))
}

/// Interrupt registers, physical address, AUX blob and the page sizes.
fn parse_tail(cur: &mut RawData, info: &RecordParseInfo, Ghost(s): Ghost<Seq<u8>>) -> (r: Result<(Option<u64>, Option<u64>, Option<u64>), DecodeError>)
    requires
        s.len() <= usize::MAX,
        intr_regs_pos(s, *info) <= s.len(),
        old(cur)@ == s.skip(intr_regs_pos(s, *info)),
    ensures
        match r {
            Ok((phys_addr, data_page_size, code_page_size)) => {
                let sf = info.sample_format;
                let e = info.endian;
                &&& sample_size(s, *info) <= s.len()
                &&& phys_addr == u64_if(sf.has(SampleFormat::PHYS_ADDR), s, phys_addr_pos(s, *info), e)
                &&& data_page_size == u64_if(sf.has(SampleFormat::DATA_PAGE_SIZE), s, data_page_size_pos(s, *info), e)
                &&& code_page_size == u64_if(sf.has(SampleFormat::CODE_PAGE_SIZE), s, code_page_size_pos(s, *info), e)
            },
            Err(e) => e == DecodeError::UnexpectedEnd && s.len() < sample_size(s, *info),
        },
{
    let sf = info.sample_format;
    let e = info.endian;
    proof { lemma_positions_grow(s, *info); }
    let ghost mut pos: int = intr_regs_pos(s, *info);
    if sf.contains(SampleFormat::REGS_INTR) {
        let _intr_regs = read_regs(cur, info.intr_regs_count, e, Ghost(s), Ghost(pos))?;
    }
    proof { pos = pos + regs_size(s, pos, sf.has(SampleFormat::REGS_INTR), info.intr_regs_count, e); }

    let phys_addr = opt_word(cur, sf.contains(SampleFormat::PHYS_ADDR), e, Ghost(s), Ghost(pos))?;
    proof { pos = pos + field_size(sf, SampleFormat::PHYS_ADDR); }

    if sf.contains(SampleFormat::AUX) {
        let size = read_u64_at(cur, e, Ghost(s), Ghost(pos))?;
        skip_counted(cur, size, 1, Ghost(s), Ghost(pos + 8))?;
    }
    proof { pos = pos + aux_size(s, pos, *info); }

    let data_page_size = opt_word(cur, sf.contains(SampleFormat::DATA_PAGE_SIZE), e, Ghost(s), Ghost(pos))?;
    proof { pos = pos + field_size(sf, SampleFormat::DATA_PAGE_SIZE); }
    let code_page_size = opt_word(cur, sf.contains(SampleFormat::CODE_PAGE_SIZE), e, Ghost(s), Ghost(pos))?;
    Ok((phys_addr, data_page_size, code_page_size))
}

impl<'a> SampleRecord<'a> {
    /// Parses a sample record body: every section that the configuration
    /// requests, in the kernel's order.
    pub fn parse(data: RawData<'a>, parse_info: &RecordParseInfo) -> (r: Result<Self, DecodeError>)
        requires
            data.wf(),
        ensures
            sample_parsed(data@, *parse_info, r),
    {
        let ghost s = data@;
        proof { lemma_positions_grow(s, *parse_info); }
        let mut cur = data;
        let (common, ip, addr) = parse_head(&mut cur, parse_info, Ghost(s))?;
        let (period, callchain, raw) = parse_middle(&mut cur, parse_info, Ghost(s))?;
        let (user_regs, user_stack) = parse_user_state(&mut cur, parse_info, Ghost(s))?;
        let (phys_addr, data_page_size, code_page_size) = parse_tail(&mut cur, parse_info, Ghost(s))?;
        Ok(Self {
            id: common.id,
            ip,
            addr,
            stream_id: common.stream_id,
            raw,
            user_regs,
            user_stack,
            callchain,
            cpu: common.cpu,
            timestamp: common.timestamp,
            pid: common.pid,
            tid: common.tid,
            period,
            phys_addr,
            data_page_size,
            code_page_size,
        })
    }
}

} // verus!
