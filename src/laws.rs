//! Properties that relate several of the decoders.
use crate::common_data::{nonsample_common_of, sample_common_of, sample_head_size};
use crate::constants::{
    PERF_ATTR_SIZE_VER2, PERF_ATTR_SIZE_VER3, PERF_ATTR_SIZE_VER4, PERF_ATTR_SIZE_VER5,
    PERF_ATTR_SIZE_VER6, PERF_ATTR_SIZE_VER7, PERF_RECORD_MISC_MMAP_BUILD_ID, PERF_RECORD_SAMPLE,
};
use crate::endian::{be_bytes, le_bytes, uint_bytes, uint_value, Endianness};
use crate::error::DecodeError;
use crate::event_record::{record_common_of, record_id_of, record_timestamp_of};
use crate::parse_info::{field_size, parse_info_of, RecordParseInfo};
use crate::perf_event::{attr_size, decode_attr, PerfEventAttr};
use crate::raw_data::{uint_at, words_of, RawData};
use crate::records::{mmap2_parsed, Mmap2Record};
use crate::sample::{
    aux_pos, aux_size, branch_pos, branch_stack_size, callchain_pos, callchain_size,
    intr_regs_pos, lemma_positions_grow, raw_pos, raw_size, read_block_size, read_pos, regs_size,
    sample_parsed, sample_size, stack_pos, stack_size, user_regs_pos, word_at, SampleRecord,
};
use crate::types::{BranchSampleFormat, RecordType, SampleFormat};
use vstd::arithmetic::power::pow;
use vstd::prelude::*;

verus! {

/// For any configuration, the timestamp and the id that the cheap peek
/// operations find through the precomputed offsets are the ones that
/// parsing the record's common fields yields, whenever that parse succeeds.
pub proof fn lemma_peek_matches_common_data(
    attr: PerfEventAttr,
    endian: Endianness,
    record_type: RecordType,
    s: Seq<u8>,
)
    requires
        record_common_of(record_type, s, parse_info_of(attr, endian)) is Ok,
    ensures
        ({
            let info = parse_info_of(attr, endian);
            let common = record_common_of(record_type, s, info)->Ok_0;
            &&& record_timestamp_of(record_type, s, info) == common.timestamp
            &&& record_id_of(record_type, s, info.id_parse_info, endian) == common.id
        }),
{
}

/// For any configuration, the timestamp and the id that the peek
/// operations find in a sample record are the ones that fully parsing the
/// sample yields, whenever that parse succeeds.
pub proof fn lemma_peek_matches_sample(attr: PerfEventAttr, endian: Endianness, record_type: RecordType, s: Seq<u8>, rec: SampleRecord)
    requires
        record_type == RecordType(PERF_RECORD_SAMPLE),
        sample_parsed(s, parse_info_of(attr, endian), Ok(rec)),
    ensures
        record_timestamp_of(record_type, s, parse_info_of(attr, endian)) == rec.timestamp,
        record_id_of(record_type, s, parse_info_of(attr, endian).id_parse_info, endian) == rec.id,
{
    let info = parse_info_of(attr, endian);
    lemma_positions_grow(s, info);
}

/// A view split in two at any point holds the same bytes as the undivided
/// view, and so the same 64-bit words. Every operation on `RawData` and
/// `RawDataU64` is specified over these alone, so reads, string reads,
/// prefix splits, skips, slices and word access give the same results on
/// both.
pub proof fn lemma_split_equivalence<'a>(whole: &'a [u8], left: &'a [u8], right: &'a [u8], e: Endianness)
    requires
        left@ + right@ == whole@,
    ensures
        RawData::Split(left, right)@ == RawData::Single(whole)@,
        words_of(RawData::Split(left, right)@, e) == words_of(RawData::Single(whole)@, e),
{
}

/// A configuration that declares its own size decodes exactly as with that
/// size given explicitly, and consumes as many bytes.
pub proof fn lemma_declared_size_is_override(s: Seq<u8>, e: Endianness)
    requires
        s.len() >= 16,
    ensures
        decode_attr(s, e, None) == decode_attr(s, e, Some(uint_at(s, 4, 4, e) as u32)),
        attr_size(s, e, None) == attr_size(s, e, Some(uint_at(s, 4, 4, e) as u32)),
{
}

/// Every field group that a configuration's size does not reach decodes as
/// zero.
pub proof fn lemma_older_versions_default(s: Seq<u8>, e: Endianness, size: Option<u32>, attr: PerfEventAttr)
    requires
        decode_attr(s, e, size) == Ok::<PerfEventAttr, DecodeError>(attr),
    ensures
        ({
            let n = attr_size(s, e, size);
            &&& n < PERF_ATTR_SIZE_VER2 ==> attr.branch_sample_format@ == 0
            &&& n < PERF_ATTR_SIZE_VER3 ==> attr.sample_regs_user == 0 && attr.sample_stack_user == 0
            &&& n < PERF_ATTR_SIZE_VER4 ==> attr.sample_regs_intr == 0
            &&& n < PERF_ATTR_SIZE_VER5 ==> attr.aux_watermark == 0 && attr.sample_max_stack == 0
            &&& n < PERF_ATTR_SIZE_VER6 ==> attr.aux_sample_size == 0
            &&& n < PERF_ATTR_SIZE_VER7 ==> attr.sig_data == 0
        }),
{
    let n = attr_size(s, e, size);
    assert(0u64 & BranchSampleFormat::ALL_BITS == 0) by (bit_vector);
    if n < PERF_ATTR_SIZE_VER2 {
        assert(attr.branch_sample_format == BranchSampleFormat::spec_from_bits_truncate(0));
        BranchSampleFormat::lemma_truncate_view(0);
    }
}

/// The body of a sample is exactly as long as the sum of what each
/// requested section contributes, in the kernel's order: the identifying
/// head, the period, the read block, the call chain, the raw blob, the
/// branch stack, the user registers and stack, weight, data source and
/// transaction, the interrupt registers, the physical address, the AUX blob
/// and the two page sizes. Parsing succeeds exactly on bodies that long or
/// longer.
pub proof fn lemma_sample_size_is_sum_of_sections(s: Seq<u8>, info: RecordParseInfo)
    ensures
        ({
            let sf = info.sample_format;
            let e = info.endian;
            sample_size(s, info) == sample_head_size(sf)
                + field_size(sf, SampleFormat::PERIOD)
                + read_block_size(s, read_pos(info), info)
                + callchain_size(s, callchain_pos(s, info), info)
                + raw_size(s, raw_pos(s, info), info)
                + branch_stack_size(s, branch_pos(s, info), info)
                + regs_size(s, user_regs_pos(s, info), sf.has(SampleFormat::REGS_USER), info.user_regs_count, e)
                + stack_size(s, stack_pos(s, info), info)
                + field_size(sf, SampleFormat::WEIGHT)
                + field_size(sf, SampleFormat::DATA_SRC)
                + field_size(sf, SampleFormat::TRANSACTION)
                + regs_size(s, intr_regs_pos(s, info), sf.has(SampleFormat::REGS_INTR), info.intr_regs_count, e)
                + field_size(sf, SampleFormat::PHYS_ADDR)
                + aux_size(s, aux_pos(s, info), info)
                + field_size(sf, SampleFormat::DATA_PAGE_SIZE)
                + field_size(sf, SampleFormat::CODE_PAGE_SIZE)
        }),
        forall|rec: SampleRecord| sample_parsed(s, info, Ok(rec)) ==> sample_size(s, info) <= s.len(),
        forall|err: DecodeError| sample_parsed(s, info, Err(err)) ==> s.len() < sample_size(s, info),
{
}

/// When a configuration requests both the identifier and the plain id, the
/// id that any parse reports is the identifier: the first word of a sample,
/// the last word of another record's trailer.
pub proof fn lemma_identifier_wins(attr: PerfEventAttr, endian: Endianness, s: Seq<u8>)
    requires
        attr.sample_format.has(SampleFormat::IDENTIFIER),
        attr.sample_format.has(SampleFormat::ID),
    ensures
        ({
            let info = parse_info_of(attr, endian);
            &&& sample_common_of(s, info.sample_format, endian) is Ok ==> sample_common_of(
                s,
                info.sample_format,
                endian,
            )->Ok_0.id == Some(word_at(s, 0, endian) as u64)
            &&& forall|rec: SampleRecord| sample_parsed(s, info, Ok(rec)) ==> rec.id == Some(word_at(s, 0, endian) as u64)
            &&& (nonsample_common_of(s, info) is Ok && info.common_data_offset_from_end is Some)
                ==> nonsample_common_of(s, info)->Ok_0.id == Some(word_at(s, s.len() - 8, endian) as u64)
        }),
{
}

/// An mmap2 record that carries a build id whose length byte exceeds 20
/// fails with `InvalidInput`, never with a shortened build id.
pub proof fn lemma_build_id_bound(s: Seq<u8>, misc: u16, endian: Endianness, r: Result<Mmap2Record, DecodeError>)
    requires
        misc & PERF_RECORD_MISC_MMAP_BUILD_ID != 0,
        s.len() > 32,
        s[32] > 20,
        mmap2_parsed(s, misc, endian, r),
    ensures
        r == Err::<Mmap2Record, DecodeError>(DecodeError::InvalidInput),
{
}

/// Any number below `256^n`, written as `n` bytes in either byte order,
/// reads back as itself: a body built field by field from chosen values
/// decodes to those values.
pub proof fn lemma_uint_round_trip(v: nat, n: nat, e: Endianness)
    requires
        v < pow(256, n),
    ensures
        uint_bytes(v, n, e).len() == n,
        uint_value(uint_bytes(v, n, e), e) == v,
    decreases n,
{
    if n == 0 {
        assert(pow(256, 0) == 1) by {
            reveal(pow);
        }
    } else {
        assert(pow(256, n) == 256 * pow(256, (n - 1) as nat)) by {
            reveal(pow);
        }
        let q = v / 256;
        assert(q < pow(256, (n - 1) as nat)) by (nonlinear_arith)
            requires
                v < 256 * pow(256, (n - 1) as nat),
                q == v / 256,
        ;
        lemma_uint_round_trip(q, (n - 1) as nat, e);
        assert(v == (v % 256) + 256 * q) by (nonlinear_arith)
            requires
                q == v / 256,
        ;
        match e {
            Endianness::LittleEndian => {
                let s = le_bytes(v, n);
                assert(s.drop_first() =~= le_bytes(q, (n - 1) as nat));
            },
            Endianness::BigEndian => {
                let s = be_bytes(v, n);
                assert(s.drop_last() =~= be_bytes(q, (n - 1) as nat));
            },
        }
    }
}

/// A field written at some position of a body, between any bytes, is the
/// value that the decoders read at that position.
pub proof fn lemma_placed_field_reads_back(prefix: Seq<u8>, v: nat, n: nat, suffix: Seq<u8>, e: Endianness)
    requires
        v < pow(256, n),
    ensures
        uint_at(prefix + uint_bytes(v, n, e) + suffix, prefix.len() as int, n as int, e) == v,
{
    lemma_uint_round_trip(v, n, e);
    let body = prefix + uint_bytes(v, n, e) + suffix;
    assert(body.subrange(prefix.len() as int, prefix.len() + n as int) =~= uint_bytes(v, n, e));
}

} // verus!
