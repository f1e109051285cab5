use byteorder::ByteOrder;
use vstd::prelude::*;

verus! {

/// An enum for little or big endian.
#[derive(Debug, Clone, Copy, PartialEq, Eq)]
pub enum Endianness {
    LittleEndian,
    BigEndian,
}

/// The unsigned number that the bytes `s` spell with the least significant byte first.
pub open spec fn le_value(s: Seq<u8>) -> nat
    decreases s.len(),
{
    if s.len() == 0 {
        0
    } else {
        s[0] as nat + 256 * le_value(s.drop_first())
    }
}

/// The unsigned number that the bytes `s` spell with the most significant byte first.
pub open spec fn be_value(s: Seq<u8>) -> nat
    decreases s.len(),
{
    if s.len() == 0 {
        0
    } else {
        be_value(s.drop_last()) * 256 + s.last() as nat
    }
}

/// The unsigned number that the bytes `s` spell in byte order `e`.
pub open spec fn uint_value(s: Seq<u8>, e: Endianness) -> nat {
    match e {
        Endianness::LittleEndian => le_value(s),
        Endianness::BigEndian => be_value(s),
    }
}

/// The `n` bytes that spell `v` with the least significant byte first.
pub open spec fn le_bytes(v: nat, n: nat) -> Seq<u8>
    decreases n,
{
    if n == 0 {
        Seq::empty()
    } else {
        seq![(v % 256) as u8] + le_bytes(v / 256, (n - 1) as nat)
    }
}

/// The `n` bytes that spell `v` with the most significant byte first.
pub open spec fn be_bytes(v: nat, n: nat) -> Seq<u8>
    decreases n,
{
    if n == 0 {
        Seq::empty()
    } else {
        be_bytes(v / 256, (n - 1) as nat) + seq![(v % 256) as u8]
    }
}

/// The `n` bytes that spell `v` in byte order `e`.
pub open spec fn uint_bytes(v: nat, n: nat, e: Endianness) -> Seq<u8> {
    match e {
        Endianness::LittleEndian => le_bytes(v, n),
        Endianness::BigEndian => be_bytes(v, n),
    }
}

/// Relies on byteorder's `LittleEndian::read_u16`: the first two bytes, least significant first.
#[verifier::external_body]
fn le_read_u16(buf: &[u8]) -> (r: u16)
    requires
        buf@.len() >= 2,
    ensures
        r as nat == le_value(buf@.take(2)),
{
    byteorder::LittleEndian::read_u16(buf)
}

/// Relies on byteorder's `BigEndian::read_u16`: the first two bytes, most significant first.
#[verifier::external_body]
fn be_read_u16(buf: &[u8]) -> (r: u16)
    requires
        buf@.len() >= 2,
    ensures
        r as nat == be_value(buf@.take(2)),
{
    byteorder::BigEndian::read_u16(buf)
}

/// Relies on byteorder's `LittleEndian::read_u32`: the first four bytes, least significant first.
#[verifier::external_body]
fn le_read_u32(buf: &[u8]) -> (r: u32)
    requires
        buf@.len() >= 4,
    ensures
        r as nat == le_value(buf@.take(4)),
{
    byteorder::LittleEndian::read_u32(buf)
}

/// Relies on byteorder's `BigEndian::read_u32`: the first four bytes, most significant first.
#[verifier::external_body]
fn be_read_u32(buf: &[u8]) -> (r: u32)
    requires
        buf@.len() >= 4,
    ensures
        r as nat == be_value(buf@.take(4)),
{
    byteorder::BigEndian::read_u32(buf)
}

/// Relies on byteorder's `LittleEndian::read_u64`: the first eight bytes, least significant first.
#[verifier::external_body]
fn le_read_u64(buf: &[u8]) -> (r: u64)
    requires
        buf@.len() >= 8,
    ensures
        r as nat == le_value(buf@.take(8)),
{
    byteorder::LittleEndian::read_u64(buf)
}

/// Relies on byteorder's `BigEndian::read_u64`: the first eight bytes, most significant first.
#[verifier::external_body]
fn be_read_u64(buf: &[u8]) -> (r: u64)
    requires
        buf@.len() >= 8,
    ensures
        r as nat == be_value(buf@.take(8)),
{
    byteorder::BigEndian::read_u64(buf)
}

/// Decodes the first two bytes of `buf` in byte order `e`.
pub fn decode_u16(buf: &[u8], e: Endianness) -> (r: u16)
    requires
        buf@.len() >= 2,
    ensures
        r as nat == uint_value(buf@.take(2), e),
{
    match e {
        Endianness::LittleEndian => le_read_u16(buf),
        Endianness::BigEndian => be_read_u16(buf),
    }
}

/// Decodes the first four bytes of `buf` in byte order `e`.
pub fn decode_u32(buf: &[u8], e: Endianness) -> (r: u32)
    requires
        buf@.len() >= 4,
    ensures
        r as nat == uint_value(buf@.take(4), e),
{
    match e {
        Endianness::LittleEndian => le_read_u32(buf),
        Endianness::BigEndian => be_read_u32(buf),
    }
}

/// Decodes the first eight bytes of `buf` in byte order `e`.
pub fn decode_u64(buf: &[u8], e: Endianness) -> (r: u64)
    requires
        buf@.len() >= 8,
    ensures
        r as nat == uint_value(buf@.take(8), e),
{
    match e {
        Endianness::LittleEndian => le_read_u64(buf),
        Endianness::BigEndian => be_read_u64(buf),
    }
}

} // verus!
