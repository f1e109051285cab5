use crate::endian::{decode_u16, decode_u32, decode_u64, uint_value, Endianness};
use crate::error::DecodeError;
use std::ops::Range;
use vstd::prelude::*;
use vstd::slice::*;

verus! {

/// A slice of u8 data that can have non-contiguous backing storage split
/// into two pieces, and abstracts that split away so that users can pretend
/// to deal with a contiguous slice.
///
/// When reading perf events from the mmap'd fd that contains the perf event
/// stream, it often happens that a single record straddles the boundary between
/// two mmap chunks, or is wrapped from the end to the start of a chunk.
#[derive(Debug, Clone, Copy, PartialEq, Eq)]
pub enum RawData<'a> {
    Single(&'a [u8]),
    Split(&'a [u8], &'a [u8]),
}

impl<'a> View for RawData<'a> {
    type V = Seq<u8>;

    /// The logical byte sequence: `left` followed by `right`.
    open spec fn view(&self) -> Seq<u8> {
        match *self {
            RawData::Single(s) => s@,
            RawData::Split(l, r) => l@ + r@,
        }
    }
}

impl<'a> From<&'a [u8]> for RawData<'a> {
    fn from(bytes: &'a [u8]) -> Self {
        RawData::Single(bytes)
    }
}

impl<'a> vstd::std_specs::convert::FromSpecImpl<&'a [u8]> for RawData<'a> {
    open spec fn obeys_from_spec() -> bool {
        true
    }

    open spec fn from_spec(bytes: &'a [u8]) -> Self {
        RawData::Single(bytes)
    }
}

/// `i` is the position of the first zero byte of `s`.
pub open spec fn is_first_zero(s: Seq<u8>, i: int) -> bool {
    &&& 0 <= i < s.len()
    &&& s[i] == 0
    &&& forall|j: int| 0 <= j < i ==> s[j] != 0
}

/// `s` holds a zero byte.
pub open spec fn has_zero(s: Seq<u8>) -> bool {
    exists|i: int| 0 <= i < s.len() && s[i] == 0
}

/// The number that the `n` bytes of `s` from `pos` on spell in byte order `e`.
pub open spec fn uint_at(s: Seq<u8>, pos: int, n: int, e: Endianness) -> nat {
    uint_value(s.subrange(pos, pos + n), e)
}

/// Relies on memchr::memchr: the index of the first occurrence of `needle`, if any.
#[verifier::external_body]
fn memchr_find(needle: u8, haystack: &[u8]) -> (r: Option<usize>)
    ensures
        match r {
            Some(i) => {
                &&& i < haystack@.len()
                &&& haystack@[i as int] == needle
                &&& forall|j: int| 0 <= j < i ==> haystack@[j] != needle
            },
            None => forall|j: int| 0 <= j < haystack@.len() ==> haystack@[j] != needle,
        },
{
    memchr::memchr(needle, haystack)
}

fn copy_into(dst: &mut [u8], at: usize, src: &[u8])
    requires
        at + src@.len() <= old(dst)@.len(),
    ensures
        final(dst)@.len() == old(dst)@.len(),
        forall|k: int| 0 <= k < src@.len() ==> final(dst)@[at + k] == src@[k],
        forall|k: int| 0 <= k < at ==> final(dst)@[k] == old(dst)@[k],
{
    let dst_len = dst.len();
    let mut i: usize = 0;
    while i < src.len()
        invariant
            i <= src@.len(),
            at + src@.len() <= dst_len,
            dst@.len() == dst_len,
            dst_len == old(dst)@.len(),
            forall|k: int| 0 <= k < i ==> dst@[at + k] == src@[k],
            forall|k: int| 0 <= k < at ==> dst@[k] == old(dst)@[k],
        decreases src@.len() - i,
    {
        dst[at + i] = src[i];
        i += 1;
    }
}

impl<'a> RawData<'a> {
    /// The byte count of the view fits in `usize`.
    pub open spec fn wf(&self) -> bool {
        self@.len() <= usize::MAX
    }

    pub fn empty() -> (r: Self)
        ensures
            r@ == Seq::<u8>::empty(),
    {
        RawData::Single(&[])
    }

    /// Fills `buf` with the next `buf.len()` bytes and moves past them.
    pub fn read_exact(&mut self, buf: &mut [u8]) -> (r: Result<(), DecodeError>)
        ensures
            final(buf)@.len() == old(buf)@.len(),
            match r {
                Ok(()) => {
                    &&& old(buf)@.len() <= old(self)@.len()
                    &&& final(buf)@ == old(self)@.take(old(buf)@.len() as int)
                    &&& final(self)@ == old(self)@.skip(old(buf)@.len() as int)
                },
                Err(e) => {
                    &&& e == DecodeError::UnexpectedEnd
                    &&& old(self)@.len() < old(buf)@.len()
                    &&& *final(self) == *old(self)
                    &&& final(buf)@ == old(buf)@
                },
            },
    {
        let buf_len = buf.len();
        match *self {
            RawData::Single(single) => {
                if single.len() < buf_len {
                    return Err(DecodeError::UnexpectedEnd);
                }
                let (head, tail) = single.split_at(buf_len);
                copy_into(buf, 0, head);
                assert(buf@ =~= old(self)@.take(buf_len as int));
                *self = RawData::Single(tail);
            },
            RawData::Split(left, right) => {
                let left_len = left.len();
                if buf_len <= left_len {
                    let (head, tail) = left.split_at(buf_len);
                    copy_into(buf, 0, head);
                    assert(old(self)@.take(buf_len as int) =~= head@);
                    assert(buf@ =~= head@);
                    if buf_len < left_len {
                        *self = RawData::Split(tail, right);
                    } else {
                        *self = RawData::Single(right);
                    }
                } else {
                    let remainder_len = buf_len - left_len;
                    if remainder_len > right.len() {
                        return Err(DecodeError::UnexpectedEnd);
                    }
                    let (head, tail) = right.split_at(remainder_len);
                    copy_into(buf, 0, left);
                    copy_into(buf, left_len, head);
                    assert(old(self)@.take(buf_len as int) =~= left@ + head@);
                    assert(buf@ =~= left@ + head@);
                    *self = RawData::Single(tail);
                }
            },
        }
        assert(self@ =~= old(self)@.skip(buf_len as int));
        Ok(())
    }

    /// Returns the first `n` bytes, and sets self to the remainder.
    pub fn split_off_prefix(&mut self, n: usize) -> (r: Result<Self, DecodeError>)
        ensures
            match r {
                Ok(prefix) => {
                    &&& n <= old(self)@.len()
                    &&& prefix@ == old(self)@.take(n as int)
                    &&& final(self)@ == old(self)@.skip(n as int)
                },
                Err(e) => {
                    &&& e == DecodeError::UnexpectedEnd
                    &&& old(self)@.len() < n
                    &&& *final(self) == *old(self)
                },
            },
    {
        let (rv, new_self) = match *self {
            RawData::Single(single) => {
                if single.len() < n {
                    return Err(DecodeError::UnexpectedEnd);
                }
                let (head, tail) = single.split_at(n);
                (RawData::Single(head), RawData::Single(tail))
            },
            RawData::Split(left, right) => {
                if n <= left.len() {
                    let (head, tail) = left.split_at(n);
                    (
                        RawData::Single(head),
                        if n < left.len() {
                            RawData::Split(tail, right)
                        } else {
                            RawData::Single(right)
                        },
                    )
                } else {
                    let remainder_len = n - left.len();
                    if remainder_len > right.len() {
                        return Err(DecodeError::UnexpectedEnd);
                    }
                    let (head, tail) = right.split_at(remainder_len);
                    (RawData::Split(left, head), RawData::Single(tail))
                }
            },
        };
        assert(rv@ =~= old(self)@.take(n as int));
        assert(new_self@ =~= old(self)@.skip(n as int));
        *self = new_self;
        Ok(rv)
    }

    /// Moves past the next `n` bytes.
    pub fn skip(&mut self, n: usize) -> (r: Result<(), DecodeError>)
        ensures
            match r {
                Ok(()) => {
                    &&& n <= old(self)@.len()
                    &&& final(self)@ == old(self)@.skip(n as int)
                },
                Err(e) => {
                    &&& e == DecodeError::UnexpectedEnd
                    &&& old(self)@.len() < n
                    &&& *final(self) == *old(self)
                },
            },
    {
        let new_self = match *self {
            RawData::Single(single) => {
                if single.len() < n {
                    return Err(DecodeError::UnexpectedEnd);
                }
                RawData::Single(slice_subrange(single, n, single.len()))
            },
            RawData::Split(left, right) => {
                if n < left.len() {
                    RawData::Split(slice_subrange(left, n, left.len()), right)
                } else {
                    let remainder_len = n - left.len();
                    if remainder_len > right.len() {
                        return Err(DecodeError::UnexpectedEnd);
                    }
                    RawData::Single(slice_subrange(right, remainder_len, right.len()))
                }
            },
        };
        assert(new_self@ =~= old(self)@.skip(n as int));
        *self = new_self;
        Ok(())
    }

    /// Finds the first nul byte. Returns everything before that nul byte,
    /// and sets self to everything after it. Without a nul byte, returns
    /// `None` and leaves self as it was.
    pub fn read_string(&mut self) -> (r: Option<RawData<'a>>)
        ensures
            match r {
                Some(s) => {
                    &&& is_first_zero(old(self)@, s@.len() as int)
                    &&& s@ == old(self)@.take(s@.len() as int)
                    &&& final(self)@ == old(self)@.skip(s@.len() as int + 1)
                },
                None => {
                    &&& !has_zero(old(self)@)
                    &&& *final(self) == *old(self)
                },
            },
    {
        let (rv, new_self) = match *self {
            RawData::Single(single) => {
                let single_len = single.len();
                match memchr_find(0, single) {
                    Some(n) => (
                        RawData::Single(slice_subrange(single, 0, n)),
                        RawData::Single(slice_subrange(single, n + 1, single_len)),
                    ),
                    None => {
                        return None;
                    },
                }
            },
            RawData::Split(left, right) => {
                let left_len = left.len();
                let right_len = right.len();
                if let Some(n) = memchr_find(0, left) {
                    (
                        RawData::Single(slice_subrange(left, 0, n)),
                        if n + 1 < left_len {
                            RawData::Split(slice_subrange(left, n + 1, left.len()), right)
                        } else {
                            RawData::Single(right)
                        },
                    )
                } else if let Some(n) = memchr_find(0, right) {
                    assert(forall|j: int| 0 <= j < left@.len() ==> old(self)@[j] == left@[j]);
                    (
                        RawData::Split(left, slice_subrange(right, 0, n)),
                        RawData::Single(slice_subrange(right, n + 1, right_len)),
                    )
                } else {
                    assert forall|j: int| 0 <= j < old(self)@.len() implies old(self)@[j] != 0 by {
                        if j >= left@.len() {
                            assert(old(self)@[j] == right@[j - left@.len()]);
                        }
                    }
                    return None;
                }
            },
        };
        assert(rv@ =~= old(self)@.take(rv@.len() as int));
        assert(new_self@ =~= old(self)@.skip(rv@.len() as int + 1));
        *self = new_self;
        Some(rv)
    }

    /// Reads one byte.
    pub fn read_u8(&mut self) -> (r: Result<u8, DecodeError>)
        ensures
            match r {
                Ok(v) => {
                    &&& 1 <= old(self)@.len()
                    &&& v == old(self)@[0]
                    &&& final(self)@ == old(self)@.skip(1)
                },
                Err(e) => {
                    &&& e == DecodeError::UnexpectedEnd
                    &&& old(self)@.len() < 1
                    &&& *final(self) == *old(self)
                },
            },
    {
        let mut b = [0u8; 1];
        self.read_exact(&mut b)?;
        Ok(b[0])
    }

    /// Reads an unsigned 16 bit integer in byte order `endian`.
    pub fn read_u16(&mut self, endian: Endianness) -> (r: Result<u16, DecodeError>)
        ensures
            match r {
                Ok(v) => {
                    &&& 2 <= old(self)@.len()
                    &&& v as nat == uint_at(old(self)@, 0, 2, endian)
                    &&& final(self)@ == old(self)@.skip(2)
                },
                Err(e) => {
                    &&& e == DecodeError::UnexpectedEnd
                    &&& old(self)@.len() < 2
                    &&& *final(self) == *old(self)
                },
            },
    {
        let bytes = self.split_off_prefix(2)?;
        let v = match bytes {
            RawData::Single(s) => decode_u16(s, endian),
            RawData::Split(..) => {
                let copy = bytes.as_slice();
                decode_u16(copy.as_slice(), endian)
            },
        };
        assert(bytes@.take(2) =~= bytes@);
        Ok(v)
    }

    /// Reads an unsigned 32 bit integer in byte order `endian`.
    pub fn read_u32(&mut self, endian: Endianness) -> (r: Result<u32, DecodeError>)
        ensures
            match r {
                Ok(v) => {
                    &&& 4 <= old(self)@.len()
                    &&& v as nat == uint_at(old(self)@, 0, 4, endian)
                    &&& final(self)@ == old(self)@.skip(4)
                },
                Err(e) => {
                    &&& e == DecodeError::UnexpectedEnd
                    &&& old(self)@.len() < 4
                    &&& *final(self) == *old(self)
                },
            },
    {
        let bytes = self.split_off_prefix(4)?;
        let v = match bytes {
            RawData::Single(s) => decode_u32(s, endian),
            RawData::Split(..) => {
                let copy = bytes.as_slice();
                decode_u32(copy.as_slice(), endian)
            },
        };
        assert(bytes@.take(4) =~= bytes@);
        Ok(v)
    }

    /// Reads a signed 32 bit integer in byte order `endian`.
    pub fn read_i32(&mut self, endian: Endianness) -> (r: Result<i32, DecodeError>)
        ensures
            match r {
                Ok(v) => {
                    &&& 4 <= old(self)@.len()
                    &&& v == uint_at(old(self)@, 0, 4, endian) as i32
                    &&& final(self)@ == old(self)@.skip(4)
                },
                Err(e) => {
                    &&& e == DecodeError::UnexpectedEnd
                    &&& old(self)@.len() < 4
                    &&& *final(self) == *old(self)
                },
            },
    {
        let v = self.read_u32(endian)?;
        Ok(v as i32)
    }

    /// Reads an unsigned 64 bit integer in byte order `endian`.
    pub fn read_u64(&mut self, endian: Endianness) -> (r: Result<u64, DecodeError>)
        ensures
            match r {
                Ok(v) => {
                    &&& 8 <= old(self)@.len()
                    &&& v as nat == uint_at(old(self)@, 0, 8, endian)
                    &&& final(self)@ == old(self)@.skip(8)
                },
                Err(e) => {
                    &&& e == DecodeError::UnexpectedEnd
                    &&& old(self)@.len() < 8
                    &&& *final(self) == *old(self)
                },
            },
    {
        let bytes = self.split_off_prefix(8)?;
        let v = match bytes {
            RawData::Single(s) => decode_u64(s, endian),
            RawData::Split(..) => {
                let copy = bytes.as_slice();
                decode_u64(copy.as_slice(), endian)
            },
        };
        assert(bytes@.take(8) =~= bytes@);
        Ok(v)
    }

    /// Replaces the contents of `target` with the bytes of this view.
    pub fn write_into(&self, target: &mut Vec<u8>)
        ensures
            final(target)@ == self@,
    {
        target.clear();
        match *self {
            RawData::Single(slice) => target.extend_from_slice(slice),
            RawData::Split(first, second) => {
                target.extend_from_slice(first);
                target.extend_from_slice(second);
            },
        }
        assert(target@ =~= self@);
    }

    /// The bytes of this view in one contiguous buffer.
    pub fn as_slice(&self) -> (r: Vec<u8>)
        ensures
            r@ == self@,
    {
        let mut vec = Vec::new();
        self.write_into(&mut vec);
        vec
    }

    /// The sub-view of the bytes in `range`, or `None` if the range is
    /// reversed or reaches past the end.
    pub fn get(&self, range: Range<usize>) -> (r: Option<RawData<'a>>)
        ensures
            match r {
                Some(d) => {
                    &&& range.start <= range.end <= self@.len()
                    &&& d@ == self@.subrange(range.start as int, range.end as int)
                },
                None => !(range.start <= range.end <= self@.len()),
            },
    {
        let start = range.start;
        let end = range.end;
        if start > end {
            return None;
        }
        match *self {
            RawData::Single(buffer) => {
                if end > buffer.len() {
                    return None;
                }
                Some(RawData::Single(slice_subrange(buffer, start, end)))
            },
            RawData::Split(left, right) => {
                let left_len = left.len();
                if start >= left_len {
                    if end - left_len > right.len() {
                        return None;
                    }
                    let d = RawData::Single(slice_subrange(right, start - left_len, end - left_len));
                    assert(d@ =~= self@.subrange(start as int, end as int));
                    Some(d)
                } else if end <= left_len {
                    let d = RawData::Single(slice_subrange(left, start, end));
                    assert(d@ =~= self@.subrange(start as int, end as int));
                    Some(d)
                } else {
                    if end - left_len > right.len() {
                        return None;
                    }
                    let d = RawData::Split(
                        slice_subrange(left, start, left_len),
                        slice_subrange(right, 0, end - left_len),
                    );
                    assert(d@ =~= self@.subrange(start as int, end as int));
                    Some(d)
                }
            },
        }
    }

    pub fn is_empty(&self) -> (r: bool)
        ensures
            r == (self@.len() == 0),
    {
        match *self {
            RawData::Single(buffer) => buffer.is_empty(),
            RawData::Split(left, right) => left.is_empty() && right.is_empty(),
        }
    }

    pub fn len(&self) -> (r: usize)
        requires
            self.wf(),
        ensures
            r == self@.len(),
    {
        match *self {
            RawData::Single(buffer) => buffer.len(),
            RawData::Split(left, right) => left.len() + right.len(),
        }
    }
}

/// The 64-bit words that `bytes` holds, each read in byte order `e`; a
/// trailing partial word is left out.
pub open spec fn words_of(bytes: Seq<u8>, e: Endianness) -> Seq<u64> {
    Seq::new(bytes.len() / 8, |i: int| uint_at(bytes, 8 * i, 8, e) as u64)
}

/// A view over a byte range as a sequence of 64-bit words in a given byte order.
#[derive(Debug, Clone, Copy, PartialEq, Eq)]
pub struct RawDataU64<'a> {
    endian: Endianness,
    raw_data: RawData<'a>,
}

impl<'a> View for RawDataU64<'a> {
    type V = Seq<u64>;

    open spec fn view(&self) -> Seq<u64> {
        words_of(self.bytes(), self.byte_order())
    }
}

impl<'a> RawDataU64<'a> {
    /// The bytes under the words.
    pub closed spec fn bytes(&self) -> Seq<u8> {
        self.raw_data@
    }

    /// The byte order of the words.
    pub closed spec fn byte_order(&self) -> Endianness {
        self.endian
    }

    #[verifier::type_invariant]
    spec fn inv(self) -> bool {
        self.raw_data.wf()
    }

    pub fn from_raw_data(raw_data: RawData<'a>, endian: Endianness) -> (r: Self)
        requires
            raw_data.wf(),
        ensures
            r.bytes() == raw_data@,
            r.byte_order() == endian,
    {
        RawDataU64 { endian, raw_data }
    }

    /// Whether no bytes lie under this view.
    pub fn is_empty(&self) -> (r: bool)
        ensures
            r == (self.bytes().len() == 0),
    {
        self.raw_data.is_empty()
    }

    pub fn len(&self) -> (r: usize)
        ensures
            r == self@.len(),
    {
        proof {
            use_type_invariant(self);
        }
        self.raw_data.len() / 8
    }

    /// The word at `index`, if there is one.
    pub fn get(&self, index: usize) -> (r: Option<u64>)
        ensures
            r == if index < self@.len() {
                Some(self@[index as int])
            } else {
                None::<u64>
            },
    {
        proof {
            use_type_invariant(self);
        }
        let offset = match index.checked_mul(8) {
            Some(o) => o,
            None => {
                return None;
            },
        };
        let mut data = self.raw_data;
        match data.skip(offset) {
            Ok(()) => {},
            Err(_) => {
                return None;
            },
        }
        assert(data@ == self.raw_data@.skip(offset as int));
        match data.read_u64(self.endian) {
            Ok(value) => {
                assert(self.raw_data@.skip(offset as int).subrange(0, 8) =~= self.raw_data@.subrange(
                    8 * index,
                    8 * index + 8,
                ));
                Some(value)
            },
            Err(_) => None,
        }
    }
}

/// Reading `n` bytes at `pos` of `s` from a view of `s.skip(pos)`.
pub(crate) proof fn lemma_skip_window(s: Seq<u8>, pos: int, n: int)
    requires
        0 <= pos,
        0 <= n,
        pos + n <= s.len(),
    ensures
        s.skip(pos).subrange(0, n) == s.subrange(pos, pos + n),
        s.skip(pos).skip(n) == s.skip(pos + n),
        s.skip(pos).take(n) == s.subrange(pos, pos + n),
{
    assert(s.skip(pos).subrange(0, n) =~= s.subrange(pos, pos + n));
    assert(s.skip(pos).skip(n) =~= s.skip(pos + n));
    assert(s.skip(pos).take(n) =~= s.subrange(pos, pos + n));
}

/// Reads the 8-byte number at `pos` of `s`, from a cursor at `pos`.
pub(crate) fn read_u64_at(data: &mut RawData, e: Endianness, Ghost(s): Ghost<Seq<u8>>, Ghost(pos): Ghost<int>) -> (r: Result<u64, DecodeError>)
    requires
        0 <= pos <= s.len(),
        old(data)@ == s.skip(pos),
    ensures
        match r {
            Ok(v) => pos + 8 <= s.len() && v as nat == uint_at(s, pos, 8, e) && final(data)@ == s.skip(pos + 8),
            Err(err) => err == DecodeError::UnexpectedEnd && s.len() < pos + 8,
        },
{
    let r = data.read_u64(e);
    proof {
        if r.is_ok() {
            lemma_skip_window(s, pos, 8);
        }
    }
    r
}

/// Reads the 4-byte number at `pos` of `s`, from a cursor at `pos`.
pub(crate) fn read_u32_at(data: &mut RawData, e: Endianness, Ghost(s): Ghost<Seq<u8>>, Ghost(pos): Ghost<int>) -> (r: Result<u32, DecodeError>)
    requires
        0 <= pos <= s.len(),
        old(data)@ == s.skip(pos),
    ensures
        match r {
            Ok(v) => pos + 4 <= s.len() && v as nat == uint_at(s, pos, 4, e) && final(data)@ == s.skip(pos + 4),
            Err(err) => err == DecodeError::UnexpectedEnd && s.len() < pos + 4,
        },
{
    let r = data.read_u32(e);
    proof {
        if r.is_ok() {
            lemma_skip_window(s, pos, 4);
        }
    }
    r
}

/// Reads the signed 4-byte number at `pos` of `s`, from a cursor at `pos`.
pub(crate) fn read_i32_at(data: &mut RawData, e: Endianness, Ghost(s): Ghost<Seq<u8>>, Ghost(pos): Ghost<int>) -> (r: Result<i32, DecodeError>)
    requires
        0 <= pos <= s.len(),
        old(data)@ == s.skip(pos),
    ensures
        match r {
            Ok(v) => pos + 4 <= s.len() && v == uint_at(s, pos, 4, e) as i32 && final(data)@ == s.skip(pos + 4),
            Err(err) => err == DecodeError::UnexpectedEnd && s.len() < pos + 4,
        },
{
    let r = data.read_i32(e);
    proof {
        if r.is_ok() {
            lemma_skip_window(s, pos, 4);
        }
    }
    r
}

/// Reads the 2-byte number at `pos` of `s`, from a cursor at `pos`.
pub(crate) fn read_u16_at(data: &mut RawData, e: Endianness, Ghost(s): Ghost<Seq<u8>>, Ghost(pos): Ghost<int>) -> (r: Result<u16, DecodeError>)
    requires
        0 <= pos <= s.len(),
        old(data)@ == s.skip(pos),
    ensures
        match r {
            Ok(v) => pos + 2 <= s.len() && v as nat == uint_at(s, pos, 2, e) && final(data)@ == s.skip(pos + 2),
            Err(err) => err == DecodeError::UnexpectedEnd && s.len() < pos + 2,
        },
{
    let r = data.read_u16(e);
    proof {
        if r.is_ok() {
            lemma_skip_window(s, pos, 2);
        }
    }
    r
}

/// Reads the byte at `pos` of `s`, from a cursor at `pos`.
pub(crate) fn read_u8_at(data: &mut RawData, Ghost(s): Ghost<Seq<u8>>, Ghost(pos): Ghost<int>) -> (r: Result<u8, DecodeError>)
    requires
        0 <= pos <= s.len(),
        old(data)@ == s.skip(pos),
    ensures
        match r {
            Ok(v) => pos + 1 <= s.len() && v == s[pos] && final(data)@ == s.skip(pos + 1),
            Err(err) => err == DecodeError::UnexpectedEnd && s.len() < pos + 1,
        },
{
    let r = data.read_u8();
    proof {
        if r.is_ok() {
            lemma_skip_window(s, pos, 1);
        }
    }
    r
}

/// Moves a cursor at `pos` of `s` on by `n` bytes.
pub(crate) fn skip_at(data: &mut RawData, n: usize, Ghost(s): Ghost<Seq<u8>>, Ghost(pos): Ghost<int>) -> (r: Result<(), DecodeError>)
    requires
        0 <= pos <= s.len(),
        old(data)@ == s.skip(pos),
    ensures
        match r {
            Ok(_) => pos + n <= s.len() && final(data)@ == s.skip(pos + n),
            Err(err) => err == DecodeError::UnexpectedEnd && s.len() < pos + n,
        },
{
    let r = data.skip(n);
    proof {
        if r.is_ok() {
            lemma_skip_window(s, pos, n as int);
        }
    }
    r
}

/// Splits the `n` bytes at `pos` of `s` off a cursor at `pos`.
pub(crate) fn split_off_at<'a>(data: &mut RawData<'a>, n: usize, Ghost(s): Ghost<Seq<u8>>, Ghost(pos): Ghost<int>) -> (r: Result<RawData<'a>, DecodeError>)
    requires
        0 <= pos <= s.len(),
        old(data)@ == s.skip(pos),
    ensures
        match r {
            Ok(d) => pos + n <= s.len() && d@ == s.subrange(pos, pos + n) && final(data)@ == s.skip(pos + n),
            Err(err) => err == DecodeError::UnexpectedEnd && s.len() < pos + n,
        },
{
    let r = data.split_off_prefix(n);
    proof {
        if r.is_ok() {
            lemma_skip_window(s, pos, n as int);
        }
    }
    r
}

/// The 8-byte number at `off` of `data`, if the data reaches that far;
/// `data` itself is left as it is.
pub(crate) fn peek_u64(data: RawData, off: usize, e: Endianness) -> (r: Option<u64>)
    ensures
        r == if off + 8 <= data@.len() {
            Some(uint_at(data@, off as int, 8, e) as u64)
        } else {
            None::<u64>
        },
{
    let ghost s = data@;
    let mut cur = data;
    assert(s.skip(0) =~= s);
    match skip_at(&mut cur, off, Ghost(s), Ghost(0)) {
        Ok(()) => {},
        Err(_) => {
            return None;
        },
    }
    match read_u64_at(&mut cur, e, Ghost(s), Ghost(off as int)) {
        Ok(v) => Some(v),
        Err(_) => None,
    }
}

} // verus!
