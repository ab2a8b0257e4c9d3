//! External Data Representation (XDR, RFC 4506) encoding and decoding.
//!
//! Writers append to a `Vec<u8>`; readers walk an [`XdrReader`], a byte
//! buffer with a position. What a value writes is given by
//! [`XdrSerialize::spec_emit`] and what a read gives back by
//! [`XdrDeserialize::spec_parse`], both over the value's deep view.
use byteorder::{BigEndian, ByteOrder};
use vstd::prelude::*;
use vstd::slice::slice_subrange;

verus! {

/// Why reading or writing an XDR value failed.
#[derive(Clone, Copy, Debug, PartialEq, Eq, Structural)]
pub enum XdrError {
    /// The data ended before the value did.
    UnexpectedEof,
    /// A tag or enumeration value that the type does not define.
    InvalidData,
    /// Any other failure: a length over its limit, a value that cannot be
    /// written.
    Other,
    /// Padding bytes that are not zero, after opaque data of bounded length.
    /// Whoever reads such data stops serving the peer that sent it.
    NonZeroPadding,
}

/// What writing a value does.
pub enum Emit {
    /// Appends these bytes and succeeds.
    Done(Seq<u8>),
    /// Appends these bytes, then reports the error.
    Fails(XdrError, Seq<u8>),
    /// Panics.
    Panics,
}

impl Emit {
    /// Writing `self`, then, if that succeeded, `next`.
    pub open spec fn and_then(self, next: Emit) -> Emit {
        match self {
            Emit::Done(a) => match next {
                Emit::Done(b) => Emit::Done(a + b),
                Emit::Fails(e, b) => Emit::Fails(e, a + b),
                Emit::Panics => Emit::Panics,
            },
            _ => self,
        }
    }
}

/// What reading a value from a position of a buffer does.
pub enum Parse<V> {
    /// Gives back this value and leaves the reader at this position.
    Done(V, int),
    /// Reports this error and leaves the reader at this position.
    Fails(XdrError, int),
}

/// A buffer being read, and the position of the next byte to read.
pub struct XdrReader {
    pub data: Vec<u8>,
    pub pos: usize,
}

impl XdrReader {
    /// The position lies within the buffer (or just past its end).
    pub open spec fn wf(&self) -> bool {
        self.pos <= self.data@.len()
    }

    /// A reader at the start of `data`.
    pub fn new(data: Vec<u8>) -> (r: XdrReader)
        ensures
            r.wf(),
            r.data@ == data@,
            r.pos == 0,
    {
        XdrReader { data, pos: 0 }
    }

    /// The number of bytes not read yet.
    pub fn remaining(&self) -> (n: usize)
        requires
            self.wf(),
        ensures
            n == self.data@.len() - self.pos,
    {
        self.data.len() - self.pos
    }
}

/// `r` and the new position `end` are what `p` says a read gives back.
pub open spec fn reads_as<T: DeepView>(p: Parse<T::V>, r: Result<T, XdrError>, end: int) -> bool {
    match p {
        Parse::Done(v, q) => r is Ok && r->Ok_0.deep_view() == v && end == q,
        Parse::Fails(e, q) => r == Err::<T, XdrError>(e) && end == q,
    }
}

/// `r` and the buffer `after` are what `e` says a write into `before` does.
pub open spec fn writes_as(e: Emit, r: Result<(), XdrError>, before: Seq<u8>, after: Seq<u8>) -> bool {
    match e {
        Emit::Done(b) => r is Ok && after == before + b,
        Emit::Fails(x, b) => r == Err::<(), XdrError>(x) && after == before + b,
        Emit::Panics => false,
    }
}

/// A value that can be written in XDR.
pub trait XdrSerialize: DeepView {
    /// What writing a value with this deep view does.
    spec fn spec_emit(v: Self::V) -> Emit;

    /// Appends the encoding of `self` to `dest`.
    fn serialize(&self, dest: &mut Vec<u8>) -> (r: Result<(), XdrError>)
        requires
            !(Self::spec_emit(self.deep_view()) is Panics),
        ensures
            writes_as(Self::spec_emit(self.deep_view()), r, old(dest)@, final(dest)@),
    ;
}

/// A value that can be read from XDR.
pub trait XdrDeserialize: DeepView + Sized {
    /// What reading a value from `data` at `pos` does.
    spec fn spec_parse(data: Seq<u8>, pos: int) -> Parse<Self::V>;

    /// Reads a value at the reader's position and moves past it.
    fn deserialize(src: &mut XdrReader) -> (r: Result<Self, XdrError>)
        requires
            old(src).wf(),
        ensures
            final(src).wf(),
            final(src).data@ == old(src).data@,
            old(src).pos <= final(src).pos,
            reads_as::<Self>(
                Self::spec_parse(old(src).data@, old(src).pos as int),
                r,
                final(src).pos as int,
            ),
    ;
}


broadcast use {
    crate::byte_seq::lemma_seq_add_assoc,
    crate::byte_seq::lemma_bytes_deep_view,
    crate::byte_seq::lemma_byte_array_deep_view,
};

// ---------------------------------------------------------------------------
// Big-endian integers
// ---------------------------------------------------------------------------

/// The four bytes of `n`, most significant first.
pub open spec fn spec_u32_be(n: u32) -> Seq<u8> {
    seq![
        (n / 0x100_0000) as u8,
        ((n / 0x1_0000) % 0x100) as u8,
        ((n / 0x100) % 0x100) as u8,
        (n % 0x100) as u8,
    ]
}

/// The number whose four bytes, most significant first, begin `b`.
pub open spec fn spec_u32_from_be(b: Seq<u8>) -> u32 {
    (b[0] as int * 0x100_0000 + b[1] as int * 0x1_0000 + b[2] as int * 0x100 + b[3] as int) as u32
}

/// The eight bytes of `n`, most significant first.
pub open spec fn spec_u64_be(n: u64) -> Seq<u8> {
    spec_u32_be((n / 0x1_0000_0000) as u32) + spec_u32_be((n % 0x1_0000_0000) as u32)
}

/// The number whose eight bytes, most significant first, begin `b`.
pub open spec fn spec_u64_from_be(b: Seq<u8>) -> u64 {
    (spec_u32_from_be(b) as int * 0x1_0000_0000 + spec_u32_from_be(b.subrange(4, 8)) as int) as u64
}

/// The two's complement bits of `n`.
pub open spec fn spec_i32_bits(n: i32) -> u32 {
    if n >= 0 {
        n as u32
    } else {
        (n + 0x1_0000_0000) as u32
    }
}

/// The number whose two's complement bits are `u`.
pub open spec fn spec_i32_from_bits(u: u32) -> i32 {
    if u < 0x8000_0000 {
        u as i32
    } else {
        (u - 0x1_0000_0000) as i32
    }
}

/// The two's complement bits of `n`.
pub open spec fn spec_i64_bits(n: i64) -> u64 {
    if n >= 0 {
        n as u64
    } else {
        (n + 0x1_0000_0000_0000_0000) as u64
    }
}

/// The number whose two's complement bits are `u`.
pub open spec fn spec_i64_from_bits(u: u64) -> i64 {
    if u < 0x8000_0000_0000_0000 {
        u as i64
    } else {
        (u - 0x1_0000_0000_0000_0000) as i64
    }
}

/// The sixteen bytes of `n`, most significant first.
pub open spec fn spec_u128_be(n: u128) -> Seq<u8> {
    spec_u64_be((n / 0x1_0000_0000_0000_0000) as u64) + spec_u64_be(
        (n % 0x1_0000_0000_0000_0000) as u64,
    )
}

/// `byteorder::BigEndian::write_u32`, into a fresh four-byte buffer: the
/// bytes of `n`, most significant first.
#[verifier::external_body]
fn be_write_u32(n: u32) -> (b: [u8; 4])
    ensures
        b@ == spec_u32_be(n),
{
    let mut b = [0u8; 4];
    BigEndian::write_u32(&mut b, n);
    b
}

/// `byteorder::BigEndian::write_u64`, into a fresh eight-byte buffer: the
/// bytes of `n`, most significant first.
#[verifier::external_body]
pub(crate) fn be_write_u64(n: u64) -> (b: [u8; 8])
    ensures
        b@ == spec_u64_be(n),
{
    let mut b = [0u8; 8];
    BigEndian::write_u64(&mut b, n);
    b
}

/// `byteorder::BigEndian::write_i32`, into a fresh four-byte buffer: the
/// bytes of the two's complement bits of `n`, most significant first.
#[verifier::external_body]
fn be_write_i32(n: i32) -> (b: [u8; 4])
    ensures
        b@ == spec_u32_be(spec_i32_bits(n)),
{
    let mut b = [0u8; 4];
    BigEndian::write_i32(&mut b, n);
    b
}

/// `byteorder::BigEndian::write_i64`, into a fresh eight-byte buffer: the
/// bytes of the two's complement bits of `n`, most significant first.
#[verifier::external_body]
fn be_write_i64(n: i64) -> (b: [u8; 8])
    ensures
        b@ == spec_u64_be(spec_i64_bits(n)),
{
    let mut b = [0u8; 8];
    BigEndian::write_i64(&mut b, n);
    b
}

/// `byteorder::BigEndian::read_u32`: the number whose bytes, most
/// significant first, are the first four of `buf` (it panics on a shorter
/// buffer).
#[verifier::external_body]
fn be_read_u32(buf: &[u8]) -> (n: u32)
    requires
        buf@.len() >= 4,
    ensures
        n == spec_u32_from_be(buf@),
{
    BigEndian::read_u32(buf)
}

/// `byteorder::BigEndian::read_u64`: the number whose bytes, most
/// significant first, are the first eight of `buf` (it panics on a shorter
/// buffer).
#[verifier::external_body]
fn be_read_u64(buf: &[u8]) -> (n: u64)
    requires
        buf@.len() >= 8,
    ensures
        n == spec_u64_from_be(buf@),
{
    BigEndian::read_u64(buf)
}

/// `byteorder::BigEndian::read_i32`: the number whose two's complement bits,
/// most significant first, are the first four bytes of `buf` (it panics on a
/// shorter buffer).
#[verifier::external_body]
fn be_read_i32(buf: &[u8]) -> (n: i32)
    requires
        buf@.len() >= 4,
    ensures
        n == spec_i32_from_bits(spec_u32_from_be(buf@)),
{
    BigEndian::read_i32(buf)
}

/// `byteorder::BigEndian::read_i64`: the number whose two's complement bits,
/// most significant first, are the first eight bytes of `buf` (it panics on
/// a shorter buffer).
#[verifier::external_body]
fn be_read_i64(buf: &[u8]) -> (n: i64)
    requires
        buf@.len() >= 8,
    ensures
        n == spec_i64_from_bits(spec_u64_from_be(buf@)),
{
    BigEndian::read_i64(buf)
}

/// Reading back the bytes of a number gives the number.
pub proof fn lemma_u32_be_roundtrip(n: u32)
    ensures
        spec_u32_be(n).len() == 4,
        spec_u32_from_be(spec_u32_be(n)) == n,
{
    let b = spec_u32_be(n);
    assert((((n / 0x100_0000) as u8) as int) * 0x100_0000 + (((n / 0x1_0000) % 0x100) as u8) as int
        * 0x1_0000 + (((n / 0x100) % 0x100) as u8) as int * 0x100 + ((n % 0x100) as u8) as int
        == n) by (bit_vector);
}

/// Reading back the bytes of a number gives the number.
pub proof fn lemma_u64_be_roundtrip(n: u64)
    ensures
        spec_u64_be(n).len() == 8,
        spec_u64_from_be(spec_u64_be(n)) == n,
{
    let hi = (n / 0x1_0000_0000) as u32;
    let lo = (n % 0x1_0000_0000) as u32;
    lemma_u32_be_roundtrip(hi);
    lemma_u32_be_roundtrip(lo);
    let b = spec_u64_be(n);
    assert(b.subrange(0, 4) =~= spec_u32_be(hi));
    assert(b.subrange(4, 8) =~= spec_u32_be(lo));
    assert(spec_u32_from_be(b) == spec_u32_from_be(b.subrange(0, 4)));
}

/// Two numbers with the same sixteen bytes are the same number.
pub proof fn lemma_u128_be_injective(a: u128, b: u128)
    requires
        spec_u128_be(a) == spec_u128_be(b),
    ensures
        a == b,
{
    let ha = (a / 0x1_0000_0000_0000_0000) as u64;
    let la = (a % 0x1_0000_0000_0000_0000) as u64;
    let hb = (b / 0x1_0000_0000_0000_0000) as u64;
    let lb = (b % 0x1_0000_0000_0000_0000) as u64;
    lemma_u64_be_roundtrip(ha);
    lemma_u64_be_roundtrip(la);
    lemma_u64_be_roundtrip(hb);
    lemma_u64_be_roundtrip(lb);
    assert(spec_u128_be(a).subrange(0, 8) =~= spec_u64_be(ha));
    assert(spec_u128_be(b).subrange(0, 8) =~= spec_u64_be(hb));
    assert(spec_u128_be(a).subrange(8, 16) =~= spec_u64_be(la));
    assert(spec_u128_be(b).subrange(8, 16) =~= spec_u64_be(lb));
    assert(ha == hb);
    assert(la == lb);
    assert(a == ha as int * 0x1_0000_0000_0000_0000 + la as int);
    assert(b == hb as int * 0x1_0000_0000_0000_0000 + lb as int);
}

/// Two's complement bits give back the number.
pub proof fn lemma_i32_bits_roundtrip(n: i32)
    ensures
        spec_i32_from_bits(spec_i32_bits(n)) == n,
{
}

/// Two's complement bits give back the number.
pub proof fn lemma_i64_bits_roundtrip(n: i64)
    ensures
        spec_i64_from_bits(spec_i64_bits(n)) == n,
{
}


// ---------------------------------------------------------------------------
// Reading and writing raw bytes
// ---------------------------------------------------------------------------

/// Appends `bytes` to `dest`.
pub fn append_bytes(dest: &mut Vec<u8>, bytes: &[u8])
    ensures
        final(dest)@ == old(dest)@ + bytes@,
{
    let n = bytes.len();
    for i in 0..n
        invariant
            n == bytes@.len(),
            dest@ == old(dest)@ + bytes@.take(i as int),
    {
        dest.push(bytes[i]);
        assert(bytes@.take(i + 1) =~= bytes@.take(i as int).push(bytes@[i as int]));
        assert(dest@ =~= old(dest)@ + bytes@.take(i + 1));
    }
    assert(bytes@.take(n as int) =~= bytes@);
}

/// `n` zero bytes.
pub open spec fn spec_zeros(n: nat) -> Seq<u8> {
    Seq::new(n, |i: int| 0u8)
}

/// The number of zero bytes that pad `n` bytes to a multiple of four.
pub open spec fn spec_pad_len(n: int) -> int {
    if n % 4 == 0 {
        0
    } else {
        4 - n % 4
    }
}

/// Reading `k` bytes at `pos`: the bytes, or, where fewer are left, an end of
/// data error that leaves the reader at the end.
pub open spec fn spec_read_bytes(data: Seq<u8>, pos: int, k: int) -> Parse<Seq<u8>> {
    if 0 <= pos && pos + k <= data.len() {
        Parse::Done(data.subrange(pos, pos + k), pos + k)
    } else {
        Parse::Fails(XdrError::UnexpectedEof, data.len() as int)
    }
}

impl XdrReader {
    /// Reads the next `k` bytes.
    pub fn read_bytes(&mut self, k: usize) -> (r: Result<Vec<u8>, XdrError>)
        requires
            old(self).wf(),
        ensures
            final(self).wf(),
            final(self).data@ == old(self).data@,
            old(self).pos <= final(self).pos,
            reads_as::<Vec<u8>>(
                spec_read_bytes(old(self).data@, old(self).pos as int, k as int),
                r,
                final(self).pos as int,
            ),
    {
        if k <= self.data.len() - self.pos {
            let out = vstd::slice::slice_to_vec(
                slice_subrange(self.data.as_slice(), self.pos, self.pos + k),
            );
            self.pos = self.pos + k;
            proof {
                crate::byte_seq::lemma_bytes_deep_view(out);
            }
            Ok(out)
        } else {
            self.pos = self.data.len();
            Err(XdrError::UnexpectedEof)
        }
    }
}

// ---------------------------------------------------------------------------
// Integers and booleans
// ---------------------------------------------------------------------------

/// Writing a `u32`.
pub open spec fn spec_u32_emit(n: u32) -> Emit {
    Emit::Done(spec_u32_be(n))
}

/// Reading a `u32`.
pub open spec fn spec_u32_parse(data: Seq<u8>, pos: int) -> Parse<u32> {
    match spec_read_bytes(data, pos, 4) {
        Parse::Done(b, p) => Parse::Done(spec_u32_from_be(b), p),
        Parse::Fails(e, p) => Parse::Fails(e, p),
    }
}

impl XdrSerialize for u32 {
    open spec fn spec_emit(v: u32) -> Emit {
        spec_u32_emit(v)
    }

    fn serialize(&self, dest: &mut Vec<u8>) -> (r: Result<(), XdrError>) {
        let b = be_write_u32(*self);
        append_bytes(dest, &b);
        Ok(())
    }
}

impl XdrDeserialize for u32 {
    open spec fn spec_parse(data: Seq<u8>, pos: int) -> Parse<u32> {
        spec_u32_parse(data, pos)
    }

    fn deserialize(src: &mut XdrReader) -> (r: Result<u32, XdrError>) {
        if src.data.len() - src.pos >= 4 {
            let n = be_read_u32(slice_subrange(src.data.as_slice(), src.pos, src.pos + 4));
            src.pos = src.pos + 4;
            Ok(n)
        } else {
            src.pos = src.data.len();
            Err(XdrError::UnexpectedEof)
        }
    }
}

impl XdrSerialize for i32 {
    open spec fn spec_emit(v: i32) -> Emit {
        Emit::Done(spec_u32_be(spec_i32_bits(v)))
    }

    fn serialize(&self, dest: &mut Vec<u8>) -> (r: Result<(), XdrError>) {
        let b = be_write_i32(*self);
        append_bytes(dest, &b);
        Ok(())
    }
}

impl XdrDeserialize for i32 {
    open spec fn spec_parse(data: Seq<u8>, pos: int) -> Parse<i32> {
        match spec_read_bytes(data, pos, 4) {
            Parse::Done(b, p) => Parse::Done(spec_i32_from_bits(spec_u32_from_be(b)), p),
            Parse::Fails(e, p) => Parse::Fails(e, p),
        }
    }

    fn deserialize(src: &mut XdrReader) -> (r: Result<i32, XdrError>) {
        if src.data.len() - src.pos >= 4 {
            let n = be_read_i32(slice_subrange(src.data.as_slice(), src.pos, src.pos + 4));
            src.pos = src.pos + 4;
            Ok(n)
        } else {
            src.pos = src.data.len();
            Err(XdrError::UnexpectedEof)
        }
    }
}

impl XdrSerialize for u64 {
    open spec fn spec_emit(v: u64) -> Emit {
        Emit::Done(spec_u64_be(v))
    }

    fn serialize(&self, dest: &mut Vec<u8>) -> (r: Result<(), XdrError>) {
        let b = be_write_u64(*self);
        append_bytes(dest, &b);
        Ok(())
    }
}

impl XdrDeserialize for u64 {
    open spec fn spec_parse(data: Seq<u8>, pos: int) -> Parse<u64> {
        match spec_read_bytes(data, pos, 8) {
            Parse::Done(b, p) => Parse::Done(spec_u64_from_be(b), p),
            Parse::Fails(e, p) => Parse::Fails(e, p),
        }
    }

    fn deserialize(src: &mut XdrReader) -> (r: Result<u64, XdrError>) {
        if src.data.len() - src.pos >= 8 {
            let n = be_read_u64(slice_subrange(src.data.as_slice(), src.pos, src.pos + 8));
            src.pos = src.pos + 8;
            Ok(n)
        } else {
            src.pos = src.data.len();
            Err(XdrError::UnexpectedEof)
        }
    }
}

impl XdrSerialize for i64 {
    open spec fn spec_emit(v: i64) -> Emit {
        Emit::Done(spec_u64_be(spec_i64_bits(v)))
    }

    fn serialize(&self, dest: &mut Vec<u8>) -> (r: Result<(), XdrError>) {
        let b = be_write_i64(*self);
        append_bytes(dest, &b);
        Ok(())
    }
}

impl XdrDeserialize for i64 {
    open spec fn spec_parse(data: Seq<u8>, pos: int) -> Parse<i64> {
        match spec_read_bytes(data, pos, 8) {
            Parse::Done(b, p) => Parse::Done(spec_i64_from_bits(spec_u64_from_be(b)), p),
            Parse::Fails(e, p) => Parse::Fails(e, p),
        }
    }

    fn deserialize(src: &mut XdrReader) -> (r: Result<i64, XdrError>) {
        if src.data.len() - src.pos >= 8 {
            let n = be_read_i64(slice_subrange(src.data.as_slice(), src.pos, src.pos + 8));
            src.pos = src.pos + 8;
            Ok(n)
        } else {
            src.pos = src.data.len();
            Err(XdrError::UnexpectedEof)
        }
    }
}

/// The word that a boolean is written as: 1 for true and, as this library
/// writes it, 2 for false.
pub open spec fn spec_bool_word(b: bool) -> u32 {
    if b {
        1
    } else {
        2
    }
}

impl XdrSerialize for bool {
    open spec fn spec_emit(v: bool) -> Emit {
        spec_u32_emit(spec_bool_word(v))
    }

    fn serialize(&self, dest: &mut Vec<u8>) -> (r: Result<(), XdrError>) {
        if *self {
            1u32.serialize(dest)
        } else {
            2u32.serialize(dest)
        }
    }
}

impl XdrDeserialize for bool {
    /// Any non-zero word reads as true.
    open spec fn spec_parse(data: Seq<u8>, pos: int) -> Parse<bool> {
        match spec_u32_parse(data, pos) {
            Parse::Done(n, p) => Parse::Done(n > 0, p),
            Parse::Fails(e, p) => Parse::Fails(e, p),
        }
    }

    fn deserialize(src: &mut XdrReader) -> (r: Result<bool, XdrError>) {
        match u32::deserialize(src) {
            Ok(n) => Ok(n > 0),
            Err(e) => Err(e),
        }
    }
}


// ---------------------------------------------------------------------------
// Fixed-size and variable-size opaque data
// ---------------------------------------------------------------------------


impl<const N: usize> XdrSerialize for [u8; N] {
    /// The bytes, with no length and no padding.
    open spec fn spec_emit(v: Seq<u8>) -> Emit {
        Emit::Done(v)
    }

    fn serialize(&self, dest: &mut Vec<u8>) -> (r: Result<(), XdrError>) {
        proof {
            crate::byte_seq::lemma_byte_array_deep_view(*self);
        }
        append_bytes(dest, self.as_slice());
        Ok(())
    }
}

impl<const N: usize> XdrDeserialize for [u8; N] {
    open spec fn spec_parse(data: Seq<u8>, pos: int) -> Parse<Seq<u8>> {
        spec_read_bytes(data, pos, N as int)
    }

    fn deserialize(src: &mut XdrReader) -> (r: Result<[u8; N], XdrError>) {
        if src.data.len() - src.pos >= N {
            let mut ret = [0u8; N];
            let start = src.pos;
            for i in 0..N
                invariant
                    src.wf(),
                    src.pos == start,
                    start + N <= src.data.len(),
                    forall|j: int| 0 <= j < i ==> ret@[j] == src.data@[start + j],
            {
                ret[i] = src.data[start + i];
            }
            src.pos = start + N;
            proof {
                crate::byte_seq::lemma_byte_array_deep_view(ret);
                assert(ret@ =~= src.data@.subrange(start as int, start + N));
            }
            Ok(ret)
        } else {
            src.pos = src.data.len();
            Err(XdrError::UnexpectedEof)
        }
    }
}

/// Writing variable-size opaque data: its length, the bytes, and zero bytes
/// up to a multiple of four. A length that does not stay below `u32::MAX`
/// panics.
pub open spec fn spec_opaque_emit(v: Seq<u8>) -> Emit {
    if v.len() < u32::MAX {
        spec_u32_emit(v.len() as u32).and_then(Emit::Done(v)).and_then(
            Emit::Done(spec_zeros(spec_pad_len(v.len() as int) as nat)),
        )
    } else {
        Emit::Panics
    }
}

/// Reading variable-size opaque data: a length, that many bytes, and the
/// padding, whose bytes are not looked at.
pub open spec fn spec_opaque_parse(data: Seq<u8>, pos: int) -> Parse<Seq<u8>> {
    match spec_u32_parse(data, pos) {
        Parse::Done(n, p) => match spec_read_bytes(data, p, n as int) {
            Parse::Done(b, q) => match spec_read_bytes(data, q, spec_pad_len(n as int)) {
                Parse::Done(_, e) => Parse::Done(b, e),
                Parse::Fails(e, q2) => Parse::Fails(e, q2),
            },
            Parse::Fails(e, q) => Parse::Fails(e, q),
        },
        Parse::Fails(e, p) => Parse::Fails(e, p),
    }
}

/// Variable-size opaque data read from a buffer is no longer than the
/// buffer.
pub proof fn lemma_opaque_within(data: Seq<u8>, pos: int)
    ensures
        spec_opaque_parse(data, pos) matches Parse::Done(b, _) ==> b.len() <= data.len(),
{
}

/// Appends the zero padding for `n` bytes.
fn write_padding(dest: &mut Vec<u8>, n: u32)
    ensures
        final(dest)@ == old(dest)@ + spec_zeros(spec_pad_len(n as int) as nat),
{
    let tail = n % 4;
    if tail > 0 {
        let pad = 4 - tail;
        let mut i: u32 = 0;
        while i < pad
            invariant
                pad == 4 - n % 4,
                i <= pad,
                dest@ == old(dest)@ + spec_zeros(i as nat),
            decreases pad - i,
        {
            dest.push(0u8);
            i = i + 1;
            assert(dest@ =~= old(dest)@ + spec_zeros(i as nat));
        }
    } else {
        assert(dest@ =~= old(dest)@ + spec_zeros(0));
    }
}

impl XdrSerialize for Vec<u8> {
    open spec fn spec_emit(v: Seq<u8>) -> Emit {
        spec_opaque_emit(v)
    }

    fn serialize(&self, dest: &mut Vec<u8>) -> (r: Result<(), XdrError>) {
        proof {
            crate::byte_seq::lemma_bytes_deep_view(*self);
        }
        let length = self.len() as u32;
        let _ = length.serialize(dest);
        append_bytes(dest, self.as_slice());
        write_padding(dest, length);
        Ok(())
    }
}

impl XdrDeserialize for Vec<u8> {
    open spec fn spec_parse(data: Seq<u8>, pos: int) -> Parse<Seq<u8>> {
        spec_opaque_parse(data, pos)
    }

    fn deserialize(src: &mut XdrReader) -> (r: Result<Vec<u8>, XdrError>) {
        let length = match u32::deserialize(src) {
            Ok(n) => n,
            Err(e) => return Err(e),
        };
        let ret = match src.read_bytes(length as usize) {
            Ok(b) => b,
            Err(e) => return Err(e),
        };
        let tail = length % 4;
        if tail > 0 {
            let pad = 4 - tail;
            match src.read_bytes(pad as usize) {
                Ok(_) => {},
                Err(e) => return Err(e),
            }
        }
        Ok(ret)
    }
}

/// Variable-size opaque data.
pub type XdrOpaque = Vec<u8>;

/// Whether every byte of `bytes` is zero.
fn all_zero(bytes: &Vec<u8>) -> (b: bool)
    ensures
        b == (bytes@ == spec_zeros(bytes@.len())),
{
    let mut k: usize = 0;
    while k < bytes.len()
        invariant
            k <= bytes@.len(),
            forall|j: int| 0 <= j < k ==> bytes@[j] == 0,
        decreases bytes@.len() - k,
    {
        if bytes[k] != 0 {
            assert(bytes@[k as int] != spec_zeros(bytes@.len())[k as int]);
            return false;
        }
        k = k + 1;
    }
    assert(bytes@ =~= spec_zeros(bytes@.len()));
    true
}

/// A byte string of at most `N` bytes.
#[derive(Clone, Debug, PartialOrd, Ord, PartialEq, Eq, Hash)]
pub struct MaxLenBytes<const N: usize>(Vec<u8>);

impl<const N: usize> DeepView for MaxLenBytes<N> {
    type V = Seq<u8>;

    closed spec fn deep_view(&self) -> Seq<u8> {
        self.0@
    }
}

impl<const N: usize> MaxLenBytes<N> {
    /// The bytes; an error where there are more than `N`.
    pub fn new(data: Vec<u8>) -> (r: Result<Self, XdrError>)
        ensures
            data@.len() > N ==> r == Err::<Self, XdrError>(XdrError::Other),
            data@.len() <= N ==> r is Ok && r->Ok_0.deep_view() == data@,
    {
        if data.len() > N {
            return Err(XdrError::Other);
        }
        Ok(Self(data))
    }

    /// No bytes.
    pub fn empty() -> (r: Self)
        ensures
            r.deep_view() == Seq::<u8>::empty(),
    {
        let v: Vec<u8> = Vec::new();
        assert(v@ =~= Seq::<u8>::empty());
        Self(v)
    }

    /// The bytes.
    pub fn as_bytes(&self) -> (b: &[u8])
        ensures
            b@ == self.deep_view(),
    {
        self.0.as_slice()
    }

    /// A copy with the same bytes.
    pub fn duplicate(&self) -> (r: Self)
        ensures
            r.deep_view() == self.deep_view(),
    {
        let mut v: Vec<u8> = Vec::new();
        append_bytes(&mut v, self.0.as_slice());
        Self(v)
    }

    /// Whether the two hold the same bytes.
    pub fn same_bytes(&self, other: &Self) -> (b: bool)
        ensures
            b == (self.deep_view() == other.deep_view()),
    {
        let n = self.0.len();
        if n != other.0.len() {
            return false;
        }
        for i in 0..n
            invariant
                n == self.0@.len(),
                n == other.0@.len(),
                forall|j: int| 0 <= j < i ==> self.0@[j] == other.0@[j],
        {
            if self.0[i] != other.0[i] {
                return false;
            }
        }
        assert(self.0@ =~= other.0@);
        true
    }
}

impl<const N: usize> From<MaxLenBytes<N>> for Vec<u8> {
    fn from(val: MaxLenBytes<N>) -> (v: Vec<u8>) {
        val.0
    }
}

impl<const N: usize> vstd::std_specs::convert::FromSpecImpl<MaxLenBytes<N>> for Vec<u8> {
    open spec fn obeys_from_spec() -> bool {
        false
    }

    open spec fn from_spec(v: MaxLenBytes<N>) -> Vec<u8> {
        arbitrary()
    }
}

/// Writing at most `N` bytes as variable-size opaque data; more than `N`
/// bytes is an error that writes nothing.
pub open spec fn spec_bounded_emit(v: Seq<u8>, max: nat) -> Emit {
    if v.len() > max {
        Emit::Fails(XdrError::Other, Seq::empty())
    } else {
        spec_u32_emit(v.len() as u32).and_then(Emit::Done(v)).and_then(
            Emit::Done(spec_zeros(spec_pad_len((v.len() as u32) as int) as nat)),
        )
    }
}

/// Reading at most `max` bytes of variable-size opaque data: a length over
/// `max` is an error, and so is padding that is not all zero.
pub open spec fn spec_bounded_parse(data: Seq<u8>, pos: int, max: nat) -> Parse<Seq<u8>> {
    match spec_u32_parse(data, pos) {
        Parse::Done(n, p) => if n > max {
            Parse::Fails(XdrError::Other, p)
        } else {
            match spec_read_bytes(data, p, n as int) {
                Parse::Done(b, q) => match spec_read_bytes(data, q, spec_pad_len(n as int)) {
                    Parse::Done(z, e) => if z == spec_zeros(z.len()) {
                        Parse::Done(b, e)
                    } else {
                        Parse::Fails(XdrError::NonZeroPadding, e)
                    },
                    Parse::Fails(e, q2) => Parse::Fails(e, q2),
                },
                Parse::Fails(e, q) => Parse::Fails(e, q),
            }
        },
        Parse::Fails(e, p) => Parse::Fails(e, p),
    }
}

impl<const N: usize> XdrSerialize for MaxLenBytes<N> {
    open spec fn spec_emit(v: Seq<u8>) -> Emit {
        spec_bounded_emit(v, N as nat)
    }

    fn serialize(&self, dest: &mut Vec<u8>) -> (r: Result<(), XdrError>) {
        if self.0.len() > N {
            assert(dest@ =~= old(dest)@ + Seq::<u8>::empty());
            return Err(XdrError::Other);
        }
        let length = self.0.len() as u32;
        let _ = length.serialize(dest);
        append_bytes(dest, self.0.as_slice());
        write_padding(dest, length);
        Ok(())
    }
}

impl<const N: usize> XdrDeserialize for MaxLenBytes<N> {
    open spec fn spec_parse(data: Seq<u8>, pos: int) -> Parse<Seq<u8>> {
        spec_bounded_parse(data, pos, N as nat)
    }

    fn deserialize(src: &mut XdrReader) -> (r: Result<MaxLenBytes<N>, XdrError>) {
        let length = match u32::deserialize(src) {
            Ok(n) => n,
            Err(e) => return Err(e),
        };
        if length as usize > N {
            return Err(XdrError::Other);
        }
        let ret = match src.read_bytes(length as usize) {
            Ok(b) => b,
            Err(e) => return Err(e),
        };
        let tail = length % 4;
        let pad: u32 = if tail > 0 { 4 - tail } else { 0 };
        let zeroes = match src.read_bytes(pad as usize) {
            Ok(z) => z,
            Err(e) => return Err(e),
        };
        proof {
            crate::byte_seq::lemma_bytes_deep_view(ret);
        }
        if !all_zero(&zeroes) {
            return Err(XdrError::NonZeroPadding);
        }
        Ok(MaxLenBytes(ret))
    }
}

// ---------------------------------------------------------------------------
// Sequences
// ---------------------------------------------------------------------------

/// Writing each item of `s` in turn with `f`, stopping at the first that
/// does not succeed.
pub open spec fn spec_seq_emit<V>(s: Seq<V>, f: spec_fn(V) -> Emit) -> Emit
    decreases s.len(),
{
    if s.len() == 0 {
        Emit::Done(Seq::empty())
    } else {
        spec_seq_emit(s.drop_last(), f).and_then(f(s.last()))
    }
}

/// Reading `n` items in turn with `f`, stopping at the first that does not
/// succeed.
pub open spec fn spec_seq_parse<V>(
    data: Seq<u8>,
    pos: int,
    n: nat,
    f: spec_fn(Seq<u8>, int) -> Parse<V>,
) -> Parse<Seq<V>>
    decreases n,
{
    if n == 0 {
        Parse::Done(Seq::empty(), pos)
    } else {
        match spec_seq_parse(data, pos, (n - 1) as nat, f) {
            Parse::Done(vs, p) => match f(data, p) {
                Parse::Done(v, q) => Parse::Done(vs.push(v), q),
                Parse::Fails(e, q) => Parse::Fails(e, q),
            },
            Parse::Fails(e, p) => Parse::Fails(e, p),
        }
    }
}

/// Once writing the first `i` items does not succeed, writing more items
/// changes nothing.
pub proof fn lemma_seq_emit_stops<V>(s: Seq<V>, f: spec_fn(V) -> Emit, i: int)
    requires
        0 <= i <= s.len(),
        !(spec_seq_emit(s.take(i), f) is Done),
    ensures
        spec_seq_emit(s, f) == spec_seq_emit(s.take(i), f),
    decreases s.len() - i,
{
    if i < s.len() {
        assert(s.take(i + 1).drop_last() =~= s.take(i));
        lemma_seq_emit_stops(s, f, i + 1);
    } else {
        assert(s.take(i) =~= s);
    }
}

/// Once reading `k` items does not succeed, reading more items changes
/// nothing.
pub proof fn lemma_seq_parse_stops<V>(
    data: Seq<u8>,
    pos: int,
    k: nat,
    n: nat,
    f: spec_fn(Seq<u8>, int) -> Parse<V>,
)
    requires
        k <= n,
        !(spec_seq_parse(data, pos, k, f) is Done),
    ensures
        spec_seq_parse(data, pos, n, f) == spec_seq_parse(data, pos, k, f),
    decreases n - k,
{
    if k < n {
        lemma_seq_parse_stops(data, pos, k, (n - 1) as nat, f);
    }
}

/// Writing the items of a slice one after another.
pub open spec fn spec_items_emit<T: XdrSerialize>(s: Seq<T::V>) -> Emit {
    spec_seq_emit(s, |v: T::V| T::spec_emit(v))
}

/// Writing a counted sequence: the count (as a `u32`, truncated) and then
/// each item.
pub open spec fn spec_vec_emit<T: XdrSerialize>(s: Seq<T::V>) -> Emit {
    spec_u32_emit(s.len() as u32).and_then(spec_items_emit::<T>(s))
}

/// Reading `n` items one after another.
pub open spec fn spec_items_parse<T: XdrDeserialize>(data: Seq<u8>, pos: int, n: nat) -> Parse<
    Seq<T::V>,
> {
    spec_seq_parse(data, pos, n, |d: Seq<u8>, p: int| T::spec_parse(d, p))
}

/// Reading a counted sequence: a `u32` count and that many items.
pub open spec fn spec_vec_parse<T: XdrDeserialize>(data: Seq<u8>, pos: int) -> Parse<Seq<T::V>> {
    match spec_u32_parse(data, pos) {
        Parse::Done(n, p) => spec_items_parse::<T>(data, p, n as nat),
        Parse::Fails(e, p) => Parse::Fails(e, p),
    }
}

/// Appends each item of `data` in turn, stopping at the first that fails.
fn serialize_items<T: XdrSerialize>(dest: &mut Vec<u8>, data: &[T]) -> (r: Result<(), XdrError>)
    requires
        !(spec_items_emit::<T>(data.deep_view()) is Panics),
    ensures
        writes_as(spec_items_emit::<T>(data.deep_view()), r, old(dest)@, final(dest)@),
{
    let ghost s = data.deep_view();
    let ghost f = |v: T::V| T::spec_emit(v);
    let n = data.len();
    assert(s.take(0) =~= Seq::<T::V>::empty());
    for i in 0..n
        invariant
            n == data@.len(),
            s == data.deep_view(),
            f == (|v: T::V| T::spec_emit(v)),
            !(spec_seq_emit(s, f) is Panics),
            spec_seq_emit(s.take(i as int), f) is Done,
            dest@ == old(dest)@ + spec_seq_emit(s.take(i as int), f)->Done_0,
    {
        let ghost before = dest@;
        let ghost prefix = spec_seq_emit(s.take(i as int), f)->Done_0;
        assert(s.take(i + 1).drop_last() =~= s.take(i as int));
        assert(s.take(i + 1).last() == data@[i as int].deep_view());
        proof {
            if !(spec_seq_emit(s.take(i + 1), f) is Done) {
                lemma_seq_emit_stops(s, f, i + 1);
            }
        }
        let r = data[i].serialize(dest);
        match r {
            Ok(()) => {},
            Err(e) => {
                proof {
                    lemma_seq_emit_stops(s, f, i + 1);
                }
                return Err(e);
            },
        }
    }
    assert(s.take(n as int) =~= s);
    Ok(())
}

/// Appends a counted sequence: the count and then each item. A count past
/// `u32::MAX` is written truncated.
pub fn serialize_vec<T: XdrSerialize>(dest: &mut Vec<u8>, data: &[T]) -> (r: Result<(), XdrError>)
    requires
        !(spec_vec_emit::<T>(data.deep_view()) is Panics),
    ensures
        writes_as(spec_vec_emit::<T>(data.deep_view()), r, old(dest)@, final(dest)@),
{
    let _ = (data.len() as u32).serialize(dest);
    serialize_items(dest, data)
}

/// Reads `n` items one after another, stopping at the first that fails.
fn deserialize_items<T: XdrDeserialize>(src: &mut XdrReader, n: u32) -> (r: Result<Vec<T>, XdrError>)
    requires
        old(src).wf(),
    ensures
        final(src).wf(),
        final(src).data@ == old(src).data@,
        old(src).pos <= final(src).pos,
        reads_as::<Vec<T>>(
            spec_items_parse::<T>(old(src).data@, old(src).pos as int, n as nat),
            r,
            final(src).pos as int,
        ),
{
    let ghost data = src.data@;
    let ghost start = src.pos as int;
    let ghost f = |d: Seq<u8>, p: int| T::spec_parse(d, p);
    let mut ret: Vec<T> = Vec::new();
    assert(ret.deep_view() =~= Seq::<T::V>::empty());
    for i in 0..n
        invariant
            src.wf(),
            src.data@ == data,
            data == old(src).data@,
            start == old(src).pos,
            start <= src.pos,
            f == (|d: Seq<u8>, p: int| T::spec_parse(d, p)),
            spec_seq_parse(data, start, i as nat, f) == Parse::Done(ret.deep_view(), src.pos as int),
    {
        let ghost before = ret.deep_view();
        match T::deserialize(src) {
            Ok(v) => {
                ret.push(v);
                assert(ret.deep_view() =~= before.push(v.deep_view()));
            },
            Err(e) => {
                proof {
                    lemma_seq_parse_stops(data, start, (i + 1) as nat, n as nat, f);
                }
                return Err(e);
            },
        }
    }
    Ok(ret)
}

/// Reads a counted sequence: a `u32` count and that many items.
pub fn deserialize_vec<T: XdrDeserialize>(src: &mut XdrReader) -> (r: Result<Vec<T>, XdrError>)
    requires
        old(src).wf(),
    ensures
        final(src).wf(),
        final(src).data@ == old(src).data@,
        old(src).pos <= final(src).pos,
        reads_as::<Vec<T>>(
            spec_vec_parse::<T>(old(src).data@, old(src).pos as int),
            r,
            final(src).pos as int,
        ),
{
    let length = match u32::deserialize(src) {
        Ok(n) => n,
        Err(e) => return Err(e),
    };
    deserialize_items(src, length)
}


/// Appends each sequence of `data` as a counted sequence, after their
/// count.
pub open spec fn spec_vecs_emit<T: XdrSerialize>(s: Seq<Seq<T::V>>) -> Emit {
    spec_u32_emit(s.len() as u32).and_then(
        spec_seq_emit(s, |vs: Seq<T::V>| spec_vec_emit::<T>(vs)),
    )
}

/// Reading a count and that many counted sequences.
pub open spec fn spec_vecs_parse<T: XdrDeserialize>(data: Seq<u8>, pos: int) -> Parse<
    Seq<Seq<T::V>>,
> {
    match spec_u32_parse(data, pos) {
        Parse::Done(n, p) => spec_seq_parse(
            data,
            p,
            n as nat,
            |d: Seq<u8>, q: int| spec_vec_parse::<T>(d, q),
        ),
        Parse::Fails(e, p) => Parse::Fails(e, p),
    }
}

/// Appends a counted sequence of counted sequences.
pub fn serialize_vec_vec<T: XdrSerialize>(dest: &mut Vec<u8>, data: &[Vec<T>]) -> (r: Result<
    (),
    XdrError,
>)
    requires
        !(spec_vecs_emit::<T>(data.deep_view()) is Panics),
    ensures
        writes_as(spec_vecs_emit::<T>(data.deep_view()), r, old(dest)@, final(dest)@),
{
    let ghost s = data.deep_view();
    let ghost f = |vs: Seq<T::V>| spec_vec_emit::<T>(vs);
    let _ = (data.len() as u32).serialize(dest);
    let ghost start = dest@;
    let n = data.len();
    assert(s.take(0) =~= Seq::<Seq<T::V>>::empty());
    for i in 0..n
        invariant
            n == data@.len(),
            s == data.deep_view(),
            f == (|vs: Seq<T::V>| spec_vec_emit::<T>(vs)),
            start == old(dest)@ + spec_u32_be(n as u32),
            !(spec_seq_emit(s, f) is Panics),
            spec_seq_emit(s.take(i as int), f) is Done,
            dest@ == start + spec_seq_emit(s.take(i as int), f)->Done_0,
    {
        assert(s.take(i + 1).drop_last() =~= s.take(i as int));
        assert(s.take(i + 1).last() == data@[i as int].deep_view());
        let inner = data[i].as_slice();
        proof {
            lemma_slice_deep_view(&data@[i as int], inner);
        }
        proof {
            if !(spec_seq_emit(s.take(i + 1), f) is Done) {
                lemma_seq_emit_stops(s, f, i + 1);
            }
        }
        match serialize_vec(dest, inner) {
            Ok(()) => {},
            Err(e) => {
                proof {
                    lemma_seq_emit_stops(s, f, i + 1);
                }
                return Err(e);
            },
        }
    }
    assert(s.take(n as int) =~= s);
    Ok(())
}

/// Reads a count and that many counted sequences.
pub fn deserialize_vec_vec<T: XdrDeserialize>(src: &mut XdrReader) -> (r: Result<
    Vec<Vec<T>>,
    XdrError,
>)
    requires
        old(src).wf(),
    ensures
        final(src).wf(),
        final(src).data@ == old(src).data@,
        old(src).pos <= final(src).pos,
        reads_as::<Vec<Vec<T>>>(
            spec_vecs_parse::<T>(old(src).data@, old(src).pos as int),
            r,
            final(src).pos as int,
        ),
{
    let n = match u32::deserialize(src) {
        Ok(n) => n,
        Err(e) => return Err(e),
    };
    let ghost data = src.data@;
    let ghost start = src.pos as int;
    let ghost f = |d: Seq<u8>, q: int| spec_vec_parse::<T>(d, q);
    let mut ret: Vec<Vec<T>> = Vec::new();
    assert(ret.deep_view() =~= Seq::<Seq<T::V>>::empty());
    for i in 0..n
        invariant
            src.wf(),
            src.data@ == data,
            data == old(src).data@,
            old(src).pos <= start <= src.pos,
            f == (|d: Seq<u8>, q: int| spec_vec_parse::<T>(d, q)),
            spec_u32_parse(data, old(src).pos as int) == Parse::<u32>::Done(n, start),
            spec_seq_parse(data, start, i as nat, f) == Parse::Done(ret.deep_view(), src.pos as int),
    {
        let ghost before = ret.deep_view();
        match deserialize_vec::<T>(src) {
            Ok(v) => {
                ret.push(v);
                assert(ret.deep_view() =~= before.push(v.deep_view()));
            },
            Err(e) => {
                proof {
                    lemma_seq_parse_stops(data, start, (i + 1) as nat, n as nat, f);
                }
                return Err(e);
            },
        }
    }
    Ok(ret)
}

/// The deep view of a vector's slice is the vector's deep view.
pub proof fn lemma_slice_deep_view<T: DeepView>(v: &Vec<T>, s: &[T])
    requires
        s@ == v@,
    ensures
        s.deep_view() == v.deep_view(),
{
    assert(s.deep_view() =~= v.deep_view());
}

/// Appends a counted sequence held in a vector.
pub fn serialize_vec_of<T: XdrSerialize>(dest: &mut Vec<u8>, data: &Vec<T>) -> (r: Result<
    (),
    XdrError,
>)
    requires
        !(spec_vec_emit::<T>(data.deep_view()) is Panics),
    ensures
        writes_as(spec_vec_emit::<T>(data.deep_view()), r, old(dest)@, final(dest)@),
{
    let items = data.as_slice();
    proof {
        lemma_slice_deep_view(data, items);
    }
    serialize_vec(dest, items)
}

/// Appends a counted sequence of counted sequences held in a vector.
pub fn serialize_vec_vec_of<T: XdrSerialize>(dest: &mut Vec<u8>, data: &Vec<Vec<T>>) -> (r: Result<
    (),
    XdrError,
>)
    requires
        !(spec_vecs_emit::<T>(data.deep_view()) is Panics),
    ensures
        writes_as(spec_vecs_emit::<T>(data.deep_view()), r, old(dest)@, final(dest)@),
{
    let items = data.as_slice();
    proof {
        lemma_slice_deep_view(data, items);
    }
    serialize_vec_vec(dest, items)
}

impl XdrSerialize for Vec<u32> {
    /// A counted sequence of words; a count whose four-fold does not stay
    /// below `u32::MAX` panics.
    open spec fn spec_emit(v: Seq<u32>) -> Emit {
        if v.len() * 4 < u32::MAX {
            spec_vec_emit::<u32>(v)
        } else {
            Emit::Panics
        }
    }

    fn serialize(&self, dest: &mut Vec<u8>) -> (r: Result<(), XdrError>) {
        let items = self.as_slice();
        proof {
            lemma_slice_deep_view(self, items);
        }
        serialize_vec(dest, items)
    }
}

impl XdrDeserialize for Vec<u32> {
    open spec fn spec_parse(data: Seq<u8>, pos: int) -> Parse<Seq<u32>> {
        spec_vec_parse::<u32>(data, pos)
    }

    fn deserialize(src: &mut XdrReader) -> (r: Result<Vec<u32>, XdrError>) {
        deserialize_vec::<u32>(src)
    }
}

impl XdrSerialize for Vec<Vec<u8>> {
    /// A counted sequence of variable-size opaque data.
    open spec fn spec_emit(v: Seq<Seq<u8>>) -> Emit {
        spec_vec_emit::<Vec<u8>>(v)
    }

    fn serialize(&self, dest: &mut Vec<u8>) -> (r: Result<(), XdrError>) {
        let items = self.as_slice();
        proof {
            lemma_slice_deep_view(self, items);
        }
        serialize_vec(dest, items)
    }
}

impl XdrDeserialize for Vec<Vec<u8>> {
    open spec fn spec_parse(data: Seq<u8>, pos: int) -> Parse<Seq<Seq<u8>>> {
        spec_vec_parse::<Vec<u8>>(data, pos)
    }

    fn deserialize(src: &mut XdrReader) -> (r: Result<Vec<Vec<u8>>, XdrError>) {
        deserialize_vec::<Vec<u8>>(src)
    }
}

impl<T: XdrSerialize> XdrSerialize for Option<T> {
    /// A word 1 and the value, or a word 0.
    open spec fn spec_emit(v: Option<T::V>) -> Emit {
        match v {
            Some(x) => spec_u32_emit(1).and_then(T::spec_emit(x)),
            None => spec_u32_emit(0),
        }
    }

    fn serialize(&self, dest: &mut Vec<u8>) -> (r: Result<(), XdrError>) {
        match self {
            Some(val) => {
                let _ = 1u32.serialize(dest);
                val.serialize(dest)
            },
            None => 0u32.serialize(dest),
        }
    }
}

impl<T: XdrDeserialize> XdrDeserialize for Option<T> {
    /// A word over 1 is an error.
    open spec fn spec_parse(data: Seq<u8>, pos: int) -> Parse<Option<T::V>> {
        match spec_u32_parse(data, pos) {
            Parse::Done(n, p) => if n > 1 {
                Parse::Fails(XdrError::Other, p)
            } else if n == 1 {
                match T::spec_parse(data, p) {
                    Parse::Done(v, q) => Parse::Done(Some(v), q),
                    Parse::Fails(e, q) => Parse::Fails(e, q),
                }
            } else {
                Parse::Done(None, p)
            },
            Parse::Fails(e, p) => Parse::Fails(e, p),
        }
    }

    fn deserialize(src: &mut XdrReader) -> (r: Result<Option<T>, XdrError>) {
        let length = match u32::deserialize(src) {
            Ok(n) => n,
            Err(e) => return Err(e),
        };
        if length > 1 {
            return Err(XdrError::Other);
        }
        if length == 1 {
            match T::deserialize(src) {
                Ok(v) => Ok(Some(v)),
                Err(e) => Err(e),
            }
        } else {
            Ok(None)
        }
    }
}

/// A list written as a chain of optional items: each item after a true
/// boolean, and a false boolean at the end.
#[derive(Debug)]
pub struct OptionalData<T>(Vec<T>);

impl<T: DeepView> DeepView for OptionalData<T> {
    type V = Seq<T::V>;

    closed spec fn deep_view(&self) -> Seq<T::V> {
        self.0.deep_view()
    }
}

impl<T: DeepView> OptionalData<T> {
    /// The list of `items`.
    pub fn new(items: Vec<T>) -> (r: Self)
        ensures
            r.deep_view() == items.deep_view(),
    {
        OptionalData(items)
    }

    /// The items.
    pub fn items(&self) -> (s: &[T])
        ensures
            s.deep_view() == self.deep_view(),
    {
        let items = self.0.as_slice();
        proof {
            lemma_slice_deep_view(&self.0, items);
        }
        items
    }
}

/// Writing an item of a chain: a true boolean, then the item.
pub open spec fn spec_link_emit<T: XdrSerialize>(v: T::V) -> Emit {
    spec_u32_emit(spec_bool_word(true)).and_then(T::spec_emit(v))
}

/// Writing a chain: each item after a true boolean, then a false boolean.
pub open spec fn spec_chain_emit<T: XdrSerialize>(s: Seq<T::V>) -> Emit {
    spec_seq_emit(s, |v: T::V| spec_link_emit::<T>(v)).and_then(
        spec_u32_emit(spec_bool_word(false)),
    )
}

/// Reading a chain: booleans read until one is false, each true one
/// followed by an item.
pub open spec fn spec_chain_parse<T: XdrDeserialize>(data: Seq<u8>, pos: int) -> Parse<Seq<T::V>>
    decreases data.len() - pos,
{
    match <bool as XdrDeserialize>::spec_parse(data, pos) {
        Parse::Done(more, p) => if !more {
            Parse::Done(Seq::empty(), p)
        } else {
            match T::spec_parse(data, p) {
                Parse::Done(v, q) => if pos < q <= data.len() {
                    match spec_chain_parse::<T>(data, q) {
                        Parse::Done(vs, e) => Parse::Done(seq![v] + vs, e),
                        Parse::Fails(e, r) => Parse::Fails(e, r),
                    }
                } else {
                    Parse::Fails(XdrError::Other, q)
                },
                Parse::Fails(e, q) => Parse::Fails(e, q),
            }
        },
        Parse::Fails(e, p) => Parse::Fails(e, p),
    }
}

/// `vs` put in front of the items that `p` gives back.
pub open spec fn spec_prepend<V>(vs: Seq<V>, p: Parse<Seq<V>>) -> Parse<Seq<V>> {
    match p {
        Parse::Done(ws, e) => Parse::Done(vs + ws, e),
        _ => p,
    }
}

impl<T: XdrSerialize> XdrSerialize for OptionalData<T> {
    open spec fn spec_emit(v: Seq<T::V>) -> Emit {
        spec_chain_emit::<T>(v)
    }

    fn serialize(&self, dest: &mut Vec<u8>) -> (r: Result<(), XdrError>) {
        let ghost s = self.deep_view();
        let ghost f = |v: T::V| spec_link_emit::<T>(v);
        let items = self.0.as_slice();
        proof {
            lemma_slice_deep_view(&self.0, items);
        }
        let n = items.len();
        assert(s.take(0) =~= Seq::<T::V>::empty());
        for i in 0..n
            invariant
                n == items@.len(),
                s == items.deep_view(),
                s == self.deep_view(),
                f == (|v: T::V| spec_link_emit::<T>(v)),
                !(spec_seq_emit(s, f).and_then(spec_u32_emit(2)) is Panics),
                spec_seq_emit(s.take(i as int), f) is Done,
                dest@ == old(dest)@ + spec_seq_emit(s.take(i as int), f)->Done_0,
        {
            assert(s.take(i + 1).drop_last() =~= s.take(i as int));
            assert(s.take(i + 1).last() == items@[i as int].deep_view());
            proof {
                if !(spec_seq_emit(s.take(i + 1), f) is Done) {
                    lemma_seq_emit_stops(s, f, i + 1);
                }
            }
            let ghost mid = dest@;
            let _ = true.serialize(dest);
            let ghost after_flag = dest@;
            match items[i].serialize(dest) {
                Ok(()) => {},
                Err(e) => {
                    proof {
                        lemma_seq_emit_stops(s, f, i + 1);
                        let part = T::spec_emit(items@[i as int].deep_view())->Fails_1;
                        assert(f(s.take(i + 1).last()) == Emit::Fails(e, spec_u32_be(1) + part));
                    }
                    return Err(e);
                },
            }
        }
        assert(s.take(n as int) =~= s);
        false.serialize(dest)
    }
}

impl<T: XdrDeserialize> XdrDeserialize for OptionalData<T> {
    open spec fn spec_parse(data: Seq<u8>, pos: int) -> Parse<Seq<T::V>> {
        spec_chain_parse::<T>(data, pos)
    }

    fn deserialize(src: &mut XdrReader) -> (r: Result<OptionalData<T>, XdrError>) {
        let ghost data = src.data@;
        let ghost start = src.pos as int;
        let mut ret: Vec<T> = Vec::new();
        assert(ret.deep_view() =~= Seq::<T::V>::empty());
        loop
            invariant
                src.wf(),
                src.data@ == data,
                data == old(src).data@,
                start == old(src).pos,
                start <= src.pos,
                spec_chain_parse::<T>(data, start) == spec_prepend(
                    ret.deep_view(),
                    spec_chain_parse::<T>(data, src.pos as int),
                ),
            decreases data.len() - src.pos,
        {
            let ghost here = src.pos as int;
            let ghost before = ret.deep_view();
            let more = match bool::deserialize(src) {
                Ok(b) => b,
                Err(e) => return Err(e),
            };
            if !more {
                assert(before + Seq::<T::V>::empty() =~= before);
                return Ok(OptionalData(ret));
            }
            let v = match T::deserialize(src) {
                Ok(v) => v,
                Err(e) => return Err(e),
            };
            ret.push(v);
            assert(ret.deep_view() =~= before.push(v.deep_view()));
            proof {
                let rest = spec_chain_parse::<T>(data, src.pos as int);
                if let Parse::Done(vs, e) = rest {
                    assert(before + (seq![v.deep_view()] + vs) =~= ret.deep_view() + vs);
                }
            }
        }
    }
}


// ---------------------------------------------------------------------------
// Reading back what was written
// ---------------------------------------------------------------------------

/// The bytes `b` sit in `data` from `pos` on.
pub open spec fn spec_at(data: Seq<u8>, pos: int, b: Seq<u8>) -> bool {
    0 <= pos && pos + b.len() <= data.len() && data.subrange(pos, pos + b.len()) == b
}

/// Writing a value with deep view `v` succeeds, and reading its bytes,
/// wherever they sit, gives back `v` and ends just past them.
pub open spec fn spec_roundtrips<T: XdrSerialize + XdrDeserialize>(v: <T as DeepView>::V) -> bool {
    &&& T::spec_emit(v) is Done
    &&& forall|data: Seq<u8>, pos: int|
        #![trigger T::spec_parse(data, pos)]
        spec_at(data, pos, T::spec_emit(v)->Done_0) ==> T::spec_parse(data, pos) == Parse::Done(
            v,
            pos + T::spec_emit(v)->Done_0.len(),
        )
}

/// Where two pieces sit one after the other, each sits in its place.
pub proof fn lemma_at_split(data: Seq<u8>, pos: int, a: Seq<u8>, b: Seq<u8>)
    requires
        spec_at(data, pos, a + b),
    ensures
        spec_at(data, pos, a),
        spec_at(data, pos + a.len(), b),
{
    assert(data.subrange(pos, pos + a.len()) =~= (a + b).subrange(0, a.len() as int));
    assert((a + b).subrange(0, a.len() as int) =~= a);
    assert(data.subrange(pos + a.len(), pos + a.len() + b.len()) =~= (a + b).subrange(
        a.len() as int,
        (a.len() + b.len()) as int,
    ));
    assert((a + b).subrange(a.len() as int, (a.len() + b.len()) as int) =~= b);
}

/// Reading bytes where they sit gives them back.
pub proof fn lemma_read_bytes_at(data: Seq<u8>, pos: int, b: Seq<u8>)
    requires
        spec_at(data, pos, b),
    ensures
        spec_read_bytes(data, pos, b.len() as int) == Parse::Done(b, pos + b.len()),
{
}

/// A `u32` reads back as itself.
pub proof fn lemma_u32_roundtrips(n: u32)
    ensures
        spec_roundtrips::<u32>(n),
{
    lemma_u32_be_roundtrip(n);
}

/// An `i32` reads back as itself.
pub proof fn lemma_i32_roundtrips(n: i32)
    ensures
        spec_roundtrips::<i32>(n),
{
    lemma_u32_be_roundtrip(spec_i32_bits(n));
    lemma_i32_bits_roundtrip(n);
}

/// A `u64` reads back as itself.
pub proof fn lemma_u64_roundtrips(n: u64)
    ensures
        spec_roundtrips::<u64>(n),
{
    lemma_u64_be_roundtrip(n);
}

/// An `i64` reads back as itself.
pub proof fn lemma_i64_roundtrips(n: i64)
    ensures
        spec_roundtrips::<i64>(n),
{
    lemma_u64_be_roundtrip(spec_i64_bits(n));
    lemma_i64_bits_roundtrip(n);
}

/// Every boolean reads back as true: true survives the round trip, false
/// (written as 2) does not.
pub proof fn lemma_bool_roundtrips(b: bool)
    ensures
        <bool as XdrSerialize>::spec_emit(b) == Emit::Done(spec_u32_be(spec_bool_word(b))),
        forall|data: Seq<u8>, pos: int|
            spec_at(data, pos, spec_u32_be(spec_bool_word(b))) ==> #[trigger] <bool as XdrDeserialize>::spec_parse(data, pos)
                == Parse::Done(true, pos + 4),
        spec_roundtrips::<bool>(b) <==> b,
{
    lemma_u32_be_roundtrip(spec_bool_word(b));
    let bytes = spec_u32_be(spec_bool_word(b));
    assert(bytes.subrange(0, 4) =~= bytes);
    assert(spec_at(bytes, 0, bytes));
    assert(<bool as XdrDeserialize>::spec_parse(bytes, 0) == Parse::Done(true, 4));
}

/// Variable-size opaque data reads back as itself.
pub proof fn lemma_opaque_roundtrips(v: Seq<u8>)
    requires
        v.len() < u32::MAX,
    ensures
        spec_roundtrips::<Vec<u8>>(v),
{
    let n = v.len() as u32;
    let z = spec_zeros(spec_pad_len(v.len() as int) as nat);
    lemma_u32_be_roundtrip(n);
    assert forall|data: Seq<u8>, pos: int|
        spec_at(data, pos, <Vec<u8> as XdrSerialize>::spec_emit(v)->Done_0) implies #[trigger] <Vec<
        u8,
    > as XdrDeserialize>::spec_parse(data, pos) == Parse::Done(
        v,
        pos + <Vec<u8> as XdrSerialize>::spec_emit(v)->Done_0.len(),
    ) by {
        lemma_at_split(data, pos, spec_u32_be(n) + v, z);
        lemma_at_split(data, pos, spec_u32_be(n), v);
    }
}

/// At most `N` bytes read back as themselves.
pub proof fn lemma_bounded_roundtrips<const N: usize>(v: Seq<u8>)
    requires
        v.len() <= N,
        N < u32::MAX,
    ensures
        spec_roundtrips::<MaxLenBytes<N>>(v),
{
    let n = v.len() as u32;
    let z = spec_zeros(spec_pad_len(v.len() as int) as nat);
    lemma_u32_be_roundtrip(n);
    assert forall|data: Seq<u8>, pos: int|
        spec_at(
            data,
            pos,
            <MaxLenBytes<N> as XdrSerialize>::spec_emit(v)->Done_0,
        ) implies #[trigger] <MaxLenBytes<N> as XdrDeserialize>::spec_parse(data, pos)
        == Parse::Done(v, pos + <MaxLenBytes<N> as XdrSerialize>::spec_emit(v)->Done_0.len()) by {
        lemma_at_split(data, pos, spec_u32_be(n) + v, z);
        lemma_at_split(data, pos, spec_u32_be(n), v);
        assert(z == spec_zeros(z.len()));
    }
}

/// Items that each read back as themselves, written one after another, read
/// back as the same items.
pub proof fn lemma_items_roundtrip<T: XdrSerialize + XdrDeserialize>(s: Seq<<T as DeepView>::V>)
    requires
        forall|i: int| 0 <= i < s.len() ==> spec_roundtrips::<T>(#[trigger] s[i]),
    ensures
        spec_items_emit::<T>(s) is Done,
        forall|data: Seq<u8>, pos: int|
            spec_at(data, pos, spec_items_emit::<T>(s)->Done_0) ==> #[trigger] spec_items_parse::<T>(
                data,
                pos,
                s.len(),
            ) == Parse::Done(s, pos + spec_items_emit::<T>(s)->Done_0.len()),
    decreases s.len(),
{
    if s.len() > 0 {
        let init = s.drop_last();
        lemma_items_roundtrip::<T>(init);
        assert(spec_roundtrips::<T>(s[s.len() - 1]));
        let a = spec_items_emit::<T>(init)->Done_0;
        let b = T::spec_emit(s.last())->Done_0;
        assert forall|data: Seq<u8>, pos: int|
            spec_at(data, pos, spec_items_emit::<T>(s)->Done_0) implies #[trigger] spec_items_parse::<T>(
            data,
            pos,
            s.len(),
        ) == Parse::Done(s, pos + spec_items_emit::<T>(s)->Done_0.len()) by {
            lemma_at_split(data, pos, a, b);
            assert(spec_items_parse::<T>(data, pos, init.len()) == Parse::Done(init, pos + a.len()));
            assert(init.push(s.last()) =~= s);
        }
    } else {
        assert forall|data: Seq<u8>, pos: int|
            spec_at(data, pos, spec_items_emit::<T>(s)->Done_0) implies #[trigger] spec_items_parse::<T>(
            data,
            pos,
            s.len(),
        ) == Parse::Done(s, pos + spec_items_emit::<T>(s)->Done_0.len()) by {
            assert(s =~= Seq::<<T as DeepView>::V>::empty());
        }
    }
}

/// A counted sequence of items that each read back as themselves reads
/// back as the same items, as long as the count fits in a `u32`.
pub proof fn lemma_vec_roundtrips<T: XdrSerialize + XdrDeserialize>(s: Seq<<T as DeepView>::V>)
    requires
        s.len() <= u32::MAX,
        forall|i: int| 0 <= i < s.len() ==> spec_roundtrips::<T>(#[trigger] s[i]),
    ensures
        spec_vec_roundtrips::<T>(s),
{
    lemma_items_roundtrip::<T>(s);
    let n = s.len() as u32;
    lemma_u32_be_roundtrip(n);
    let a = spec_u32_be(n);
    let b = spec_items_emit::<T>(s)->Done_0;
    assert forall|data: Seq<u8>, pos: int|
        spec_at(data, pos, spec_vec_emit::<T>(s)->Done_0) implies #[trigger] spec_vec_parse::<T>(
        data,
        pos,
    ) == Parse::Done(s, pos + spec_vec_emit::<T>(s)->Done_0.len()) by {
        lemma_at_split(data, pos, a, b);
        assert(spec_items_parse::<T>(data, pos + 4, s.len()) == Parse::Done(s, pos + 4 + b.len()));
    }
}

/// Writing the counted sequence `s` succeeds, and reading its bytes,
/// wherever they sit, gives back `s` and ends just past them.
pub open spec fn spec_vec_roundtrips<T: XdrSerialize + XdrDeserialize>(s: Seq<<T as DeepView>::V>) -> bool {
    &&& spec_vec_emit::<T>(s) is Done
    &&& forall|data: Seq<u8>, pos: int|
        #![trigger spec_vec_parse::<T>(data, pos)]
        spec_at(data, pos, spec_vec_emit::<T>(s)->Done_0) ==> spec_vec_parse::<T>(data, pos)
            == Parse::Done(s, pos + spec_vec_emit::<T>(s)->Done_0.len())
}

/// Writing the counted sequence of counted sequences `s` succeeds, and
/// reading its bytes, wherever they sit, gives back `s` and ends just past
/// them.
pub open spec fn spec_vecs_roundtrips<T: XdrSerialize + XdrDeserialize>(s: Seq<Seq<<T as DeepView>::V>>) -> bool {
    &&& spec_vecs_emit::<T>(s) is Done
    &&& forall|data: Seq<u8>, pos: int|
        #![trigger spec_vecs_parse::<T>(data, pos)]
        spec_at(data, pos, spec_vecs_emit::<T>(s)->Done_0) ==> spec_vecs_parse::<T>(data, pos)
            == Parse::Done(s, pos + spec_vecs_emit::<T>(s)->Done_0.len())
}

/// A fixed-size array of bytes reads back as itself.
pub proof fn lemma_array_roundtrips<const N: usize>(v: Seq<u8>)
    requires
        v.len() == N,
    ensures
        spec_roundtrips::<[u8; N]>(v),
{
}

/// Writing counted sequences one after another.
pub open spec fn spec_vec_items_emit<T: XdrSerialize>(s: Seq<Seq<T::V>>) -> Emit {
    spec_seq_emit(s, |vs: Seq<T::V>| spec_vec_emit::<T>(vs))
}

/// Reading `n` counted sequences one after another.
pub open spec fn spec_vec_items_parse<T: XdrDeserialize>(data: Seq<u8>, pos: int, n: nat) -> Parse<
    Seq<Seq<T::V>>,
> {
    spec_seq_parse(data, pos, n, |d: Seq<u8>, q: int| spec_vec_parse::<T>(d, q))
}

/// Counted sequences that each read back as themselves, written one after
/// another, read back as the same sequences.
proof fn lemma_vec_items_roundtrip<T: XdrSerialize + XdrDeserialize>(
    s: Seq<Seq<<T as DeepView>::V>>,
)
    requires
        forall|i: int| 0 <= i < s.len() ==> spec_vec_roundtrips::<T>(#[trigger] s[i]),
    ensures
        spec_vec_items_emit::<T>(s) is Done,
        forall|data: Seq<u8>, pos: int|
            spec_at(data, pos, spec_vec_items_emit::<T>(s)->Done_0)
                ==> #[trigger] spec_vec_items_parse::<T>(data, pos, s.len()) == Parse::Done(
                s,
                pos + spec_vec_items_emit::<T>(s)->Done_0.len(),
            ),
    decreases s.len(),
{
    if s.len() > 0 {
        let init = s.drop_last();
        lemma_vec_items_roundtrip::<T>(init);
        assert(spec_vec_roundtrips::<T>(s[s.len() - 1]));
        let a = spec_vec_items_emit::<T>(init)->Done_0;
        let b = spec_vec_emit::<T>(s.last())->Done_0;
        assert forall|data: Seq<u8>, pos: int|
            spec_at(data, pos, spec_vec_items_emit::<T>(s)->Done_0) implies #[trigger] spec_vec_items_parse::<T>(
            data,
            pos,
            s.len(),
        ) == Parse::Done(s, pos + spec_vec_items_emit::<T>(s)->Done_0.len()) by {
            lemma_at_split(data, pos, a, b);
            assert(spec_vec_items_parse::<T>(data, pos, init.len()) == Parse::Done(init, pos + a.len()));
            assert(init.push(s.last()) =~= s);
        }
    } else {
        assert forall|data: Seq<u8>, pos: int|
            spec_at(data, pos, spec_vec_items_emit::<T>(s)->Done_0) implies #[trigger] spec_vec_items_parse::<T>(
            data,
            pos,
            s.len(),
        ) == Parse::Done(s, pos + spec_vec_items_emit::<T>(s)->Done_0.len()) by {
            assert(s =~= Seq::<Seq<<T as DeepView>::V>>::empty());
        }
    }
}

/// A counted sequence of counted sequences that each read back as
/// themselves reads back as itself, as long as its count fits in a `u32`.
pub proof fn lemma_vecs_roundtrips<T: XdrSerialize + XdrDeserialize>(
    s: Seq<Seq<<T as DeepView>::V>>,
)
    requires
        s.len() <= u32::MAX,
        forall|i: int| 0 <= i < s.len() ==> spec_vec_roundtrips::<T>(#[trigger] s[i]),
    ensures
        spec_vecs_roundtrips::<T>(s),
{
    lemma_vec_items_roundtrip::<T>(s);
    let n = s.len() as u32;
    lemma_u32_be_roundtrip(n);
    let a = spec_u32_be(n);
    let b = spec_vec_items_emit::<T>(s)->Done_0;
    assert forall|data: Seq<u8>, pos: int|
        spec_at(data, pos, spec_vecs_emit::<T>(s)->Done_0) implies #[trigger] spec_vecs_parse::<T>(
        data,
        pos,
    ) == Parse::Done(s, pos + spec_vecs_emit::<T>(s)->Done_0.len()) by {
        lemma_at_split(data, pos, a, b);
        assert(spec_vec_items_parse::<T>(data, pos + 4, s.len()) == Parse::Done(s, pos + 4 + b.len()));
    }
}

/// A path of components that each stay below `u32::MAX` bytes reads back
/// as itself.
pub proof fn lemma_path_roundtrips(s: Seq<Seq<u8>>)
    requires
        s.len() <= u32::MAX,
        forall|i: int| 0 <= i < s.len() ==> (#[trigger] s[i]).len() < u32::MAX,
    ensures
        spec_roundtrips::<Vec<Vec<u8>>>(s),
{
    assert forall|i: int| 0 <= i < s.len() implies spec_roundtrips::<Vec<u8>>(#[trigger] s[i]) by {
        lemma_opaque_roundtrips(s[i]);
    }
    lemma_vec_roundtrips::<Vec<u8>>(s);
}

/// A sequence of words reads back as itself.
pub proof fn lemma_words_roundtrip(s: Seq<u32>)
    requires
        s.len() * 4 < u32::MAX,
    ensures
        spec_roundtrips::<Vec<u32>>(s),
{
    assert forall|i: int| 0 <= i < s.len() implies spec_roundtrips::<u32>(#[trigger] s[i]) by {
        lemma_u32_roundtrips(s[i]);
    }
    lemma_vec_roundtrips::<u32>(s);
}

/// An optional value reads back as itself when the value inside does.
pub proof fn lemma_option_roundtrips<T: XdrSerialize + XdrDeserialize>(o: Option<<T as DeepView>::V>)
    requires
        o matches Some(v) ==> spec_roundtrips::<T>(v),
    ensures
        spec_roundtrips::<Option<T>>(o),
{
    match o {
        Some(v) => {
            lemma_u32_be_roundtrip(1);
            let b = T::spec_emit(v)->Done_0;
            assert forall|data: Seq<u8>, pos: int|
                spec_at(
                    data,
                    pos,
                    <Option<T> as XdrSerialize>::spec_emit(o)->Done_0,
                ) implies #[trigger] <Option<T> as XdrDeserialize>::spec_parse(data, pos)
                == Parse::Done(o, pos + <Option<T> as XdrSerialize>::spec_emit(o)->Done_0.len()) by {
                lemma_at_split(data, pos, spec_u32_be(1), b);
            }
        },
        None => {
            lemma_u32_be_roundtrip(0);
        },
    }
}

/// Reading `n` words from `p` on either reads them all, just past them and
/// within the data, or stops because the data ends.
proof fn lemma_words_parse(data: Seq<u8>, p: int, n: nat)
    requires
        0 <= p <= data.len(),
    ensures
        match spec_items_parse::<u32>(data, p, n) {
            Parse::Done(_, q) => q == p + 4 * n && q <= data.len(),
            Parse::Fails(e, _) => e == XdrError::UnexpectedEof,
        },
    decreases n,
{
    let f = |d: Seq<u8>, q: int| <u32 as XdrDeserialize>::spec_parse(d, q);
    assert(spec_items_parse::<u32>(data, p, n) == spec_seq_parse(data, p, n, f));
    if n > 0 {
        lemma_words_parse(data, p, (n - 1) as nat);
        assert(spec_items_parse::<u32>(data, p, (n - 1) as nat) == spec_seq_parse(
            data,
            p,
            (n - 1) as nat,
            f,
        ));
        if let Parse::Done(vs, q) = spec_seq_parse(data, p, (n - 1) as nat, f) {
            assert(f(data, q) == spec_u32_parse(data, q));
        }
    }
}

/// A counted sequence cut short fails: where fewer than four bytes are left
/// for its count, and, for a sequence of words, where fewer bytes are left
/// than its count asks for, reading it fails because the data ends.
pub proof fn lemma_vec_cut_short<T: XdrDeserialize>(data: Seq<u8>, pos: int)
    requires
        0 <= pos,
    ensures
        pos + 4 > data.len() ==> (spec_vec_parse::<T>(data, pos) matches Parse::Fails(e, _) && e
            == XdrError::UnexpectedEof),
        (spec_u32_parse(data, pos) matches Parse::Done(n, p) && p + 4 * n > data.len())
            ==> (spec_vec_parse::<u32>(data, pos) matches Parse::Fails(e, _) && e
            == XdrError::UnexpectedEof),
{
    if let Parse::Done(n, p) = spec_u32_parse(data, pos) {
        lemma_words_parse(data, p, n as nat);
    }
}

} // verus!
