//! Little-endian integers, and the buffer primitives that every record of the
//! kernel interface is read and written with.
//!
//! The byte order is fixed to little-endian, which is the host order on every
//! platform that this library supports. The conversion between an integer and
//! its bytes is `zerocopy`'s; what is done with the bytes is verified here.
//!
//! Writing is stated with [`splice`]: a write replaces a stretch of the buffer
//! and leaves the rest alone. A [`Cursor`] writes fields one behind the other
//! and keeps account of what they add up to.
use vstd::prelude::*;
use zerocopy::byteorder::{LittleEndian, U16, U32, U64};

verus! {

/// `buf` with the bytes from `at` on replaced by `data`: the bytes before
/// `at`, then `data`, then what `buf` holds behind them.
///
/// The definition is kept out of sight where it is not asked for, to keep
/// proofs about long records cheap: `reveal(splice)` shows it, and
/// [`lemma_splice_parts`] says what it amounts to.
#[verifier::opaque]
pub open spec fn splice(buf: Seq<u8>, at: int, data: Seq<u8>) -> Seq<u8> {
    buf.subrange(0, at) + data + buf.subrange(at + data.len(), buf.len() as int)
}

/// A splice keeps the length, holds `data` at `at`, and leaves the rest alone.
pub proof fn lemma_splice_parts(buf: Seq<u8>, at: int, data: Seq<u8>)
    requires
        0 <= at,
        at + data.len() <= buf.len(),
    ensures
        splice(buf, at, data).len() == buf.len(),
        splice(buf, at, data).subrange(at, at + data.len()) == data,
        splice(buf, at, data).subrange(0, at) == buf.subrange(0, at),
        splice(buf, at, data).subrange(at + data.len(), buf.len() as int) == buf.subrange(
            at + data.len(),
            buf.len() as int,
        ),
{
    reveal(splice);
    let s = splice(buf, at, data);
    assert(s.subrange(at, at + data.len()) =~= data);
    assert(s.subrange(0, at) =~= buf.subrange(0, at));
    assert(s.subrange(at + data.len(), buf.len() as int) =~= buf.subrange(
        at + data.len(),
        buf.len() as int,
    ));
}

/// Writing `data` directly behind `acc` is the same as writing `acc + data`.
pub proof fn lemma_splice_chain(buf: Seq<u8>, at: int, acc: Seq<u8>, p: int, data: Seq<u8>)
    requires
        0 <= at,
        p == at + acc.len(),
        p + data.len() <= buf.len(),
    ensures
        splice(splice(buf, at, acc), p, data) == splice(buf, at, acc + data),
{
    reveal(splice);
    assert(splice(splice(buf, at, acc), p, data) =~= splice(buf, at, acc + data));
}

/// Writing at the start of the two parts of a buffer, `a` into the first and
/// `d` into the second, is writing `a + d` at the start of the whole, where
/// `a` fills the first part.
pub proof fn lemma_splice_two_parts(buf: Seq<u8>, mid: int, a: Seq<u8>, d: Seq<u8>)
    requires
        0 <= mid <= buf.len(),
        a.len() == mid,
        mid + d.len() <= buf.len(),
    ensures
        splice(buf.subrange(0, mid), 0, a) + splice(buf.subrange(mid, buf.len() as int), 0, d)
            == splice(buf, 0, a + d),
{
    reveal(splice);
    assert(splice(buf.subrange(0, mid), 0, a) + splice(buf.subrange(mid, buf.len() as int), 0, d)
        =~= splice(buf, 0, a + d));
}

/// Writing nothing changes nothing.
pub proof fn lemma_splice_empty(buf: Seq<u8>, at: int)
    requires
        0 <= at <= buf.len(),
    ensures
        splice(buf, at, Seq::<u8>::empty()) == buf,
{
    reveal(splice);
    assert(splice(buf, at, Seq::<u8>::empty()) =~= buf);
}

/// `n` zero bytes.
pub open spec fn zeros(n: nat) -> Seq<u8> {
    Seq::new(n, |i: int| 0u8)
}

/// The number of bytes, as far as a `u64` can hold it.
pub open spec fn saturated(n: nat) -> u64 {
    if n <= u64::MAX {
        n as u64
    } else {
        u64::MAX
    }
}

/// The two bytes of `x`, least significant first. `reveal(le_u16)` shows the
/// definition.
#[verifier::opaque]
pub open spec fn le_u16(x: u16) -> Seq<u8> {
    seq![(x % 256) as u8, (x / 256) as u8]
}

/// The four bytes of `x`, least significant first. `reveal(le_u32)` shows the
/// definition.
#[verifier::opaque]
pub open spec fn le_u32(x: u32) -> Seq<u8> {
    seq![
        (x % 256) as u8,
        (x / 0x100 % 256) as u8,
        (x / 0x1_0000 % 256) as u8,
        (x / 0x100_0000) as u8,
    ]
}

/// The eight bytes of `x`, least significant first. `reveal(le_u64)` shows
/// the definition.
#[verifier::opaque]
pub open spec fn le_u64(x: u64) -> Seq<u8> {
    seq![
        (x % 256) as u8,
        (x / 0x100 % 256) as u8,
        (x / 0x1_0000 % 256) as u8,
        (x / 0x100_0000 % 256) as u8,
        (x / 0x1_0000_0000 % 256) as u8,
        (x / 0x100_0000_0000 % 256) as u8,
        (x / 0x1_0000_0000_0000 % 256) as u8,
        (x / 0x100_0000_0000_0000) as u8,
    ]
}

/// The two's complement bit pattern of `x`.
pub open spec fn i32_bits(x: i32) -> u32 {
    if x >= 0 {
        x as u32
    } else {
        (x + 0x1_0000_0000) as u32
    }
}

/// The two's complement bit pattern of `x`.
pub open spec fn i64_bits(x: i64) -> u64 {
    if x >= 0 {
        x as u64
    } else {
        (x + 0x1_0000_0000_0000_0000) as u64
    }
}

/// The signed integer whose bit pattern is `u`.
pub open spec fn i32_of_bits(u: u32) -> i32 {
    if u < 0x8000_0000 {
        u as i32
    } else {
        (u - 0x1_0000_0000) as i32
    }
}

/// The signed integer whose bit pattern is `u`.
pub open spec fn i64_of_bits(u: u64) -> i64 {
    if u < 0x8000_0000_0000_0000 {
        u as i64
    } else {
        (u - 0x1_0000_0000_0000_0000) as i64
    }
}

/// The four bytes of `x` in two's complement, least significant first.
pub open spec fn le_i32(x: i32) -> Seq<u8> {
    le_u32(i32_bits(x))
}

/// The eight bytes of `x` in two's complement, least significant first.
pub open spec fn le_i64(x: i64) -> Seq<u8> {
    le_u64(i64_bits(x))
}

/// The integer that four little-endian bytes stand for.
pub open spec fn u32_of_le(b0: u8, b1: u8, b2: u8, b3: u8) -> u32 {
    (b0 + b1 * 0x100 + b2 * 0x1_0000 + b3 * 0x100_0000) as u32
}

/// The integer that eight little-endian bytes stand for.
pub open spec fn u64_of_le(
    b0: u8,
    b1: u8,
    b2: u8,
    b3: u8,
    b4: u8,
    b5: u8,
    b6: u8,
    b7: u8,
) -> u64 {
    (b0 + b1 * 0x100 + b2 * 0x1_0000 + b3 * 0x100_0000 + b4 * 0x1_0000_0000 + b5
        * 0x100_0000_0000 + b6 * 0x1_0000_0000_0000 + b7 * 0x100_0000_0000_0000) as u64
}

/// The `u32` stored little-endian at `b[at..at + 4]`.
pub open spec fn u32_at(b: Seq<u8>, at: int) -> u32 {
    u32_of_le(b[at], b[at + 1], b[at + 2], b[at + 3])
}

/// The `u64` stored little-endian at `b[at..at + 8]`.
pub open spec fn u64_at(b: Seq<u8>, at: int) -> u64 {
    u64_of_le(
        b[at],
        b[at + 1],
        b[at + 2],
        b[at + 3],
        b[at + 4],
        b[at + 5],
        b[at + 6],
        b[at + 7],
    )
}

/// The `i32` stored little-endian at `b[at..at + 4]`.
pub open spec fn i32_at(b: Seq<u8>, at: int) -> i32 {
    i32_of_bits(u32_at(b, at))
}

/// The `i64` stored little-endian at `b[at..at + 8]`.
pub open spec fn i64_at(b: Seq<u8>, at: int) -> i64 {
    i64_of_bits(u64_at(b, at))
}

/// A `u16` takes two bytes.
pub broadcast proof fn lemma_le_u16_len(x: u16)
    ensures
        #[trigger] le_u16(x).len() == 2,
{
    reveal(le_u16);
}

/// A `u32` takes four bytes.
pub broadcast proof fn lemma_le_u32_len(x: u32)
    ensures
        #[trigger] le_u32(x).len() == 4,
{
    reveal(le_u32);
}

/// A `u64` takes eight bytes.
pub broadcast proof fn lemma_le_u64_len(x: u64)
    ensures
        #[trigger] le_u64(x).len() == 8,
{
    reveal(le_u64);
}

/// The widths of the encodings.
pub broadcast group group_le_len {
    lemma_le_u16_len,
    lemma_le_u32_len,
    lemma_le_u64_len,
}

/// A part of a part of `b` is a part of `b`.
pub proof fn lemma_subrange_of_subrange(b: Seq<u8>, at: int, len: int, lo: int, hi: int)
    requires
        0 <= at,
        at + len <= b.len(),
        0 <= lo <= hi <= len,
    ensures
        b.subrange(at, at + len).subrange(lo, hi) == b.subrange(at + lo, at + hi),
{
    assert(b.subrange(at, at + len).subrange(lo, hi) =~= b.subrange(at + lo, at + hi));
}

/// A `u32` is read back from wherever its bytes stand.
pub proof fn lemma_u32_at(b: Seq<u8>, at: int, x: u32)
    requires
        0 <= at,
        at + 4 <= b.len(),
        b.subrange(at, at + 4) == le_u32(x),
    ensures
        u32_at(b, at) == x,
{
    reveal(le_u32);
    let e = b.subrange(at, at + 4);
    assert(b[at] == e[0] && b[at + 1] == e[1] && b[at + 2] == e[2] && b[at + 3] == e[3]);
}

/// A `u64` is read back from wherever its bytes stand.
pub proof fn lemma_u64_at(b: Seq<u8>, at: int, x: u64)
    requires
        0 <= at,
        at + 8 <= b.len(),
        b.subrange(at, at + 8) == le_u64(x),
    ensures
        u64_at(b, at) == x,
{
    reveal(le_u64);
    let e = b.subrange(at, at + 8);
    assert(b[at] == e[0] && b[at + 1] == e[1] && b[at + 2] == e[2] && b[at + 3] == e[3] && b[at
        + 4] == e[4] && b[at + 5] == e[5] && b[at + 6] == e[6] && b[at + 7] == e[7]);
    assert(((x % 256) as u8 + (x / 0x100 % 256) as u8 * 0x100 + (x / 0x1_0000 % 256) as u8
        * 0x1_0000 + (x / 0x100_0000 % 256) as u8 * 0x100_0000 + (x / 0x1_0000_0000 % 256) as u8
        * 0x1_0000_0000 + (x / 0x100_0000_0000 % 256) as u8 * 0x100_0000_0000 + (x
        / 0x1_0000_0000_0000 % 256) as u8 * 0x1_0000_0000_0000 + (x / 0x100_0000_0000_0000) as u8
        * 0x100_0000_0000_0000) as u64 == x) by (bit_vector);
}

/// An `i32` is read back from wherever its bytes stand.
pub proof fn lemma_i32_at(b: Seq<u8>, at: int, x: i32)
    requires
        0 <= at,
        at + 4 <= b.len(),
        b.subrange(at, at + 4) == le_i32(x),
    ensures
        i32_at(b, at) == x,
{
    lemma_u32_at(b, at, i32_bits(x));
}

/// An `i64` is read back from wherever its bytes stand.
pub proof fn lemma_i64_at(b: Seq<u8>, at: int, x: i64)
    requires
        0 <= at,
        at + 8 <= b.len(),
        b.subrange(at, at + 8) == le_i64(x),
    ensures
        i64_at(b, at) == x,
{
    lemma_u64_at(b, at, i64_bits(x));
}

/// Writing the `u32` that was read gives the bytes again.
pub proof fn lemma_u32_bytes_round_trip(b: Seq<u8>, at: int)
    requires
        0 <= at,
        at + 4 <= b.len(),
    ensures
        le_u32(u32_at(b, at)) == b.subrange(at, at + 4),
{
    reveal(le_u32);
    let (b0, b1, b2, b3) = (b[at], b[at + 1], b[at + 2], b[at + 3]);
    let x = u32_of_le(b0, b1, b2, b3);
    assert((x % 256) as u8 == b0 && (x / 0x100 % 256) as u8 == b1 && (x / 0x1_0000 % 256) as u8
        == b2 && (x / 0x100_0000) as u8 == b3) by (bit_vector)
        requires
            x == (b0 + b1 * 0x100 + b2 * 0x1_0000 + b3 * 0x100_0000) as u32,
    ;
    assert(le_u32(u32_at(b, at)) =~= b.subrange(at, at + 4));
}

/// Writing the `u64` that was read gives the bytes again.
pub proof fn lemma_u64_bytes_round_trip(b: Seq<u8>, at: int)
    requires
        0 <= at,
        at + 8 <= b.len(),
    ensures
        le_u64(u64_at(b, at)) == b.subrange(at, at + 8),
{
    reveal(le_u64);
    let (b0, b1, b2, b3) = (b[at], b[at + 1], b[at + 2], b[at + 3]);
    let (b4, b5, b6, b7) = (b[at + 4], b[at + 5], b[at + 6], b[at + 7]);
    let x = u64_of_le(b0, b1, b2, b3, b4, b5, b6, b7);
    assert((x % 256) as u8 == b0 && (x / 0x100 % 256) as u8 == b1 && (x / 0x1_0000 % 256) as u8
        == b2 && (x / 0x100_0000 % 256) as u8 == b3 && (x / 0x1_0000_0000 % 256) as u8 == b4 && (x
        / 0x100_0000_0000 % 256) as u8 == b5 && (x / 0x1_0000_0000_0000 % 256) as u8 == b6 && (x
        / 0x100_0000_0000_0000) as u8 == b7) by (bit_vector)
        requires
            x == (b0 + b1 * 0x100 + b2 * 0x1_0000 + b3 * 0x100_0000 + b4 * 0x1_0000_0000 + b5
                * 0x100_0000_0000 + b6 * 0x1_0000_0000_0000 + b7 * 0x100_0000_0000_0000) as u64,
    ;
    assert(le_u64(u64_at(b, at)) =~= b.subrange(at, at + 8));
}

/// Writing the `i32` that was read gives the bytes again.
pub proof fn lemma_i32_bytes_round_trip(b: Seq<u8>, at: int)
    requires
        0 <= at,
        at + 4 <= b.len(),
    ensures
        le_i32(i32_at(b, at)) == b.subrange(at, at + 4),
{
    lemma_u32_bytes_round_trip(b, at);
}

/// Writing the `i64` that was read gives the bytes again.
pub proof fn lemma_i64_bytes_round_trip(b: Seq<u8>, at: int)
    requires
        0 <= at,
        at + 8 <= b.len(),
    ensures
        le_i64(i64_at(b, at)) == b.subrange(at, at + 8),
{
    lemma_u64_bytes_round_trip(b, at);
}

/// `zerocopy::byteorder::U16::<LittleEndian>::new(x).to_bytes()`: the two
/// bytes of `x` in little-endian order, as `u16::to_le_bytes` gives them.
#[verifier::external_body]
fn u16_to_le(x: u16) -> (b: [u8; 2])
    ensures
        b@ == le_u16(x),
{
    U16::<LittleEndian>::new(x).to_bytes()
}

/// `zerocopy::byteorder::U32::<LittleEndian>::new(x).to_bytes()`: the four
/// bytes of `x` in little-endian order, as `u32::to_le_bytes` gives them.
#[verifier::external_body]
fn u32_to_le(x: u32) -> (b: [u8; 4])
    ensures
        b@ == le_u32(x),
{
    U32::<LittleEndian>::new(x).to_bytes()
}

/// `zerocopy::byteorder::U64::<LittleEndian>::new(x).to_bytes()`: the eight
/// bytes of `x` in little-endian order, as `u64::to_le_bytes` gives them.
#[verifier::external_body]
fn u64_to_le(x: u64) -> (b: [u8; 8])
    ensures
        b@ == le_u64(x),
{
    U64::<LittleEndian>::new(x).to_bytes()
}

/// `zerocopy::byteorder::U32::<LittleEndian>::from_bytes(b).get()`: the
/// integer whose little-endian bytes are `b`, as `u32::from_le_bytes` gives it.
#[verifier::external_body]
fn u32_from_le(b: [u8; 4]) -> (x: u32)
    ensures
        x == u32_of_le(b@[0], b@[1], b@[2], b@[3]),
{
    U32::<LittleEndian>::from_bytes(b).get()
}

/// `zerocopy::byteorder::U64::<LittleEndian>::from_bytes(b).get()`: the
/// integer whose little-endian bytes are `b`, as `u64::from_le_bytes` gives it.
#[verifier::external_body]
fn u64_from_le(b: [u8; 8]) -> (x: u64)
    ensures
        x == u64_of_le(b@[0], b@[1], b@[2], b@[3], b@[4], b@[5], b@[6], b@[7]),
{
    U64::<LittleEndian>::from_bytes(b).get()
}

/// Copies `src` into `buffer` at `at` and returns the offset behind it.
pub fn put_bytes(buffer: &mut [u8], at: usize, src: &[u8]) -> (end: usize)
    requires
        at + src@.len() <= old(buffer)@.len(),
    ensures
        end == at + src@.len(),
        final(buffer)@.len() == old(buffer)@.len(),
        final(buffer)@ == splice(old(buffer)@, at as int, src@),
{
    let n = src.len();
    let total = buffer.len();
    let mut i: usize = 0;
    proof {
        lemma_splice_empty(buffer@, at as int);
        assert(src@.take(0) =~= Seq::<u8>::empty());
    }
    while i < n
        invariant
            i <= n,
            n == src@.len(),
            total == buffer@.len(),
            total == old(buffer)@.len(),
            at + n <= total,
            buffer@ == splice(old(buffer)@, at as int, src@.take(i as int)),
        decreases n - i,
    {
        buffer[at + i] = src[i];
        proof {
            reveal(splice);
            assert(buffer@ =~= splice(old(buffer)@, at as int, src@.take(i + 1)));
        }
        i += 1;
    }
    proof {
        assert(src@.take(n as int) =~= src@);
    }
    at + n
}

/// Sets `count` bytes of `buffer` from `at` on to zero and returns the offset
/// behind them.
pub fn put_zeros(buffer: &mut [u8], at: usize, count: usize) -> (end: usize)
    requires
        at + count <= old(buffer)@.len(),
    ensures
        end == at + count,
        final(buffer)@.len() == old(buffer)@.len(),
        final(buffer)@ == splice(old(buffer)@, at as int, zeros(count as nat)),
{
    let total = buffer.len();
    let mut i: usize = 0;
    proof {
        lemma_splice_empty(buffer@, at as int);
        assert(zeros(0) =~= Seq::<u8>::empty());
    }
    while i < count
        invariant
            i <= count,
            total == buffer@.len(),
            total == old(buffer)@.len(),
            at + count <= total,
            buffer@ == splice(old(buffer)@, at as int, zeros(i as nat)),
        decreases count - i,
    {
        buffer[at + i] = 0;
        proof {
            reveal(splice);
            assert(buffer@ =~= splice(old(buffer)@, at as int, zeros((i + 1) as nat)));
        }
        i += 1;
    }
    at + count
}

/// Writes `x` little-endian at `at` and returns the offset behind it.
pub fn put_u16(buffer: &mut [u8], at: usize, x: u16) -> (end: usize)
    requires
        at + 2 <= old(buffer)@.len(),
    ensures
        end == at + 2,
        final(buffer)@.len() == old(buffer)@.len(),
        final(buffer)@ == splice(old(buffer)@, at as int, le_u16(x)),
{
    broadcast use lemma_le_u16_len;

    let b = u16_to_le(x);
    put_bytes(buffer, at, b.as_slice())
}

/// Writes `x` little-endian at `at` and returns the offset behind it.
pub fn put_u32(buffer: &mut [u8], at: usize, x: u32) -> (end: usize)
    requires
        at + 4 <= old(buffer)@.len(),
    ensures
        end == at + 4,
        final(buffer)@.len() == old(buffer)@.len(),
        final(buffer)@ == splice(old(buffer)@, at as int, le_u32(x)),
{
    broadcast use lemma_le_u32_len;

    let b = u32_to_le(x);
    put_bytes(buffer, at, b.as_slice())
}

/// Writes `x` little-endian at `at` and returns the offset behind it.
pub fn put_u64(buffer: &mut [u8], at: usize, x: u64) -> (end: usize)
    requires
        at + 8 <= old(buffer)@.len(),
    ensures
        end == at + 8,
        final(buffer)@.len() == old(buffer)@.len(),
        final(buffer)@ == splice(old(buffer)@, at as int, le_u64(x)),
{
    broadcast use lemma_le_u64_len;

    let b = u64_to_le(x);
    put_bytes(buffer, at, b.as_slice())
}

/// Writes `x` little-endian, in two's complement, at `at` and returns the
/// offset behind it.
pub fn put_i32(buffer: &mut [u8], at: usize, x: i32) -> (end: usize)
    requires
        at + 4 <= old(buffer)@.len(),
    ensures
        end == at + 4,
        final(buffer)@.len() == old(buffer)@.len(),
        final(buffer)@ == splice(old(buffer)@, at as int, le_i32(x)),
{
    let bits: u32 = if x >= 0 {
        x as u32
    } else {
        (x as i64 + 0x1_0000_0000) as u32
    };
    put_u32(buffer, at, bits)
}

/// Writes `x` little-endian, in two's complement, at `at` and returns the
/// offset behind it.
pub fn put_i64(buffer: &mut [u8], at: usize, x: i64) -> (end: usize)
    requires
        at + 8 <= old(buffer)@.len(),
    ensures
        end == at + 8,
        final(buffer)@.len() == old(buffer)@.len(),
        final(buffer)@ == splice(old(buffer)@, at as int, le_i64(x)),
{
    let bits: u64 = if x >= 0 {
        x as u64
    } else {
        (x as i128 + 0x1_0000_0000_0000_0000) as u64
    };
    put_u64(buffer, at, bits)
}

/// Reads the little-endian `u32` at `at`.
pub fn get_u32(bytes: &[u8], at: usize) -> (x: u32)
    requires
        at + 4 <= bytes.len(),
    ensures
        x == u32_at(bytes@, at as int),
{
    u32_from_le([bytes[at], bytes[at + 1], bytes[at + 2], bytes[at + 3]])
}

/// Reads the little-endian `u64` at `at`.
pub fn get_u64(bytes: &[u8], at: usize) -> (x: u64)
    requires
        at + 8 <= bytes.len(),
    ensures
        x == u64_at(bytes@, at as int),
{
    u64_from_le(
        [
            bytes[at],
            bytes[at + 1],
            bytes[at + 2],
            bytes[at + 3],
            bytes[at + 4],
            bytes[at + 5],
            bytes[at + 6],
            bytes[at + 7],
        ],
    )
}

/// Reads the little-endian two's complement `i32` at `at`.
pub fn get_i32(bytes: &[u8], at: usize) -> (x: i32)
    requires
        at + 4 <= bytes.len(),
    ensures
        x == i32_at(bytes@, at as int),
{
    let u = get_u32(bytes, at);
    if u < 0x8000_0000 {
        u as i32
    } else {
        (u as i64 - 0x1_0000_0000) as i32
    }
}

/// Reads the little-endian two's complement `i64` at `at`.
pub fn get_i64(bytes: &[u8], at: usize) -> (x: i64)
    requires
        at + 8 <= bytes.len(),
    ensures
        x == i64_at(bytes@, at as int),
{
    let u = get_u64(bytes, at);
    if u < 0x8000_0000_0000_0000 {
        u as i64
    } else {
        (u as i128 - 0x1_0000_0000_0000_0000) as i64
    }
}

/// `b` behind `a`. Where `a` is empty this is `b` itself, so that what a
/// [`Cursor`] has written reads as the sum of the fields, in the order and
/// form in which a record's `wire` states them.
pub open spec fn join(a: Seq<u8>, b: Seq<u8>) -> Seq<u8> {
    if a.len() == 0 {
        b
    } else {
        a + b
    }
}

/// A position in a buffer at which fields are written one behind the other.
///
/// The cursor remembers, for the proofs, what the buffer held when the cursor
/// was set (`base`) and what has been written since (`written`).
pub struct Cursor {
    /// Where the first field went
    pub start: usize,
    /// Where the next field goes
    pub pos: usize,
    /// The buffer as it was when the cursor was set
    pub base: Ghost<Seq<u8>>,
    /// The bytes written since
    pub written: Ghost<Seq<u8>>,
}

impl Cursor {
    /// The cursor describes `buffer`: the buffer is what it was at the start,
    /// but for the bytes written since, and the cursor stands behind them.
    pub open spec fn tracks(self, buffer: Seq<u8>) -> bool {
        &&& buffer.len() == self.base@.len()
        &&& self.pos == self.start + self.written@.len()
        &&& self.pos <= buffer.len()
        &&& buffer == splice(self.base@, self.start as int, self.written@)
    }

    /// `next` is this cursor after `data` was written.
    pub open spec fn extends(self, next: Cursor, data: Seq<u8>) -> bool {
        &&& next.start == self.start
        &&& next.base == self.base
        &&& next.pos == self.pos + data.len()
        &&& next.written@ == join(self.written@, data)
    }

    /// A cursor on `buffer` at `at`, with nothing written yet.
    pub fn begin(buffer: &[u8], at: usize) -> (c: Cursor)
        requires
            at <= buffer@.len(),
        ensures
            c.tracks(buffer@),
            c.start == at,
            c.pos == at,
            c.base@ == buffer@,
            c.written@ == Seq::<u8>::empty(),
    {
        proof {
            lemma_splice_empty(buffer@, at as int);
        }
        Cursor { start: at, pos: at, base: Ghost(buffer@), written: Ghost(Seq::empty()) }
    }

    /// Takes note that `data` was written at the cursor, by other means, into
    /// what was `before` and is now `buffer`. `end` is the offset behind the
    /// data.
    pub fn advance(
        &mut self,
        buffer: &[u8],
        end: usize,
        Ghost(before): Ghost<Seq<u8>>,
        Ghost(data): Ghost<Seq<u8>>,
    )
        requires
            old(self).tracks(before),
            end == old(self).pos + data.len(),
            end <= before.len(),
            buffer@ == splice(before, old(self).pos as int, data),
        ensures
            final(self).tracks(buffer@),
            old(self).extends(*final(self), data),
    {
        proof {
            lemma_splice_chain(self.base@, self.start as int, self.written@, self.pos as int, data);
            lemma_splice_parts(before, self.pos as int, data);
            assert(self.written@.len() == 0 ==> self.written@ + data =~= data);
        }
        self.pos = end;
        self.written = Ghost(join(self.written@, data));
    }

    /// Copies `src` to the cursor.
    pub fn put_bytes(&mut self, buffer: &mut [u8], src: &[u8])
        requires
            old(self).tracks(old(buffer)@),
            old(self).pos + src@.len() <= old(buffer)@.len(),
        ensures
            final(self).tracks(final(buffer)@),
            old(self).extends(*final(self), src@),
    {
        let ghost before = buffer@;
        let end = put_bytes(buffer, self.pos, src);
        self.advance(buffer, end, Ghost(before), Ghost(src@));
    }

    /// Writes `count` zero bytes at the cursor.
    pub fn put_zeros(&mut self, buffer: &mut [u8], count: usize)
        requires
            old(self).tracks(old(buffer)@),
            old(self).pos + count <= old(buffer)@.len(),
        ensures
            final(self).tracks(final(buffer)@),
            old(self).extends(*final(self), zeros(count as nat)),
    {
        let ghost before = buffer@;
        let end = put_zeros(buffer, self.pos, count);
        self.advance(buffer, end, Ghost(before), Ghost(zeros(count as nat)));
    }

    /// Writes `x` at the cursor.
    pub fn put_u16(&mut self, buffer: &mut [u8], x: u16)
        requires
            old(self).tracks(old(buffer)@),
            old(self).pos + 2 <= old(buffer)@.len(),
        ensures
            final(self).tracks(final(buffer)@),
            old(self).extends(*final(self), le_u16(x)),
    {
        broadcast use lemma_le_u16_len;

        let ghost before = buffer@;
        let end = put_u16(buffer, self.pos, x);
        self.advance(buffer, end, Ghost(before), Ghost(le_u16(x)));
    }

    /// Writes `x` at the cursor.
    pub fn put_u32(&mut self, buffer: &mut [u8], x: u32)
        requires
            old(self).tracks(old(buffer)@),
            old(self).pos + 4 <= old(buffer)@.len(),
        ensures
            final(self).tracks(final(buffer)@),
            old(self).extends(*final(self), le_u32(x)),
    {
        broadcast use lemma_le_u32_len;

        let ghost before = buffer@;
        let end = put_u32(buffer, self.pos, x);
        self.advance(buffer, end, Ghost(before), Ghost(le_u32(x)));
    }

    /// Writes `x` at the cursor.
    pub fn put_u64(&mut self, buffer: &mut [u8], x: u64)
        requires
            old(self).tracks(old(buffer)@),
            old(self).pos + 8 <= old(buffer)@.len(),
        ensures
            final(self).tracks(final(buffer)@),
            old(self).extends(*final(self), le_u64(x)),
    {
        broadcast use lemma_le_u64_len;

        let ghost before = buffer@;
        let end = put_u64(buffer, self.pos, x);
        self.advance(buffer, end, Ghost(before), Ghost(le_u64(x)));
    }

    /// Writes `x`, in two's complement, at the cursor.
    pub fn put_i32(&mut self, buffer: &mut [u8], x: i32)
        requires
            old(self).tracks(old(buffer)@),
            old(self).pos + 4 <= old(buffer)@.len(),
        ensures
            final(self).tracks(final(buffer)@),
            old(self).extends(*final(self), le_i32(x)),
    {
        broadcast use lemma_le_u32_len;

        let ghost before = buffer@;
        let end = put_i32(buffer, self.pos, x);
        self.advance(buffer, end, Ghost(before), Ghost(le_i32(x)));
    }

    /// Writes `x`, in two's complement, at the cursor.
    pub fn put_i64(&mut self, buffer: &mut [u8], x: i64)
        requires
            old(self).tracks(old(buffer)@),
            old(self).pos + 8 <= old(buffer)@.len(),
        ensures
            final(self).tracks(final(buffer)@),
            old(self).extends(*final(self), le_i64(x)),
    {
        broadcast use lemma_le_u64_len;

        let ghost before = buffer@;
        let end = put_i64(buffer, self.pos, x);
        self.advance(buffer, end, Ghost(before), Ghost(le_i64(x)));
    }
}

} // verus!
