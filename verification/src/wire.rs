//! Fixed-width integers as they lie in a byte stream.
//!
//! The a.out header stores its sizes big-endian; every ELF structure written
//! here is little-endian. The spec functions of this module say what those
//! encodings are; the byte shuffling itself is done by `zerocopy`'s
//! byte-order types.
use vstd::prelude::*;

verus! {

/// The integer whose big-endian encoding is the four bytes of `s` at `i`.
pub open spec fn be_u32_at(s: Seq<u8>, i: int) -> u32
    recommends
        0 <= i,
        i + 4 <= s.len(),
{
    (s[i] as int * 0x100_0000 + s[i + 1] as int * 0x1_0000 + s[i + 2] as int * 0x100
        + s[i + 3] as int) as u32
}

/// The integer whose little-endian encoding is the four bytes of `s` at `i`.
pub open spec fn le_u32_at(s: Seq<u8>, i: int) -> u32
    recommends
        0 <= i,
        i + 4 <= s.len(),
{
    (s[i] as int + s[i + 1] as int * 0x100 + s[i + 2] as int * 0x1_0000 + s[i + 3] as int
        * 0x100_0000) as u32
}

/// Little-endian encoding of a 16-bit integer.
pub open spec fn le_bytes_u16(v: u16) -> Seq<u8> {
    seq![(v as int % 256) as u8, (v as int / 256) as u8]
}

/// Little-endian encoding of a 32-bit integer.
pub open spec fn le_bytes_u32(v: u32) -> Seq<u8> {
    seq![
        (v as int % 256) as u8,
        (v as int / 0x100 % 256) as u8,
        (v as int / 0x1_0000 % 256) as u8,
        (v as int / 0x100_0000) as u8,
    ]
}

/// Little-endian encoding of a 64-bit integer.
pub open spec fn le_bytes_u64(v: u64) -> Seq<u8> {
    seq![
        (v as int % 256) as u8,
        (v as int / 0x100 % 256) as u8,
        (v as int / 0x1_0000 % 256) as u8,
        (v as int / 0x100_0000 % 256) as u8,
        (v as int / 0x1_0000_0000 % 256) as u8,
        (v as int / 0x100_0000_0000 % 256) as u8,
        (v as int / 0x1_0000_0000_0000 % 256) as u8,
        (v as int / 0x100_0000_0000_0000) as u8,
    ]
}

/// Reading back what was written gives the value: the little-endian reading
/// of the little-endian encoding of `v` is `v`.
pub proof fn lemma_le_u32_round_trip(v: u32)
    ensures
        le_bytes_u32(v).len() == 4,
        le_u32_at(le_bytes_u32(v), 0) == v,
{
}

/// The byte strings of `parts`, one after the other.
pub open spec fn join(parts: Seq<Seq<u8>>) -> Seq<u8>
    decreases parts.len(),
{
    if parts.len() == 0 {
        Seq::empty()
    } else {
        join(parts.drop_last()) + parts.last()
    }
}

/// Joined parts of one width take that width times their number.
pub proof fn lemma_join_len(parts: Seq<Seq<u8>>, width: int)
    requires
        forall|i: int| 0 <= i < parts.len() ==> (#[trigger] parts[i]).len() == width,
    ensures
        join(parts).len() == parts.len() * width,
    decreases parts.len(),
{
    if parts.len() > 0 {
        lemma_join_len(parts.drop_last(), width);
        assert((parts.len() - 1) * width + width == parts.len() * width) by (nonlinear_arith);
    }
}

/// Among joined parts of one width, the part at `i` lies at `i` times the
/// width.
pub proof fn lemma_join_part(parts: Seq<Seq<u8>>, width: int, i: int)
    requires
        forall|k: int| 0 <= k < parts.len() ==> (#[trigger] parts[k]).len() == width,
        0 <= i < parts.len(),
    ensures
        0 <= i * width,
        (i + 1) * width <= join(parts).len(),
        join(parts).subrange(i * width, (i + 1) * width) == parts[i],
    decreases parts.len(),
{
    let n = parts.len() as int;
    lemma_join_len(parts, width);
    lemma_join_len(parts.drop_last(), width);
    assert(0 <= width) by {
        assert(parts[0].len() == width);
    }
    assert(0 <= i * width && (i + 1) * width == i * width + width && (i + 1) * width <= n * width
        && (n - 1) * width + width == n * width) by (nonlinear_arith)
        requires
            0 <= i < n,
            0 <= width,
    ;
    if i == n - 1 {
        assert(join(parts).subrange(i * width, (i + 1) * width) =~= parts[i]);
    } else {
        lemma_join_part(parts.drop_last(), width, i);
        assert((i + 1) * width <= (n - 1) * width) by (nonlinear_arith)
            requires
                0 <= i < n - 1,
                0 <= width,
        ;
        assert(join(parts).subrange(i * width, (i + 1) * width) =~= join(
            parts.drop_last(),
        ).subrange(i * width, (i + 1) * width));
    }
}

/// A range of a range is a range of the whole.
pub proof fn lemma_subrange_of_subrange(s: Seq<u8>, start: int, end: int, i: int, j: int)
    requires
        0 <= start <= end <= s.len(),
        0 <= i <= j <= end - start,
    ensures
        s.subrange(start, end).subrange(i, j) == s.subrange(start + i, start + j),
{
    assert(s.subrange(start, end).subrange(i, j) =~= s.subrange(start + i, start + j));
}

/// Reads a big-endian `u32` from the front of `bytes` with
/// `zerocopy::FromBytes::read_from_prefix` on `zerocopy::byteorder::big_endian::U32`,
/// then `get`. Trusted: the read succeeds exactly when four bytes are there,
/// and the value is the big-endian reading of the first four.
#[verifier::external_body]
fn read_be_u32(bytes: &[u8]) -> (r: Option<u32>)
    ensures
        r is Some <==> bytes@.len() >= 4,
        r matches Some(v) ==> v == be_u32_at(bytes@, 0),
{
    match <zerocopy::byteorder::big_endian::U32 as zerocopy::FromBytes>::read_from_prefix(bytes) {
        Ok((v, _)) => Some(v.get()),
        Err(_) => None,
    }
}

/// Reads a little-endian `u32` from the front of `bytes` with
/// `zerocopy::FromBytes::read_from_prefix` on
/// `zerocopy::byteorder::little_endian::U32`, then `get`. Trusted: the read
/// succeeds exactly when four bytes are there, and the value is the
/// little-endian reading of the first four.
#[verifier::external_body]
fn read_le_u32(bytes: &[u8]) -> (r: Option<u32>)
    ensures
        r is Some <==> bytes@.len() >= 4,
        r matches Some(v) ==> v == le_u32_at(bytes@, 0),
{
    match <zerocopy::byteorder::little_endian::U32 as zerocopy::FromBytes>::read_from_prefix(
        bytes,
    ) {
        Ok((v, _)) => Some(v.get()),
        Err(_) => None,
    }
}

/// Encodes `v` with `zerocopy::byteorder::little_endian::U16::new` and
/// `to_bytes`. Trusted: the two bytes are the little-endian encoding.
#[verifier::external_body]
fn encode_le_u16(v: u16) -> (r: [u8; 2])
    ensures
        r@ == le_bytes_u16(v),
{
    zerocopy::byteorder::little_endian::U16::new(v).to_bytes()
}

/// Encodes `v` with `zerocopy::byteorder::little_endian::U32::new` and
/// `to_bytes`. Trusted: the four bytes are the little-endian encoding.
#[verifier::external_body]
fn encode_le_u32(v: u32) -> (r: [u8; 4])
    ensures
        r@ == le_bytes_u32(v),
{
    zerocopy::byteorder::little_endian::U32::new(v).to_bytes()
}

/// Encodes `v` with `zerocopy::byteorder::little_endian::U64::new` and
/// `to_bytes`. Trusted: the eight bytes are the little-endian encoding.
#[verifier::external_body]
fn encode_le_u64(v: u64) -> (r: [u8; 8])
    ensures
        r@ == le_bytes_u64(v),
{
    zerocopy::byteorder::little_endian::U64::new(v).to_bytes()
}

/// The big-endian `u32` stored in `bytes` at `offset`.
pub fn be_u32(bytes: &[u8], offset: usize) -> (r: u32)
    requires
        offset + 4 <= bytes@.len(),
    ensures
        r == be_u32_at(bytes@, offset as int),
{
    let tail = vstd::slice::slice_subrange(bytes, offset, bytes.len());
    read_be_u32(tail).unwrap()
}

/// The little-endian `u32` stored in `bytes` at `offset`.
pub fn le_u32(bytes: &[u8], offset: usize) -> (r: u32)
    requires
        offset + 4 <= bytes@.len(),
    ensures
        r == le_u32_at(bytes@, offset as int),
{
    let tail = vstd::slice::slice_subrange(bytes, offset, bytes.len());
    read_le_u32(tail).unwrap()
}

/// Appends the little-endian encoding of `v` to `out`.
pub fn put_le_u16(out: &mut Vec<u8>, v: u16)
    ensures
        final(out)@ == old(out)@ + le_bytes_u16(v),
{
    let b = encode_le_u16(v);
    out.push(b[0]);
    out.push(b[1]);
}

/// Appends the little-endian encoding of `v` to `out`.
pub fn put_le_u32(out: &mut Vec<u8>, v: u32)
    ensures
        final(out)@ == old(out)@ + le_bytes_u32(v),
{
    let b = encode_le_u32(v);
    out.push(b[0]);
    out.push(b[1]);
    out.push(b[2]);
    out.push(b[3]);
}

/// Appends the little-endian encoding of `v` to `out`.
pub fn put_le_u64(out: &mut Vec<u8>, v: u64)
    ensures
        final(out)@ == old(out)@ + le_bytes_u64(v),
{
    let b = encode_le_u64(v);
    out.push(b[0]);
    out.push(b[1]);
    out.push(b[2]);
    out.push(b[3]);
    out.push(b[4]);
    out.push(b[5]);
    out.push(b[6]);
    out.push(b[7]);
}

/// Appends `src` to `out`.
pub fn put_bytes(out: &mut Vec<u8>, src: &[u8])
    ensures
        final(out)@ == old(out)@ + src@,
{
    let mut i: usize = 0;
    while i < src.len()
        invariant
            i <= src@.len(),
            out@ == old(out)@ + src@.subrange(0, i as int),
        decreases src@.len() - i,
    {
        out.push(src[i]);
        i = i + 1;
        assert(out@ =~= old(out)@ + src@.subrange(0, i as int));
    }
    assert(src@.subrange(0, src@.len() as int) =~= src@);
}

} // verus!
