//! Big-endian byte layout of the fixed-width scalars.
//!
//! Every fixed-width value crosses the boundary as its exact byte width, no
//! padding.  Signed values travel as the two's-complement image of their
//! unsigned counterpart.  The lemmas here state that reassembling the bytes
//! of a value gives the value back; the compound codec builds on them.

use vstd::prelude::*;

verus! {

/// The two big-endian bytes of a 16-bit value.
pub open spec fn be2(v: u16) -> Seq<u8> {
    seq![(v >> 8) as u8, (v & 0xff) as u8]
}

/// The four big-endian bytes of a 32-bit value.
pub open spec fn be4(v: u32) -> Seq<u8> {
    seq![
        (v >> 24) as u8,
        ((v >> 16) & 0xff) as u8,
        ((v >> 8) & 0xff) as u8,
        (v & 0xff) as u8,
    ]
}

/// The eight big-endian bytes of a 64-bit value.
pub open spec fn be8(v: u64) -> Seq<u8> {
    seq![
        (v >> 56) as u8,
        ((v >> 48) & 0xff) as u8,
        ((v >> 40) & 0xff) as u8,
        ((v >> 32) & 0xff) as u8,
        ((v >> 24) & 0xff) as u8,
        ((v >> 16) & 0xff) as u8,
        ((v >> 8) & 0xff) as u8,
        (v & 0xff) as u8,
    ]
}

/// Reassemble a 16-bit value from its two big-endian bytes.
pub open spec fn from_be2(b0: u8, b1: u8) -> u16 {
    ((b0 as u16) << 8) | (b1 as u16)
}

/// Reassemble a 32-bit value from its four big-endian bytes.
pub open spec fn from_be4(b0: u8, b1: u8, b2: u8, b3: u8) -> u32 {
    ((b0 as u32) << 24) | ((b1 as u32) << 16) | ((b2 as u32) << 8) | (b3 as u32)
}

/// Reassemble a 64-bit value from its eight big-endian bytes.
pub open spec fn from_be8(
    b0: u8,
    b1: u8,
    b2: u8,
    b3: u8,
    b4: u8,
    b5: u8,
    b6: u8,
    b7: u8,
) -> u64 {
    ((b0 as u64) << 56) | ((b1 as u64) << 48) | ((b2 as u64) << 40) | ((b3 as u64) << 32) | ((
    b4 as u64) << 24) | ((b5 as u64) << 16) | ((b6 as u64) << 8) | (b7 as u64)
}

/// The bytes of a 16-bit value reassemble to the value.
pub proof fn lemma_be2_round(v: u16)
    ensures
        from_be2(be2(v)[0], be2(v)[1]) == v,
{
    assert(((((v >> 8) as u8) as u16) << 8) | (((v & 0xff) as u8) as u16) == v) by (bit_vector);
}

/// The bytes of a 32-bit value reassemble to the value.
pub proof fn lemma_be4_round(v: u32)
    ensures
        from_be4(be4(v)[0], be4(v)[1], be4(v)[2], be4(v)[3]) == v,
{
    assert(((((v >> 24) as u8) as u32) << 24) | (((((v >> 16) & 0xff) as u8) as u32) << 16) | ((((
    (v >> 8) & 0xff) as u8) as u32) << 8) | (((v & 0xff) as u8) as u32) == v) by (bit_vector);
}

/// The bytes of a 64-bit value reassemble to the value.
pub proof fn lemma_be8_round(v: u64)
    ensures
        from_be8(
            be8(v)[0],
            be8(v)[1],
            be8(v)[2],
            be8(v)[3],
            be8(v)[4],
            be8(v)[5],
            be8(v)[6],
            be8(v)[7],
        ) == v,
{
    assert(((((v >> 56) as u8) as u64) << 56) | (((((v >> 48) & 0xff) as u8) as u64) << 48) | ((((
    (v >> 40) & 0xff) as u8) as u64) << 40) | (((((v >> 32) & 0xff) as u8) as u64) << 32) | (((((v
        >> 24) & 0xff) as u8) as u64) << 24) | (((((v >> 16) & 0xff) as u8) as u64) << 16) | (((((
    v >> 8) & 0xff) as u8) as u64) << 8) | (((v & 0xff) as u8) as u64) == v) by (bit_vector);
}

/// A signed value survives the round trip through its unsigned image.
pub proof fn lemma_i16_cast_round(v: i16)
    ensures
        ((v as u16) as i16) == v,
{
    assert(((v as u16) as i16) == v) by (bit_vector);
}

/// A signed value survives the round trip through its unsigned image.
pub proof fn lemma_i32_cast_round(v: i32)
    ensures
        ((v as u32) as i32) == v,
{
    assert(((v as u32) as i32) == v) by (bit_vector);
}

/// A signed value survives the round trip through its unsigned image.
pub proof fn lemma_i64_cast_round(v: i64)
    ensures
        ((v as u64) as i64) == v,
{
    assert(((v as u64) as i64) == v) by (bit_vector);
}

/// A signed byte survives the round trip through its unsigned image.
pub proof fn lemma_i8_cast_round(v: i8)
    ensures
        ((v as u8) as i8) == v,
{
    assert(((v as u8) as i8) == v) by (bit_vector);
}

/// Append the two big-endian bytes of a 16-bit value.
pub fn push_be2(buf: &mut Vec<u8>, v: u16)
    ensures
        final(buf)@ == old(buf)@ + be2(v),
{
    proof {
        assert(v >> 8 < 256 && (v & 0xff) < 256) by (bit_vector);
    }
    buf.push((v >> 8) as u8);
    buf.push((v & 0xff) as u8);
    assert(buf@ =~= old(buf)@ + be2(v));
}

/// Append the four big-endian bytes of a 32-bit value.
pub fn push_be4(buf: &mut Vec<u8>, v: u32)
    ensures
        final(buf)@ == old(buf)@ + be4(v),
{
    proof {
        assert(v >> 24 < 256 && ((v >> 16) & 0xff) < 256 && ((v >> 8) & 0xff) < 256 && (v & 0xff)
            < 256) by (bit_vector);
    }
    buf.push((v >> 24) as u8);
    buf.push(((v >> 16) & 0xff) as u8);
    buf.push(((v >> 8) & 0xff) as u8);
    buf.push((v & 0xff) as u8);
    assert(buf@ =~= old(buf)@ + be4(v));
}

/// Append the eight big-endian bytes of a 64-bit value.
pub fn push_be8(buf: &mut Vec<u8>, v: u64)
    ensures
        final(buf)@ == old(buf)@ + be8(v),
{
    proof {
        assert(v >> 56 < 256 && ((v >> 48) & 0xff) < 256 && ((v >> 40) & 0xff) < 256 && ((v >> 32)
            & 0xff) < 256 && ((v >> 24) & 0xff) < 256 && ((v >> 16) & 0xff) < 256 && ((v >> 8)
            & 0xff) < 256 && (v & 0xff) < 256) by (bit_vector);
    }
    buf.push((v >> 56) as u8);
    buf.push(((v >> 48) & 0xff) as u8);
    buf.push(((v >> 40) & 0xff) as u8);
    buf.push(((v >> 32) & 0xff) as u8);
    buf.push(((v >> 24) & 0xff) as u8);
    buf.push(((v >> 16) & 0xff) as u8);
    buf.push(((v >> 8) & 0xff) as u8);
    buf.push((v & 0xff) as u8);
    assert(buf@ =~= old(buf)@ + be8(v));
}

/// Read a 16-bit value from two big-endian bytes in place.
pub fn read_be2(buf: &Vec<u8>, off: usize) -> (r: u16)
    requires
        off + 2 <= buf@.len(),
    ensures
        r == from_be2(buf@[off as int], buf@[off as int + 1]),
{
    let n = buf.len();
    ((buf[off] as u16) << 8) | (buf[off + 1] as u16)
}

/// Read a 32-bit value from four big-endian bytes in place.
pub fn read_be4(buf: &Vec<u8>, off: usize) -> (r: u32)
    requires
        off + 4 <= buf@.len(),
    ensures
        r == from_be4(
            buf@[off as int],
            buf@[off as int + 1],
            buf@[off as int + 2],
            buf@[off as int + 3],
        ),
{
    let n = buf.len();
    ((buf[off] as u32) << 24) | ((buf[off + 1] as u32) << 16) | ((buf[off + 2] as u32) << 8) | (
    buf[off + 3] as u32)
}

/// Read a 64-bit value from eight big-endian bytes in place.
pub fn read_be8(buf: &Vec<u8>, off: usize) -> (r: u64)
    requires
        off + 8 <= buf@.len(),
    ensures
        r == from_be8(
            buf@[off as int],
            buf@[off as int + 1],
            buf@[off as int + 2],
            buf@[off as int + 3],
            buf@[off as int + 4],
            buf@[off as int + 5],
            buf@[off as int + 6],
            buf@[off as int + 7],
        ),
{
    let n = buf.len();
    ((buf[off] as u64) << 56) | ((buf[off + 1] as u64) << 48) | ((buf[off + 2] as u64) << 40) | ((
    buf[off + 3] as u64) << 32) | ((buf[off + 4] as u64) << 24) | ((buf[off + 5] as u64) << 16) | (
    (buf[off + 6] as u64) << 8) | (buf[off + 7] as u64)
}

} // verus!
