//! Big-endian primitives: how fixed-width integers look as wire bytes.
//!
//! `be2`/`be4`/`be8` give the byte image of a value; `rd2`/`rd4`/`rd8`
//! rebuild the value from bytes. The lemmas state that the two are inverse,
//! and the executable readers and writers are proved against them.

use vstd::prelude::*;

verus! {

/// The two big-endian bytes of a 16-bit value.
pub open spec fn be2(v: u16) -> Seq<u8> {
    seq![(v >> 8) as u8, v as u8]
}

/// The four big-endian bytes of a 32-bit value.
pub open spec fn be4(v: u32) -> Seq<u8> {
    seq![(v >> 24) as u8, (v >> 16) as u8, (v >> 8) as u8, v as u8]
}

/// The eight big-endian bytes of a 64-bit value.
pub open spec fn be8(v: u64) -> Seq<u8> {
    seq![
        (v >> 56) as u8,
        (v >> 48) as u8,
        (v >> 40) as u8,
        (v >> 32) as u8,
        (v >> 24) as u8,
        (v >> 16) as u8,
        (v >> 8) as u8,
        v as u8,
    ]
}

/// The 16-bit value spelled by two big-endian bytes.
pub open spec fn rd2(b0: u8, b1: u8) -> u16 {
    (((b0 as u16) << 8) | (b1 as u16)) as u16
}

/// The 32-bit value spelled by four big-endian bytes.
pub open spec fn rd4(b0: u8, b1: u8, b2: u8, b3: u8) -> u32 {
    (((b0 as u32) << 24) | ((b1 as u32) << 16) | ((b2 as u32) << 8) | (b3 as u32)) as u32
}

/// The 64-bit value spelled by eight big-endian bytes.
pub open spec fn rd8(b0: u8, b1: u8, b2: u8, b3: u8, b4: u8, b5: u8, b6: u8, b7: u8) -> u64 {
    (((b0 as u64) << 56) | ((b1 as u64) << 48) | ((b2 as u64) << 40) | ((b3 as u64) << 32) | (
    (b4 as u64) << 24) | ((b5 as u64) << 16) | ((b6 as u64) << 8) | (b7 as u64)) as u64
}

/// Reading the bytes of a value gives the value back.
pub proof fn lemma_rd_be2(v: u16)
    ensures
        rd2((v >> 8) as u8, v as u8) == v,
{
    assert(((((v >> 8) as u8 as u16) << 8) | (v as u8 as u16)) == v) by (bit_vector);
}

/// Writing the value read from two bytes gives the bytes back.
pub proof fn lemma_be_rd2(b0: u8, b1: u8)
    ensures
        (rd2(b0, b1) >> 8) as u8 == b0,
        rd2(b0, b1) as u8 == b1,
{
    assert(((((b0 as u16) << 8) | (b1 as u16)) >> 8) as u8 == b0) by (bit_vector);
    assert(((((b0 as u16) << 8) | (b1 as u16))) as u8 == b1) by (bit_vector);
}

/// Reading the bytes of a value gives the value back.
pub proof fn lemma_rd_be4(v: u32)
    ensures
        rd4((v >> 24) as u8, (v >> 16) as u8, (v >> 8) as u8, v as u8) == v,
{
    assert((((v >> 24) as u8 as u32) << 24) | (((v >> 16) as u8 as u32) << 16) | (((v
        >> 8) as u8 as u32) << 8) | (v as u8 as u32) == v) by (bit_vector);
}

/// Writing the value read from four bytes gives the bytes back.
pub proof fn lemma_be_rd4(b0: u8, b1: u8, b2: u8, b3: u8)
    ensures
        (rd4(b0, b1, b2, b3) >> 24) as u8 == b0,
        (rd4(b0, b1, b2, b3) >> 16) as u8 == b1,
        (rd4(b0, b1, b2, b3) >> 8) as u8 == b2,
        rd4(b0, b1, b2, b3) as u8 == b3,
{
    assert(((((b0 as u32) << 24) | ((b1 as u32) << 16) | ((b2 as u32) << 8) | (b3 as u32)) >> 24) as u8
        == b0) by (bit_vector);
    assert(((((b0 as u32) << 24) | ((b1 as u32) << 16) | ((b2 as u32) << 8) | (b3 as u32)) >> 16) as u8
        == b1) by (bit_vector);
    assert(((((b0 as u32) << 24) | ((b1 as u32) << 16) | ((b2 as u32) << 8) | (b3 as u32)) >> 8) as u8
        == b2) by (bit_vector);
    assert((((b0 as u32) << 24) | ((b1 as u32) << 16) | ((b2 as u32) << 8) | (b3 as u32)) as u8 == b3)
        by (bit_vector);
}

/// Reading the bytes of a value gives the value back.
pub proof fn lemma_rd_be8(v: u64)
    ensures
        rd8(
            (v >> 56) as u8,
            (v >> 48) as u8,
            (v >> 40) as u8,
            (v >> 32) as u8,
            (v >> 24) as u8,
            (v >> 16) as u8,
            (v >> 8) as u8,
            v as u8,
        ) == v,
{
    assert((((v >> 56) as u8 as u64) << 56) | (((v >> 48) as u8 as u64) << 48) | (((v
        >> 40) as u8 as u64) << 40) | (((v >> 32) as u8 as u64) << 32) | (((v >> 24) as u8 as u64)
        << 24) | (((v >> 16) as u8 as u64) << 16) | (((v >> 8) as u8 as u64) << 8) | (
    v as u8 as u64) == v) by (bit_vector);
}

/// Writing the value read from eight bytes gives the bytes back.
pub proof fn lemma_be_rd8(b0: u8, b1: u8, b2: u8, b3: u8, b4: u8, b5: u8, b6: u8, b7: u8)
    ensures
        (rd8(b0, b1, b2, b3, b4, b5, b6, b7) >> 56) as u8 == b0,
        (rd8(b0, b1, b2, b3, b4, b5, b6, b7) >> 48) as u8 == b1,
        (rd8(b0, b1, b2, b3, b4, b5, b6, b7) >> 40) as u8 == b2,
        (rd8(b0, b1, b2, b3, b4, b5, b6, b7) >> 32) as u8 == b3,
        (rd8(b0, b1, b2, b3, b4, b5, b6, b7) >> 24) as u8 == b4,
        (rd8(b0, b1, b2, b3, b4, b5, b6, b7) >> 16) as u8 == b5,
        (rd8(b0, b1, b2, b3, b4, b5, b6, b7) >> 8) as u8 == b6,
        rd8(b0, b1, b2, b3, b4, b5, b6, b7) as u8 == b7,
{
    let x = (((b0 as u64) << 56) | ((b1 as u64) << 48) | ((b2 as u64) << 40) | ((b3 as u64) << 32)
        | ((b4 as u64) << 24) | ((b5 as u64) << 16) | ((b6 as u64) << 8) | (b7 as u64)) as u64;
    assert((x >> 56) as u8 == b0 && (x >> 48) as u8 == b1 && (x >> 40) as u8 == b2 && (x
        >> 32) as u8 == b3 && (x >> 24) as u8 == b4 && (x >> 16) as u8 == b5 && (x >> 8) as u8 == b6
        && x as u8 == b7) by (bit_vector)
        requires
            x == (((b0 as u64) << 56) | ((b1 as u64) << 48) | ((b2 as u64) << 40) | ((b3 as u64)
                << 32) | ((b4 as u64) << 24) | ((b5 as u64) << 16) | ((b6 as u64) << 8) | (
            b7 as u64)) as u64,
    ;
}

/// Append the two big-endian bytes of a 16-bit value.
pub fn push_be2(out: &mut Vec<u8>, v: u16)
    ensures
        final(out)@ == old(out)@ + be2(v),
{
    out.push((v >> 8) as u8);
    out.push(v as u8);
    assert(out@ =~= old(out)@ + be2(v));
}

/// Append the four big-endian bytes of a 32-bit value.
pub fn push_be4(out: &mut Vec<u8>, v: u32)
    ensures
        final(out)@ == old(out)@ + be4(v),
{
    out.push((v >> 24) as u8);
    out.push((v >> 16) as u8);
    out.push((v >> 8) as u8);
    out.push(v as u8);
    assert(out@ =~= old(out)@ + be4(v));
}

/// Append the eight big-endian bytes of a 64-bit value.
pub fn push_be8(out: &mut Vec<u8>, v: u64)
    ensures
        final(out)@ == old(out)@ + be8(v),
{
    out.push((v >> 56) as u8);
    out.push((v >> 48) as u8);
    out.push((v >> 40) as u8);
    out.push((v >> 32) as u8);
    out.push((v >> 24) as u8);
    out.push((v >> 16) as u8);
    out.push((v >> 8) as u8);
    out.push(v as u8);
    assert(out@ =~= old(out)@ + be8(v));
}

/// Read a 16-bit big-endian value at a position.
pub fn read_be2(b: &Vec<u8>, pos: usize) -> (r: u16)
    requires
        pos + 2 <= b@.len(),
    ensures
        r == rd2(b@[pos as int], b@[pos as int + 1]),
{
    let n = b.len();
    (((b[pos] as u16) << 8) | (b[pos + 1] as u16)) as u16
}

/// Read a 32-bit big-endian value at a position.
pub fn read_be4(b: &Vec<u8>, pos: usize) -> (r: u32)
    requires
        pos + 4 <= b@.len(),
    ensures
        r == rd4(b@[pos as int], b@[pos as int + 1], b@[pos as int + 2], b@[pos as int + 3]),
{
    let n = b.len();
    (((b[pos] as u32) << 24) | ((b[pos + 1] as u32) << 16) | ((b[pos + 2] as u32) << 8) | (b[pos
        + 3] as u32)) as u32
}

/// Read a 64-bit big-endian value at a position.
pub fn read_be8(b: &Vec<u8>, pos: usize) -> (r: u64)
    requires
        pos + 8 <= b@.len(),
    ensures
        r == rd8(
            b@[pos as int],
            b@[pos as int + 1],
            b@[pos as int + 2],
            b@[pos as int + 3],
            b@[pos as int + 4],
            b@[pos as int + 5],
            b@[pos as int + 6],
            b@[pos as int + 7],
        ),
{
    let n = b.len();
    (((b[pos] as u64) << 56) | ((b[pos + 1] as u64) << 48) | ((b[pos + 2] as u64) << 40) | ((b[pos
        + 3] as u64) << 32) | ((b[pos + 4] as u64) << 24) | ((b[pos + 5] as u64) << 16) | ((b[pos
        + 6] as u64) << 8) | (b[pos + 7] as u64)) as u64
}

} // verus!
