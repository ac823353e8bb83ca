//! Little-endian byte-level primitives shared by the frame and message
//! codecs: spec-level byte images of u16/u32/u64 values, their readers
//! and writers, and the round-trip facts the codec proofs rest on.

use vstd::prelude::*;

verus! {

pub open spec fn u16_lo(v: u16) -> u8 {
    (v & 0xFF) as u8
}

pub open spec fn u16_hi(v: u16) -> u8 {
    ((v >> 8) & 0xFF) as u8
}

/// The two-byte little-endian image of a u16.
pub open spec fn le16(v: u16) -> Seq<u8> {
    seq![u16_lo(v), u16_hi(v)]
}

pub open spec fn u16_of(b0: u8, b1: u8) -> u16 {
    (b0 as u16) | ((b1 as u16) << 8)
}

/// The four-byte little-endian image of a u32.
pub open spec fn le32(v: u32) -> Seq<u8> {
    seq![
        (v & 0xFF) as u8,
        ((v >> 8) & 0xFF) as u8,
        ((v >> 16) & 0xFF) as u8,
        ((v >> 24) & 0xFF) as u8,
    ]
}

pub open spec fn u32_of(b0: u8, b1: u8, b2: u8, b3: u8) -> u32 {
    (b0 as u32) | ((b1 as u32) << 8) | ((b2 as u32) << 16) | ((b3 as u32) << 24)
}

/// The eight-byte little-endian image of a u64.
pub open spec fn le64(v: u64) -> Seq<u8> {
    seq![
        (v & 0xFF) as u8,
        ((v >> 8) & 0xFF) as u8,
        ((v >> 16) & 0xFF) as u8,
        ((v >> 24) & 0xFF) as u8,
        ((v >> 32) & 0xFF) as u8,
        ((v >> 40) & 0xFF) as u8,
        ((v >> 48) & 0xFF) as u8,
        ((v >> 56) & 0xFF) as u8,
    ]
}

pub open spec fn u64_of(
    b0: u8,
    b1: u8,
    b2: u8,
    b3: u8,
    b4: u8,
    b5: u8,
    b6: u8,
    b7: u8,
) -> u64 {
    (b0 as u64) | ((b1 as u64) << 8) | ((b2 as u64) << 16) | ((b3 as u64) << 24) | ((b4 as u64)
        << 32) | ((b5 as u64) << 40) | ((b6 as u64) << 48) | ((b7 as u64) << 56)
}

/// Reading the little-endian image of a u16 recovers the value.
pub proof fn lemma_u16_round(v: u16)
    ensures
        u16_of(u16_lo(v), u16_hi(v)) == v,
{
    assert((((v & 0xFF) as u8) as u16) | (((((v >> 8) & 0xFF) as u8) as u16) << 8) == v)
        by (bit_vector);
}

/// Reading the little-endian image of a u32 recovers the value.
pub proof fn lemma_u32_round(v: u32)
    ensures
        u32_of(le32(v)[0], le32(v)[1], le32(v)[2], le32(v)[3]) == v,
{
    assert((((v & 0xFF) as u8) as u32) | (((((v >> 8) & 0xFF) as u8) as u32) << 8) | (((((v >> 16)
        & 0xFF) as u8) as u32) << 16) | (((((v >> 24) & 0xFF) as u8) as u32) << 24) == v)
        by (bit_vector);
}

/// Reading the little-endian image of a u64 recovers the value.
pub proof fn lemma_u64_round(v: u64)
    ensures
        u64_of(
            le64(v)[0],
            le64(v)[1],
            le64(v)[2],
            le64(v)[3],
            le64(v)[4],
            le64(v)[5],
            le64(v)[6],
            le64(v)[7],
        ) == v,
{
    assert((((v & 0xFF) as u8) as u64) | (((((v >> 8) & 0xFF) as u8) as u64) << 8) | (((((v >> 16)
        & 0xFF) as u8) as u64) << 16) | (((((v >> 24) & 0xFF) as u8) as u64) << 24) | (((((v >> 32)
        & 0xFF) as u8) as u64) << 32) | (((((v >> 40) & 0xFF) as u8) as u64) << 40) | (((((v >> 48)
        & 0xFF) as u8) as u64) << 48) | (((((v >> 56) & 0xFF) as u8) as u64) << 56) == v)
        by (bit_vector);
}

/// A u32 value and its reinterpretation as i32 carry the same bits.
pub proof fn lemma_i32_round(v: i32)
    ensures
        ((v as u32) as i32) == v,
{
    assert(((v as u32) as i32) == v) by (bit_vector);
}

pub fn push_u16_le(out: &mut Vec<u8>, v: u16)
    ensures
        final(out)@ == old(out)@ + le16(v),
{
    out.push((v & 0xFF) as u8);
    out.push(((v >> 8) & 0xFF) as u8);
    proof {
        assert(out@ =~= old(out)@ + le16(v));
    }
}

pub fn push_u32_le(out: &mut Vec<u8>, v: u32)
    ensures
        final(out)@ == old(out)@ + le32(v),
{
    out.push((v & 0xFF) as u8);
    out.push(((v >> 8) & 0xFF) as u8);
    out.push(((v >> 16) & 0xFF) as u8);
    out.push(((v >> 24) & 0xFF) as u8);
    proof {
        assert(out@ =~= old(out)@ + le32(v));
    }
}

pub fn push_u64_le(out: &mut Vec<u8>, v: u64)
    ensures
        final(out)@ == old(out)@ + le64(v),
{
    out.push((v & 0xFF) as u8);
    out.push(((v >> 8) & 0xFF) as u8);
    out.push(((v >> 16) & 0xFF) as u8);
    out.push(((v >> 24) & 0xFF) as u8);
    out.push(((v >> 32) & 0xFF) as u8);
    out.push(((v >> 40) & 0xFF) as u8);
    out.push(((v >> 48) & 0xFF) as u8);
    out.push(((v >> 56) & 0xFF) as u8);
    proof {
        assert(out@ =~= old(out)@ + le64(v));
    }
}

pub fn read_u16_le(data: &Vec<u8>, i: usize) -> (r: u16)
    requires
        i + 2 <= data@.len(),
    ensures
        r == u16_of(data@[i as int], data@[i + 1]),
{
    let n = data.len();
    (data[i] as u16) | ((data[i + 1] as u16) << 8)
}

pub fn read_u32_le(data: &Vec<u8>, i: usize) -> (r: u32)
    requires
        i + 4 <= data@.len(),
    ensures
        r == u32_of(data@[i as int], data@[i + 1], data@[i + 2], data@[i + 3]),
{
    let n = data.len();
    (data[i] as u32) | ((data[i + 1] as u32) << 8) | ((data[i + 2] as u32) << 16) | ((data[i + 3]
        as u32) << 24)
}

pub fn read_u64_le(data: &Vec<u8>, i: usize) -> (r: u64)
    requires
        i + 8 <= data@.len(),
    ensures
        r == u64_of(
            data@[i as int],
            data@[i + 1],
            data@[i + 2],
            data@[i + 3],
            data@[i + 4],
            data@[i + 5],
            data@[i + 6],
            data@[i + 7],
        ),
{
    let n = data.len();
    (data[i] as u64) | ((data[i + 1] as u64) << 8) | ((data[i + 2] as u64) << 16) | ((data[i + 3]
        as u64) << 24) | ((data[i + 4] as u64) << 32) | ((data[i + 5] as u64) << 40) | ((data[i + 6]
        as u64) << 48) | ((data[i + 7] as u64) << 56)
}

/// Drop the first `k` bytes of a buffer, keeping the rest in order.
pub fn drop_front(v: &mut Vec<u8>, k: usize)
    requires
        k <= old(v)@.len(),
    ensures
        final(v)@ == old(v)@.skip(k as int),
{
    let mut out: Vec<u8> = Vec::new();
    let mut i: usize = k;
    while i < v.len()
        invariant
            k <= i <= v@.len(),
            v@ == old(v)@,
            out@ == v@.subrange(k as int, i as int),
        decreases v@.len() - i,
    {
        let b = v[i];
        out.push(b);
        proof {
            assert(out@ =~= v@.subrange(k as int, i + 1 as int));
        }
        i = i + 1;
    }
    proof {
        assert(out@ =~= old(v)@.skip(k as int));
    }
    *v = out;
}

/// Copy `data[start..end]` into a fresh buffer.
pub fn copy_range(data: &Vec<u8>, start: usize, end: usize) -> (r: Vec<u8>)
    requires
        start <= end <= data@.len(),
    ensures
        r@ == data@.subrange(start as int, end as int),
{
    let mut out: Vec<u8> = Vec::new();
    let mut i: usize = start;
    while i < end
        invariant
            start <= i <= end <= data@.len(),
            out@ == data@.subrange(start as int, i as int),
        decreases end - i,
    {
        let b = data[i];
        out.push(b);
        proof {
            assert(out@ =~= data@.subrange(start as int, i + 1 as int));
        }
        i = i + 1;
    }
    out
}

/// Append all bytes of `b`.
pub fn push_bytes(out: &mut Vec<u8>, b: &Vec<u8>)
    ensures
        final(out)@ == old(out)@ + b@,
{
    let mut i: usize = 0;
    while i < b.len()
        invariant
            i <= b@.len(),
            out@ == old(out)@ + b@.subrange(0, i as int),
        decreases b@.len() - i,
    {
        let x = b[i];
        out.push(x);
        proof {
            assert(out@ =~= old(out)@ + b@.subrange(0, i + 1 as int));
        }
        i = i + 1;
    }
    proof {
        assert(out@ =~= old(out)@ + b@);
    }
}

} // verus!
