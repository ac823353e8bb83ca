//! The two CRC functions of the wire protocol, as pure functions on
//! byte ranges.
//!
//! CRC-8 uses the MAXIM-DOW parameters (polynomial 0x31, reflected in
//! and out, no output xor) with the initial register overridden to
//! 0xFF; it covers the first four header bytes of a frame.  CRC-16
//! uses the KERMIT parameters (polynomial 0x1021, reflected in and
//! out, no output xor) with the initial register overridden to 0xFFFF;
//! it covers every frame byte up to the two-byte tail.  Both are the
//! reflected (least-significant-bit-first) forms, so the shift step
//! uses the bit-reversed polynomials 0x8C and 0x8408.

use vstd::prelude::*;

verus! {

/// One reflected CRC-8 shift: divide out the lowest bit.
pub open spec fn crc8_shift(r: u8) -> u8 {
    if r & 1 == 1 {
        (r >> 1) ^ 0x8C
    } else {
        r >> 1
    }
}

pub open spec fn crc8_shift_n(r: u8, n: nat) -> u8
    decreases n,
{
    if n == 0 {
        r
    } else {
        crc8_shift(crc8_shift_n(r, (n - 1) as nat))
    }
}

/// Folding one byte into the CRC-8 register.
pub open spec fn crc8_step(r: u8, b: u8) -> u8 {
    crc8_shift_n(r ^ b, 8)
}

/// CRC-8 of a whole byte sequence, register initialized to 0xFF.
pub open spec fn crc8_spec(s: Seq<u8>) -> u8
    decreases s.len(),
{
    if s.len() == 0 {
        0xFF
    } else {
        crc8_step(crc8_spec(s.drop_last()), s.last())
    }
}

/// One reflected CRC-16 shift with the bit-reversed KERMIT polynomial.
pub open spec fn crc16_shift(r: u16) -> u16 {
    if r & 1 == 1 {
        (r >> 1) ^ 0x8408
    } else {
        r >> 1
    }
}

pub open spec fn crc16_shift_n(r: u16, n: nat) -> u16
    decreases n,
{
    if n == 0 {
        r
    } else {
        crc16_shift(crc16_shift_n(r, (n - 1) as nat))
    }
}

pub open spec fn crc16_step(r: u16, b: u8) -> u16 {
    crc16_shift_n(r ^ (b as u16), 8)
}

/// CRC-16 of a whole byte sequence, register initialized to 0xFFFF.
pub open spec fn crc16_spec(s: Seq<u8>) -> u16
    decreases s.len(),
{
    if s.len() == 0 {
        0xFFFF
    } else {
        crc16_step(crc16_spec(s.drop_last()), s.last())
    }
}

/// CRC-8 over `data[start..end]`.
pub fn crc8(data: &Vec<u8>, start: usize, end: usize) -> (r: u8)
    requires
        start <= end <= data@.len(),
    ensures
        r == crc8_spec(data@.subrange(start as int, end as int)),
{
    let mut r: u8 = 0xFF;
    let mut i: usize = start;
    while i < end
        invariant
            start <= i <= end <= data@.len(),
            r == crc8_spec(data@.subrange(start as int, i as int)),
        decreases end - i,
    {
        let b = data[i];
        let mut x: u8 = r ^ b;
        let mut k: usize = 0;
        while k < 8
            invariant
                k <= 8,
                x == crc8_shift_n((r ^ b) as u8, k as nat),
            decreases 8 - k,
        {
            x = if x & 1 == 1 {
                (x >> 1) ^ 0x8C
            } else {
                x >> 1
            };
            k = k + 1;
        }
        proof {
            assert(data@.subrange(start as int, i + 1 as int).drop_last() =~= data@.subrange(
                start as int,
                i as int,
            ));
            assert(data@.subrange(start as int, i + 1 as int).last() == data@[i as int]);
        }
        r = x;
        i = i + 1;
    }
    proof {
        assert(data@.subrange(start as int, end as int) =~= data@.subrange(
            start as int,
            end as int,
        ));
    }
    r
}

/// CRC-16 over `data[start..end]`.
pub fn crc16(data: &Vec<u8>, start: usize, end: usize) -> (r: u16)
    requires
        start <= end <= data@.len(),
    ensures
        r == crc16_spec(data@.subrange(start as int, end as int)),
{
    let mut r: u16 = 0xFFFF;
    let mut i: usize = start;
    while i < end
        invariant
            start <= i <= end <= data@.len(),
            r == crc16_spec(data@.subrange(start as int, i as int)),
        decreases end - i,
    {
        let b = data[i];
        let mut x: u16 = r ^ (b as u16);
        let mut k: usize = 0;
        while k < 8
            invariant
                k <= 8,
                x == crc16_shift_n((r ^ (b as u16)) as u16, k as nat),
            decreases 8 - k,
        {
            x = if x & 1 == 1 {
                (x >> 1) ^ 0x8408
            } else {
                x >> 1
            };
            k = k + 1;
        }
        proof {
            assert(data@.subrange(start as int, i + 1 as int).drop_last() =~= data@.subrange(
                start as int,
                i as int,
            ));
        }
        r = x;
        i = i + 1;
    }
    r
}

} // verus!
