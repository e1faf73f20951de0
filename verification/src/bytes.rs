use vstd::prelude::*;

verus! {

/// The unsigned 16-bit number whose little-endian bytes are `lo`, `hi`.
pub open spec fn spec_u16_le(lo: u8, hi: u8) -> u16 {
    (lo as int + 256 * (hi as int)) as u16
}

/// The signed 16-bit number whose little-endian two's complement bytes are `lo`, `hi`.
pub open spec fn spec_i16_le(lo: u8, hi: u8) -> i16 {
    let v = lo as int + 256 * (hi as int);
    if v < 32768 {
        v as i16
    } else {
        (v - 65536) as i16
    }
}

/// The unsigned 32-bit number whose little-endian bytes are `b0` to `b3`.
pub open spec fn spec_u32_le(b0: u8, b1: u8, b2: u8, b3: u8) -> u32 {
    (b0 as int + 256 * (b1 as int) + 65536 * (b2 as int) + 16777216 * (b3 as int)) as u32
}

/// Byte `i` (0 the lowest) of the little-endian form of `x`.
pub open spec fn spec_le_byte(x: u32, i: nat) -> u8 {
    if i == 0 {
        (x as int % 256) as u8
    } else if i == 1 {
        (x as int / 256 % 256) as u8
    } else if i == 2 {
        (x as int / 65536 % 256) as u8
    } else {
        (x as int / 16777216 % 256) as u8
    }
}

/// The four little-endian bytes of `x`.
pub open spec fn spec_u32_to_le(x: u32) -> Seq<u8> {
    seq![spec_le_byte(x, 0), spec_le_byte(x, 1), spec_le_byte(x, 2), spec_le_byte(x, 3)]
}

pub fn u16_from_le(lo: u8, hi: u8) -> (v: u16)
    ensures
        v == spec_u16_le(lo, hi),
{
    lo as u16 + 256 * (hi as u16)
}

pub fn i16_from_le(lo: u8, hi: u8) -> (v: i16)
    ensures
        v == spec_i16_le(lo, hi),
{
    let v: i32 = lo as i32 + 256 * (hi as i32);
    if v < 32768 {
        v as i16
    } else {
        (v - 65536) as i16
    }
}

pub fn u32_from_le(b0: u8, b1: u8, b2: u8, b3: u8) -> (v: u32)
    ensures
        v == spec_u32_le(b0, b1, b2, b3),
{
    b0 as u32 + 256 * (b1 as u32) + 65536 * (b2 as u32) + 16777216 * (b3 as u32)
}

pub fn u32_to_le(x: u32) -> (bytes: [u8; 4])
    ensures
        bytes@ == spec_u32_to_le(x),
{
    [
        (x % 256) as u8,
        (x / 256 % 256) as u8,
        (x / 65536 % 256) as u8,
        (x / 16777216 % 256) as u8,
    ]
}

/// Reading back the little-endian bytes of a number gives the number.
pub proof fn lemma_u32_le_round_trip(x: u32)
    ensures
        spec_u32_le(spec_le_byte(x, 0), spec_le_byte(x, 1), spec_le_byte(x, 2), spec_le_byte(x, 3))
            == x,
{
}

} // verus!
