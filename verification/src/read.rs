//! Reading big-endian numbers from the bytes of a font.

use vstd::prelude::*;

verus! {

/// The number that the bytes `hi lo` stand for, the high byte first.
pub open spec fn be16(hi: u8, lo: u8) -> u16 {
    (hi * 256 + lo) as u16
}

/// The 16-bit number at position `pos` of `bytes`.
pub open spec fn u16_at(bytes: Seq<u8>, pos: int) -> u16 {
    be16(bytes[pos], bytes[pos + 1])
}

/// The 16-bit pattern `v` as a number in two's complement.
pub open spec fn as_signed(v: u16) -> i16 {
    if v >= 0x8000 {
        (v - 0x1_0000) as i16
    } else {
        v as i16
    }
}

/// The signed 16-bit number at position `pos` of `bytes`.
pub open spec fn i16_at(bytes: Seq<u8>, pos: int) -> i16 {
    as_signed(u16_at(bytes, pos))
}

/// The 32-bit number at position `pos` of `bytes`.
pub open spec fn u32_at(bytes: Seq<u8>, pos: int) -> u32 {
    (u16_at(bytes, pos) * 0x1_0000 + u16_at(bytes, pos + 2)) as u32
}

/// Reads the 16-bit number at position `pos`.
pub fn read_u16(data: &[u8], pos: usize) -> (r: u16)
    requires
        pos + 2 <= data@.len(),
    ensures
        r == u16_at(data@, pos as int),
{
    (data[pos] as u16) * 256 + data[pos + 1] as u16
}

/// Turns a 16-bit pattern into the number that it is in two's complement.
pub fn to_signed(v: u16) -> (r: i16)
    ensures
        r == as_signed(v),
{
    if v >= 0x8000 {
        (v as i32 - 0x1_0000) as i16
    } else {
        v as i16
    }
}

/// Reads the signed 16-bit number at position `pos`.
pub fn read_i16(data: &[u8], pos: usize) -> (r: i16)
    requires
        pos + 2 <= data@.len(),
    ensures
        r == i16_at(data@, pos as int),
{
    to_signed(read_u16(data, pos))
}

/// Reads the 32-bit number at position `pos`.
pub fn read_u32(data: &[u8], pos: usize) -> (r: u32)
    requires
        pos + 4 <= data@.len(),
    ensures
        r == u32_at(data@, pos as int),
{
    let len = data.len();
    (read_u16(data, pos) as u32) * 0x1_0000 + read_u16(data, pos + 2) as u32
}

/// Copies the bytes from `start` up to `end`.
pub fn copy_range(data: &[u8], start: usize, end: usize) -> (r: Vec<u8>)
    requires
        start <= end <= data@.len(),
    ensures
        r@ == data@.subrange(start as int, end as int),
{
    let mut r: Vec<u8> = Vec::new();
    let mut i: usize = start;
    while i < end
        invariant
            start <= i <= end <= data@.len(),
            r@ == data@.subrange(start as int, i as int),
        decreases end - i,
    {
        r.push(data[i]);
        assert(r@ =~= data@.subrange(start as int, i + 1));
        i += 1;
    }
    r
}

} // verus!
