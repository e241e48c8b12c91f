//! Little-endian byte layouts of the EC's packed structs.
use vstd::prelude::*;

verus! {

/// The `u16` stored little-endian at `b[i..i + 2]`.
pub open spec fn le_u16(b: Seq<u8>, i: int) -> u16 {
    (b[i] as int + 256 * (b[i + 1] as int)) as u16
}

/// The `i16` stored little-endian (two's complement) at `b[i..i + 2]`.
pub open spec fn le_i16(b: Seq<u8>, i: int) -> i16 {
    le_u16(b, i) as i16
}

/// The `u32` stored little-endian at `b[i..i + 4]`.
pub open spec fn le_u32(b: Seq<u8>, i: int) -> u32 {
    (b[i] as int + 256 * (b[i + 1] as int) + 65536 * (b[i + 2] as int) + 16777216 * (
    b[i + 3] as int)) as u32
}

/// The `u64` stored little-endian at `b[i..i + 8]`.
pub open spec fn le_u64(b: Seq<u8>, i: int) -> u64 {
    (le_u32(b, i) as int + 4294967296 * (le_u32(b, i + 4) as int)) as u64
}

/// The little-endian bytes of a `u16`.
pub open spec fn u16_le(v: u16) -> Seq<u8> {
    seq![(v % 256) as u8, (v / 256) as u8]
}

/// The little-endian bytes of a `u32`.
pub open spec fn u32_le(v: u32) -> Seq<u8> {
    seq![
        (v % 256) as u8,
        ((v / 256) % 256) as u8,
        ((v / 65536) % 256) as u8,
        (v / 16777216) as u8,
    ]
}

/// The little-endian two's-complement bytes of an `i16`.
pub open spec fn i16_le(v: i16) -> Seq<u8> {
    u16_le(v as u16)
}

pub fn read_u16(b: &[u8], i: usize) -> (r: u16)
    requires
        i + 1 < b.len(),
    ensures
        r == le_u16(b@, i as int),
{
    b[i] as u16 + (b[i + 1] as u16) * 256
}

pub fn read_i16(b: &[u8], i: usize) -> (r: i16)
    requires
        i + 1 < b.len(),
    ensures
        r == le_i16(b@, i as int),
{
    read_u16(b, i) as i16
}

pub fn read_u32(b: &[u8], i: usize) -> (r: u32)
    requires
        i + 3 < b.len(),
    ensures
        r == le_u32(b@, i as int),
{
    b[i] as u32 + (b[i + 1] as u32) * 256 + (b[i + 2] as u32) * 65536 + (b[i + 3] as u32)
        * 16777216
}

pub fn read_u64(b: &[u8], i: usize) -> (r: u64)
    requires
        i + 7 < b.len(),
    ensures
        r == le_u64(b@, i as int),
{
    read_u32(b, i) as u64 + (read_u32(b, i + 4) as u64) * 4294967296
}

pub fn push_u16(out: &mut Vec<u8>, v: u16)
    ensures
        final(out)@ == old(out)@ + u16_le(v),
{
    out.push((v % 256) as u8);
    out.push((v / 256) as u8);
}

pub fn push_u32(out: &mut Vec<u8>, v: u32)
    ensures
        final(out)@ == old(out)@ + u32_le(v),
{
    out.push((v % 256) as u8);
    out.push(((v / 256) % 256) as u8);
    out.push(((v / 65536) % 256) as u8);
    out.push((v / 16777216) as u8);
}

pub fn push_i16(out: &mut Vec<u8>, v: i16)
    ensures
        final(out)@ == old(out)@ + i16_le(v),
{
    push_u16(out, v as u16);
}

} // verus!
