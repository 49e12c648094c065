//! Little-endian primitive readers over a byte buffer.
//!
//! Every field of the format is fixed-width and little-endian; these spec
//! functions are the mathematical meaning of each read, and the exec readers
//! are proved against them.

use vstd::prelude::*;

verus! {

/// The unsigned 8-bit value at position `p`.
pub open spec fn le_u8_at(b: Seq<u8>, p: int) -> u8 {
    b[p]
}

/// The little-endian unsigned 16-bit value at position `p`.
pub open spec fn le_u16_at(b: Seq<u8>, p: int) -> u16 {
    (b[p] + b[p + 1] * 0x100) as u16
}

/// The little-endian unsigned 32-bit value at position `p`.
pub open spec fn le_u32_at(b: Seq<u8>, p: int) -> u32 {
    (b[p] + b[p + 1] * 0x100 + b[p + 2] * 0x10000 + b[p + 3] * 0x1000000) as u32
}

/// The little-endian signed 16-bit value at position `p` (two's complement).
pub open spec fn le_i16_at(b: Seq<u8>, p: int) -> i16 {
    let v = b[p] + b[p + 1] * 0x100;
    (if v >= 0x8000 {
        v - 0x10000
    } else {
        v
    }) as i16
}

/// The little-endian signed 32-bit value at position `p` (two's complement).
pub open spec fn le_i32_at(b: Seq<u8>, p: int) -> i32 {
    let v = b[p] + b[p + 1] * 0x100 + b[p + 2] * 0x10000 + b[p + 3] * 0x1000000;
    (if v >= 0x80000000 {
        v - 0x100000000
    } else {
        v
    }) as i32
}

/// What the wrapping cast of a `u16` to an `i16` yields, in two's complement.
proof fn lemma_u16_as_i16(u: u16)
    ensures
        u >= 0x8000 ==> u as i16 == u - 0x10000,
        u < 0x8000 ==> u as i16 == u,
{
    assert(u >= 0x8000 ==> u as i16 == u - 0x10000) by (bit_vector);
    assert(u < 0x8000 ==> u as i16 == u) by (bit_vector);
}

/// What the wrapping cast of a `u32` to an `i32` yields, in two's complement.
proof fn lemma_u32_as_i32(u: u32)
    ensures
        u >= 0x80000000 ==> u as i32 == u - 0x100000000,
        u < 0x80000000 ==> u as i32 == u,
{
    assert(u >= 0x80000000 ==> u as i32 == u - 0x100000000) by (bit_vector);
    assert(u < 0x80000000 ==> u as i32 == u) by (bit_vector);
}

/// Read one byte.
pub fn read_u8_at(data: &[u8], pos: usize) -> (r: u8)
    requires
        pos + 1 <= data@.len(),
    ensures
        r == le_u8_at(data@, pos as int),
{
    data[pos]
}

/// Read a little-endian u16.
pub fn read_u16_at(data: &[u8], pos: usize) -> (r: u16)
    requires
        pos + 2 <= data@.len(),
    ensures
        r == le_u16_at(data@, pos as int),
{
    let b0 = data[pos];
    let b1 = data[pos + 1];
    (b0 as u16) + (b1 as u16) * 0x100
}

/// Read a little-endian u32.
pub fn read_u32_at(data: &[u8], pos: usize) -> (r: u32)
    requires
        pos + 4 <= data@.len(),
    ensures
        r == le_u32_at(data@, pos as int),
{
    let b0 = data[pos];
    let b1 = data[pos + 1];
    let b2 = data[pos + 2];
    let b3 = data[pos + 3];
    (b0 as u32) + (b1 as u32) * 0x100 + (b2 as u32) * 0x10000 + (b3 as u32) * 0x1000000
}

/// Read a little-endian i16.
pub fn read_i16_at(data: &[u8], pos: usize) -> (r: i16)
    requires
        pos + 2 <= data@.len(),
    ensures
        r == le_i16_at(data@, pos as int),
{
    let u = read_u16_at(data, pos);
    proof {
        lemma_u16_as_i16(u);
    }
    u as i16
}

/// Read a little-endian i32.
pub fn read_i32_at(data: &[u8], pos: usize) -> (r: i32)
    requires
        pos + 4 <= data@.len(),
    ensures
        r == le_i32_at(data@, pos as int),
{
    let u = read_u32_at(data, pos);
    proof {
        lemma_u32_as_i32(u);
    }
    u as i32
}

} // verus!
