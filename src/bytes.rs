//! Little-endian reads of fixed-width fields out of a byte buffer.
use vstd::prelude::*;

verus! {

/// The unsigned 16-bit value stored little-endian at `i`.
pub open spec fn le_u16(b: Seq<u8>, i: int) -> u16 {
    (b[i] as int + 0x100 * b[i + 1] as int) as u16
}

/// The unsigned 32-bit value stored little-endian at `i`.
pub open spec fn le_u32(b: Seq<u8>, i: int) -> u32 {
    (le_u16(b, i) as int + 0x1_0000 * le_u16(b, i + 2) as int) as u32
}

/// The unsigned 64-bit value stored little-endian at `i`.
pub open spec fn le_u64(b: Seq<u8>, i: int) -> u64 {
    (le_u32(b, i) as int + 0x1_0000_0000 * le_u32(b, i + 4) as int) as u64
}

/// The signed 32-bit value stored little-endian, two's complement, at `i`.
pub open spec fn le_i32(b: Seq<u8>, i: int) -> i32 {
    le_u32(b, i) as i32
}

pub fn read_u16(b: &Vec<u8>, i: usize) -> (r: u16)
    requires
        i + 2 <= b@.len(),
    ensures
        r == le_u16(b@, i as int),
{
    // a Vec's length fits in usize, so the offsets below cannot overflow
    let _len: usize = b.len();
    let lo: u16 = b[i] as u16;
    let hi: u16 = b[i + 1] as u16;
    lo + hi * 0x100
}

pub fn read_u32(b: &Vec<u8>, i: usize) -> (r: u32)
    requires
        i + 4 <= b@.len(),
    ensures
        r == le_u32(b@, i as int),
{
    // a Vec's length fits in usize, so the offsets below cannot overflow
    let _len: usize = b.len();
    let lo: u32 = read_u16(b, i) as u32;
    let hi: u32 = read_u16(b, i + 2) as u32;
    lo + hi * 0x1_0000
}

pub fn read_u64(b: &Vec<u8>, i: usize) -> (r: u64)
    requires
        i + 8 <= b@.len(),
    ensures
        r == le_u64(b@, i as int),
{
    // a Vec's length fits in usize, so the offsets below cannot overflow
    let _len: usize = b.len();
    let lo: u64 = read_u32(b, i) as u64;
    let hi: u64 = read_u32(b, i + 4) as u64;
    lo + hi * 0x1_0000_0000
}

pub fn read_i32(b: &Vec<u8>, i: usize) -> (r: i32)
    requires
        i + 4 <= b@.len(),
    ensures
        r == le_i32(b@, i as int),
{
    read_u32(b, i) as i32
}

} // verus!
