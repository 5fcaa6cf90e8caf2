//! Integers as the controller lays them out in bytes.
//!
//! Key identifiers and type tags travel most significant byte first; numeric
//! payloads are stored least significant byte first.  The specifications here
//! say what number a run of bytes spells; the executable functions compute it.
use vstd::prelude::*;
use crate::structs::SMCBytes;

verus! {

/// The number spelled by the first four bytes of `b`, most significant first.
pub open spec fn be_u32(b: Seq<u8>) -> int
    recommends
        b.len() >= 4,
{
    b[0] as int * 0x100_0000 + b[1] as int * 0x1_0000 + b[2] as int * 0x100 + b[3] as int
}

/// The four bytes that spell `v`, most significant first.
pub open spec fn be_bytes(v: u32) -> [u8; 4] {
    [
        (v / 0x100_0000) as u8,
        (v / 0x1_0000 % 0x100) as u8,
        (v / 0x100 % 0x100) as u8,
        (v % 0x100) as u8,
    ]
}

/// The number spelled by the first two bytes of `b`, least significant first.
pub open spec fn le_u16(b: Seq<u8>) -> int
    recommends
        b.len() >= 2,
{
    b[0] as int + b[1] as int * 0x100
}

/// The number spelled by the first four bytes of `b`, least significant first.
pub open spec fn le_u32(b: Seq<u8>) -> int
    recommends
        b.len() >= 4,
{
    b[0] as int + b[1] as int * 0x100 + b[2] as int * 0x1_0000 + b[3] as int * 0x100_0000
}

/// The number spelled by the first eight bytes of `b`, least significant first.
pub open spec fn le_u64(b: Seq<u8>) -> int
    recommends
        b.len() >= 8,
{
    le_u32(b) + le_u32(b.skip(4)) * 0x1_0000_0000
}

/// The value of a bit pattern read as two's complement.  `v` is the pattern
/// read as an unsigned number and `half` the weight of its top bit: patterns
/// with the top bit set stand for `v` less twice that weight.
pub open spec fn as_signed(v: int, half: int) -> int {
    if v < half {
        v
    } else {
        v - 2 * half
    }
}

/// Reads four bytes, most significant first.
pub fn u32_from_be_bytes(b: &[u8; 4]) -> (r: u32)
    ensures
        r == be_u32(b@),
{
    (b[0] as u32) * 0x100_0000 + (b[1] as u32) * 0x1_0000 + (b[2] as u32) * 0x100 + (b[3] as u32)
}

/// Writes a number as four bytes, most significant first.
pub fn u32_to_be_bytes(v: u32) -> (r: [u8; 4])
    ensures
        r == be_bytes(v),
{
    let r = [
        (v / 0x100_0000) as u8,
        (v / 0x1_0000 % 0x100) as u8,
        (v / 0x100 % 0x100) as u8,
        (v % 0x100) as u8,
    ];
    assert(r =~= be_bytes(v));
    r
}

/// Reads the two leading bytes of a payload, least significant first.
pub fn u16_from_le_bytes(data: &SMCBytes) -> (r: u16)
    ensures
        r == le_u16(data@),
{
    (data[0] as u16) + (data[1] as u16) * 0x100
}

/// Reads the four leading bytes of a payload, least significant first.
pub fn u32_from_le_bytes(data: &SMCBytes) -> (r: u32)
    ensures
        r == le_u32(data@),
{
    (data[0] as u32) + (data[1] as u32) * 0x100 + (data[2] as u32) * 0x1_0000 + (data[3] as u32)
        * 0x100_0000
}

/// Reads the eight leading bytes of a payload, least significant first.
pub fn u64_from_le_bytes(data: &SMCBytes) -> (r: u64)
    ensures
        r == le_u64(data@),
{
    let low: u64 = (data[0] as u64) + (data[1] as u64) * 0x100 + (data[2] as u64) * 0x1_0000 + (
    data[3] as u64) * 0x100_0000;
    let high: u64 = (data[4] as u64) + (data[5] as u64) * 0x100 + (data[6] as u64) * 0x1_0000 + (
    data[7] as u64) * 0x100_0000;
    low + high * 0x1_0000_0000
}

/// Reads an 8-bit pattern as two's complement.
pub fn i8_from_bits(v: u8) -> (r: i8)
    ensures
        r == as_signed(v as int, 0x80),
{
    if v < 0x80 {
        v as i8
    } else {
        (v as i16 - 0x100) as i8
    }
}

/// Reads a 16-bit pattern as two's complement.
pub fn i16_from_bits(v: u16) -> (r: i16)
    ensures
        r == as_signed(v as int, 0x8000),
{
    if v < 0x8000 {
        v as i16
    } else {
        (v as i32 - 0x1_0000) as i16
    }
}

/// Reads a 32-bit pattern as two's complement.
pub fn i32_from_bits(v: u32) -> (r: i32)
    ensures
        r == as_signed(v as int, 0x8000_0000),
{
    if v < 0x8000_0000 {
        v as i32
    } else {
        (v as i64 - 0x1_0000_0000) as i32
    }
}

/// Reads a 64-bit pattern as two's complement.
pub fn i64_from_bits(v: u64) -> (r: i64)
    ensures
        r == as_signed(v as int, 0x8000_0000_0000_0000),
{
    if v < 0x8000_0000_0000_0000 {
        v as i64
    } else {
        ((v - 0x8000_0000_0000_0000) as i64) + i64::MIN
    }
}

/// Writing a number and reading the bytes back gives the number again.
pub proof fn lemma_be_u32_of_be_bytes(v: u32)
    ensures
        be_u32(be_bytes(v)@) == v,
{
    let b = be_bytes(v)@;
    assert(b[0] == v / 0x100_0000);
    assert(b[1] == v / 0x1_0000 % 0x100);
    assert(b[2] == v / 0x100 % 0x100);
    assert(b[3] == v % 0x100);
}

/// Reading four bytes and writing the number back gives the bytes again.
pub proof fn lemma_be_bytes_of_be_u32(b: [u8; 4])
    ensures
        0 <= be_u32(b@) <= u32::MAX,
        be_bytes(be_u32(b@) as u32) == b,
{
    let b0 = b[0] as int;
    let b1 = b[1] as int;
    let b2 = b[2] as int;
    let b3 = b[3] as int;
    let x = b0 * 0x100_0000 + b1 * 0x1_0000 + b2 * 0x100 + b3;
    assert(x == be_u32(b@));
    assert(x % 0x100 == b3);
    assert(x / 0x100 == b0 * 0x1_0000 + b1 * 0x100 + b2);
    assert(x / 0x1_0000 == b0 * 0x100 + b1);
    assert(x / 0x100_0000 == b0);
    assert(be_bytes(x as u32) =~= b);
}

} // verus!
