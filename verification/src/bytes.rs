//! Integer encodings used by the instruction stream: little-endian double
//! words, two's-complement sign extension and 32-bit wrap-around.

use vstd::prelude::*;

verus! {

/// The double word whose little-endian encoding is `b0, b1, b2, b3`.
pub open spec fn le_dword(b0: u8, b1: u8, b2: u8, b3: u8) -> u32 {
    (b0 + 0x100 * b1 + 0x1_0000 * b2 + 0x100_0000 * b3) as u32
}

/// Byte number `k` (0 is the least significant) of the little-endian
/// encoding of `value`.
pub open spec fn dword_byte(value: u32, k: int) -> u8 {
    if k == 0 {
        (value % 0x100) as u8
    } else if k == 1 {
        (value / 0x100 % 0x100) as u8
    } else if k == 2 {
        (value / 0x1_0000 % 0x100) as u8
    } else {
        (value / 0x100_0000 % 0x100) as u8
    }
}

/// The four bytes that encode `value`, least significant first.
pub open spec fn le_bytes(value: u32) -> Seq<u8> {
    seq![dword_byte(value, 0), dword_byte(value, 1), dword_byte(value, 2), dword_byte(value, 3)]
}

/// The byte `b` read as a two's-complement number.
pub open spec fn sign_extend8(b: u8) -> i32 {
    if b < 0x80 {
        b as i32
    } else {
        (b - 0x100) as i32
    }
}

/// The double word `value` read as a two's-complement number.
pub open spec fn sign_extend32(value: u32) -> i32 {
    if value < 0x8000_0000 {
        value as i32
    } else {
        (value - 0x1_0000_0000) as i32
    }
}

/// The byte that encodes the signed number `d` in two's complement.
pub open spec fn byte_of(d: i8) -> u8 {
    if d >= 0 {
        d as u8
    } else {
        (d + 0x100) as u8
    }
}

/// The double word that encodes the signed number `d` in two's complement.
pub open spec fn dword_of(d: i32) -> u32 {
    if d >= 0 {
        d as u32
    } else {
        (d + 0x1_0000_0000) as u32
    }
}

/// The 32-bit register value that stands for the integer `x`: its residue
/// modulo 2^32.
pub open spec fn wrap32(x: int) -> u32 {
    (x % 0x1_0000_0000) as u32
}

/// Decoding the encoding of a double word gives the double word back.
pub proof fn lemma_le_round_trip(value: u32)
    ensures
        le_dword(
            dword_byte(value, 0),
            dword_byte(value, 1),
            dword_byte(value, 2),
            dword_byte(value, 3),
        ) == value,
{
}

/// Encoding a decoded double word gives its four bytes back.
pub proof fn lemma_le_bytes_of_dword(b0: u8, b1: u8, b2: u8, b3: u8)
    ensures
        dword_byte(le_dword(b0, b1, b2, b3), 0) == b0,
        dword_byte(le_dword(b0, b1, b2, b3), 1) == b1,
        dword_byte(le_dword(b0, b1, b2, b3), 2) == b2,
        dword_byte(le_dword(b0, b1, b2, b3), 3) == b3,
{
}

/// Sign extension undoes two's-complement encoding, for bytes and for double
/// words.
pub proof fn lemma_sign_round_trip(d8: i8, d32: i32)
    ensures
        sign_extend8(byte_of(d8)) == d8,
        sign_extend32(dword_of(d32)) == d32,
{
}

/// Assembles a double word from its little-endian bytes.
pub fn dword_from_le(b0: u8, b1: u8, b2: u8, b3: u8) -> (value: u32)
    ensures
        value == le_dword(b0, b1, b2, b3),
{
    let value: u32 = (b0 as u32) | ((b1 as u32) << 8) | ((b2 as u32) << 16) | ((b3 as u32) << 24);
    assert((b0 as u32) | ((b1 as u32) << 8) | ((b2 as u32) << 16) | ((b3 as u32) << 24) == b0
        + 0x100 * b1 + 0x1_0000 * b2 + 0x100_0000 * b3) by (bit_vector);
    value
}

/// The least significant byte of `value`.
pub fn low_byte(value: u32) -> (byte: u8)
    ensures
        byte == dword_byte(value, 0),
{
    assert(value & 0xFF == value % 0x100) by (bit_vector);
    (value & 0xFF) as u8
}

/// The low byte of `value` shifted right by 8, 16 or 24 bits is byte 1, 2 or
/// 3 of `value`.
pub proof fn lemma_shifted_bytes(value: u32)
    ensures
        dword_byte(value >> 8, 0) == dword_byte(value, 1),
        dword_byte(value >> 16, 0) == dword_byte(value, 2),
        dword_byte(value >> 24, 0) == dword_byte(value, 3),
{
    assert((value >> 8) % 0x100 == value / 0x100 % 0x100) by (bit_vector);
    assert((value >> 16) % 0x100 == value / 0x1_0000 % 0x100) by (bit_vector);
    assert((value >> 24) % 0x100 == value / 0x100_0000 % 0x100) by (bit_vector);
}

/// Sign-extends a byte to 32 bits.
pub fn sign_extend_byte(b: u8) -> (value: i32)
    ensures
        value == sign_extend8(b),
        -0x80 <= value < 0x80,
{
    if b < 0x80 {
        b as i32
    } else {
        b as i32 - 0x100
    }
}

/// Reads a double word as a signed number.
pub fn sign_extend_dword(value: u32) -> (signed: i32)
    ensures
        signed == sign_extend32(value),
{
    if value < 0x8000_0000 {
        value as i32
    } else {
        (value as i64 - 0x1_0000_0000) as i32
    }
}

} // verus!
