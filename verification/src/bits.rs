//! Arithmetic on 32-bit machine words: two's-complement reading,
//! wraparound addition and subtraction, and sign extension.

use vstd::prelude::*;

verus! {

/// The signed (two's-complement) reading of a 32-bit word.
pub open spec fn as_signed(x: u32) -> int {
    if x >= 0x8000_0000 {
        x - 0x1_0000_0000
    } else {
        x as int
    }
}

/// Wraparound addition of two 32-bit words.
pub open spec fn wadd(a: u32, b: u32) -> u32 {
    vstd::wrapping::u32_specs::wrapping_add(a, b)
}

/// Wraparound subtraction of two 32-bit words.
pub open spec fn wsub(a: u32, b: u32) -> u32 {
    vstd::wrapping::u32_specs::wrapping_sub(a, b)
}

/// A 16-bit immediate sign-extended to a 32-bit word.
pub open spec fn sign_extend16(imm: i16) -> u32 {
    imm as u32
}

/// The low 16 bits of a sign-extended immediate: the zero-extended
/// reading used by the bitwise immediate operations.
pub open spec fn zero_extend16(imm: i16) -> u32 {
    sign_extend16(imm) & 0xFFFF
}

/// The representative of an integer in the signed 32-bit range, congruent
/// to it modulo two to the thirty-second.
pub open spec fn wrap_signed(x: int) -> int {
    ((x + 0x8000_0000) % 0x1_0000_0000) - 0x8000_0000
}

/// A halfword (low 16 bits of a memory cell) sign-extended to 32 bits.
pub open spec fn sign_extend_half(h: u32) -> u32
    recommends
        h < 0x1_0000,
{
    if h >= 0x8000 {
        h | 0xFFFF_0000
    } else {
        h
    }
}

/// Casting a word to `i32` reads it as a signed two's-complement value.
pub proof fn lemma_as_signed_cast(x: u32)
    ensures
        x as i32 == as_signed(x),
{
    assert(x < 0x8000_0000 ==> x as i32 == x) by (bit_vector);
    assert(x >= 0x8000_0000 ==> x as i32 == x - 0x1_0000_0000) by (bit_vector);
}

/// Sign extension keeps the signed value of the immediate.
pub proof fn lemma_sign_extend16_signed(imm: i16)
    ensures
        as_signed(sign_extend16(imm)) == imm,
{
    assert(imm >= 0 ==> ((imm as u32) < 0x8000_0000 && imm as u32 == imm)) by (bit_vector);
    assert(imm < 0 ==> ((imm as u32) >= 0x8000_0000 && imm as u32 == imm + 0x1_0000_0000)) by (bit_vector);
}

} // verus!
