//! Word-level arithmetic of the simulator: modulo-2^32 addition and
//! subtraction, sign extension of narrow fields, and the signed view of a
//! 32-bit word.

use vstd::prelude::*;

verus! {

/// The value of a 32-bit word read as a two's-complement signed integer.
pub open spec fn signed32(x: u32) -> int {
    if x < 0x8000_0000 {
        x as int
    } else {
        x as int - 0x1_0000_0000
    }
}

/// Addition modulo 2^32.
pub open spec fn spec_wrap_add(a: u32, b: u32) -> u32 {
    if a + b <= 0xFFFF_FFFF {
        (a + b) as u32
    } else {
        (a + b - 0x1_0000_0000) as u32
    }
}

/// Subtraction modulo 2^32.
pub open spec fn spec_wrap_sub(a: u32, b: u32) -> u32 {
    if a >= b {
        (a - b) as u32
    } else {
        (a - b + 0x1_0000_0000) as u32
    }
}

/// Sign extension of an 8-bit value (held in the low bits of a word) to 32
/// bits: bit 7 is replicated into bits 31:8.
pub open spec fn spec_sign_extend_8(x: u32) -> u32 {
    if x & 0x80 != 0 {
        x | 0xFFFF_FF00
    } else {
        x
    }
}

/// Sign extension of a 16-bit value to 32 bits: bit 15 is replicated into
/// bits 31:16.
pub open spec fn spec_sign_extend_16(x: u32) -> u32 {
    if x & 0x8000 != 0 {
        x | 0xFFFF_0000
    } else {
        x
    }
}

/// Sign extension of a 12-bit value to 32 bits: bit 11 is replicated into
/// bits 31:12.
pub open spec fn spec_sign_extend_12(x: u32) -> u32 {
    if x & 0x800 != 0 {
        x | 0xFFFF_F000
    } else {
        x
    }
}

/// Sign extension of a 13-bit value (a branch offset, bit 0 always zero) to
/// 32 bits: bit 12 is replicated into bits 31:13.
pub open spec fn spec_sign_extend_13(x: u32) -> u32 {
    if x & 0x1000 != 0 {
        x | 0xFFFF_E000
    } else {
        x
    }
}

/// Sign extension of a 21-bit value (a jump offset, bit 0 always zero) to 32
/// bits: bit 20 is replicated into bits 31:21.
pub open spec fn spec_sign_extend_21(x: u32) -> u32 {
    if x & 0x10_0000 != 0 {
        x | 0xFFE0_0000
    } else {
        x
    }
}

/// Arithmetic right shift: the sign bit is replicated into the vacated high
/// bits.
pub open spec fn spec_shift_right_arith(x: u32, s: u32) -> u32
    recommends
        s < 32,
{
    if x & 0x8000_0000 != 0 {
        (x >> s) | !(0xFFFF_FFFFu32 >> s)
    } else {
        x >> s
    }
}

/// Whether `a` is below `b` when both words are read as signed integers.
pub open spec fn spec_signed_lt(a: u32, b: u32) -> bool {
    signed32(a) < signed32(b)
}

pub fn wrap_add(a: u32, b: u32) -> (r: u32)
    ensures
        r == spec_wrap_add(a, b),
{
    a.wrapping_add(b)
}

pub fn wrap_sub(a: u32, b: u32) -> (r: u32)
    ensures
        r == spec_wrap_sub(a, b),
{
    a.wrapping_sub(b)
}

pub fn sign_extend_12(x: u32) -> (r: u32)
    ensures
        r == spec_sign_extend_12(x),
{
    if x & 0x800 != 0 {
        x | 0xFFFF_F000
    } else {
        x
    }
}

pub fn sign_extend_13(x: u32) -> (r: u32)
    ensures
        r == spec_sign_extend_13(x),
{
    if x & 0x1000 != 0 {
        x | 0xFFFF_E000
    } else {
        x
    }
}

pub fn sign_extend_21(x: u32) -> (r: u32)
    ensures
        r == spec_sign_extend_21(x),
{
    if x & 0x10_0000 != 0 {
        x | 0xFFE0_0000
    } else {
        x
    }
}

pub fn sign_extend_8(x: u32) -> (r: u32)
    ensures
        r == spec_sign_extend_8(x),
{
    if x & 0x80 != 0 {
        x | 0xFFFF_FF00
    } else {
        x
    }
}

pub fn sign_extend_16(x: u32) -> (r: u32)
    ensures
        r == spec_sign_extend_16(x),
{
    if x & 0x8000 != 0 {
        x | 0xFFFF_0000
    } else {
        x
    }
}

/// The low byte of a word.
pub fn low_byte(x: u32) -> (r: u8)
    ensures
        r == (x & 0xFF) as u8,
{
    assert(x & 0xFF < 256) by (bit_vector);
    (x & 0xFF) as u8
}

/// The low five bits of a word, used as a shift amount.
pub fn shift_amount(x: u32) -> (r: u32)
    ensures
        r == x & 0x1F,
        r < 32,
{
    let r = x & 0x1F;
    assert(x & 0x1F < 32) by (bit_vector);
    r
}

pub fn shift_right_arith(x: u32, s: u32) -> (r: u32)
    requires
        s < 32,
    ensures
        r == spec_shift_right_arith(x, s),
{
    if x & 0x8000_0000 != 0 {
        (x >> s) | !(0xFFFF_FFFFu32 >> s)
    } else {
        x >> s
    }
}

pub fn signed_lt(a: u32, b: u32) -> (r: bool)
    ensures
        r == spec_signed_lt(a, b),
{
    let a_neg = a >= 0x8000_0000;
    let b_neg = b >= 0x8000_0000;
    if a_neg != b_neg {
        a_neg
    } else {
        a < b
    }
}

} // verus!
