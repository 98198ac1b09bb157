//! Instruction-word decoding: extraction of the opcode, register and
//! function fields, and assembly of the format-specific immediates, each
//! sign-extended where the architecture requires it.
//!
//! Decoding is a pure function of the 32-bit instruction word and cannot
//! fail; unknown opcodes and function codes are rejected at dispatch time.

use vstd::prelude::*;
use crate::bits::{
    sign_extend_12, sign_extend_13, sign_extend_21, spec_sign_extend_12, spec_sign_extend_13,
    spec_sign_extend_21,
};

verus! {

/// The opcode: bits 6:0 of the instruction word.
pub open spec fn spec_opcode(inst: u32) -> u32 {
    inst & 0x7F
}

/// The destination register: bits 11:7.
pub open spec fn spec_rd(inst: u32) -> u32 {
    (inst >> 7) & 0x1F
}

/// The minor function code: bits 14:12.
pub open spec fn spec_funct3(inst: u32) -> u32 {
    (inst >> 12) & 0x7
}

/// The first source register: bits 19:15.
pub open spec fn spec_rs1(inst: u32) -> u32 {
    (inst >> 15) & 0x1F
}

/// The second source register: bits 24:20.
pub open spec fn spec_rs2(inst: u32) -> u32 {
    (inst >> 20) & 0x1F
}

/// The major function code: bits 31:25.
pub open spec fn spec_funct7(inst: u32) -> u32 {
    (inst >> 25) & 0x7F
}

/// The I-type immediate: bits 31:20, sign-extended from bit 11.
pub open spec fn spec_imm_i(inst: u32) -> u32 {
    spec_sign_extend_12(inst >> 20)
}

/// The S-type immediate: bits 31:25 (high part) and 11:7 (low part),
/// sign-extended from bit 11.
pub open spec fn spec_imm_s(inst: u32) -> u32 {
    spec_sign_extend_12((((inst >> 25) & 0x7F) << 5) | ((inst >> 7) & 0x1F))
}

/// The B-type immediate: bit 31 is offset bit 12, bit 7 is offset bit 11,
/// bits 30:25 are offset bits 10:5, bits 11:8 are offset bits 4:1, offset
/// bit 0 is zero; sign-extended from bit 12.
pub open spec fn spec_imm_b(inst: u32) -> u32 {
    spec_sign_extend_13(
        (((inst >> 31) & 0x1) << 12) | (((inst >> 7) & 0x1) << 11) | (((inst >> 25) & 0x3F) << 5)
            | (((inst >> 8) & 0xF) << 1),
    )
}

/// The U-type immediate: bits 31:12, shifted left by 12 so that the low 12
/// bits are zero.
pub open spec fn spec_imm_u(inst: u32) -> u32 {
    ((inst >> 12) & 0xFFFFF) << 12
}

/// The J-type immediate: bit 31 is offset bit 20, bits 19:12 keep their
/// places, bit 20 is offset bit 11, bits 30:21 are offset bits 10:1, offset
/// bit 0 is zero; sign-extended from bit 20.
pub open spec fn spec_imm_j(inst: u32) -> u32 {
    spec_sign_extend_21(
        (((inst >> 31) & 0x1) << 20) | (((inst >> 12) & 0xFF) << 12) | (((inst >> 20) & 0x1) << 11)
            | (((inst >> 21) & 0x3FF) << 1),
    )
}

/// The destination register field always names one of the 32 registers.
pub proof fn lemma_rd_in_range(inst: u32)
    ensures
        spec_rd(inst) < 32,
{
    assert((inst >> 7) & 0x1F < 32) by (bit_vector);
}

pub fn opcode(inst: u32) -> (r: u32)
    ensures
        r == spec_opcode(inst),
{
    inst & 0x7F
}

pub fn rd(inst: u32) -> (r: u32)
    ensures
        r == spec_rd(inst),
        r < 32,
{
    let r = (inst >> 7) & 0x1F;
    assert((inst >> 7) & 0x1F < 32) by (bit_vector);
    r
}

pub fn funct3(inst: u32) -> (r: u32)
    ensures
        r == spec_funct3(inst),
        r < 8,
{
    let r = (inst >> 12) & 0x7;
    assert((inst >> 12) & 0x7 < 8) by (bit_vector);
    r
}

pub fn rs1(inst: u32) -> (r: u32)
    ensures
        r == spec_rs1(inst),
        r < 32,
{
    let r = (inst >> 15) & 0x1F;
    assert((inst >> 15) & 0x1F < 32) by (bit_vector);
    r
}

pub fn rs2(inst: u32) -> (r: u32)
    ensures
        r == spec_rs2(inst),
        r < 32,
{
    let r = (inst >> 20) & 0x1F;
    assert((inst >> 20) & 0x1F < 32) by (bit_vector);
    r
}

pub fn funct7(inst: u32) -> (r: u32)
    ensures
        r == spec_funct7(inst),
{
    (inst >> 25) & 0x7F
}

pub fn imm_i(inst: u32) -> (r: u32)
    ensures
        r == spec_imm_i(inst),
{
    sign_extend_12(inst >> 20)
}

pub fn imm_s(inst: u32) -> (r: u32)
    ensures
        r == spec_imm_s(inst),
{
    sign_extend_12((((inst >> 25) & 0x7F) << 5) | ((inst >> 7) & 0x1F))
}

pub fn imm_b(inst: u32) -> (r: u32)
    ensures
        r == spec_imm_b(inst),
{
    sign_extend_13(
        (((inst >> 31) & 0x1) << 12) | (((inst >> 7) & 0x1) << 11) | (((inst >> 25) & 0x3F) << 5)
            | (((inst >> 8) & 0xF) << 1),
    )
}

pub fn imm_u(inst: u32) -> (r: u32)
    ensures
        r == spec_imm_u(inst),
{
    ((inst >> 12) & 0xFFFFF) << 12
}

pub fn imm_j(inst: u32) -> (r: u32)
    ensures
        r == spec_imm_j(inst),
{
    sign_extend_21(
        (((inst >> 31) & 0x1) << 20) | (((inst >> 12) & 0xFF) << 12) | (((inst >> 20) & 0x1) << 11)
            | (((inst >> 21) & 0x3FF) << 1),
    )
}

} // verus!
