//! The architectural semantics of the simulator, stated over a mathematical
//! model of the machine: a sequence of 32 register values, a program counter
//! and a sequence of memory bytes.
//!
//! Every executable operation of [`crate::cpu::RiscvCpu`] is specified
//! against the transition functions of this module.

use vstd::prelude::*;
use crate::bits::{
    spec_shift_right_arith, spec_sign_extend_16, spec_sign_extend_8, spec_signed_lt,
    spec_wrap_add, spec_wrap_sub,
};
use crate::decode::{
    spec_funct3, spec_funct7, spec_imm_b, spec_imm_i, spec_imm_j, spec_imm_s, spec_imm_u,
    spec_opcode, spec_rd, spec_rs1, spec_rs2,
};

verus! {

/// The width of a memory transfer.
#[derive(Copy, Clone)]
pub enum MemSize {
    Byte,
    Half,
    Word,
}

/// A failure of one step, reported to the caller with all architectural
/// state left as it was.
#[derive(Copy, Clone, Debug, PartialEq, Eq, Structural)]
pub enum EmuError {
    /// The opcode, or a format's funct3/funct7 combination, is not one of
    /// the defined values.
    InvalidInstruction,
    /// The byte range of a load, store or fetch falls outside the memory.
    MemoryFault,
}

/// The architectural state of the machine: the register file, the program
/// counter and the memory image.
pub struct CpuModel {
    pub regs: Seq<u32>,
    pub pc: u32,
    pub mem: Seq<u8>,
}

pub open spec fn with_regs(s: CpuModel, regs: Seq<u32>) -> CpuModel {
    CpuModel { regs, ..s }
}

pub open spec fn with_pc(s: CpuModel, pc: u32) -> CpuModel {
    CpuModel { pc, ..s }
}

pub open spec fn with_mem(s: CpuModel, mem: Seq<u8>) -> CpuModel {
    CpuModel { mem, ..s }
}

/// A write to the register file: register 0 is hardwired to zero, so a write
/// with destination 0 is discarded.
pub open spec fn spec_write_reg(regs: Seq<u32>, rd: u32, value: u32) -> Seq<u32>
    recommends
        rd < 32,
        regs.len() == 32,
{
    if rd == 0 {
        regs
    } else {
        regs.update(rd as int, value)
    }
}

/// How many bytes a transfer of the given width touches.
pub open spec fn size_bytes(size: MemSize) -> int {
    match size {
        MemSize::Byte => 1,
        MemSize::Half => 2,
        MemSize::Word => 4,
    }
}

/// The raw (zero-extended) value of `size` bytes read little-endian at
/// address `a`.
pub open spec fn spec_mem_read(mem: Seq<u8>, a: int, size: MemSize) -> u32
    recommends
        0 <= a,
        a + size_bytes(size) <= mem.len(),
{
    match size {
        MemSize::Byte => mem[a] as u32,
        MemSize::Half => (mem[a] as u32) | ((mem[a + 1] as u32) << 8),
        MemSize::Word => (mem[a] as u32) | ((mem[a + 1] as u32) << 8) | ((mem[a + 2] as u32) << 16)
            | ((mem[a + 3] as u32) << 24),
    }
}

/// The memory after the low `size` bytes of `value` are stored little-endian
/// at address `a`; every byte outside the written range is untouched.
pub open spec fn spec_mem_write(mem: Seq<u8>, a: int, size: MemSize, value: u32) -> Seq<u8>
    recommends
        0 <= a,
        a + size_bytes(size) <= mem.len(),
{
    match size {
        MemSize::Byte => mem.update(a, (value & 0xFF) as u8),
        MemSize::Half => mem.update(a, (value & 0xFF) as u8).update(
            a + 1,
            ((value >> 8) & 0xFF) as u8,
        ),
        MemSize::Word => mem.update(a, (value & 0xFF) as u8).update(
            a + 1,
            ((value >> 8) & 0xFF) as u8,
        ).update(a + 2, ((value >> 16) & 0xFF) as u8).update(a + 3, ((value >> 24) & 0xFF) as u8),
    }
}

/// The register value produced by a load: the raw little-endian bytes,
/// sign-extended for the signed byte and half-word forms, zero-extended
/// otherwise.
pub open spec fn spec_load_value(mem: Seq<u8>, a: int, size: MemSize, signed: bool) -> u32
    recommends
        0 <= a,
        a + size_bytes(size) <= mem.len(),
{
    let raw = spec_mem_read(mem, a, size);
    if !signed {
        raw
    } else {
        match size {
            MemSize::Byte => spec_sign_extend_8(raw),
            MemSize::Half => spec_sign_extend_16(raw),
            MemSize::Word => raw,
        }
    }
}

/// Whether the funct3/funct7 combination of a register-register instruction
/// is defined.
pub open spec fn rtype_valid(inst: u32) -> bool {
    let f3 = spec_funct3(inst);
    let f7 = spec_funct7(inst);
    if f3 == 0 || f3 == 5 {
        f7 == 0x00 || f7 == 0x20
    } else {
        true
    }
}

/// The result of a register-register operation on operands `a` and `b`.
pub open spec fn rtype_value(inst: u32, a: u32, b: u32) -> u32
    recommends
        rtype_valid(inst),
{
    let f3 = spec_funct3(inst);
    let f7 = spec_funct7(inst);
    if f3 == 0 {
        if f7 == 0x00 {
            spec_wrap_add(a, b)
        } else {
            spec_wrap_sub(a, b)
        }
    } else if f3 == 1 {
        a << (b & 0x1F)
    } else if f3 == 2 {
        if spec_signed_lt(a, b) {
            1u32
        } else {
            0u32
        }
    } else if f3 == 3 {
        if a < b {
            1u32
        } else {
            0u32
        }
    } else if f3 == 4 {
        a ^ b
    } else if f3 == 5 {
        if f7 == 0x00 {
            a >> (b & 0x1F)
        } else {
            spec_shift_right_arith(a, b & 0x1F)
        }
    } else if f3 == 6 {
        a | b
    } else {
        a & b
    }
}

/// Whether the funct3/funct7 combination of a register-immediate instruction
/// is defined.
pub open spec fn itype_valid(inst: u32) -> bool {
    let f3 = spec_funct3(inst);
    let f7 = spec_funct7(inst);
    if f3 == 5 {
        f7 == 0x00 || f7 == 0x20
    } else {
        true
    }
}

/// The result of a register-immediate operation on operand `a`.
pub open spec fn itype_value(inst: u32, a: u32) -> u32
    recommends
        itype_valid(inst),
{
    let f3 = spec_funct3(inst);
    let f7 = spec_funct7(inst);
    let imm = spec_imm_i(inst);
    if f3 == 0 {
        spec_wrap_add(a, imm)
    } else if f3 == 1 {
        a << (imm & 0x1F)
    } else if f3 == 2 {
        if spec_signed_lt(a, imm) {
            1u32
        } else {
            0u32
        }
    } else if f3 == 3 {
        if a < imm {
            1u32
        } else {
            0u32
        }
    } else if f3 == 4 {
        a ^ imm
    } else if f3 == 5 {
        if f7 == 0x00 {
            a >> (imm & 0x1F)
        } else {
            spec_shift_right_arith(a, imm & 0x1F)
        }
    } else if f3 == 6 {
        a | imm
    } else {
        a & imm
    }
}

/// Whether the funct3 of a load instruction is defined.
pub open spec fn load_valid(inst: u32) -> bool {
    let f3 = spec_funct3(inst);
    f3 == 0 || f3 == 1 || f3 == 2 || f3 == 4 || f3 == 5
}

/// The transfer width a load's funct3 selects.
pub open spec fn load_size(inst: u32) -> MemSize
    recommends
        load_valid(inst),
{
    let f3 = spec_funct3(inst);
    if f3 == 0 || f3 == 4 {
        MemSize::Byte
    } else if f3 == 1 || f3 == 5 {
        MemSize::Half
    } else {
        MemSize::Word
    }
}

/// Whether a load's funct3 selects a sign-extending form.
pub open spec fn load_signed(inst: u32) -> bool {
    spec_funct3(inst) < 4
}

/// Whether the funct3 of a store instruction is defined.
pub open spec fn store_valid(inst: u32) -> bool {
    let f3 = spec_funct3(inst);
    f3 == 0 || f3 == 1 || f3 == 2
}

/// The transfer width a store's funct3 selects.
pub open spec fn store_size(inst: u32) -> MemSize
    recommends
        store_valid(inst),
{
    let f3 = spec_funct3(inst);
    if f3 == 0 {
        MemSize::Byte
    } else if f3 == 1 {
        MemSize::Half
    } else {
        MemSize::Word
    }
}

/// Whether the funct3 of a branch instruction is defined.
pub open spec fn btype_valid(inst: u32) -> bool {
    let f3 = spec_funct3(inst);
    f3 == 0 || f3 == 1 || f3 == 4 || f3 == 5 || f3 == 6 || f3 == 7
}

/// Whether a branch's condition holds on operands `a` and `b`.
pub open spec fn branch_taken(inst: u32, a: u32, b: u32) -> bool
    recommends
        btype_valid(inst),
{
    let f3 = spec_funct3(inst);
    if f3 == 0 {
        a == b
    } else if f3 == 1 {
        a != b
    } else if f3 == 4 {
        spec_signed_lt(a, b)
    } else if f3 == 5 {
        !spec_signed_lt(a, b)
    } else if f3 == 6 {
        a < b
    } else {
        a >= b
    }
}

/// Whether the funct3 of a register-indirect jump is defined.
pub open spec fn jalr_valid(inst: u32) -> bool {
    spec_funct3(inst) == 0
}

/// The effective address of a load: base register plus sign-extended I-type
/// immediate, modulo 2^32.
pub open spec fn load_addr(s: CpuModel, inst: u32) -> u32
    recommends
        s.regs.len() == 32,
{
    spec_wrap_add(s.regs[spec_rs1(inst) as int], spec_imm_i(inst))
}

/// The effective address of a store: base register plus sign-extended S-type
/// immediate, modulo 2^32.
pub open spec fn store_addr(s: CpuModel, inst: u32) -> u32
    recommends
        s.regs.len() == 32,
{
    spec_wrap_add(s.regs[spec_rs1(inst) as int], spec_imm_s(inst))
}

/// The effect of a register-register instruction on the machine state,
/// before the program counter advances.
pub open spec fn rtype_step(s: CpuModel, inst: u32) -> Result<CpuModel, EmuError>
    recommends
        s.regs.len() == 32,
{
    if rtype_valid(inst) {
        let a = s.regs[spec_rs1(inst) as int];
        let b = s.regs[spec_rs2(inst) as int];
        Ok(with_regs(s, spec_write_reg(s.regs, spec_rd(inst), rtype_value(inst, a, b))))
    } else {
        Err(EmuError::InvalidInstruction)
    }
}

/// The effect of a register-immediate instruction on the machine state,
/// before the program counter advances.
pub open spec fn itype_step(s: CpuModel, inst: u32) -> Result<CpuModel, EmuError>
    recommends
        s.regs.len() == 32,
{
    if itype_valid(inst) {
        let a = s.regs[spec_rs1(inst) as int];
        Ok(with_regs(s, spec_write_reg(s.regs, spec_rd(inst), itype_value(inst, a))))
    } else {
        Err(EmuError::InvalidInstruction)
    }
}

/// The effect of a load instruction on the machine state, before the program
/// counter advances. An undefined funct3 is an invalid instruction; a byte
/// range outside the memory is a fault, and no register is written.
pub open spec fn load_step(s: CpuModel, inst: u32) -> Result<CpuModel, EmuError>
    recommends
        s.regs.len() == 32,
{
    if !load_valid(inst) {
        Err(EmuError::InvalidInstruction)
    } else {
        let addr = load_addr(s, inst);
        let size = load_size(inst);
        if addr + size_bytes(size) > s.mem.len() {
            Err(EmuError::MemoryFault)
        } else {
            let value = spec_load_value(s.mem, addr as int, size, load_signed(inst));
            Ok(with_regs(s, spec_write_reg(s.regs, spec_rd(inst), value)))
        }
    }
}

/// The effect of a store instruction on the machine state, before the
/// program counter advances. An undefined funct3 is an invalid instruction;
/// a byte range outside the memory is a fault, and no byte is written.
pub open spec fn store_step(s: CpuModel, inst: u32) -> Result<CpuModel, EmuError>
    recommends
        s.regs.len() == 32,
{
    if !store_valid(inst) {
        Err(EmuError::InvalidInstruction)
    } else {
        let addr = store_addr(s, inst);
        let size = store_size(inst);
        if addr + size_bytes(size) > s.mem.len() {
            Err(EmuError::MemoryFault)
        } else {
            Ok(with_mem(s, spec_mem_write(s.mem, addr as int, size, s.regs[spec_rs2(inst) as int])))
        }
    }
}

/// The next program counter chosen by a branch: the branch target if the
/// condition holds, otherwise the given fall-through address.
pub open spec fn btype_next(s: CpuModel, inst: u32, fall_through: u32) -> Result<u32, EmuError>
    recommends
        s.regs.len() == 32,
{
    if btype_valid(inst) {
        let a = s.regs[spec_rs1(inst) as int];
        let b = s.regs[spec_rs2(inst) as int];
        if branch_taken(inst, a, b) {
            Ok(spec_wrap_add(s.pc, spec_imm_b(inst)))
        } else {
            Ok(fall_through)
        }
    } else {
        Err(EmuError::InvalidInstruction)
    }
}

/// The register effect of a jump-and-link: the link address (the
/// instruction's own address plus 4) is written to the destination.
pub open spec fn jal_apply(s: CpuModel, inst: u32) -> CpuModel
    recommends
        s.regs.len() == 32,
{
    with_regs(s, spec_write_reg(s.regs, spec_rd(inst), spec_wrap_add(s.pc, 4)))
}

/// The target of a jump-and-link: the instruction's own address plus the
/// sign-extended J-type immediate, modulo 2^32.
pub open spec fn jal_target(s: CpuModel, inst: u32) -> u32 {
    spec_wrap_add(s.pc, spec_imm_j(inst))
}

/// The register effect of a register-indirect jump: as for jump-and-link.
pub open spec fn jalr_apply(s: CpuModel, inst: u32) -> CpuModel
    recommends
        s.regs.len() == 32,
{
    with_regs(s, spec_write_reg(s.regs, spec_rd(inst), spec_wrap_add(s.pc, 4)))
}

/// The target of a register-indirect jump: the base register's value before
/// the link write (so destination and base may alias) plus the sign-extended
/// I-type immediate, modulo 2^32. Bit 0 of the target is deliberately kept
/// as computed, not cleared.
pub open spec fn jalr_target(s: CpuModel, inst: u32) -> u32
    recommends
        s.regs.len() == 32,
{
    spec_wrap_add(s.regs[spec_rs1(inst) as int], spec_imm_i(inst))
}

/// The register effect of a load-upper-immediate: the destination receives
/// the 20-bit immediate shifted left by 12.
pub open spec fn lui_apply(s: CpuModel, inst: u32) -> CpuModel
    recommends
        s.regs.len() == 32,
{
    with_regs(s, spec_write_reg(s.regs, spec_rd(inst), spec_imm_u(inst)))
}

/// The register effect of add-upper-immediate-to-pc: the destination
/// receives the instruction's own address plus the U-type immediate, modulo
/// 2^32.
pub open spec fn auipc_apply(s: CpuModel, inst: u32) -> CpuModel
    recommends
        s.regs.len() == 32,
{
    with_regs(s, spec_write_reg(s.regs, spec_rd(inst), spec_wrap_add(s.pc, spec_imm_u(inst))))
}

/// A per-format effect followed by the program counter moving to `pc`.
pub open spec fn advance(r: Result<CpuModel, EmuError>, pc: u32) -> Result<CpuModel, EmuError> {
    match r {
        Ok(m) => Ok(with_pc(m, pc)),
        Err(e) => Err(e),
    }
}

/// One full architectural step: fetch the word at the program counter,
/// dispatch on its opcode, and advance the program counter — to the default
/// of four past the instruction unless a control transfer chose a target.
/// A failing step leaves the state untouched.
pub open spec fn step_spec(s: CpuModel) -> Result<CpuModel, EmuError>
    recommends
        s.regs.len() == 32,
{
    if s.pc + 4 > s.mem.len() {
        Err(EmuError::MemoryFault)
    } else {
        let inst = spec_mem_read(s.mem, s.pc as int, MemSize::Word);
        let op = spec_opcode(inst);
        let pc4 = spec_wrap_add(s.pc, 4);
        if op == 0x33 {
            advance(rtype_step(s, inst), pc4)
        } else if op == 0x13 {
            advance(itype_step(s, inst), pc4)
        } else if op == 0x03 {
            advance(load_step(s, inst), pc4)
        } else if op == 0x23 {
            advance(store_step(s, inst), pc4)
        } else if op == 0x63 {
            match btype_next(s, inst, pc4) {
                Ok(npc) => Ok(with_pc(s, npc)),
                Err(e) => Err(e),
            }
        } else if op == 0x6F {
            Ok(with_pc(jal_apply(s, inst), jal_target(s, inst)))
        } else if op == 0x67 {
            if jalr_valid(inst) {
                Ok(with_pc(jalr_apply(s, inst), jalr_target(s, inst)))
            } else {
                Err(EmuError::InvalidInstruction)
            }
        } else if op == 0x37 {
            Ok(with_pc(lui_apply(s, inst), pc4))
        } else if op == 0x17 {
            Ok(with_pc(auipc_apply(s, inst), pc4))
        } else {
            Err(EmuError::InvalidInstruction)
        }
    }
}

} // verus!
