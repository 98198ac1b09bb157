//! The executable simulator: the register file, program counter and memory,
//! and the fetch-decode-execute engine. Every operation is verified against
//! the transition functions of [`crate::semantics`].

use vstd::prelude::*;
use crate::bits::{
    low_byte, shift_amount, shift_right_arith, sign_extend_16, sign_extend_8, signed_lt, wrap_add,
    wrap_sub,
};
use crate::decode::{funct3, funct7, imm_b, imm_i, imm_j, imm_s, imm_u, opcode, rd, rs1, rs2};
use crate::semantics::{
    btype_next, itype_step, jal_apply, jal_target, jalr_apply, jalr_target, jalr_valid, load_step,
    lui_apply, auipc_apply, rtype_step, size_bytes, spec_load_value, spec_mem_read, spec_mem_write,
    spec_write_reg, step_spec, store_step, with_mem, with_regs, CpuModel, EmuError, MemSize,
};

verus! {

/// The number of bytes of memory a fresh simulator owns.
pub const MEMORY_BYTES: usize = 1024;

/// One RV32I hart: 32 general-purpose registers (register 0 hardwired to
/// zero), the program counter, and a flat little-endian memory image.
///
/// The fields are public so that a loader can place a program in memory and
/// a caller can inspect registers between steps; one step is the only
/// operation that moves the machine.
pub struct RiscvCpu {
    pub regs: [u32; 32],
    pub pc: u32,
    pub bus: Vec<u8>,
}

impl RiscvCpu {
    /// The architectural state this machine holds, as the mathematical
    /// model the contracts speak of.
    pub open spec fn model(&self) -> CpuModel {
        CpuModel { regs: self.regs@, pc: self.pc, mem: self.bus@ }
    }

    /// A fresh machine: all registers zero, program counter zero, and
    /// `MEMORY_BYTES` bytes of zeroed memory.
    pub fn new() -> (cpu: RiscvCpu)
        ensures
            cpu.model().regs.len() == 32,
            forall|i: int| 0 <= i < 32 ==> cpu.model().regs[i] == 0,
            cpu.model().pc == 0,
            cpu.model().mem.len() == MEMORY_BYTES,
            forall|i: int| 0 <= i < MEMORY_BYTES ==> cpu.model().mem[i] == 0,
    {
        let mut bus: Vec<u8> = Vec::new();
        while bus.len() < MEMORY_BYTES
            invariant
                bus@.len() <= MEMORY_BYTES,
                forall|i: int| 0 <= i < bus@.len() ==> bus@[i] == 0,
            decreases MEMORY_BYTES - bus.len(),
        {
            bus.push(0);
        }
        RiscvCpu { regs: [0; 32], pc: 0, bus }
    }

    /// Commits a result to the register file; a write to register 0 is
    /// discarded, keeping it at zero.
    fn write_reg(&mut self, reg: u32, value: u32)
        requires
            reg < 32,
        ensures
            final(self).model() == with_regs(
                old(self).model(),
                spec_write_reg(old(self).model().regs, reg, value),
            ),
    {
        if reg != 0 {
            self.regs[reg as usize] = value;
        }
    }

    /// Reads the raw little-endian value of `size` bytes at `addr`, or
    /// reports a memory fault if the byte range leaves the memory.
    fn read_raw(&self, addr: u32, size: MemSize) -> (r: Result<u32, EmuError>)
        ensures
            r is Ok <==> addr + size_bytes(size) <= self.model().mem.len(),
            r is Ok ==> r->Ok_0 == spec_mem_read(self.model().mem, addr as int, size),
            r is Err ==> r->Err_0 == EmuError::MemoryFault,
    {
        let n: usize = match size {
            MemSize::Byte => 1,
            MemSize::Half => 2,
            MemSize::Word => 4,
        };
        let len = self.bus.len();
        if !(n <= len && addr as usize <= len - n) {
            return Err(EmuError::MemoryFault);
        }
        let a = addr as usize;
        let v = match size {
            MemSize::Byte => self.bus[a] as u32,
            MemSize::Half => (self.bus[a] as u32) | ((self.bus[a + 1] as u32) << 8),
            MemSize::Word => (self.bus[a] as u32) | ((self.bus[a + 1] as u32) << 8) | ((self.bus[a
                + 2] as u32) << 16) | ((self.bus[a + 3] as u32) << 24),
        };
        Ok(v)
    }

    /// Loads a value of the given width from `addr`, sign-extending the
    /// byte and half-word forms when `signed` is set and zero-extending
    /// otherwise. A byte range outside the memory is a fault.
    pub fn load(&self, addr: u32, size: MemSize, signed: bool) -> (r: Result<u32, EmuError>)
        ensures
            r is Ok <==> addr + size_bytes(size) <= self.model().mem.len(),
            r is Ok ==> r->Ok_0 == spec_load_value(self.model().mem, addr as int, size, signed),
            r is Err ==> r->Err_0 == EmuError::MemoryFault,
    {
        let raw = match self.read_raw(addr, size) {
            Ok(v) => v,
            Err(e) => {
                return Err(e);
            },
        };
        if !signed {
            return Ok(raw);
        }
        match size {
            MemSize::Byte => Ok(sign_extend_8(raw)),
            MemSize::Half => Ok(sign_extend_16(raw)),
            MemSize::Word => Ok(raw),
        }
    }

    /// Stores the low `size` bytes of `value` little-endian at `addr`. A
    /// byte range outside the memory is a fault and writes nothing: the
    /// store is all-or-nothing.
    pub fn store(&mut self, addr: u32, size: MemSize, value: u32) -> (r: Result<(), EmuError>)
        ensures
            r is Ok <==> addr + size_bytes(size) <= old(self).model().mem.len(),
            r is Ok ==> final(self).model() == with_mem(
                old(self).model(),
                spec_mem_write(old(self).model().mem, addr as int, size, value),
            ),
            r is Err ==> final(self).model() == old(self).model() && r->Err_0
                == EmuError::MemoryFault,
    {
        let n: usize = match size {
            MemSize::Byte => 1,
            MemSize::Half => 2,
            MemSize::Word => 4,
        };
        let len = self.bus.len();
        if !(n <= len && addr as usize <= len - n) {
            return Err(EmuError::MemoryFault);
        }
        let a = addr as usize;
        match size {
            MemSize::Byte => {
                self.bus[a] = low_byte(value);
            },
            MemSize::Half => {
                self.bus[a] = low_byte(value);
                self.bus[a + 1] = low_byte(value >> 8);
            },
            MemSize::Word => {
                self.bus[a] = low_byte(value);
                self.bus[a + 1] = low_byte(value >> 8);
                self.bus[a + 2] = low_byte(value >> 16);
                self.bus[a + 3] = low_byte(value >> 24);
            },
        }
        Ok(())
    }

    /// Fetches the 32-bit instruction word at the program counter.
    fn fetch(&self) -> (r: Result<u32, EmuError>)
        ensures
            r is Ok <==> self.pc + 4 <= self.model().mem.len(),
            r is Ok ==> r->Ok_0 == spec_mem_read(self.model().mem, self.pc as int, MemSize::Word),
            r is Err ==> r->Err_0 == EmuError::MemoryFault,
    {
        self.read_raw(self.pc, MemSize::Word)
    }

    /// Executes a register-register (R-type) instruction: the operation
    /// selected by funct3/funct7 is applied to the two source registers and
    /// the result committed to the destination. An undefined funct3/funct7
    /// combination is reported as invalid and changes nothing.
    pub fn handle_rtype(&mut self, instruction: u32) -> (r: Result<(), EmuError>)
        ensures
            match r {
                Ok(()) => rtype_step(old(self).model(), instruction) == Ok::<CpuModel, EmuError>(
                    final(self).model(),
                ),
                Err(e) => rtype_step(old(self).model(), instruction) == Err::<CpuModel, EmuError>(
                    e,
                ) && final(self).model() == old(self).model(),
            },
    {
        let rd_field = rd(instruction);
        let f3 = funct3(instruction);
        let f7 = funct7(instruction);
        let a = self.regs[rs1(instruction) as usize];
        let b = self.regs[rs2(instruction) as usize];

        let value: u32 = if f3 == 0x0 {
            if f7 == 0x00 {
                wrap_add(a, b)
            } else if f7 == 0x20 {
                wrap_sub(a, b)
            } else {
                return Err(EmuError::InvalidInstruction);
            }
        } else if f3 == 0x1 {
            a << shift_amount(b)
        } else if f3 == 0x2 {
            if signed_lt(a, b) {
                1
            } else {
                0
            }
        } else if f3 == 0x3 {
            if a < b {
                1
            } else {
                0
            }
        } else if f3 == 0x4 {
            a ^ b
        } else if f3 == 0x5 {
            if f7 == 0x00 {
                a >> shift_amount(b)
            } else if f7 == 0x20 {
                shift_right_arith(a, shift_amount(b))
            } else {
                return Err(EmuError::InvalidInstruction);
            }
        } else if f3 == 0x6 {
            a | b
        } else {
            a & b
        };

        self.write_reg(rd_field, value);
        Ok(())
    }

    /// Executes a register-immediate (I-type) instruction: the operation
    /// selected by funct3 (and, for the right shifts, the funct7 bits of
    /// the immediate field) is applied to the source register and the
    /// sign-extended immediate.
    pub fn handle_itype(&mut self, instruction: u32) -> (r: Result<(), EmuError>)
        ensures
            match r {
                Ok(()) => itype_step(old(self).model(), instruction) == Ok::<CpuModel, EmuError>(
                    final(self).model(),
                ),
                Err(e) => itype_step(old(self).model(), instruction) == Err::<CpuModel, EmuError>(
                    e,
                ) && final(self).model() == old(self).model(),
            },
    {
        let rd_field = rd(instruction);
        let f3 = funct3(instruction);
        let imm = imm_i(instruction);
        let a = self.regs[rs1(instruction) as usize];

        let value: u32 = if f3 == 0x0 {
            wrap_add(a, imm)
        } else if f3 == 0x1 {
            a << shift_amount(imm)
        } else if f3 == 0x2 {
            if signed_lt(a, imm) {
                1
            } else {
                0
            }
        } else if f3 == 0x3 {
            if a < imm {
                1
            } else {
                0
            }
        } else if f3 == 0x4 {
            a ^ imm
        } else if f3 == 0x5 {
            let f7 = funct7(instruction);
            if f7 == 0x00 {
                a >> shift_amount(imm)
            } else if f7 == 0x20 {
                shift_right_arith(a, shift_amount(imm))
            } else {
                return Err(EmuError::InvalidInstruction);
            }
        } else if f3 == 0x6 {
            a | imm
        } else {
            a & imm
        };

        self.write_reg(rd_field, value);
        Ok(())
    }

    /// Executes a load instruction: the effective address is the base
    /// register plus the sign-extended I-type immediate, modulo 2^32; the
    /// width and signedness come from funct3. An undefined funct3 is
    /// invalid; an out-of-bounds byte range is a fault; either way nothing
    /// is written.
    pub fn handle_load(&mut self, instruction: u32) -> (r: Result<(), EmuError>)
        ensures
            match r {
                Ok(()) => load_step(old(self).model(), instruction) == Ok::<CpuModel, EmuError>(
                    final(self).model(),
                ),
                Err(e) => load_step(old(self).model(), instruction) == Err::<CpuModel, EmuError>(
                    e,
                ) && final(self).model() == old(self).model(),
            },
    {
        let rd_field = rd(instruction);
        let f3 = funct3(instruction);
        let imm = imm_i(instruction);
        let base = self.regs[rs1(instruction) as usize];
        let addr = wrap_add(base, imm);

        let loaded = if f3 == 0x0 {
            self.load(addr, MemSize::Byte, true)
        } else if f3 == 0x1 {
            self.load(addr, MemSize::Half, true)
        } else if f3 == 0x2 {
            self.load(addr, MemSize::Word, true)
        } else if f3 == 0x4 {
            self.load(addr, MemSize::Byte, false)
        } else if f3 == 0x5 {
            self.load(addr, MemSize::Half, false)
        } else {
            return Err(EmuError::InvalidInstruction);
        };

        match loaded {
            Ok(value) => {
                self.write_reg(rd_field, value);
                Ok(())
            },
            Err(e) => Err(e),
        }
    }

    /// Executes a store instruction: the effective address is the base
    /// register plus the sign-extended S-type immediate, modulo 2^32; the
    /// width comes from funct3. An undefined funct3 is invalid; an
    /// out-of-bounds byte range is a fault and writes no byte.
    pub fn handle_store(&mut self, instruction: u32) -> (r: Result<(), EmuError>)
        ensures
            match r {
                Ok(()) => store_step(old(self).model(), instruction) == Ok::<CpuModel, EmuError>(
                    final(self).model(),
                ),
                Err(e) => store_step(old(self).model(), instruction) == Err::<CpuModel, EmuError>(
                    e,
                ) && final(self).model() == old(self).model(),
            },
    {
        let f3 = funct3(instruction);
        let imm = imm_s(instruction);
        let base = self.regs[rs1(instruction) as usize];
        let value = self.regs[rs2(instruction) as usize];
        let addr = wrap_add(base, imm);

        if f3 == 0x0 {
            self.store(addr, MemSize::Byte, value)
        } else if f3 == 0x1 {
            self.store(addr, MemSize::Half, value)
        } else if f3 == 0x2 {
            self.store(addr, MemSize::Word, value)
        } else {
            Err(EmuError::InvalidInstruction)
        }
    }

    /// Evaluates a branch (B-type) instruction: if the condition selected
    /// by funct3 holds of the two source registers, `next_pc` becomes the
    /// current program counter plus the sign-extended branch immediate,
    /// modulo 2^32; otherwise `next_pc` is left as the caller set it. The
    /// machine state itself never changes.
    pub fn handle_btype(&mut self, instruction: u32, next_pc: &mut u32) -> (r: Result<
        (),
        EmuError,
    >)
        ensures
            final(self).model() == old(self).model(),
            match r {
                Ok(()) => btype_next(old(self).model(), instruction, *old(next_pc)) == Ok::<
                    u32,
                    EmuError,
                >(*final(next_pc)),
                Err(e) => btype_next(old(self).model(), instruction, *old(next_pc)) == Err::<
                    u32,
                    EmuError,
                >(e) && *final(next_pc) == *old(next_pc),
            },
    {
        let f3 = funct3(instruction);
        let imm = imm_b(instruction);
        let a = self.regs[rs1(instruction) as usize];
        let b = self.regs[rs2(instruction) as usize];

        let taken = if f3 == 0x0 {
            a == b
        } else if f3 == 0x1 {
            a != b
        } else if f3 == 0x4 {
            signed_lt(a, b)
        } else if f3 == 0x5 {
            !signed_lt(a, b)
        } else if f3 == 0x6 {
            a < b
        } else if f3 == 0x7 {
            a >= b
        } else {
            return Err(EmuError::InvalidInstruction);
        };

        if taken {
            *next_pc = wrap_add(self.pc, imm);
        }
        Ok(())
    }

    /// Executes a jump-and-link (JAL): the destination register receives
    /// the link address (this instruction's address plus 4), and `next_pc`
    /// becomes the current program counter plus the sign-extended J-type
    /// immediate, modulo 2^32.
    pub fn handle_jal(&mut self, instruction: u32, next_pc: &mut u32)
        ensures
            final(self).model() == jal_apply(old(self).model(), instruction),
            *final(next_pc) == jal_target(old(self).model(), instruction),
    {
        let rd_field = rd(instruction);
        let imm = imm_j(instruction);
        let link = wrap_add(self.pc, 4);
        self.write_reg(rd_field, link);
        *next_pc = wrap_add(self.pc, imm);
    }

    /// Executes a register-indirect jump (JALR): the base register is read
    /// before the link address is written, so destination and base may
    /// alias; `next_pc` becomes that base value plus the sign-extended
    /// I-type immediate, modulo 2^32, with bit 0 deliberately kept as
    /// computed. Only funct3 zero is defined.
    pub fn handle_jalr(&mut self, instruction: u32, next_pc: &mut u32) -> (r: Result<
        (),
        EmuError,
    >)
        ensures
            match r {
                Ok(()) => jalr_valid(instruction) && final(self).model() == jalr_apply(
                    old(self).model(),
                    instruction,
                ) && *final(next_pc) == jalr_target(old(self).model(), instruction),
                Err(e) => !jalr_valid(instruction) && e == EmuError::InvalidInstruction
                    && final(self).model() == old(self).model()
                    && *final(next_pc) == *old(next_pc),
            },
    {
        let rd_field = rd(instruction);
        let f3 = funct3(instruction);
        let imm = imm_i(instruction);
        let base = self.regs[rs1(instruction) as usize];
        let link = wrap_add(self.pc, 4);

        if f3 != 0x0 {
            return Err(EmuError::InvalidInstruction);
        }
        *next_pc = wrap_add(base, imm);
        self.write_reg(rd_field, link);
        Ok(())
    }

    /// Executes a load-upper-immediate (LUI): the destination register
    /// receives the 20-bit immediate shifted left by 12; the low 12 bits
    /// are zero.
    pub fn handle_lui(&mut self, instruction: u32)
        ensures
            final(self).model() == lui_apply(old(self).model(), instruction),
    {
        let rd_field = rd(instruction);
        let imm = imm_u(instruction);
        self.write_reg(rd_field, imm);
    }

    /// Executes an add-upper-immediate-to-pc (AUIPC): the destination
    /// register receives this instruction's address plus the U-type
    /// immediate, modulo 2^32.
    pub fn handle_auipc(&mut self, instruction: u32)
        ensures
            final(self).model() == auipc_apply(old(self).model(), instruction),
    {
        let rd_field = rd(instruction);
        let imm = imm_u(instruction);
        let value = wrap_add(self.pc, imm);
        self.write_reg(rd_field, value);
    }

    /// Advances the machine by exactly one instruction: fetch the word at
    /// the program counter, dispatch on its opcode, and commit the register
    /// or memory effect together with the program counter update. A failing
    /// step reports why and leaves every register, the program counter and
    /// every memory byte exactly as they were.
    pub fn step(&mut self) -> (r: Result<(), EmuError>)
        ensures
            match r {
                Ok(()) => step_spec(old(self).model()) == Ok::<CpuModel, EmuError>(
                    final(self).model(),
                ),
                Err(e) => step_spec(old(self).model()) == Err::<CpuModel, EmuError>(e)
                    && final(self).model() == old(self).model(),
            },
    {
        let instruction = match self.fetch() {
            Ok(word) => word,
            Err(e) => {
                return Err(e);
            },
        };

        let mut next_pc = wrap_add(self.pc, 4);
        let op = opcode(instruction);

        let dispatched: Result<(), EmuError> = if op == 0x33 {
            self.handle_rtype(instruction)
        } else if op == 0x13 {
            self.handle_itype(instruction)
        } else if op == 0x03 {
            self.handle_load(instruction)
        } else if op == 0x23 {
            self.handle_store(instruction)
        } else if op == 0x63 {
            self.handle_btype(instruction, &mut next_pc)
        } else if op == 0x6F {
            self.handle_jal(instruction, &mut next_pc);
            Ok(())
        } else if op == 0x67 {
            self.handle_jalr(instruction, &mut next_pc)
        } else if op == 0x37 {
            self.handle_lui(instruction);
            Ok(())
        } else if op == 0x17 {
            self.handle_auipc(instruction);
            Ok(())
        } else {
            Err(EmuError::InvalidInstruction)
        };

        match dispatched {
            Ok(()) => {
                self.pc = next_pc;
                Ok(())
            },
            Err(e) => Err(e),
        }
    }
}

} // verus!
