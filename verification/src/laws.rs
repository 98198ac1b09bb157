//! Laws of the simulator that relate several operations, stated and proved
//! over the architectural model of [`crate::semantics`].

use vstd::prelude::*;
use vstd::arithmetic::div_mod::{lemma_mod_multiples_vanish, lemma_small_mod};
use crate::bits::{spec_sign_extend_12, spec_wrap_add, spec_wrap_sub};
use crate::decode::{lemma_rd_in_range, spec_funct3, spec_imm_i};
use crate::semantics::{
    itype_value, load_addr, load_size, load_step, load_valid, size_bytes, spec_mem_read,
    spec_write_reg, step_spec, store_addr, store_size, store_step, store_valid, CpuModel,
    EmuError, MemSize,
};

verus! {

/// A write to the register file never changes register 0: a write with
/// destination 0 is discarded, and a write to any other register leaves
/// register 0 alone.
proof fn lemma_write_reg_keeps_zero(regs: Seq<u32>)
    requires
        regs.len() == 32,
    ensures
        forall|rd: u32, value: u32|
            rd < 32 ==> (#[trigger] spec_write_reg(regs, rd, value))[0] == regs[0],
{
}

/// Register 0 is invariant under stepping: no instruction changes it, so an
/// instruction that encodes register 0 as its destination in particular
/// leaves it at zero. From the all-zero reset state it therefore reads as
/// zero forever.
pub proof fn lemma_register_zero_invariant(s: CpuModel)
    requires
        s.regs.len() == 32,
        step_spec(s) is Ok,
    ensures
        step_spec(s)->Ok_0.regs[0] == s.regs[0],
        s.regs[0] == 0 ==> step_spec(s)->Ok_0.regs[0] == 0,
{
    lemma_write_reg_keeps_zero(s.regs);
    lemma_rd_in_range(spec_mem_read(s.mem, s.pc as int, MemSize::Word));
}

/// Addition commits modulo 2^32: the committed word is the mathematical sum
/// reduced modulo 2^32, so the sum wraps silently past the largest word.
pub proof fn lemma_wrap_add_is_mod(a: u32, b: u32)
    ensures
        spec_wrap_add(a, b) == ((a + b) % 0x1_0000_0000) as u32,
{
    if a + b <= 0xFFFF_FFFF {
        lemma_small_mod((a + b) as nat, 0x1_0000_0000);
    } else {
        lemma_mod_multiples_vanish(1, a + b - 0x1_0000_0000, 0x1_0000_0000);
        lemma_small_mod((a + b - 0x1_0000_0000) as nat, 0x1_0000_0000);
    }
}

/// Subtraction commits modulo 2^32: the committed word is the mathematical
/// difference reduced modulo 2^32, so the difference wraps silently below
/// zero.
pub proof fn lemma_wrap_sub_is_mod(a: u32, b: u32)
    ensures
        spec_wrap_sub(a, b) == ((a - b) % 0x1_0000_0000) as u32,
{
    if a >= b {
        lemma_small_mod((a - b) as nat, 0x1_0000_0000);
    } else {
        lemma_mod_multiples_vanish(1, a - b, 0x1_0000_0000);
        lemma_small_mod((a - b + 0x1_0000_0000) as nat, 0x1_0000_0000);
    }
}

/// A word exclusive-or'ed with all ones is its bitwise negation.
proof fn lemma_xor_all_ones_negates(x: u32)
    ensures
        x ^ 0xFFFF_FFFFu32 == !x,
{
    assert(x ^ 0xFFFF_FFFFu32 == !x) by (bit_vector);
}

/// Sign extension round-trips through the arithmetic of the operation
/// units: the twelve-bit immediate of all ones sign-extends to the word of
/// all ones, so a register-immediate exclusive-or with it is full bitwise
/// negation.
pub proof fn lemma_xor_neg_one_is_not(inst: u32, x: u32)
    requires
        spec_funct3(inst) == 4,
        inst >> 20 == 0xFFF,
    ensures
        spec_imm_i(inst) == 0xFFFF_FFFFu32,
        itype_value(inst, x) == !x,
{
    assert(spec_sign_extend_12(0xFFF) == 0xFFFF_FFFFu32) by (bit_vector);
    lemma_xor_all_ones_negates(x);
}

/// A load whose byte range leaves the memory is reported as a memory fault;
/// the executable contracts then guarantee that no register changes and no
/// garbage value is produced.
pub proof fn lemma_load_out_of_bounds_faults(s: CpuModel, inst: u32)
    requires
        s.regs.len() == 32,
        load_valid(inst),
        load_addr(s, inst) + size_bytes(load_size(inst)) > s.mem.len(),
    ensures
        load_step(s, inst) == Err::<CpuModel, EmuError>(EmuError::MemoryFault),
{
}

/// A store whose byte range leaves the memory is reported as a memory
/// fault; the executable contracts then guarantee that not a single byte of
/// memory is written — the store is all-or-nothing.
pub proof fn lemma_store_out_of_bounds_faults(s: CpuModel, inst: u32)
    requires
        s.regs.len() == 32,
        store_valid(inst),
        store_addr(s, inst) + size_bytes(store_size(inst)) > s.mem.len(),
    ensures
        store_step(s, inst) == Err::<CpuModel, EmuError>(EmuError::MemoryFault),
{
}

} // verus!
