//! An instruction-level simulator for the RV32I base integer instruction set.
//!
//! The simulator owns a register file of 32 general-purpose 32-bit registers
//! (register 0 hardwired to zero), a program counter, and a byte-addressable
//! little-endian memory. One call to [`cpu::RiscvCpu::step`] fetches, decodes
//! and executes exactly one instruction, or reports a decoding or memory
//! fault without touching any architectural state.

pub mod bits;
pub mod cpu;
pub mod decode;
pub mod laws;
pub mod semantics;

pub use cpu::RiscvCpu;
pub use semantics::EmuError;
pub use semantics::MemSize;
