//! Core of a Sharp LR35902 (Game Boy) CPU emulator: a register file with
//! bit-exact flag semantics, a memory-mapped bus with echo-RAM aliasing, a
//! five-source interrupt controller with fixed priorities, and a
//! fetch-decode-execute dispatcher covering the full base and extended
//! opcode tables.
//!
//! Every arithmetic, logic, rotate and load operation is a verified function
//! whose contract states the exact result and flag values; the dispatcher's
//! contract pins down interrupt servicing, the halted state, and the exact
//! fault raised for an opcode with no table entry.

pub mod cpu;
pub mod cycles;
pub mod fault;
pub mod flags;
pub mod gameboy;
pub mod interrupts;
pub mod mmu;
pub mod ops;
pub mod rom_info;
pub mod semantics;
