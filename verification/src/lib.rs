//! An emulator core for the MOS 6502 instruction set over a flat 64 KiB
//! address space.
//!
//! - [`memory`]: the address space, with byte and little-endian word access.
//! - [`flags`]: the status register as a typed bit field.
//! - [`instruction`]: addressing modes, mnemonics and the instruction table.
//! - [`machine`]: the processor as a mathematical state machine, and the laws
//!   that hold of it.
//! - [`cpu`]: the execution engine, proved to compute the state machine.
//! - [`assembler`]: from mnemonics and operands to machine code.
//! - [`text`]: the text handling that the assembler rests on.

pub mod assembler;
pub mod cpu;
pub mod flags;
pub mod instruction;
pub mod machine;
pub mod memory;
pub mod text;
