//! A 6502 CPU core for an NES emulator, verified with Verus: the status register, the CPU
//! address bus with its mirroring and page-wrap quirks, the official opcode table, the
//! interpreter, and a tracer in the `nestest.log` format.

pub mod bus;
pub mod cartridge;
pub mod cpu;
pub mod errors;
pub mod memory;
pub mod opcodes;
pub mod status;
