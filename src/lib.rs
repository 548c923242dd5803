//! A MOS 6502 instruction-set interpreter, as found in the NES, together with
//! the iNES cartridge reader and a table-driven disassembler.
pub mod status;
pub mod instructions;
pub mod memory;
pub mod alu;
pub mod cpu;
pub mod execute;
pub mod laws;
pub mod rom;
pub mod disassembler;
pub mod nes;
