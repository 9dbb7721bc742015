//! Core of a Nintendo Entertainment System emulator: a verified 6502-family
//! CPU interpreter, a memory-mapped bus with mirroring, a PPU timing driver,
//! and an iNES cartridge image with an NROM mapper.

pub mod addressing;
pub mod bus;
pub mod cpu;
pub mod cpu_bus;
pub mod flags;
pub mod instructions;
pub mod interrupts;
pub mod memory_bus;
pub mod mock_bus;
pub mod operation_codes;
pub mod ppu;
pub mod ram;
pub mod rom;
pub mod stack;
