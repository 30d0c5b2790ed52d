//! A MOS 6502 interpreter together with the memory-mapped bus of the NES:
//! the instruction set with its flag, stack and cycle rules, the interrupt
//! sequence, and the decoder that routes each access to RAM, the PPU and
//! APU registers, the controllers or the cartridge.

pub mod apu;
pub mod bus;
pub mod cpu;
pub mod ctrl;
pub mod flags;
pub mod laws;
pub mod opcodes;
pub mod ppu;
pub mod ram;
pub mod rom;
pub mod state;
