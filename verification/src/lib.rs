//! Core of a NES console emulator: the 6502 CPU execution engine, the PPU
//! scanline state machine, and the memory-mapped bus that couples them,
//! together with the iNES cartridge parser, the joypad shift register and
//! the frame renderer.

pub mod bus;
pub mod cartridge;
pub mod cpu;
pub mod errors;
pub mod frame;
pub mod joypad;
pub mod opcodes;
pub mod palette;
pub mod ppu;
pub mod render;
pub mod ppu_regs;
pub mod tile_viewer;
