//! Execution core of a Nintendo Entertainment System: the 6502 CPU interpreter,
//! the PPU's register file and dot-by-dot background renderer, NROM and MMC1
//! cartridges, and the CPU and PPU bus routing between them. Each component is
//! specified over a view of its state, and the executable code is verified
//! against those specifications.
pub mod memory_map;
pub mod memory;
pub mod cartridge;
pub mod nrom;
pub mod mmc1;
pub mod ppu;
pub mod cpu;
pub mod alu;
pub mod decode;
pub mod execute;
pub mod ines;
pub mod trace;
pub mod console;
