use vstd::prelude::*;

verus! {

/// Size of the internal RAM.
pub const RAM_SIZE: u16 = 2048;

/// Number of PPU registers, one byte each.
pub const PPU_SIZE: u16 = 8;

/// Number of APU and IO registers, one byte each.
pub const APU_IO_SIZE: u16 = 32;

/// Size of the cartridge area.
pub const CARTRIDGE_SIZE: u16 = 49120;

/// Start address of the internal RAM.
pub const RAM_START: u16 = 0;

/// Start address of the PPU registers.
pub const PPU_START: u16 = 0x2000;

/// Start address of the APU and IO registers.
pub const APU_IO_START: u16 = 0x4000;

/// Start address of the cartridge space.
pub const CARTRIDGE_START: u16 = 0x4020;

/// Start of the stack page.
pub const STACK_START: u16 = 0x0100;

} // verus!
