//! Core of a Nintendo Entertainment System emulator: a 6502 CPU
//! interpreter, the PPU timing and register model, and the bus that
//! couples them with cartridge ROM and input.

use vstd::prelude::*;

verus! {

/// A fatal condition that unwinds the fetch loop or refuses a load.
#[derive(Debug, Clone, Copy, PartialEq, Eq, Structural)]
pub enum EmuError {
    /// The cartridge image carries a mapper other than NROM (mapper 0).
    UnsupportedMapper(u8),
    /// The fetched opcode byte has no entry in the opcode table.
    IllegalOpcode(u8),
    /// An instruction tried to write into $8000-$FFFF.
    RomWrite(u16),
    /// A PPU data access fell into a region that real hardware cannot reach.
    UnreachableVram(u16),
}

} // verus!

pub mod bits;
pub mod bus;
pub mod cart;
pub mod cpu;
pub mod joypad;
pub mod opcodes;
pub mod ppu;
pub mod ppu_mask;
pub mod ppu_regs;
