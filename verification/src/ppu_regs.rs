//! The small PPU registers: control, status, scroll and the VRAM address
//! pointer. The shared write latch that gates the scroll and address FIFOs
//! lives in the PPU itself, since one status read resets both.

use vstd::prelude::*;

verus! {

use crate::bits::{bit_set, with_flag, set_flag};

/// Control register bit: VRAM address increment per data-port access
/// (0 means 1, 1 means 32).
pub const CTRL_VRAM_ADD_INCREMENT: u8 = 0b100;

/// Control register bit: raise an NMI at the start of vertical blank.
pub const CTRL_GENERATE_NMI: u8 = 0b1000_0000;

/// Status register bit: vertical blank in progress.
pub const STATUS_VBLANK: u8 = 0b1000_0000;

/// Status register bit: sprite-zero hit.
pub const STATUS_SPRITE_ZERO: u8 = 0b0100_0000;

/// Write-only control register at port $2000.
#[derive(Clone, Copy, PartialEq, Eq, Structural, Debug)]
pub struct ControlRegister {
    pub bits: u8,
}

impl ControlRegister {
    pub fn new() -> (r: ControlRegister)
        ensures
            r.bits == 0,
    {
        ControlRegister { bits: 0 }
    }

    /// The NMI-on-vblank enable bit is set.
    pub open spec fn spec_nmi_enabled(self) -> bool {
        bit_set(self.bits, CTRL_GENERATE_NMI)
    }

    pub fn generate_vblank_nmi(&self) -> (r: bool)
        ensures
            r == self.spec_nmi_enabled(),
    {
        self.bits & CTRL_GENERATE_NMI != 0
    }

    /// The step the data port adds to the VRAM address: 1 or 32.
    pub open spec fn spec_increment(self) -> u16 {
        if bit_set(self.bits, CTRL_VRAM_ADD_INCREMENT) {
            32
        } else {
            1
        }
    }

    pub fn vram_addr_increment(&self) -> (r: u16)
        ensures
            r == self.spec_increment(),
    {
        if self.bits & CTRL_VRAM_ADD_INCREMENT != 0 {
            32
        } else {
            1
        }
    }

    pub fn update(&mut self, data: u8)
        ensures
            final(self).bits == data,
    {
        self.bits = data;
    }
}

/// Read-only status register at port $2002.
#[derive(Clone, Copy, PartialEq, Eq, Structural, Debug)]
pub struct StatusRegister {
    pub bits: u8,
}

impl StatusRegister {
    pub fn new() -> (r: StatusRegister)
        ensures
            r.bits == 0,
    {
        StatusRegister { bits: 0 }
    }

    pub open spec fn spec_in_vblank(self) -> bool {
        bit_set(self.bits, STATUS_VBLANK)
    }

    pub open spec fn spec_sprite_zero(self) -> bool {
        bit_set(self.bits, STATUS_SPRITE_ZERO)
    }

    pub fn is_in_vblank(&self) -> (r: bool)
        ensures
            r == self.spec_in_vblank(),
    {
        self.bits & STATUS_VBLANK != 0
    }

    pub fn set_vblank_status(&mut self, on: bool)
        ensures
            final(self).bits == with_flag(old(self).bits, STATUS_VBLANK, on),
    {
        self.bits = set_flag(self.bits, STATUS_VBLANK, on);
    }

    pub fn reset_vblank_status(&mut self)
        ensures
            final(self).bits == with_flag(old(self).bits, STATUS_VBLANK, false),
    {
        self.bits = set_flag(self.bits, STATUS_VBLANK, false);
    }

    pub fn set_sprite_zero_hit(&mut self, on: bool)
        ensures
            final(self).bits == with_flag(old(self).bits, STATUS_SPRITE_ZERO, on),
    {
        self.bits = set_flag(self.bits, STATUS_SPRITE_ZERO, on);
    }

    pub fn snapshot(&self) -> (r: u8)
        ensures
            r == self.bits,
    {
        self.bits
    }
}

/// Scroll register at port $2005: an X byte and a Y byte, filled in turn.
#[derive(Clone, Copy, PartialEq, Eq, Structural, Debug)]
pub struct ScrollRegister {
    pub scroll_x: u8,
    pub scroll_y: u8,
}

impl ScrollRegister {
    pub fn new() -> (r: ScrollRegister)
        ensures
            r.scroll_x == 0 && r.scroll_y == 0,
    {
        ScrollRegister { scroll_x: 0, scroll_y: 0 }
    }

    /// Writes one byte of the FIFO; `second` selects the Y byte.
    pub fn write(&mut self, data: u8, second: bool)
        ensures
            second ==> final(self).scroll_y == data && final(self).scroll_x == old(
                self,
            ).scroll_x,
            !second ==> final(self).scroll_x == data && final(self).scroll_y == old(
                self,
            ).scroll_y,
    {
        if second {
            self.scroll_y = data;
        } else {
            self.scroll_x = data;
        }
    }
}

/// VRAM address register at port $2006: holds the current 14-bit pointer.
#[derive(Clone, Copy, PartialEq, Eq, Structural, Debug)]
pub struct AddrRegister {
    pub value: u16,
}

impl AddrRegister {
    /// The pointer always stays inside the 14-bit PPU address space.
    pub open spec fn wf(self) -> bool {
        self.value < 0x4000
    }

    pub fn new() -> (r: AddrRegister)
        ensures
            r.value == 0,
            r.wf(),
    {
        AddrRegister { value: 0 }
    }

    /// Writes one byte of the high-first FIFO; the combined pointer is
    /// masked into $0000-$3FFF.
    pub fn update(&mut self, data: u8, second: bool)
        requires
            old(self).wf(),
        ensures
            final(self).wf(),
            !second ==> final(self).value == (data % 0x40) as u16 * 256 + old(self).value % 256,
            second ==> final(self).value == old(self).value / 256 * 256 + data as u16,
    {
        if second {
            self.value = self.value / 256 * 256 + data as u16;
        } else {
            self.value = (data % 0x40) as u16 * 256 + self.value % 256;
        }
    }

    /// Advances the pointer by the control register's step, wrapping inside
    /// the 14-bit space.
    pub fn increment(&mut self, step: u16)
        requires
            old(self).wf(),
            step <= 32,
        ensures
            final(self).wf(),
            final(self).value == (old(self).value + step) % 0x4000,
    {
        self.value = (self.value + step) % 0x4000;
    }

    pub fn get(&self) -> (r: u16)
        ensures
            r == self.value,
    {
        self.value
    }
}

} // verus!
