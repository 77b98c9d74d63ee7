//! The PPU mask register at port $2001: rendering switches and colour
//! emphasis.

use vstd::prelude::*;

verus! {

use crate::bits::bit_set;

pub const MASK_GREYSCALE: u8 = 0b0000_0001;

pub const MASK_LEFTMOST_8PXL_BKG: u8 = 0b0000_0010;

pub const MASK_LEFTMOST_8PXL_SPRITE: u8 = 0b0000_0100;

pub const MASK_SHOW_BKG: u8 = 0b0000_1000;

pub const MASK_SHOW_SPRITES: u8 = 0b0001_0000;

pub const MASK_EMPHASIZE_RED: u8 = 0b0010_0000;

pub const MASK_EMPHASIZE_GREEN: u8 = 0b0100_0000;

pub const MASK_EMPHASIZE_BLUE: u8 = 0b1000_0000;

/// A colour channel picked out for emphasis.
#[derive(Clone, Copy, PartialEq, Eq, Structural, Debug)]
pub enum Color {
    Red,
    Green,
    Blue,
}

/// Write-only mask register.
#[derive(Clone, Copy, PartialEq, Eq, Structural, Debug)]
pub struct MaskRegister {
    pub bits: u8,
}

impl MaskRegister {
    pub fn new() -> (r: MaskRegister)
        ensures
            r.bits == 0,
    {
        MaskRegister { bits: 0 }
    }

    pub fn is_greyscale(&self) -> (r: bool)
        ensures
            r == bit_set(self.bits, MASK_GREYSCALE),
    {
        self.bits & MASK_GREYSCALE != 0
    }

    pub fn leftmost_8pxl_bkg(&self) -> (r: bool)
        ensures
            r == bit_set(self.bits, MASK_LEFTMOST_8PXL_BKG),
    {
        self.bits & MASK_LEFTMOST_8PXL_BKG != 0
    }

    pub fn leftmost_8pxl_sprite(&self) -> (r: bool)
        ensures
            r == bit_set(self.bits, MASK_LEFTMOST_8PXL_SPRITE),
    {
        self.bits & MASK_LEFTMOST_8PXL_SPRITE != 0
    }

    pub fn show_bkg(&self) -> (r: bool)
        ensures
            r == bit_set(self.bits, MASK_SHOW_BKG),
    {
        self.bits & MASK_SHOW_BKG != 0
    }

    pub fn show_sprites(&self) -> (r: bool)
        ensures
            r == bit_set(self.bits, MASK_SHOW_SPRITES),
    {
        self.bits & MASK_SHOW_SPRITES != 0
    }

    /// The emphasised channels, in the fixed order red, blue, green.
    pub fn emphasize(&self) -> (r: Vec<Color>)
        ensures
            r@ == emphasize_spec(self.bits),
    {
        let mut result: Vec<Color> = Vec::new();
        if self.bits & MASK_EMPHASIZE_RED != 0 {
            result.push(Color::Red);
        }
        if self.bits & MASK_EMPHASIZE_BLUE != 0 {
            result.push(Color::Blue);
        }
        if self.bits & MASK_EMPHASIZE_GREEN != 0 {
            result.push(Color::Green);
        }
        proof {
            assert(result@ =~= emphasize_spec(self.bits));
        }
        result
    }

    pub fn update(&mut self, data: u8)
        ensures
            final(self).bits == data,
    {
        self.bits = data;
    }
}

/// The emphasis list laid out by `MaskRegister::emphasize`.
pub open spec fn emphasize_spec(bits: u8) -> Seq<Color> {
    (if bit_set(bits, MASK_EMPHASIZE_RED) {
        seq![Color::Red]
    } else {
        Seq::empty()
    }) + (if bit_set(bits, MASK_EMPHASIZE_BLUE) {
        seq![Color::Blue]
    } else {
        Seq::empty()
    }) + (if bit_set(bits, MASK_EMPHASIZE_GREEN) {
        seq![Color::Green]
    } else {
        Seq::empty()
    })
}

} // verus!
