//! The joypad shift register behind port $4016: while the strobe line is
//! high the register keeps reloading from the buttons; once it drops, each
//! read shifts out one button in the fixed order A, B, Select, Start, Up,
//! Down, Left, Right, and further reads return 1.

use vstd::prelude::*;

verus! {

use crate::bits::{bit_set, with_flag, set_flag};

/// One of the eight buttons, in shift order.
#[derive(Clone, Copy, PartialEq, Eq, Structural, Debug)]
pub enum JoypadButton {
    A,
    B,
    Select,
    Start,
    Up,
    Down,
    Left,
    Right,
}

/// The status-byte bit that carries a button.
pub open spec fn spec_button_mask(b: JoypadButton) -> u8 {
    match b {
        JoypadButton::A => 0b0000_0001,
        JoypadButton::B => 0b0000_0010,
        JoypadButton::Select => 0b0000_0100,
        JoypadButton::Start => 0b0000_1000,
        JoypadButton::Up => 0b0001_0000,
        JoypadButton::Down => 0b0010_0000,
        JoypadButton::Left => 0b0100_0000,
        JoypadButton::Right => 0b1000_0000,
    }
}

pub struct Joypad {
    pub strobe: bool,
    /// How many buttons have been shifted out since the strobe dropped.
    pub button_index: u8,
    /// Current button state, one bit per button.
    pub button_status: u8,
}

impl Joypad {
    pub fn new() -> (r: Joypad)
        ensures
            r.strobe == false,
            r.button_index == 0,
            r.button_status == 0,
    {
        Joypad { strobe: false, button_index: 0, button_status: 0 }
    }

    /// Port write: bit 0 drives the strobe line; raising it rewinds the
    /// shift position.
    pub fn write(&mut self, data: u8)
        ensures
            final(self).strobe == (data & 1 == 1),
            final(self).button_index == (if data & 1 == 1 {
                0u8
            } else {
                old(self).button_index
            }),
            final(self).button_status == old(self).button_status,
    {
        self.strobe = data & 1 == 1;
        if self.strobe {
            self.button_index = 0;
        }
    }

    /// Port read: with the strobe high, always button A; otherwise the
    /// next button in order, then 1 once all eight are out.
    pub fn read(&mut self) -> (r: u8)
        ensures
            old(self).strobe ==> r == old(self).button_status & 1 && *final(self) == *old(self),
            !old(self).strobe && old(self).button_index > 7 ==> r == 1
                && *final(self) == *old(self),
            !old(self).strobe && old(self).button_index <= 7 ==> {
                &&& r == (old(self).button_status >> old(self).button_index) & 1
                &&& final(self).button_index == old(self).button_index + 1
                &&& final(self).strobe == old(self).strobe
                &&& final(self).button_status == old(self).button_status
            },
    {
        if self.strobe {
            return self.button_status & 1;
        }
        if self.button_index > 7 {
            return 1;
        }
        let response = (self.button_status >> self.button_index) & 1;
        self.button_index = self.button_index + 1;
        response
    }

    /// Presses or releases one button.
    pub fn set_button_pressed(&mut self, button: JoypadButton, pressed: bool)
        ensures
            final(self).button_status == with_flag(
                old(self).button_status,
                spec_button_mask(button),
                pressed,
            ),
            final(self).strobe == old(self).strobe,
            final(self).button_index == old(self).button_index,
    {
        let mask: u8 = match button {
            JoypadButton::A => 0b0000_0001,
            JoypadButton::B => 0b0000_0010,
            JoypadButton::Select => 0b0000_0100,
            JoypadButton::Start => 0b0000_1000,
            JoypadButton::Up => 0b0001_0000,
            JoypadButton::Down => 0b0010_0000,
            JoypadButton::Left => 0b0100_0000,
            JoypadButton::Right => 0b1000_0000,
        };
        self.button_status = set_flag(self.button_status, mask, pressed);
    }

    /// A button reads back as pressed exactly when its bit is set.
    pub fn is_pressed(&self, button: JoypadButton) -> (r: bool)
        ensures
            r == bit_set(self.button_status, spec_button_mask(button)),
    {
        let mask: u8 = match button {
            JoypadButton::A => 0b0000_0001,
            JoypadButton::B => 0b0000_0010,
            JoypadButton::Select => 0b0000_0100,
            JoypadButton::Start => 0b0000_1000,
            JoypadButton::Up => 0b0001_0000,
            JoypadButton::Down => 0b0010_0000,
            JoypadButton::Left => 0b0100_0000,
            JoypadButton::Right => 0b1000_0000,
        };
        self.button_status & mask != 0
    }
}

} // verus!
