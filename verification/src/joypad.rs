//! The 8-bit strobe-and-shift controller protocol.

use vstd::prelude::*;

verus! {

/// One physical controller button. The bit each button occupies in the
/// status byte is given by [`JoypadButton::mask`].
#[derive(Debug, PartialEq, Eq, Structural, Clone, Copy)]
pub enum JoypadButton {
    A,
    B,
    SELECT,
    START,
    UP,
    DOWN,
    LEFT,
    RIGHT,
}

/// Bit assigned to a button: A, B, SELECT, START, UP, DOWN, LEFT, RIGHT
/// occupy bits 0..7 in that order.
pub open spec fn spec_button_mask(b: JoypadButton) -> u8 {
    match b {
        JoypadButton::A => 0x01,
        JoypadButton::B => 0x02,
        JoypadButton::SELECT => 0x04,
        JoypadButton::START => 0x08,
        JoypadButton::UP => 0x10,
        JoypadButton::DOWN => 0x20,
        JoypadButton::LEFT => 0x40,
        JoypadButton::RIGHT => 0x80,
    }
}

impl JoypadButton {
    pub fn mask(self) -> (r: u8)
        ensures
            r == spec_button_mask(self),
    {
        match self {
            JoypadButton::A => 0x01,
            JoypadButton::B => 0x02,
            JoypadButton::SELECT => 0x04,
            JoypadButton::START => 0x08,
            JoypadButton::UP => 0x10,
            JoypadButton::DOWN => 0x20,
            JoypadButton::LEFT => 0x40,
            JoypadButton::RIGHT => 0x80,
        }
    }
}

/// Controller state: the strobe line, the shift cursor and the button byte.
pub struct Joypad {
    pub strobe: bool,
    pub button_index: u8,
    pub button_status: u8,
}

impl Joypad {
    pub fn new() -> (r: Joypad)
        ensures
            r.strobe == false,
            r.button_index == 0,
            r.button_status == 0,
    {
        Joypad { strobe: false, button_index: 0, button_status: 0 }
    }

    /// Writing bit 0 high latches the strobe and rewinds the shift cursor.
    pub fn write(&mut self, value: u8)
        ensures
            final(self).strobe == (value & 1 == 1),
            final(self).button_index == if value & 1 == 1 {
                0u8
            } else {
                old(self).button_index
            },
            final(self).button_status == old(self).button_status,
    {
        self.strobe = value & 0x01 == 0x01;
        if self.strobe {
            self.button_index = 0;
        }
    }

    /// Shift out one button bit. Past the eighth read the open bus returns 1.
    /// With the strobe low the cursor advances after each read.
    pub fn read(&mut self) -> (r: u8)
        ensures
            old(self).button_index > 7 ==> r == 1 && *final(self) == *old(self),
            old(self).button_index <= 7 ==> r == (old(self).button_status >> old(
                self,
            ).button_index) & 1,
            old(self).button_index <= 7 ==> final(self).button_index == if old(self).strobe {
                old(self).button_index
            } else {
                (old(self).button_index + 1) as u8
            },
            final(self).strobe == old(self).strobe,
            final(self).button_status == old(self).button_status,
    {
        if self.button_index > 7 {
            return 1;
        }
        let ghost s = self.button_status;
        let ghost i = self.button_index;
        let response = (self.button_status & (1u8 << self.button_index)) >> self.button_index;
        proof {
            assert((s & (1u8 << i)) >> i == (s >> i) & 1) by (bit_vector)
                requires
                    i <= 7,
            ;
        }
        if !self.strobe {
            self.button_index += 1;
        }
        response
    }

    /// Mark a button as held down.
    pub fn press(&mut self, button: JoypadButton)
        ensures
            final(self).button_status == old(self).button_status | spec_button_mask(button),
            final(self).strobe == old(self).strobe,
            final(self).button_index == old(self).button_index,
    {
        let m = button.mask();
        self.button_status = self.button_status | m;
    }

    /// Mark a button as released.
    pub fn release(&mut self, button: JoypadButton)
        ensures
            final(self).button_status == old(self).button_status & !spec_button_mask(button),
            final(self).strobe == old(self).strobe,
            final(self).button_index == old(self).button_index,
    {
        let m = button.mask();
        self.button_status = self.button_status & !m;
    }
}

} // verus!
