//! Standard NES controllers, read one button at a time through $4016 / $4017.
use vstd::prelude::*;

verus! {

/// The eight buttons, in the order in which a read sequence reports them.
#[derive(Clone, Copy, Debug, PartialEq, Eq, Structural)]
pub enum JoypadButton {
    A,
    B,
    Select,
    Start,
    Up,
    Down,
    Left,
    Right,
}

impl JoypadButton {
    /// The bit that stands for this button in the button byte.
    pub open spec fn mask(self) -> u8 {
        match self {
            JoypadButton::A => 0x01,
            JoypadButton::B => 0x02,
            JoypadButton::Select => 0x04,
            JoypadButton::Start => 0x08,
            JoypadButton::Up => 0x10,
            JoypadButton::Down => 0x20,
            JoypadButton::Left => 0x40,
            JoypadButton::Right => 0x80,
        }
    }

    pub fn bits(&self) -> (r: u8)
        ensures
            r == self.mask(),
    {
        match self {
            JoypadButton::A => 0x01,
            JoypadButton::B => 0x02,
            JoypadButton::Select => 0x04,
            JoypadButton::Start => 0x08,
            JoypadButton::Up => 0x10,
            JoypadButton::Down => 0x20,
            JoypadButton::Left => 0x40,
            JoypadButton::Right => 0x80,
        }
    }
}

/// A controller's shift register: while `strobe` is high the index stays on
/// button A; once it is low each read moves on to the next button, and after
/// the eighth every read returns 1.
#[derive(Clone, Copy, Debug, PartialEq, Eq, Structural)]
pub struct Joypad {
    pub strobe: bool,
    pub index: u8,
    pub buttons: u8,
}

impl Joypad {
    /// The bit that the next read returns.
    pub open spec fn peek(self) -> u8 {
        if self.index > 7 {
            1
        } else {
            (self.buttons >> self.index) & 1
        }
    }

    /// The controller after a read.
    pub open spec fn after_read(self) -> Joypad {
        if self.index <= 7 && !self.strobe {
            Joypad { index: (self.index + 1) as u8, ..self }
        } else {
            self
        }
    }

    /// The controller after `data` is written to its port.
    pub open spec fn after_write(self, data: u8) -> Joypad {
        let strobe = data & 1 == 1;
        Joypad { strobe, index: if strobe { 0 } else { self.index }, ..self }
    }

    /// A controller with no button pressed.
    pub fn new() -> (r: Joypad)
        ensures
            r == (Joypad { strobe: false, index: 0, buttons: 0 }),
    {
        Joypad { strobe: false, index: 0, buttons: 0 }
    }

    /// Writes the strobe bit: a 1 in bit 0 restarts the sequence at button A.
    pub fn store_u8(&mut self, data: u8)
        ensures
            *final(self) == old(self).after_write(data),
    {
        self.strobe = data & 1 == 1;
        if self.strobe {
            self.index = 0;
        }
    }

    /// Reports the current button (1 when pressed) and moves on to the next.
    pub fn load_u8(&mut self) -> (r: u8)
        ensures
            r == old(self).peek(),
            *final(self) == old(self).after_read(),
    {
        if self.index > 7 {
            return 1;
        }
        let response = (self.buttons >> self.index) & 1;
        if !self.strobe {
            self.index = self.index + 1;
        }
        response
    }

    /// Records whether `button` is held down.
    pub fn set_button_pressed_status(&mut self, button: JoypadButton, pressed: bool)
        ensures
            *final(self) == (Joypad {
                buttons: crate::flags::assign(old(self).buttons, button.mask(), pressed),
                ..*old(self)
            }),
    {
        self.buttons = crate::flags::assign_flag(self.buttons, button.bits(), pressed);
    }
}

} // verus!
