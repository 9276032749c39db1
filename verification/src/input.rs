//! The standard controller: eight buttons behind a latched shift register.

use vstd::prelude::*;

verus! {

/// The eight buttons, in the order the shift register serves them.
#[derive(Clone, Copy, Debug, PartialEq, Eq, Structural)]
pub enum Key {
    A,
    B,
    Select,
    Start,
    Up,
    Down,
    Left,
    Right,
}

#[derive(Clone, Copy, Debug, PartialEq, Eq, Structural)]
pub struct Controller {
    pub a: bool,
    pub b: bool,
    pub select: bool,
    pub start: bool,
    pub up: bool,
    pub down: bool,
    pub left: bool,
    pub right: bool,
    /// The strobe line: while high the shift register follows the buttons.
    pub strobe: bool,
    /// The latched buttons not yet read, next one in bit 0.
    pub shift: u8,
}

/// 1 for a pressed button, 0 for a released one.
pub open spec fn spec_level(pressed: bool) -> int {
    if pressed {
        1
    } else {
        0
    }
}

impl Controller {
    /// The live buttons as a byte: A in bit 0, then B, Select, Start, Up,
    /// Down, Left, and Right in bit 7.
    pub open spec fn spec_buttons(&self) -> u8 {
        (spec_level(self.a) + 2 * spec_level(self.b) + 4 * spec_level(self.select) + 8
            * spec_level(self.start) + 16 * spec_level(self.up) + 32 * spec_level(self.down) + 64
            * spec_level(self.left) + 128 * spec_level(self.right)) as u8
    }

    pub open spec fn spec_update(&self, key: Key, pressed: bool) -> Controller {
        match key {
            Key::A => Controller { a: pressed, ..*self },
            Key::B => Controller { b: pressed, ..*self },
            Key::Select => Controller { select: pressed, ..*self },
            Key::Start => Controller { start: pressed, ..*self },
            Key::Up => Controller { up: pressed, ..*self },
            Key::Down => Controller { down: pressed, ..*self },
            Key::Left => Controller { left: pressed, ..*self },
            Key::Right => Controller { right: pressed, ..*self },
        }
    }

    /// A write to `$4016`: bit 0 drives the strobe. While it is high, and
    /// at the moment it falls, the shift register takes the live buttons.
    pub open spec fn spec_write(&self, value: u8) -> Controller {
        if value % 2 == 1 || self.strobe {
            Controller { strobe: value % 2 == 1, shift: self.spec_buttons(), ..*self }
        } else {
            *self
        }
    }

    /// A read of `$4016`: the next button in bit 0 over the open-bus bits
    /// `$40`. With the strobe high this is always A; otherwise the register
    /// moves on, and reads 1 once all eight buttons are out.
    pub open spec fn spec_read(&self) -> (u8, Controller) {
        if self.strobe {
            ((0x40 + spec_level(self.a)) as u8, *self)
        } else {
            ((0x40 + self.shift % 2) as u8, Controller { shift: (self.shift / 2 + 128) as u8, ..*self })
        }
    }

    /// No button pressed, strobe low, register empty.
    pub open spec fn spec_new() -> Controller {
        Controller {
            a: false,
            b: false,
            select: false,
            start: false,
            up: false,
            down: false,
            left: false,
            right: false,
            strobe: false,
            shift: 0,
        }
    }

    pub fn new() -> (r: Self)
        ensures
            r == Self::spec_new(),
    {
        Controller {
            a: false,
            b: false,
            select: false,
            start: false,
            up: false,
            down: false,
            left: false,
            right: false,
            strobe: false,
            shift: 0,
        }
    }

    /// Records that `key` was pressed or released.
    pub fn update(&mut self, key: Key, pressed: bool)
        ensures
            *final(self) == old(self).spec_update(key, pressed),
    {
        match key {
            Key::A => self.a = pressed,
            Key::B => self.b = pressed,
            Key::Select => self.select = pressed,
            Key::Start => self.start = pressed,
            Key::Up => self.up = pressed,
            Key::Down => self.down = pressed,
            Key::Left => self.left = pressed,
            Key::Right => self.right = pressed,
        }
    }

    pub fn buttons(&self) -> (r: u8)
        ensures
            r == self.spec_buttons(),
    {
        let mut byte: u8 = 0;
        if self.a {
            byte = byte + 1;
        }
        if self.b {
            byte = byte + 2;
        }
        if self.select {
            byte = byte + 4;
        }
        if self.start {
            byte = byte + 8;
        }
        if self.up {
            byte = byte + 16;
        }
        if self.down {
            byte = byte + 32;
        }
        if self.left {
            byte = byte + 64;
        }
        if self.right {
            byte = byte + 128;
        }
        byte
    }

    pub fn write(&mut self, value: u8)
        ensures
            *final(self) == old(self).spec_write(value),
    {
        if value % 2 == 1 || self.strobe {
            self.shift = self.buttons();
            self.strobe = value % 2 == 1;
        }
    }

    pub fn read(&mut self) -> (r: u8)
        ensures
            (r, *final(self)) == old(self).spec_read(),
    {
        if self.strobe {
            if self.a {
                0x41
            } else {
                0x40
            }
        } else {
            let bit = self.shift % 2;
            self.shift = self.shift / 2 + 128;
            0x40 + bit
        }
    }
}

} // verus!
