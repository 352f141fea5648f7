//! P1, the joypad register: eight buttons behind two select lines.

use vstd::prelude::*;

verus! {

/// The eight buttons, one bit each; a bit is 0 while its button is held.
#[derive(Clone, Copy, PartialEq, Eq, Structural, Debug, Hash)]
pub struct InputFlag(pub u8);

pub const INPUT_START: u8 = 0b1000_0000;

pub const INPUT_SELECT: u8 = 0b0100_0000;

pub const INPUT_B: u8 = 0b0010_0000;

pub const INPUT_A: u8 = 0b0001_0000;

pub const INPUT_DOWN: u8 = 0b0000_1000;

pub const INPUT_UP: u8 = 0b0000_0100;

pub const INPUT_LEFT: u8 = 0b0000_0010;

pub const INPUT_RIGHT: u8 = 0b0000_0001;

impl InputFlag {
    pub fn from_bits_truncate(value: u8) -> (r: InputFlag)
        ensures
            r == InputFlag(value),
    {
        InputFlag(value)
    }

    pub fn bits(&self) -> (r: u8)
        ensures
            r == self.0,
    {
        self.0
    }
}

/// The joypad register.
#[derive(Clone, Copy, PartialEq, Eq, Structural, Debug)]
pub struct InputReg {
    /// The button row (A, B, Select, Start) is selected.
    pub select_button: bool,
    /// The direction row is selected.
    pub select_dpad: bool,
    pub flags: InputFlag,
}

impl InputReg {
    pub open spec fn power_on() -> InputReg {
        InputReg { select_button: false, select_dpad: false, flags: InputFlag(0xFF) }
    }

    /// The buttons that `input` shows held and the latch shows released.
    pub open spec fn newly_pressed(self, input: InputFlag) -> u8 {
        !input.0 & self.flags.0
    }

    /// Whether taking `input` raises the joypad interrupt: some button of
    /// a selected row went from released to held.
    pub open spec fn raises(self, input: InputFlag) -> bool {
        (self.select_button && self.newly_pressed(input) >> 4 != 0) || (self.select_dpad
            && self.newly_pressed(input) & 0x0F != 0)
    }

    /// What P1 reads as: the select lines in bits 5..4 and the selected
    /// row in bits 3..0. A row that is not selected reads as ones; with
    /// both rows selected a bit is 0 if either row has its button held.
    pub open spec fn read(self) -> u8 {
        let select: u8 = ((if self.select_button {
            0x20int
        } else {
            0
        }) + (if self.select_dpad {
            0x10int
        } else {
            0
        })) as u8;
        let buttons: u8 = if self.select_button {
            (self.flags.0 & 0xF0) >> 4
        } else {
            0x0F
        };
        let directions: u8 = if self.select_dpad {
            self.flags.0 & 0x0F
        } else {
            0x0F
        };
        select | (buttons & directions)
    }

    /// The register after a write: a row is selected by a 0 in its bit.
    pub open spec fn write(self, value: u8) -> InputReg {
        InputReg { select_button: value & 0x20 == 0, select_dpad: value & 0x10 == 0, ..self }
    }

    pub fn new() -> (r: InputReg)
        ensures
            r == Self::power_on(),
    {
        InputReg {
            select_button: false,
            select_dpad: false,
            flags: InputFlag::from_bits_truncate(0xFF),
        }
    }

    /// Latches the buttons and says whether the joypad interrupt is due.
    pub fn update(&mut self, input: InputFlag) -> (interrupt: bool)
        ensures
            interrupt == old(self).raises(input),
            *final(self) == (InputReg { flags: input, ..*old(self) }),
    {
        let pressed: u8 = !input.0 & self.flags.0;
        let interrupt: bool = (self.select_button && pressed >> 4 != 0) || (self.select_dpad
            && pressed & 0x0F != 0);
        self.flags = input;
        interrupt
    }

    pub fn mem_read(&self) -> (r: u8)
        ensures
            r == self.read(),
    {
        let button: u8 = if self.select_button {
            0x20
        } else {
            0
        };
        let dpad: u8 = if self.select_dpad {
            0x10
        } else {
            0
        };
        let select: u8 = button + dpad;
        let buttons: u8 = if self.select_button {
            (self.flags.0 & 0xF0) >> 4
        } else {
            0x0F
        };
        let directions: u8 = if self.select_dpad {
            self.flags.0 & 0x0F
        } else {
            0x0F
        };
        select | (buttons & directions)
    }

    pub fn mem_write(&mut self, value: u8)
        ensures
            *final(self) == old(self).write(value),
    {
        self.select_button = value & 0x20 == 0;
        self.select_dpad = value & 0x10 == 0;
    }

    /// Nothing is raised while no row is selected or no button went down.
    pub proof fn lemma_no_press_no_interrupt(self, input: InputFlag)
        ensures
            !self.select_button && !self.select_dpad ==> !self.raises(input),
            input == self.flags ==> !self.raises(input),
    {
        let held: u8 = self.flags.0;
        assert((!held & held) >> 4 == 0 && (!held & held) & 0x0F == 0) by (bit_vector);
    }
}

} // verus!
