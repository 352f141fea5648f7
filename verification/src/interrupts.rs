//! IE, IF and IME: which interrupts are requested, enabled and served.

use vstd::prelude::*;

verus! {

/// A set of interrupt lines, one bit each, VBLANK lowest.
#[derive(Clone, Copy, PartialEq, Eq, Structural, Debug)]
pub struct InterruptFlag(pub u8);

pub const INT_VBLANK: u8 = 0b0000_0001;

pub const INT_LCD: u8 = 0b0000_0010;

pub const INT_TIMER: u8 = 0b0000_0100;

pub const INT_SERIAL: u8 = 0b0000_1000;

pub const INT_JOYPAD: u8 = 0b0001_0000;

/// The five lines together.
pub const INT_ALL: u8 = 0b0001_1111;

impl InterruptFlag {
    pub open spec fn of_byte(value: u8) -> InterruptFlag {
        InterruptFlag(value & INT_ALL)
    }

    pub open spec fn empty_set() -> InterruptFlag {
        InterruptFlag(0)
    }

    /// Whether any line of `lines` is in the set.
    pub open spec fn has(self, lines: u8) -> bool {
        self.0 & lines != 0
    }

    pub open spec fn with(self, lines: u8) -> InterruptFlag {
        InterruptFlag(self.0 | (lines & INT_ALL))
    }

    pub open spec fn without(self, lines: u8) -> InterruptFlag {
        InterruptFlag(self.0 & !lines)
    }

    pub fn from_bits_truncate(value: u8) -> (r: InterruptFlag)
        ensures
            r == Self::of_byte(value),
    {
        InterruptFlag(value & INT_ALL)
    }

    pub fn empty() -> (r: InterruptFlag)
        ensures
            r == Self::empty_set(),
    {
        InterruptFlag(0)
    }

    pub fn bits(&self) -> (r: u8)
        ensures
            r == self.0,
    {
        self.0
    }

    pub fn intersects(&self, lines: u8) -> (r: bool)
        ensures
            r == self.has(lines),
    {
        self.0 & lines != 0
    }

    pub fn insert(&mut self, lines: u8)
        ensures
            *final(self) == old(self).with(lines),
    {
        self.0 = self.0 | (lines & INT_ALL);
    }

    pub fn remove(&mut self, lines: u8)
        ensures
            *final(self) == old(self).without(lines),
    {
        self.0 = self.0 & !lines;
    }
}

/// The interrupt controller.
#[derive(Clone, Copy, PartialEq, Eq, Structural, Debug)]
pub struct InterruptState {
    /// Master enable; not visible on the bus.
    pub ime: bool,
    /// IE, at 0xFFFF.
    pub ie: InterruptFlag,
    /// IF, at 0xFF0F.
    pub iflag: InterruptFlag,
}

/// The line served first among `pending`: the lowest set bit of the five,
/// or 0 when none is set.
pub open spec fn highest_priority(pending: u8) -> u8 {
    if pending & INT_VBLANK != 0 {
        INT_VBLANK
    } else if pending & INT_LCD != 0 {
        INT_LCD
    } else if pending & INT_TIMER != 0 {
        INT_TIMER
    } else if pending & INT_SERIAL != 0 {
        INT_SERIAL
    } else if pending & INT_JOYPAD != 0 {
        INT_JOYPAD
    } else {
        0
    }
}

/// The handler address of a line.
pub open spec fn vector_of(line: u8) -> u16 {
    if line == INT_VBLANK {
        0x40
    } else if line == INT_LCD {
        0x48
    } else if line == INT_TIMER {
        0x50
    } else if line == INT_SERIAL {
        0x58
    } else {
        0x60
    }
}

pub fn first_pending(pending: u8) -> (r: u8)
    ensures
        r == highest_priority(pending),
{
    if pending & INT_VBLANK != 0 {
        INT_VBLANK
    } else if pending & INT_LCD != 0 {
        INT_LCD
    } else if pending & INT_TIMER != 0 {
        INT_TIMER
    } else if pending & INT_SERIAL != 0 {
        INT_SERIAL
    } else if pending & INT_JOYPAD != 0 {
        INT_JOYPAD
    } else {
        0
    }
}

pub fn interrupt_vector(line: u8) -> (r: u16)
    ensures
        r == vector_of(line),
{
    if line == INT_VBLANK {
        0x40
    } else if line == INT_LCD {
        0x48
    } else if line == INT_TIMER {
        0x50
    } else if line == INT_SERIAL {
        0x58
    } else {
        0x60
    }
}

impl InterruptState {
    pub open spec fn power_on() -> InterruptState {
        InterruptState { ime: false, ie: InterruptFlag(0), iflag: InterruptFlag(0) }
    }

    /// The lines that are both requested and enabled.
    pub open spec fn pending(self) -> u8 {
        self.ie.0 & self.iflag.0 & INT_ALL
    }

    pub open spec fn read(self, address: u16) -> u8 {
        if address == 0xFF0F {
            self.iflag.0
        } else {
            self.ie.0
        }
    }

    pub open spec fn write(self, address: u16, value: u8) -> InterruptState {
        if address == 0xFF0F {
            InterruptState { iflag: InterruptFlag::of_byte(value), ..self }
        } else {
            InterruptState { ie: InterruptFlag::of_byte(value), ..self }
        }
    }

    /// The controller after `lines` were raised.
    pub open spec fn raised(self, lines: u8) -> InterruptState {
        InterruptState { iflag: self.iflag.with(lines), ..self }
    }

    pub fn new() -> (r: InterruptState)
        ensures
            r == Self::power_on(),
    {
        InterruptState { ime: false, ie: InterruptFlag::empty(), iflag: InterruptFlag::empty() }
    }

    pub fn pending_lines(&self) -> (r: u8)
        ensures
            r == self.pending(),
    {
        self.ie.0 & self.iflag.0 & INT_ALL
    }

    pub fn mem_read(&self, address: u16) -> (r: u8)
        requires
            address == 0xFF0F || address == 0xFFFF,
        ensures
            r == self.read(address),
    {
        if address == 0xFF0F {
            self.iflag.bits()
        } else {
            self.ie.bits()
        }
    }

    pub fn mem_write(&mut self, address: u16, value: u8)
        requires
            address == 0xFF0F || address == 0xFFFF,
        ensures
            *final(self) == old(self).write(address, value),
    {
        if address == 0xFF0F {
            self.iflag = InterruptFlag::from_bits_truncate(value);
        } else {
            self.ie = InterruptFlag::from_bits_truncate(value);
        }
    }
}

/// The line that is served is one of the pending ones, it is a single
/// line, no pending line has a lower bit, and serving it leaves the other
/// requests standing.
pub proof fn lemma_highest_priority(pending: u8, requests: u8)
    by (bit_vector)
    requires
        pending & 0x1F != 0,
    ensures
        pending & highest_priority(pending) == highest_priority(pending),
        highest_priority(pending) == 1 || highest_priority(pending) == 2 || highest_priority(
            pending,
        ) == 4 || highest_priority(pending) == 8 || highest_priority(pending) == 16,
        pending & ((highest_priority(pending) - 1) as u8) == 0,
        (requests & !highest_priority(pending)) | highest_priority(pending) == requests
            | highest_priority(pending),
        (requests & !highest_priority(pending)) & highest_priority(pending) == 0,
{
}

} // verus!
