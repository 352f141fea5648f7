//! The SM83 register file: eight 8-bit registers, the packed flag byte,
//! the stack pointer and the program counter.

use vstd::prelude::*;

verus! {

/// Names of the 8-bit registers.
#[derive(Clone, Copy, PartialEq, Eq, Structural, Debug)]
pub enum Reg8 {
    A,
    F,
    B,
    C,
    D,
    E,
    H,
    L,
}

/// Names of the 16-bit register pairs (and the stack pointer).
#[derive(Clone, Copy, PartialEq, Eq, Structural, Debug)]
pub enum Reg16 {
    AF,
    BC,
    DE,
    HL,
    SP,
}

/// The four condition flags. As a byte they occupy the high nibble of F;
/// the low nibble of F does not exist and always reads as zero.
#[derive(Clone, Copy, PartialEq, Eq, Structural, Debug)]
pub struct FlagReg {
    pub zero: bool,
    pub subtract: bool,
    pub half_carry: bool,
    pub carry: bool,
}

pub const FLAG_ZERO: u8 = 0x80;

pub const FLAG_SUBTRACT: u8 = 0x40;

pub const FLAG_HALF_CARRY: u8 = 0x20;

pub const FLAG_CARRY: u8 = 0x10;

impl FlagReg {
    /// The byte that F reads as: Z, N, H, C in bits 7..4, zeros below.
    pub open spec fn byte(self) -> u8 {
        ((if self.zero { 128int } else { 0 })
            + (if self.subtract { 64int } else { 0 })
            + (if self.half_carry { 32int } else { 0 })
            + (if self.carry { 16int } else { 0 })) as u8
    }

    /// The flags held by the high nibble of `value`; the low nibble is dropped.
    pub open spec fn of_byte(value: u8) -> FlagReg {
        FlagReg {
            zero: value / 128 == 1,
            subtract: (value / 64) % 2 == 1,
            half_carry: (value / 32) % 2 == 1,
            carry: (value / 16) % 2 == 1,
        }
    }

    pub fn bits(&self) -> (r: u8)
        ensures
            r == self.byte(),
    {
        let z: u8 = if self.zero { FLAG_ZERO } else { 0 };
        let n: u8 = if self.subtract { FLAG_SUBTRACT } else { 0 };
        let h: u8 = if self.half_carry { FLAG_HALF_CARRY } else { 0 };
        let c: u8 = if self.carry { FLAG_CARRY } else { 0 };
        z + n + h + c
    }

    pub fn from_bits_truncate(value: u8) -> (r: FlagReg)
        ensures
            r == Self::of_byte(value),
    {
        FlagReg {
            zero: value / 128 == 1,
            subtract: (value / 64) % 2 == 1,
            half_carry: (value / 32) % 2 == 1,
            carry: (value / 16) % 2 == 1,
        }
    }

    /// Packing then unpacking loses nothing; unpacking then packing clears
    /// exactly the low nibble.
    pub proof fn lemma_byte_round_trip(flags: FlagReg, value: u8)
        ensures
            Self::of_byte(flags.byte()) == flags,
            Self::of_byte(value).byte() == value - value % 16,
            flags.byte() % 16 == 0,
    {
    }
}

/// The register file.
#[derive(Clone, Copy, PartialEq, Eq, Structural, Debug)]
pub struct Registers {
    pub a: u8,
    pub f: FlagReg,
    pub b: u8,
    pub c: u8,
    pub d: u8,
    pub e: u8,
    pub h: u8,
    pub l: u8,
    pub sp: u16,
    pub pc: u16,
}

/// The 16-bit value whose high byte is `hi` and low byte is `lo`.
pub open spec fn word(hi: u8, lo: u8) -> u16 {
    (hi * 256 + lo) as u16
}

pub open spec fn high_byte(value: u16) -> u8 {
    (value / 256) as u8
}

pub open spec fn low_byte(value: u16) -> u8 {
    (value % 256) as u8
}

pub fn make_word(hi: u8, lo: u8) -> (r: u16)
    ensures
        r == word(hi, lo),
{
    (hi as u16) * 256 + (lo as u16)
}

pub fn hi_of(value: u16) -> (r: u8)
    ensures
        r == high_byte(value),
{
    (value / 256) as u8
}

pub fn lo_of(value: u16) -> (r: u8)
    ensures
        r == low_byte(value),
{
    (value % 256) as u8
}

impl Registers {
    /// The register values left behind by the boot ROM.
    pub open spec fn power_on() -> Registers {
        Registers {
            a: 0x01,
            f: FlagReg { zero: true, subtract: false, half_carry: true, carry: true },
            b: 0x00,
            c: 0x13,
            d: 0x00,
            e: 0xD8,
            h: 0x01,
            l: 0x4D,
            sp: 0xFFFE,
            pc: 0x0100,
        }
    }

    pub open spec fn get(self, register: Reg8) -> u8 {
        match register {
            Reg8::A => self.a,
            Reg8::F => self.f.byte(),
            Reg8::B => self.b,
            Reg8::C => self.c,
            Reg8::D => self.d,
            Reg8::E => self.e,
            Reg8::H => self.h,
            Reg8::L => self.l,
        }
    }

    pub open spec fn with(self, register: Reg8, value: u8) -> Registers {
        match register {
            Reg8::A => Registers { a: value, ..self },
            Reg8::F => Registers { f: FlagReg::of_byte(value), ..self },
            Reg8::B => Registers { b: value, ..self },
            Reg8::C => Registers { c: value, ..self },
            Reg8::D => Registers { d: value, ..self },
            Reg8::E => Registers { e: value, ..self },
            Reg8::H => Registers { h: value, ..self },
            Reg8::L => Registers { l: value, ..self },
        }
    }

    pub open spec fn get_16(self, register: Reg16) -> u16 {
        match register {
            Reg16::AF => word(self.a, self.f.byte()),
            Reg16::BC => word(self.b, self.c),
            Reg16::DE => word(self.d, self.e),
            Reg16::HL => word(self.h, self.l),
            Reg16::SP => self.sp,
        }
    }

    pub open spec fn with_16(self, register: Reg16, value: u16) -> Registers {
        match register {
            Reg16::AF => Registers {
                a: high_byte(value),
                f: FlagReg::of_byte(low_byte(value)),
                ..self
            },
            Reg16::BC => Registers { b: high_byte(value), c: low_byte(value), ..self },
            Reg16::DE => Registers { d: high_byte(value), e: low_byte(value), ..self },
            Reg16::HL => Registers { h: high_byte(value), l: low_byte(value), ..self },
            Reg16::SP => Registers { sp: value, ..self },
        }
    }

    pub fn new() -> (r: Registers)
        ensures
            r == Self::power_on(),
            r.f.byte() == 0xB0,
            r.get_16(Reg16::BC) == 0x0013,
            r.get_16(Reg16::DE) == 0x00D8,
            r.get_16(Reg16::HL) == 0x014D,
    {
        Registers {
            a: 0x01,
            f: FlagReg::from_bits_truncate(0xB0),
            b: 0x00,
            c: 0x13,
            d: 0x00,
            e: 0xD8,
            h: 0x01,
            l: 0x4D,
            sp: 0xFFFE,
            pc: 0x0100,
        }
    }

    pub fn read(&self, register: &Reg8) -> (r: u8)
        ensures
            r == self.get(*register),
    {
        match register {
            Reg8::A => self.a,
            Reg8::F => self.f.bits(),
            Reg8::B => self.b,
            Reg8::C => self.c,
            Reg8::D => self.d,
            Reg8::E => self.e,
            Reg8::H => self.h,
            Reg8::L => self.l,
        }
    }

    pub fn read_16(&self, register: &Reg16) -> (r: u16)
        ensures
            r == self.get_16(*register),
    {
        match register {
            Reg16::AF => make_word(self.a, self.f.bits()),
            Reg16::BC => make_word(self.b, self.c),
            Reg16::DE => make_word(self.d, self.e),
            Reg16::HL => make_word(self.h, self.l),
            Reg16::SP => self.sp,
        }
    }

    pub fn write(&mut self, register: &Reg8, value: u8)
        ensures
            *final(self) == old(self).with(*register, value),
    {
        match register {
            Reg8::A => self.a = value,
            Reg8::F => self.f = FlagReg::from_bits_truncate(value),
            Reg8::B => self.b = value,
            Reg8::C => self.c = value,
            Reg8::D => self.d = value,
            Reg8::E => self.e = value,
            Reg8::H => self.h = value,
            Reg8::L => self.l = value,
        }
    }

    pub fn write_16(&mut self, register: &Reg16, value: u16)
        ensures
            *final(self) == old(self).with_16(*register, value),
    {
        let hi: u8 = hi_of(value);
        let lo: u8 = lo_of(value);
        match register {
            Reg16::AF => {
                self.a = hi;
                self.f = FlagReg::from_bits_truncate(lo);
            },
            Reg16::BC => {
                self.b = hi;
                self.c = lo;
            },
            Reg16::DE => {
                self.d = hi;
                self.e = lo;
            },
            Reg16::HL => {
                self.h = hi;
                self.l = lo;
            },
            Reg16::SP => self.sp = value,
        }
    }

    /// A pair that is written and then read gives the written value back,
    /// except that AF loses the low nibble of F.
    pub proof fn lemma_write_16_then_read_16(self, register: Reg16, value: u16)
        ensures
            self.with_16(register, value).get_16(register) == (if register == Reg16::AF {
                (value - value % 16) as u16
            } else {
                value
            }),
    {
        FlagReg::lemma_byte_round_trip(self.f, low_byte(value));
    }

    /// A register that is written and then read gives the written value
    /// back, except that F loses its low nibble.
    pub proof fn lemma_write_then_read(self, register: Reg8, value: u8)
        ensures
            self.with(register, value).get(register) == (if register == Reg8::F {
                (value - value % 16) as u8
            } else {
                value
            }),
    {
        FlagReg::lemma_byte_round_trip(self.f, value);
    }
}

} // verus!
