//! Flag arithmetic of the SM83: what each arithmetic, logic, rotate and
//! bit instruction computes from its operands, as functions on plain values.

use vstd::prelude::*;
use crate::registers::FlagReg;

verus! {

/// The value an operation computes together with the flags it leaves.
#[derive(Clone, Copy, PartialEq, Eq, Structural, Debug)]
pub struct AluResult {
    pub value: u8,
    pub flags: FlagReg,
}

/// The eight accumulator operations, in the order the opcode encodes them.
#[derive(Clone, Copy, PartialEq, Eq, Structural, Debug)]
pub enum AluOp {
    Add,
    Adc,
    Sub,
    Sbc,
    And,
    Xor,
    Or,
    Cp,
}

/// The eight rotate and shift operations of the prefixed table, in the
/// order the opcode encodes them.
#[derive(Clone, Copy, PartialEq, Eq, Structural, Debug)]
pub enum ShiftOp {
    Rlc,
    Rrc,
    Rl,
    Rr,
    Sla,
    Sra,
    Swap,
    Srl,
}

pub open spec fn bit_value(flag: bool) -> int {
    if flag {
        1
    } else {
        0
    }
}

/// `a + v + carry_in`: Z from the 8-bit result, N clear, H on a carry out
/// of bit 3, C on a carry out of bit 7.
pub open spec fn add_spec(a: u8, v: u8, carry_in: bool) -> AluResult {
    let sum = a + v + bit_value(carry_in);
    AluResult {
        value: (sum % 256) as u8,
        flags: FlagReg {
            zero: sum % 256 == 0,
            subtract: false,
            half_carry: a % 16 + v % 16 + bit_value(carry_in) > 15,
            carry: sum > 255,
        },
    }
}

/// `a - v - carry_in`: Z from the 8-bit result, N set, H on a borrow into
/// bit 3, C on a borrow into bit 7.
pub open spec fn sub_spec(a: u8, v: u8, carry_in: bool) -> AluResult {
    let diff = a - v - bit_value(carry_in);
    AluResult {
        value: (diff % 256) as u8,
        flags: FlagReg {
            zero: diff % 256 == 0,
            subtract: true,
            half_carry: a % 16 < v % 16 + bit_value(carry_in),
            carry: diff < 0,
        },
    }
}

pub open spec fn and_spec(a: u8, v: u8) -> AluResult {
    AluResult {
        value: a & v,
        flags: FlagReg { zero: a & v == 0, subtract: false, half_carry: true, carry: false },
    }
}

pub open spec fn xor_spec(a: u8, v: u8) -> AluResult {
    AluResult {
        value: a ^ v,
        flags: FlagReg { zero: a ^ v == 0, subtract: false, half_carry: false, carry: false },
    }
}

pub open spec fn or_spec(a: u8, v: u8) -> AluResult {
    AluResult {
        value: a | v,
        flags: FlagReg { zero: a | v == 0, subtract: false, half_carry: false, carry: false },
    }
}

/// What an accumulator operation computes. For `Cp` the value is the
/// difference that the comparison forms and then discards.
pub open spec fn alu_spec(op: AluOp, a: u8, v: u8, flags: FlagReg) -> AluResult {
    match op {
        AluOp::Add => add_spec(a, v, false),
        AluOp::Adc => add_spec(a, v, flags.carry),
        AluOp::Sub => sub_spec(a, v, false),
        AluOp::Sbc => sub_spec(a, v, flags.carry),
        AluOp::And => and_spec(a, v),
        AluOp::Xor => xor_spec(a, v),
        AluOp::Or => or_spec(a, v),
        AluOp::Cp => sub_spec(a, v, false),
    }
}

/// The accumulator after the operation: `Cp` leaves it as it was.
pub open spec fn alu_accumulator(op: AluOp, a: u8, v: u8, flags: FlagReg) -> u8 {
    if op == AluOp::Cp {
        a
    } else {
        alu_spec(op, a, v, flags).value
    }
}

pub fn add_a(a: u8, v: u8, carry_in: bool) -> (r: AluResult)
    ensures
        r == add_spec(a, v, carry_in),
        r.flags.zero == (r.value == 0),
{
    let c: u16 = if carry_in { 1 } else { 0 };
    let sum: u16 = a as u16 + v as u16 + c;
    let value: u8 = (sum % 256) as u8;
    AluResult {
        value,
        flags: FlagReg {
            zero: value == 0,
            subtract: false,
            half_carry: (a % 16) as u16 + (v % 16) as u16 + c > 15,
            carry: sum > 255,
        },
    }
}

pub fn sub_a(a: u8, v: u8, carry_in: bool) -> (r: AluResult)
    ensures
        r == sub_spec(a, v, carry_in),
        r.flags.zero == (r.value == 0),
{
    let c: u16 = if carry_in { 1 } else { 0 };
    let taken: u16 = v as u16 + c;
    let wrapped: u16 = 256 + a as u16 - taken;
    let value: u8 = (wrapped % 256) as u8;
    AluResult {
        value,
        flags: FlagReg {
            zero: value == 0,
            subtract: true,
            half_carry: ((a % 16) as u16) < (v % 16) as u16 + c,
            carry: (a as u16) < taken,
        },
    }
}

pub fn and_a(a: u8, v: u8) -> (r: AluResult)
    ensures
        r == and_spec(a, v),
        r.flags.zero == (r.value == 0),
{
    let value: u8 = a & v;
    AluResult {
        value,
        flags: FlagReg { zero: value == 0, subtract: false, half_carry: true, carry: false },
    }
}

pub fn xor_a(a: u8, v: u8) -> (r: AluResult)
    ensures
        r == xor_spec(a, v),
        r.flags.zero == (r.value == 0),
{
    let value: u8 = a ^ v;
    AluResult {
        value,
        flags: FlagReg { zero: value == 0, subtract: false, half_carry: false, carry: false },
    }
}

pub fn or_a(a: u8, v: u8) -> (r: AluResult)
    ensures
        r == or_spec(a, v),
        r.flags.zero == (r.value == 0),
{
    let value: u8 = a | v;
    AluResult {
        value,
        flags: FlagReg { zero: value == 0, subtract: false, half_carry: false, carry: false },
    }
}

/// Runs one accumulator operation.
pub fn alu(op: AluOp, a: u8, v: u8, flags: FlagReg) -> (r: AluResult)
    ensures
        r == alu_spec(op, a, v, flags),
        r.flags.zero == (r.value == 0),
{
    match op {
        AluOp::Add => add_a(a, v, false),
        AluOp::Adc => add_a(a, v, flags.carry),
        AluOp::Sub => sub_a(a, v, false),
        AluOp::Sbc => sub_a(a, v, flags.carry),
        AluOp::And => and_a(a, v),
        AluOp::Xor => xor_a(a, v),
        AluOp::Or => or_a(a, v),
        AluOp::Cp => sub_a(a, v, false),
    }
}

/// After every accumulator operation Z is set exactly when the 8-bit
/// result is zero.
pub proof fn lemma_alu_zero_flag(op: AluOp, a: u8, v: u8, flags: FlagReg)
    ensures
        alu_spec(op, a, v, flags).flags.zero == (alu_spec(op, a, v, flags).value == 0),
{
}

/// INC: C is kept, H is set on a carry out of bit 3.
pub open spec fn inc_spec(v: u8, flags: FlagReg) -> AluResult {
    AluResult {
        value: ((v + 1) % 256) as u8,
        flags: FlagReg {
            zero: v == 255,
            subtract: false,
            half_carry: v % 16 == 15,
            carry: flags.carry,
        },
    }
}

/// DEC: C is kept, H is set on a borrow into bit 3.
pub open spec fn dec_spec(v: u8, flags: FlagReg) -> AluResult {
    AluResult {
        value: ((v - 1) % 256) as u8,
        flags: FlagReg {
            zero: v == 1,
            subtract: true,
            half_carry: v % 16 == 0,
            carry: flags.carry,
        },
    }
}

pub fn inc(v: u8, flags: FlagReg) -> (r: AluResult)
    ensures
        r == inc_spec(v, flags),
        r.flags.zero == (r.value == 0),
{
    let value: u8 = if v == 255 { 0 } else { v + 1 };
    AluResult {
        value,
        flags: FlagReg {
            zero: value == 0,
            subtract: false,
            half_carry: v % 16 == 15,
            carry: flags.carry,
        },
    }
}

pub fn dec(v: u8, flags: FlagReg) -> (r: AluResult)
    ensures
        r == dec_spec(v, flags),
        r.flags.zero == (r.value == 0),
{
    let value: u8 = if v == 0 { 255 } else { v - 1 };
    AluResult {
        value,
        flags: FlagReg {
            zero: value == 0,
            subtract: true,
            half_carry: v % 16 == 0,
            carry: flags.carry,
        },
    }
}

/// The result of a 16-bit operation with the flags it leaves.
#[derive(Clone, Copy, PartialEq, Eq, Structural, Debug)]
pub struct WideResult {
    pub value: u16,
    pub flags: FlagReg,
}

/// ADD HL,rr: Z is kept, N clear, H on a carry out of bit 11, C on a carry
/// out of bit 15.
pub open spec fn add_16_spec(hl: u16, rr: u16, flags: FlagReg) -> WideResult {
    WideResult {
        value: ((hl + rr) % 0x10000) as u16,
        flags: FlagReg {
            zero: flags.zero,
            subtract: false,
            half_carry: hl % 0x1000 + rr % 0x1000 >= 0x1000,
            carry: hl + rr > 0xFFFF,
        },
    }
}

pub fn add_16(hl: u16, rr: u16, flags: FlagReg) -> (r: WideResult)
    ensures
        r == add_16_spec(hl, rr, flags),
{
    let sum: u32 = hl as u32 + rr as u32;
    WideResult {
        value: (sum % 0x10000) as u16,
        flags: FlagReg {
            zero: flags.zero,
            subtract: false,
            half_carry: (hl % 0x1000) as u32 + (rr % 0x1000) as u32 >= 0x1000,
            carry: sum > 0xFFFF,
        },
    }
}

/// The signed value of a displacement byte.
pub open spec fn signed(offset: u8) -> int {
    if offset < 128 {
        offset as int
    } else {
        offset - 256
    }
}

/// `base` moved by the signed displacement, wrapping at 16 bits.
pub open spec fn displace(base: u16, offset: u8) -> u16 {
    ((base + signed(offset)) % 0x10000) as u16
}

pub fn add_signed(base: u16, offset: u8) -> (r: u16)
    ensures
        r == displace(base, offset),
{
    let moved: u32 = if offset < 128 {
        base as u32 + offset as u32
    } else {
        base as u32 + 0x10000 + offset as u32 - 256
    };
    (moved % 0x10000) as u16
}

/// ADD SP,e and LD HL,SP+e: Z and N clear; H and C come from adding the
/// displacement byte, taken as unsigned, to the low byte of SP.
pub open spec fn add_sp_spec(sp: u16, offset: u8) -> WideResult {
    WideResult {
        value: displace(sp, offset),
        flags: FlagReg {
            zero: false,
            subtract: false,
            half_carry: sp % 16 + offset % 16 >= 16,
            carry: sp % 256 + offset >= 256,
        },
    }
}

pub fn add_sp(sp: u16, offset: u8) -> (r: WideResult)
    ensures
        r == add_sp_spec(sp, offset),
{
    WideResult {
        value: add_signed(sp, offset),
        flags: FlagReg {
            zero: false,
            subtract: false,
            half_carry: sp % 16 + (offset % 16) as u16 >= 16,
            carry: sp % 256 + offset as u16 >= 256,
        },
    }
}

/// Decimal adjust. After an addition: add 0x06 if H is set or the low
/// nibble exceeds 9, add 0x60 if C is set or the value exceeds 0x99 (and
/// then C is set). After a subtraction: take 0x06 off if H is set, 0x60 if
/// C is set. Z comes from the result, H is cleared, N is kept.
pub open spec fn daa_spec(a: u8, flags: FlagReg) -> AluResult {
    if flags.subtract {
        let low: int = if flags.half_carry { 0x06 } else { 0 };
        let high: int = if flags.carry { 0x60 } else { 0 };
        let res = (a - low - high) % 256;
        AluResult {
            value: res as u8,
            flags: FlagReg {
                zero: res == 0,
                subtract: true,
                half_carry: false,
                carry: flags.carry,
            },
        }
    } else {
        let low: int = if flags.half_carry || a % 16 > 9 { 0x06 } else { 0 };
        let high: int = if flags.carry || a > 0x99 { 0x60 } else { 0 };
        let res = (a + low + high) % 256;
        AluResult {
            value: res as u8,
            flags: FlagReg {
                zero: res == 0,
                subtract: false,
                half_carry: false,
                carry: flags.carry || a > 0x99,
            },
        }
    }
}

pub fn daa(a: u8, flags: FlagReg) -> (r: AluResult)
    ensures
        r == daa_spec(a, flags),
        r.flags.zero == (r.value == 0),
{
    let mut adjust: u16 = 0;
    let mut carry: bool = flags.carry;
    let value: u8 = if flags.subtract {
        if flags.half_carry {
            adjust = adjust + 0x06;
        }
        if flags.carry {
            adjust = adjust + 0x60;
        }
        ((256 + a as u16 - adjust) % 256) as u8
    } else {
        if flags.half_carry || a % 16 > 9 {
            adjust = adjust + 0x06;
        }
        if flags.carry || a > 0x99 {
            adjust = adjust + 0x60;
            carry = true;
        }
        ((a as u16 + adjust) % 256) as u8
    };
    AluResult {
        value,
        flags: FlagReg { zero: value == 0, subtract: flags.subtract, half_carry: false, carry },
    }
}

/// What a rotate or shift of the prefixed table computes. N and H are
/// cleared, Z comes from the result, C is the bit pushed out (SWAP clears it).
pub open spec fn shift_spec(op: ShiftOp, v: u8, flags: FlagReg) -> AluResult {
    let value: int = match op {
        ShiftOp::Rlc => (v * 2) % 256 + v / 128,
        ShiftOp::Rrc => v / 2 + (v % 2) * 128,
        ShiftOp::Rl => (v * 2) % 256 + bit_value(flags.carry),
        ShiftOp::Rr => v / 2 + bit_value(flags.carry) * 128,
        ShiftOp::Sla => (v * 2) % 256,
        ShiftOp::Sra => v / 2 + (v / 128) * 128,
        ShiftOp::Swap => (v % 16) * 16 + v / 16,
        ShiftOp::Srl => (v / 2) as int,
    };
    let carry: bool = match op {
        ShiftOp::Rlc | ShiftOp::Rl | ShiftOp::Sla => v >= 128,
        ShiftOp::Rrc | ShiftOp::Rr | ShiftOp::Sra | ShiftOp::Srl => v % 2 == 1,
        ShiftOp::Swap => false,
    };
    AluResult {
        value: value as u8,
        flags: FlagReg { zero: value == 0, subtract: false, half_carry: false, carry },
    }
}

pub fn shift(op: ShiftOp, v: u8, flags: FlagReg) -> (r: AluResult)
    ensures
        r == shift_spec(op, v, flags),
        r.flags.zero == (r.value == 0),
{
    let carry_in: u8 = if flags.carry { 1 } else { 0 };
    let doubled: u8 = ((v as u16 * 2) % 256) as u8;
    let value: u8 = match op {
        ShiftOp::Rlc => doubled + v / 128,
        ShiftOp::Rrc => v / 2 + (v % 2) * 128,
        ShiftOp::Rl => doubled + carry_in,
        ShiftOp::Rr => v / 2 + carry_in * 128,
        ShiftOp::Sla => doubled,
        ShiftOp::Sra => v / 2 + (v / 128) * 128,
        ShiftOp::Swap => (v % 16) * 16 + v / 16,
        ShiftOp::Srl => v / 2,
    };
    let carry: bool = match op {
        ShiftOp::Rlc | ShiftOp::Rl | ShiftOp::Sla => v >= 128,
        ShiftOp::Rrc | ShiftOp::Rr | ShiftOp::Sra | ShiftOp::Srl => v % 2 == 1,
        ShiftOp::Swap => false,
    };
    AluResult {
        value,
        flags: FlagReg { zero: value == 0, subtract: false, half_carry: false, carry },
    }
}

/// RLCA, RRCA, RLA, RRA: the rotate of the prefixed table with Z forced clear.
pub open spec fn rotate_a_spec(op: ShiftOp, a: u8, flags: FlagReg) -> AluResult {
    let r = shift_spec(op, a, flags);
    AluResult { value: r.value, flags: FlagReg { zero: false, ..r.flags } }
}

pub fn rotate_a(op: ShiftOp, a: u8, flags: FlagReg) -> (r: AluResult)
    ensures
        r == rotate_a_spec(op, a, flags),
        !r.flags.zero,
{
    let rotated: AluResult = shift(op, a, flags);
    AluResult {
        value: rotated.value,
        flags: FlagReg {
            zero: false,
            subtract: rotated.flags.subtract,
            half_carry: rotated.flags.half_carry,
            carry: rotated.flags.carry,
        },
    }
}

/// After every rotate or shift of the prefixed table, and after INC, DEC
/// and DAA, Z is set exactly when the 8-bit result is zero.
pub proof fn lemma_unary_zero_flag(op: ShiftOp, v: u8, flags: FlagReg)
    ensures
        shift_spec(op, v, flags).flags.zero == (shift_spec(op, v, flags).value == 0),
        inc_spec(v, flags).flags.zero == (inc_spec(v, flags).value == 0),
        dec_spec(v, flags).flags.zero == (dec_spec(v, flags).value == 0),
        daa_spec(v, flags).flags.zero == (daa_spec(v, flags).value == 0),
{
}

/// BIT n: Z is set exactly when bit `n` of the value is 0; N clear, H set,
/// C kept.
pub open spec fn bit_test_spec(n: u8, v: u8, flags: FlagReg) -> FlagReg {
    FlagReg { zero: (v >> n) & 1 == 0, subtract: false, half_carry: true, carry: flags.carry }
}

pub open spec fn bit_reset_spec(n: u8, v: u8) -> u8 {
    v & !(1u8 << n)
}

pub open spec fn bit_set_spec(n: u8, v: u8) -> u8 {
    v | (1u8 << n)
}

pub fn bit_test(n: u8, v: u8, flags: FlagReg) -> (r: FlagReg)
    requires
        n < 8,
    ensures
        r == bit_test_spec(n, v, flags),
{
    FlagReg { zero: (v >> n) & 1 == 0, subtract: false, half_carry: true, carry: flags.carry }
}

pub fn bit_reset(n: u8, v: u8) -> (r: u8)
    requires
        n < 8,
    ensures
        r == bit_reset_spec(n, v),
{
    v & !(1u8 << n)
}

pub fn bit_set(n: u8, v: u8) -> (r: u8)
    requires
        n < 8,
    ensures
        r == bit_set_spec(n, v),
{
    v | (1u8 << n)
}

/// SET makes the tested bit 1, RES makes it 0, and neither touches another bit.
pub proof fn lemma_bit_set_reset(n: u8, m: u8, v: u8)
    by (bit_vector)
    requires
        n < 8,
        m < 8,
    ensures
        ((v | (1u8 << n)) >> n) & 1 == 1,
        ((v & !(1u8 << n)) >> n) & 1 == 0,
        m != n ==> ((v | (1u8 << n)) >> m) & 1 == (v >> m) & 1,
        m != n ==> ((v & !(1u8 << n)) >> m) & 1 == (v >> m) & 1,
{
}

} // verus!
