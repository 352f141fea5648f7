//! The two opcode tables of the SM83 and the machine cycles each
//! instruction is published to take.

use vstd::prelude::*;
use crate::alu::{AluOp, ShiftOp};
use crate::registers::{FlagReg, Reg16, Reg8};

verus! {

/// An 8-bit operand: a register, or the byte that HL points at.
#[derive(Clone, Copy, PartialEq, Eq, Structural, Debug)]
pub enum Operand {
    Register(Reg8),
    HlIndirect,
}

/// A branch condition.
#[derive(Clone, Copy, PartialEq, Eq, Structural, Debug)]
pub enum Condition {
    NotZero,
    Zero,
    NotCarry,
    Carry,
}

/// The register that addresses the byte in `LD (rr),A` and `LD A,(rr)`;
/// HL counts up or down after the access.
#[derive(Clone, Copy, PartialEq, Eq, Structural, Debug)]
pub enum Pointer {
    BC,
    DE,
    HlIncrement,
    HlDecrement,
}

/// An instruction of the unprefixed table.
#[derive(Clone, Copy, PartialEq, Eq, Structural, Debug)]
pub enum Instruction {
    Nop,
    Stop,
    Halt,
    Di,
    Ei,
    /// LD destination, source.
    Load(Operand, Operand),
    /// LD operand, d8.
    LoadImmediate(Operand),
    /// LD rr, d16.
    LoadWide(Reg16),
    /// LD (pointer), A.
    StoreA(Pointer),
    /// LD A, (pointer).
    LoadA(Pointer),
    /// LD (a16), SP.
    StoreSp,
    IncWide(Reg16),
    DecWide(Reg16),
    Inc(Operand),
    Dec(Operand),
    /// ADD HL, rr.
    AddHl(Reg16),
    /// RLCA, RRCA, RLA, RRA.
    RotateA(ShiftOp),
    Daa,
    Cpl,
    Scf,
    Ccf,
    /// JR e, always or on a condition.
    JumpRelative(Option<Condition>),
    /// An accumulator operation on an operand.
    Alu(AluOp, Operand),
    /// An accumulator operation on d8.
    AluImmediate(AluOp),
    Return(Option<Condition>),
    ReturnInterrupt,
    Jump(Option<Condition>),
    JumpHl,
    Call(Option<Condition>),
    /// RST to the given address.
    Restart(u8),
    Pop(Reg16),
    Push(Reg16),
    /// LDH (a8), A.
    StoreHigh,
    /// LDH A, (a8).
    LoadHigh,
    /// LD (C), A.
    StoreHighC,
    /// LD A, (C).
    LoadHighC,
    /// LD (a16), A.
    StoreDirect,
    /// LD A, (a16).
    LoadDirect,
    /// ADD SP, e.
    AddSp,
    /// LD HL, SP+e.
    LoadHlSp,
    /// LD SP, HL.
    LoadSpHl,
    /// The 0xCB prefix: the next byte is an opcode of the second table.
    Prefix,
    /// One of the eleven opcodes that name no instruction.
    Invalid,
}

/// The operand that the three-bit field `code` names: B, C, D, E, H, L,
/// (HL), A.
pub open spec fn operand_of(code: u8) -> Operand {
    if code == 0 {
        Operand::Register(Reg8::B)
    } else if code == 1 {
        Operand::Register(Reg8::C)
    } else if code == 2 {
        Operand::Register(Reg8::D)
    } else if code == 3 {
        Operand::Register(Reg8::E)
    } else if code == 4 {
        Operand::Register(Reg8::H)
    } else if code == 5 {
        Operand::Register(Reg8::L)
    } else if code == 6 {
        Operand::HlIndirect
    } else {
        Operand::Register(Reg8::A)
    }
}

/// The pair that the two-bit field `code` names: BC, DE, HL, and `last`.
pub open spec fn pair_of(code: u8, last: Reg16) -> Reg16 {
    if code == 0 {
        Reg16::BC
    } else if code == 1 {
        Reg16::DE
    } else if code == 2 {
        Reg16::HL
    } else {
        last
    }
}

pub open spec fn pointer_of(code: u8) -> Pointer {
    if code == 0 {
        Pointer::BC
    } else if code == 1 {
        Pointer::DE
    } else if code == 2 {
        Pointer::HlIncrement
    } else {
        Pointer::HlDecrement
    }
}

pub open spec fn condition_of(code: u8) -> Condition {
    if code == 0 {
        Condition::NotZero
    } else if code == 1 {
        Condition::Zero
    } else if code == 2 {
        Condition::NotCarry
    } else {
        Condition::Carry
    }
}

pub open spec fn alu_op_of(code: u8) -> AluOp {
    if code == 0 {
        AluOp::Add
    } else if code == 1 {
        AluOp::Adc
    } else if code == 2 {
        AluOp::Sub
    } else if code == 3 {
        AluOp::Sbc
    } else if code == 4 {
        AluOp::And
    } else if code == 5 {
        AluOp::Xor
    } else if code == 6 {
        AluOp::Or
    } else {
        AluOp::Cp
    }
}

pub open spec fn shift_op_of(code: u8) -> ShiftOp {
    if code == 0 {
        ShiftOp::Rlc
    } else if code == 1 {
        ShiftOp::Rrc
    } else if code == 2 {
        ShiftOp::Rl
    } else if code == 3 {
        ShiftOp::Rr
    } else if code == 4 {
        ShiftOp::Sla
    } else if code == 5 {
        ShiftOp::Sra
    } else if code == 6 {
        ShiftOp::Swap
    } else {
        ShiftOp::Srl
    }
}

pub fn get_opcode_reg(code: u8) -> (r: Operand)
    ensures
        r == operand_of(code),
{
    if code == 0 {
        Operand::Register(Reg8::B)
    } else if code == 1 {
        Operand::Register(Reg8::C)
    } else if code == 2 {
        Operand::Register(Reg8::D)
    } else if code == 3 {
        Operand::Register(Reg8::E)
    } else if code == 4 {
        Operand::Register(Reg8::H)
    } else if code == 5 {
        Operand::Register(Reg8::L)
    } else if code == 6 {
        Operand::HlIndirect
    } else {
        Operand::Register(Reg8::A)
    }
}

pub fn get_opcode_reg16(code: u8, last: Reg16) -> (r: Reg16)
    ensures
        r == pair_of(code, last),
{
    if code == 0 {
        Reg16::BC
    } else if code == 1 {
        Reg16::DE
    } else if code == 2 {
        Reg16::HL
    } else {
        last
    }
}

pub fn get_opcode_pointer(code: u8) -> (r: Pointer)
    ensures
        r == pointer_of(code),
{
    if code == 0 {
        Pointer::BC
    } else if code == 1 {
        Pointer::DE
    } else if code == 2 {
        Pointer::HlIncrement
    } else {
        Pointer::HlDecrement
    }
}

pub fn get_opcode_condition(code: u8) -> (r: Condition)
    ensures
        r == condition_of(code),
{
    if code == 0 {
        Condition::NotZero
    } else if code == 1 {
        Condition::Zero
    } else if code == 2 {
        Condition::NotCarry
    } else {
        Condition::Carry
    }
}

pub fn get_opcode_alu(code: u8) -> (r: AluOp)
    ensures
        r == alu_op_of(code),
{
    if code == 0 {
        AluOp::Add
    } else if code == 1 {
        AluOp::Adc
    } else if code == 2 {
        AluOp::Sub
    } else if code == 3 {
        AluOp::Sbc
    } else if code == 4 {
        AluOp::And
    } else if code == 5 {
        AluOp::Xor
    } else if code == 6 {
        AluOp::Or
    } else {
        AluOp::Cp
    }
}

pub fn get_opcode_shift(code: u8) -> (r: ShiftOp)
    ensures
        r == shift_op_of(code),
{
    if code == 0 {
        ShiftOp::Rlc
    } else if code == 1 {
        ShiftOp::Rrc
    } else if code == 2 {
        ShiftOp::Rl
    } else if code == 3 {
        ShiftOp::Rr
    } else if code == 4 {
        ShiftOp::Sla
    } else if code == 5 {
        ShiftOp::Sra
    } else if code == 6 {
        ShiftOp::Swap
    } else {
        ShiftOp::Srl
    }
}

/// Whether the flags meet the condition.
pub open spec fn condition_holds(condition: Condition, flags: FlagReg) -> bool {
    match condition {
        Condition::NotZero => !flags.zero,
        Condition::Zero => flags.zero,
        Condition::NotCarry => !flags.carry,
        Condition::Carry => flags.carry,
    }
}

/// Whether a branch is taken: always without a condition.
pub open spec fn branch_taken(condition: Option<Condition>, flags: FlagReg) -> bool {
    match condition {
        None => true,
        Some(c) => condition_holds(c, flags),
    }
}

pub fn is_taken(condition: Option<Condition>, flags: FlagReg) -> (r: bool)
    ensures
        r == branch_taken(condition, flags),
{
    match condition {
        None => true,
        Some(Condition::NotZero) => !flags.zero,
        Some(Condition::Zero) => flags.zero,
        Some(Condition::NotCarry) => !flags.carry,
        Some(Condition::Carry) => flags.carry,
    }
}

/// The instruction in the first quarter of the table (0x00..0x40).
pub open spec fn decode_low(y: u8, z: u8) -> Instruction {
    if z == 0 {
        if y == 0 {
            Instruction::Nop
        } else if y == 1 {
            Instruction::StoreSp
        } else if y == 2 {
            Instruction::Stop
        } else if y == 3 {
            Instruction::JumpRelative(None)
        } else {
            Instruction::JumpRelative(Some(condition_of((y - 4) as u8)))
        }
    } else if z == 1 {
        if y % 2 == 0 {
            Instruction::LoadWide(pair_of(y / 2, Reg16::SP))
        } else {
            Instruction::AddHl(pair_of(y / 2, Reg16::SP))
        }
    } else if z == 2 {
        if y % 2 == 0 {
            Instruction::StoreA(pointer_of(y / 2))
        } else {
            Instruction::LoadA(pointer_of(y / 2))
        }
    } else if z == 3 {
        if y % 2 == 0 {
            Instruction::IncWide(pair_of(y / 2, Reg16::SP))
        } else {
            Instruction::DecWide(pair_of(y / 2, Reg16::SP))
        }
    } else if z == 4 {
        Instruction::Inc(operand_of(y))
    } else if z == 5 {
        Instruction::Dec(operand_of(y))
    } else if z == 6 {
        Instruction::LoadImmediate(operand_of(y))
    } else if y < 4 {
        Instruction::RotateA(shift_op_of(y))
    } else if y == 4 {
        Instruction::Daa
    } else if y == 5 {
        Instruction::Cpl
    } else if y == 6 {
        Instruction::Scf
    } else {
        Instruction::Ccf
    }
}

/// The instruction in the last quarter of the table (0xC0..=0xFF).
pub open spec fn decode_high(y: u8, z: u8) -> Instruction {
    if z == 0 {
        if y < 4 {
            Instruction::Return(Some(condition_of(y)))
        } else if y == 4 {
            Instruction::StoreHigh
        } else if y == 5 {
            Instruction::AddSp
        } else if y == 6 {
            Instruction::LoadHigh
        } else {
            Instruction::LoadHlSp
        }
    } else if z == 1 {
        if y % 2 == 0 {
            Instruction::Pop(pair_of(y / 2, Reg16::AF))
        } else if y == 1 {
            Instruction::Return(None)
        } else if y == 3 {
            Instruction::ReturnInterrupt
        } else if y == 5 {
            Instruction::JumpHl
        } else {
            Instruction::LoadSpHl
        }
    } else if z == 2 {
        if y < 4 {
            Instruction::Jump(Some(condition_of(y)))
        } else if y == 4 {
            Instruction::StoreHighC
        } else if y == 5 {
            Instruction::StoreDirect
        } else if y == 6 {
            Instruction::LoadHighC
        } else {
            Instruction::LoadDirect
        }
    } else if z == 3 {
        if y == 0 {
            Instruction::Jump(None)
        } else if y == 1 {
            Instruction::Prefix
        } else if y == 6 {
            Instruction::Di
        } else if y == 7 {
            Instruction::Ei
        } else {
            Instruction::Invalid
        }
    } else if z == 4 {
        if y < 4 {
            Instruction::Call(Some(condition_of(y)))
        } else {
            Instruction::Invalid
        }
    } else if z == 5 {
        if y % 2 == 0 {
            Instruction::Push(pair_of(y / 2, Reg16::AF))
        } else if y == 1 {
            Instruction::Call(None)
        } else {
            Instruction::Invalid
        }
    } else if z == 6 {
        Instruction::AluImmediate(alu_op_of(y))
    } else {
        Instruction::Restart((y * 8) as u8)
    }
}

/// The instruction that an opcode of the unprefixed table names. Bits
/// 7..6 pick the quarter of the table, bits 5..3 and 2..0 the entry.
pub open spec fn decode_spec(opcode: u8) -> Instruction {
    let y: u8 = (opcode / 8) % 8;
    let z: u8 = opcode % 8;
    if opcode < 0x40 {
        decode_low(y, z)
    } else if opcode == 0x76 {
        Instruction::Halt
    } else if opcode < 0x80 {
        Instruction::Load(operand_of(y), operand_of(z))
    } else if opcode < 0xC0 {
        Instruction::Alu(alu_op_of(y), operand_of(z))
    } else {
        decode_high(y, z)
    }
}

fn decode_first(y: u8, z: u8) -> (r: Instruction)
    requires
        y < 8,
        z < 8,
    ensures
        r == decode_low(y, z),
{
    if z == 0 {
        if y == 0 {
            Instruction::Nop
        } else if y == 1 {
            Instruction::StoreSp
        } else if y == 2 {
            Instruction::Stop
        } else if y == 3 {
            Instruction::JumpRelative(None)
        } else {
            Instruction::JumpRelative(Some(get_opcode_condition(y - 4)))
        }
    } else if z == 1 {
        if y % 2 == 0 {
            Instruction::LoadWide(get_opcode_reg16(y / 2, Reg16::SP))
        } else {
            Instruction::AddHl(get_opcode_reg16(y / 2, Reg16::SP))
        }
    } else if z == 2 {
        if y % 2 == 0 {
            Instruction::StoreA(get_opcode_pointer(y / 2))
        } else {
            Instruction::LoadA(get_opcode_pointer(y / 2))
        }
    } else if z == 3 {
        if y % 2 == 0 {
            Instruction::IncWide(get_opcode_reg16(y / 2, Reg16::SP))
        } else {
            Instruction::DecWide(get_opcode_reg16(y / 2, Reg16::SP))
        }
    } else if z == 4 {
        Instruction::Inc(get_opcode_reg(y))
    } else if z == 5 {
        Instruction::Dec(get_opcode_reg(y))
    } else if z == 6 {
        Instruction::LoadImmediate(get_opcode_reg(y))
    } else if y < 4 {
        Instruction::RotateA(get_opcode_shift(y))
    } else if y == 4 {
        Instruction::Daa
    } else if y == 5 {
        Instruction::Cpl
    } else if y == 6 {
        Instruction::Scf
    } else {
        Instruction::Ccf
    }
}

fn decode_last(y: u8, z: u8) -> (r: Instruction)
    requires
        y < 8,
        z < 8,
    ensures
        r == decode_high(y, z),
{
    if z == 0 {
        if y < 4 {
            Instruction::Return(Some(get_opcode_condition(y)))
        } else if y == 4 {
            Instruction::StoreHigh
        } else if y == 5 {
            Instruction::AddSp
        } else if y == 6 {
            Instruction::LoadHigh
        } else {
            Instruction::LoadHlSp
        }
    } else if z == 1 {
        if y % 2 == 0 {
            Instruction::Pop(get_opcode_reg16(y / 2, Reg16::AF))
        } else if y == 1 {
            Instruction::Return(None)
        } else if y == 3 {
            Instruction::ReturnInterrupt
        } else if y == 5 {
            Instruction::JumpHl
        } else {
            Instruction::LoadSpHl
        }
    } else if z == 2 {
        if y < 4 {
            Instruction::Jump(Some(get_opcode_condition(y)))
        } else if y == 4 {
            Instruction::StoreHighC
        } else if y == 5 {
            Instruction::StoreDirect
        } else if y == 6 {
            Instruction::LoadHighC
        } else {
            Instruction::LoadDirect
        }
    } else if z == 3 {
        if y == 0 {
            Instruction::Jump(None)
        } else if y == 1 {
            Instruction::Prefix
        } else if y == 6 {
            Instruction::Di
        } else if y == 7 {
            Instruction::Ei
        } else {
            Instruction::Invalid
        }
    } else if z == 4 {
        if y < 4 {
            Instruction::Call(Some(get_opcode_condition(y)))
        } else {
            Instruction::Invalid
        }
    } else if z == 5 {
        if y % 2 == 0 {
            Instruction::Push(get_opcode_reg16(y / 2, Reg16::AF))
        } else if y == 1 {
            Instruction::Call(None)
        } else {
            Instruction::Invalid
        }
    } else if z == 6 {
        Instruction::AluImmediate(get_opcode_alu(y))
    } else {
        Instruction::Restart(y * 8)
    }
}

/// Decodes an opcode of the unprefixed table.
pub fn decode(opcode: u8) -> (r: Instruction)
    ensures
        r == decode_spec(opcode),
{
    let y: u8 = (opcode / 8) % 8;
    let z: u8 = opcode % 8;
    if opcode < 0x40 {
        decode_first(y, z)
    } else if opcode == 0x76 {
        Instruction::Halt
    } else if opcode < 0x80 {
        Instruction::Load(get_opcode_reg(y), get_opcode_reg(z))
    } else if opcode < 0xC0 {
        Instruction::Alu(get_opcode_alu(y), get_opcode_reg(z))
    } else {
        decode_last(y, z)
    }
}

/// The opcodes that name no instruction.
pub open spec fn prohibited(opcode: u8) -> bool {
    opcode == 0xD3 || opcode == 0xDB || opcode == 0xDD || opcode == 0xE3 || opcode == 0xE4
        || opcode == 0xEB || opcode == 0xEC || opcode == 0xED || opcode == 0xF4 || opcode == 0xFC
        || opcode == 0xFD
}

/// Exactly the eleven prohibited opcodes decode to no instruction.
pub proof fn lemma_invalid_opcodes(opcode: u8)
    ensures
        decode_spec(opcode) == Instruction::Invalid <==> prohibited(opcode),
{
}

/// Machine cycles a prefixed instruction is published to take, prefix
/// included: 2 on a register; on (HL) 3 for BIT and 4 for the rest.
pub open spec fn published_prefixed_cycles(opcode: u8) -> int {
    if opcode % 8 != 6 {
        2
    } else if 0x40 <= opcode < 0x80 {
        3
    } else {
        4
    }
}

/// Machine cycles an instruction is published to take. `taken` says
/// whether a conditional branch is taken, `prefixed` is the opcode that
/// follows a 0xCB prefix.
pub open spec fn published_cycles(instruction: Instruction, taken: bool, prefixed: u8) -> int {
    match instruction {
        Instruction::Nop | Instruction::Stop | Instruction::Halt | Instruction::Di
        | Instruction::Ei => 1,
        Instruction::Load(destination, source) => if destination == Operand::HlIndirect || source
            == Operand::HlIndirect {
            2
        } else {
            1
        },
        Instruction::LoadImmediate(destination) => if destination == Operand::HlIndirect {
            3
        } else {
            2
        },
        Instruction::LoadWide(_) => 3,
        Instruction::StoreA(_) | Instruction::LoadA(_) => 2,
        Instruction::StoreSp => 5,
        Instruction::IncWide(_) | Instruction::DecWide(_) | Instruction::AddHl(_) => 2,
        Instruction::Inc(operand) | Instruction::Dec(operand) => if operand
            == Operand::HlIndirect {
            3
        } else {
            1
        },
        Instruction::RotateA(_) | Instruction::Daa | Instruction::Cpl | Instruction::Scf
        | Instruction::Ccf => 1,
        Instruction::JumpRelative(_) => if taken {
            3
        } else {
            2
        },
        Instruction::Alu(_, operand) => if operand == Operand::HlIndirect {
            2
        } else {
            1
        },
        Instruction::AluImmediate(_) => 2,
        Instruction::Return(None) | Instruction::ReturnInterrupt => 4,
        Instruction::Return(Some(_)) => if taken {
            5
        } else {
            2
        },
        Instruction::Jump(_) => if taken {
            4
        } else {
            3
        },
        Instruction::JumpHl => 1,
        Instruction::Call(_) => if taken {
            6
        } else {
            3
        },
        Instruction::Restart(_) | Instruction::Push(_) => 4,
        Instruction::Pop(_) => 3,
        Instruction::StoreHigh | Instruction::LoadHigh => 3,
        Instruction::StoreHighC | Instruction::LoadHighC => 2,
        Instruction::StoreDirect | Instruction::LoadDirect => 4,
        Instruction::AddSp => 4,
        Instruction::LoadHlSp => 3,
        Instruction::LoadSpHl => 2,
        Instruction::Prefix => published_prefixed_cycles(prefixed),
        Instruction::Invalid => 0,
    }
}

} // verus!
