//! The whole machine as one value, and what one instruction does to it.
//!
//! Time is accounted in machine cycles of four ticks. Every byte moved
//! over the bus inside an instruction takes one cycle, which runs right
//! after the access; an instruction's first cycle, the one that fetched
//! its opcode, is accounted last.

use vstd::prelude::*;
use crate::alu::{
    add_16_spec, add_sp_spec, alu_accumulator, alu_spec, bit_reset_spec, bit_set_spec,
    bit_test_spec, daa_spec, dec_spec, displace, inc_spec, rotate_a_spec, shift_spec,
};
use crate::board::{next_address, Board};
use crate::decode::{
    branch_taken, decode_spec, operand_of, shift_op_of, Instruction, Operand, Pointer,
};
use crate::interrupts::{highest_priority, vector_of, InterruptState};
use crate::registers::{high_byte, low_byte, word, FlagReg, Reg16, Registers};

verus! {

/// The processor and the board.
pub struct Machine {
    pub reg: Registers,
    /// The processor waits for an interrupt.
    pub halt: bool,
    /// Machine cycles accounted so far, wrapping at 2^64.
    pub cycle_counter: u64,
    pub board: Board,
}

/// The address before `address`, wrapping at the bottom of the address
/// space.
pub open spec fn previous_address(address: u16) -> u16 {
    if address == 0 {
        0xFFFF
    } else {
        (address - 1) as u16
    }
}

/// The cycle counter `cycles` machine cycles on.
#[verifier::opaque]
pub open spec fn counted(counter: u64, cycles: nat) -> u64 {
    ((counter + cycles) % 0x1_0000_0000_0000_0000) as u64
}

impl Machine {
    /// The machine after `cycles` machine cycles in which the processor
    /// only waits: the board runs four ticks for each.
    #[verifier::opaque]
    pub open spec fn internal(self, cycles: nat) -> Machine {
        Machine {
            cycle_counter: counted(self.cycle_counter, cycles),
            board: self.board.ticks(4 * cycles),
            ..self
        }
    }

    pub open spec fn with_registers(self, reg: Registers) -> Machine {
        Machine { reg, ..self }
    }

    pub open spec fn with_pc(self, pc: u16) -> Machine {
        Machine { reg: Registers { pc, ..self.reg }, ..self }
    }

    pub open spec fn with_flags(self, f: FlagReg) -> Machine {
        Machine { reg: Registers { f, ..self.reg }, ..self }
    }

    pub open spec fn with_a(self, a: u8) -> Machine {
        Machine { reg: Registers { a, ..self.reg }, ..self }
    }

    pub open spec fn with_pair(self, pair: Reg16, value: u16) -> Machine {
        Machine { reg: self.reg.with_16(pair, value), ..self }
    }

    pub open spec fn with_ime(self, ime: bool) -> Machine {
        Machine {
            board: Board { istate: InterruptState { ime, ..self.board.istate }, ..self.board },
            ..self
        }
    }

    pub open spec fn hl(self) -> u16 {
        self.reg.get_16(Reg16::HL)
    }

    /// The byte on the bus at `address`.
    pub open spec fn load(self, address: u16) -> u8 {
        self.board.read(address)
    }

    /// The machine after the processor wrote a byte: the write takes
    /// effect, then its cycle runs.
    #[verifier::opaque]
    pub open spec fn stored(self, address: u16, value: u8) -> Machine {
        (Machine { board: self.board.write(address, value), ..self }).internal(1)
    }

    /// The byte that PC points at.
    pub open spec fn immediate(self) -> u8 {
        self.board.read(self.reg.pc)
    }

    /// The machine after the processor fetched the byte at PC.
    #[verifier::opaque]
    pub open spec fn fetched(self) -> Machine {
        self.with_pc(next_address(self.reg.pc)).internal(1)
    }

    /// The little-endian word at PC, fetched byte by byte.
    #[verifier::opaque]
    pub open spec fn immediate_16(self) -> u16 {
        word(self.fetched().immediate(), self.immediate())
    }

    /// The machine after the processor fetched the word at PC.
    #[verifier::opaque]
    pub open spec fn fetched_16(self) -> Machine {
        self.fetched().fetched()
    }

    /// The machine after `value` was pushed: SP drops by two, the high
    /// byte is stored above the low byte, high byte first.
    #[verifier::opaque]
    pub open spec fn pushed(self, value: u16) -> Machine {
        let sp = previous_address(previous_address(self.reg.sp));
        (Machine { reg: Registers { sp, ..self.reg }, ..self }).stored(
            next_address(sp),
            high_byte(value),
        ).stored(sp, low_byte(value))
    }

    /// The word on top of the stack, read low byte first.
    #[verifier::opaque]
    pub open spec fn stack_top(self) -> u16 {
        word(self.internal(1).load(next_address(self.reg.sp)), self.load(self.reg.sp))
    }

    /// The machine after a word was popped: two reads, and SP up by two.
    #[verifier::opaque]
    pub open spec fn popped(self) -> Machine {
        (Machine {
            reg: Registers { sp: next_address(next_address(self.reg.sp)), ..self.reg },
            ..self
        }).internal(1).internal(1)
    }

    #[verifier::opaque]
    pub open spec fn operand_value(self, operand: Operand) -> u8 {
        match operand {
            Operand::Register(register) => self.reg.get(register),
            Operand::HlIndirect => self.load(self.hl()),
        }
    }

    /// The machine after an operand was read: a cycle for (HL), nothing
    /// for a register.
    #[verifier::opaque]
    pub open spec fn operand_read(self, operand: Operand) -> Machine {
        match operand {
            Operand::Register(_) => self,
            Operand::HlIndirect => self.internal(1),
        }
    }

    #[verifier::opaque]
    pub open spec fn operand_written(self, operand: Operand, value: u8) -> Machine {
        match operand {
            Operand::Register(register) => self.with_registers(self.reg.with(register, value)),
            Operand::HlIndirect => self.stored(self.hl(), value),
        }
    }

    /// The address that a pointer register holds.
    #[verifier::opaque]
    pub open spec fn pointer_address(self, pointer: Pointer) -> u16 {
        match pointer {
            Pointer::BC => self.reg.get_16(Reg16::BC),
            Pointer::DE => self.reg.get_16(Reg16::DE),
            _ => self.hl(),
        }
    }

    /// The machine after a pointer register was used: HL moves on.
    #[verifier::opaque]
    pub open spec fn pointer_moved(self, pointer: Pointer) -> Machine {
        match pointer {
            Pointer::HlIncrement => self.with_pair(Reg16::HL, next_address(self.hl())),
            Pointer::HlDecrement => self.with_pair(Reg16::HL, previous_address(self.hl())),
            _ => self,
        }
    }

    /// What a load, store or stack instruction does.
    #[verifier::opaque]
    pub open spec fn moved(self, instruction: Instruction) -> Machine {
        match instruction {
            Instruction::Load(destination, source) => self.operand_read(source).operand_written(
                destination,
                self.operand_value(source),
            ),
            Instruction::LoadImmediate(destination) => self.fetched().operand_written(
                destination,
                self.immediate(),
            ),
            Instruction::LoadWide(pair) => self.fetched_16().with_pair(pair, self.immediate_16()),
            Instruction::StoreA(pointer) => self.stored(
                self.pointer_address(pointer),
                self.reg.a,
            ).pointer_moved(pointer),
            Instruction::LoadA(pointer) => self.internal(1).with_a(
                self.load(self.pointer_address(pointer)),
            ).pointer_moved(pointer),
            Instruction::StoreSp => self.fetched_16().stored(
                self.immediate_16(),
                low_byte(self.reg.sp),
            ).stored(next_address(self.immediate_16()), high_byte(self.reg.sp)),
            Instruction::Pop(pair) => self.popped().with_pair(pair, self.stack_top()),
            Instruction::Push(pair) => self.internal(1).pushed(self.reg.get_16(pair)),
            Instruction::StoreHigh => self.fetched().stored(
                (0xFF00 + self.immediate()) as u16,
                self.reg.a,
            ),
            Instruction::LoadHigh => self.fetched().internal(1).with_a(
                self.fetched().load((0xFF00 + self.immediate()) as u16),
            ),
            Instruction::StoreHighC => self.stored((0xFF00 + self.reg.c) as u16, self.reg.a),
            Instruction::LoadHighC => self.internal(1).with_a(
                self.load((0xFF00 + self.reg.c) as u16),
            ),
            Instruction::StoreDirect => self.fetched_16().stored(self.immediate_16(), self.reg.a),
            Instruction::LoadDirect => self.fetched_16().internal(1).with_a(
                self.fetched_16().load(self.immediate_16()),
            ),
            Instruction::LoadSpHl => self.internal(1).with_pair(Reg16::SP, self.hl()),
            _ => self,
        }
    }

    /// What an arithmetic instruction does.
    #[verifier::opaque]
    pub open spec fn computed(self, instruction: Instruction) -> Machine {
        match instruction {
            Instruction::IncWide(pair) => self.with_pair(
                pair,
                next_address(self.reg.get_16(pair)),
            ).internal(1),
            Instruction::DecWide(pair) => self.with_pair(
                pair,
                previous_address(self.reg.get_16(pair)),
            ).internal(1),
            Instruction::Inc(operand) => self.operand_read(operand).with_flags(
                inc_spec(self.operand_value(operand), self.reg.f).flags,
            ).operand_written(operand, inc_spec(self.operand_value(operand), self.reg.f).value),
            Instruction::Dec(operand) => self.operand_read(operand).with_flags(
                dec_spec(self.operand_value(operand), self.reg.f).flags,
            ).operand_written(operand, dec_spec(self.operand_value(operand), self.reg.f).value),
            Instruction::AddHl(pair) => self.with_flags(
                add_16_spec(self.hl(), self.reg.get_16(pair), self.reg.f).flags,
            ).with_pair(
                Reg16::HL,
                add_16_spec(self.hl(), self.reg.get_16(pair), self.reg.f).value,
            ).internal(1),
            Instruction::RotateA(op) => self.with_flags(
                rotate_a_spec(op, self.reg.a, self.reg.f).flags,
            ).with_a(rotate_a_spec(op, self.reg.a, self.reg.f).value),
            Instruction::Daa => self.with_flags(daa_spec(self.reg.a, self.reg.f).flags).with_a(
                daa_spec(self.reg.a, self.reg.f).value,
            ),
            Instruction::Cpl => self.with_flags(
                FlagReg { subtract: true, half_carry: true, ..self.reg.f },
            ).with_a((255 - self.reg.a) as u8),
            Instruction::Scf => self.with_flags(
                FlagReg { subtract: false, half_carry: false, carry: true, ..self.reg.f },
            ),
            Instruction::Ccf => self.with_flags(
                FlagReg {
                    subtract: false,
                    half_carry: false,
                    carry: !self.reg.f.carry,
                    ..self.reg.f
                },
            ),
            Instruction::Alu(op, operand) => self.operand_read(operand).with_flags(
                alu_spec(op, self.reg.a, self.operand_value(operand), self.reg.f).flags,
            ).with_a(alu_accumulator(op, self.reg.a, self.operand_value(operand), self.reg.f)),
            Instruction::AluImmediate(op) => self.fetched().with_flags(
                alu_spec(op, self.reg.a, self.immediate(), self.reg.f).flags,
            ).with_a(alu_accumulator(op, self.reg.a, self.immediate(), self.reg.f)),
            Instruction::AddSp => self.fetched().with_flags(
                add_sp_spec(self.reg.sp, self.immediate()).flags,
            ).with_pair(Reg16::SP, add_sp_spec(self.reg.sp, self.immediate()).value).internal(2),
            Instruction::LoadHlSp => self.fetched().with_flags(
                add_sp_spec(self.reg.sp, self.immediate()).flags,
            ).with_pair(Reg16::HL, add_sp_spec(self.reg.sp, self.immediate()).value).internal(1),
            _ => self,
        }
    }

    /// The machine after a return: the return address is popped, then
    /// one more cycle passes.
    #[verifier::opaque]
    pub open spec fn returned(self) -> Machine {
        self.popped().with_pc(self.stack_top()).internal(1)
    }

    /// What a control-flow instruction does.
    #[verifier::opaque]
    pub open spec fn branched(self, instruction: Instruction) -> Machine {
        match instruction {
            Instruction::Stop => self.with_pc(next_address(self.reg.pc)),
            Instruction::Halt => Machine { halt: true, ..self },
            Instruction::Di => self.with_ime(false),
            Instruction::Ei => self.with_ime(true),
            Instruction::JumpRelative(condition) => if branch_taken(condition, self.reg.f) {
                self.fetched().with_pc(
                    displace(self.fetched().reg.pc, self.immediate()),
                ).internal(1)
            } else {
                self.fetched()
            },
            Instruction::Jump(condition) => if branch_taken(condition, self.reg.f) {
                self.fetched_16().with_pc(self.immediate_16()).internal(1)
            } else {
                self.fetched_16()
            },
            Instruction::JumpHl => self.with_pc(self.hl()),
            Instruction::Call(condition) => if branch_taken(condition, self.reg.f) {
                self.fetched_16().internal(1).pushed(self.fetched_16().reg.pc).with_pc(
                    self.immediate_16(),
                )
            } else {
                self.fetched_16()
            },
            Instruction::Return(None) => self.returned(),
            Instruction::Return(Some(condition)) => if branch_taken(Some(condition), self.reg.f) {
                self.internal(1).returned()
            } else {
                self.internal(1)
            },
            Instruction::ReturnInterrupt => self.returned().with_ime(true),
            Instruction::Restart(target) => self.internal(1).pushed(self.reg.pc).with_pc(
                target as u16,
            ),
            _ => self,
        }
    }

    /// What the prefixed instruction `opcode` does. Bits 7..6 pick rotate
    /// and shift, BIT, RES or SET; bits 5..3 the operation or the bit;
    /// bits 2..0 the operand.
    #[verifier::opaque]
    pub open spec fn prefixed(self, opcode: u8) -> Machine {
        let operand = operand_of(opcode % 8);
        let value = self.operand_value(operand);
        let index: u8 = (opcode / 8) % 8;
        let read = self.operand_read(operand);
        if opcode < 0x40 {
            read.with_flags(shift_spec(shift_op_of(index), value, self.reg.f).flags).operand_written(
                operand,
                shift_spec(shift_op_of(index), value, self.reg.f).value,
            )
        } else if opcode < 0x80 {
            read.with_flags(bit_test_spec(index, value, self.reg.f))
        } else if opcode < 0xC0 {
            read.operand_written(operand, bit_reset_spec(index, value))
        } else {
            read.operand_written(operand, bit_set_spec(index, value))
        }
    }

    /// What an instruction does to the machine, PC standing behind its
    /// opcode. The cycle of the opcode fetch is not yet accounted.
    #[verifier::opaque]
    pub open spec fn executed(self, instruction: Instruction) -> Machine {
        match instruction {
            Instruction::Load(_, _) | Instruction::LoadImmediate(_) | Instruction::LoadWide(_)
            | Instruction::StoreA(_) | Instruction::LoadA(_) | Instruction::StoreSp
            | Instruction::Pop(_) | Instruction::Push(_) | Instruction::StoreHigh
            | Instruction::LoadHigh | Instruction::StoreHighC | Instruction::LoadHighC
            | Instruction::StoreDirect | Instruction::LoadDirect | Instruction::LoadSpHl => self.moved(
                instruction,
            ),
            Instruction::IncWide(_) | Instruction::DecWide(_) | Instruction::Inc(_)
            | Instruction::Dec(_) | Instruction::AddHl(_) | Instruction::RotateA(_)
            | Instruction::Daa | Instruction::Cpl | Instruction::Scf | Instruction::Ccf
            | Instruction::Alu(_, _) | Instruction::AluImmediate(_) | Instruction::AddSp
            | Instruction::LoadHlSp => self.computed(instruction),
            Instruction::Prefix => self.fetched().prefixed(self.immediate()),
            _ => self.branched(instruction),
        }
    }

    /// The machine after the interrupt check that precedes every
    /// instruction. A requested and enabled interrupt ends a halt; with
    /// IME set, the one of highest priority is served: its request and IME
    /// are cleared, PC is pushed and PC moves to its handler, five cycles
    /// in all.
    #[verifier::opaque]
    pub open spec fn interrupts_checked(self) -> Machine {
        let pending = self.board.istate.pending();
        if pending == 0 {
            self
        } else if !self.board.istate.ime {
            Machine { halt: false, ..self }
        } else {
            (Machine {
                halt: false,
                board: Board {
                    istate: InterruptState {
                        ime: false,
                        iflag: self.board.istate.iflag.without(highest_priority(pending)),
                        ..self.board.istate
                    },
                    ..self.board
                },
                ..self
            }).internal(2).pushed(self.reg.pc).with_pc(
                vector_of(highest_priority(pending)),
            ).internal(1)
        }
    }

    /// The opcode that PC points at.
    pub open spec fn opcode(self) -> u8 {
        self.board.read(self.reg.pc)
    }

    /// The opcode that stops the machine, if the next step meets one: the
    /// processor is awake after the interrupt check and PC points at an
    /// opcode that names no instruction.
    #[verifier::opaque]
    pub open spec fn fault(self) -> Option<u8> {
        let ready = self.interrupts_checked();
        if !ready.halt && decode_spec(ready.opcode()) == Instruction::Invalid {
            Some(ready.opcode())
        } else {
            None
        }
    }

    /// The machine one step later: the interrupt check; then one idle
    /// cycle if the processor is halted, else the instruction at PC and
    /// the cycle of its opcode fetch. An opcode that names no instruction
    /// leaves the machine as the interrupt check left it.
    #[verifier::opaque]
    pub open spec fn step(self) -> Machine {
        let ready = self.interrupts_checked();
        if ready.halt {
            ready.internal(1)
        } else if decode_spec(ready.opcode()) == Instruction::Invalid {
            ready
        } else {
            ready.with_pc(next_address(ready.reg.pc)).executed(
                decode_spec(ready.opcode()),
            ).internal(1)
        }
    }

    /// The machine after it ran until its cycle counter reached `target`,
    /// and the opcode that stopped it early if one did. At most `limit`
    /// steps are taken; since every step takes at least one cycle, a limit
    /// of `target` steps is never reached first.
    pub open spec fn run_for(self, target: u64, limit: nat) -> (Machine, Option<u8>)
        decreases limit,
    {
        if limit == 0 || self.cycle_counter >= target {
            (self, None)
        } else if self.fault() is Some {
            (self.step(), self.fault())
        } else {
            self.step().run_for(target, (limit - 1) as nat)
        }
    }
}

} // verus!
