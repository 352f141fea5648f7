//! The interpreter: the interrupt check, the instructions of both opcode
//! tables, and the loop that runs them.

use vstd::prelude::*;
use crate::alu::{
    add_16, add_signed, add_sp, alu, bit_reset, bit_set, bit_test, daa, dec, inc, rotate_a, shift,
    AluOp, AluResult, ShiftOp, WideResult,
};
use crate::audio::ring_delivered;
use crate::board::Board;
use crate::cpu::CPU;
use crate::decode::{
    decode, get_opcode_reg, get_opcode_shift, is_taken, Condition, Instruction,
    Operand, Pointer,
};
use crate::interrupts::{first_pending, interrupt_vector, InterruptState};
use crate::machine::{counted, Machine};
use crate::timing::lemma_step_time;
use crate::ppu::PPUMode;
use crate::readwrite::{address_after, address_before};
use crate::registers::{hi_of, lo_of, FlagReg, Reg16};

verus! {

/// Why the processor stopped.
#[derive(Clone, Copy, PartialEq, Eq, Structural, Debug)]
pub enum ExecutionError {
    /// PC reached an opcode that names no instruction.
    InvalidOpcode(u8),
}

impl CPU {
    /// Reads an operand; the byte at (HL) takes a cycle.
    fn operand_value(&mut self, operand: Operand) -> (r: u8)
        ensures
            final(self).audio_ring == old(self).audio_ring,
            r == old(self)@.operand_value(operand),
            final(self)@ == old(self)@.operand_read(operand),
    {
        proof {
            reveal(Machine::operand_value);
            reveal(Machine::operand_read);
        }
        match operand {
            Operand::Register(register) => self.reg.read(&register),
            Operand::HlIndirect => {
                let value: u8 = self.read(self.reg.read_16(&Reg16::HL));
                self.cycle(1);
                value
            },
        }
    }

    /// Writes an operand; the byte at (HL) takes a cycle.
    fn write_operand(&mut self, operand: Operand, value: u8)
        ensures
            final(self).audio_ring == old(self).audio_ring,
            final(self)@ == old(self)@.operand_written(operand, value),
    {
        proof {
            reveal(Machine::operand_written);
        }
        match operand {
            Operand::Register(register) => self.reg.write(&register, value),
            Operand::HlIndirect => {
                let address: u16 = self.reg.read_16(&Reg16::HL);
                self.store(address, value);
            },
        }
    }

    fn pointer_address(&self, pointer: Pointer) -> (r: u16)
        ensures
            r == self@.pointer_address(pointer),
    {
        proof {
            reveal(Machine::pointer_address);
        }
        match pointer {
            Pointer::BC => self.reg.read_16(&Reg16::BC),
            Pointer::DE => self.reg.read_16(&Reg16::DE),
            _ => self.reg.read_16(&Reg16::HL),
        }
    }

    fn move_pointer(&mut self, pointer: Pointer)
        ensures
            final(self).audio_ring == old(self).audio_ring,
            final(self)@ == old(self)@.pointer_moved(pointer),
    {
        proof {
            reveal(Machine::pointer_moved);
        }
        match pointer {
            Pointer::HlIncrement => {
                let hl: u16 = self.reg.read_16(&Reg16::HL);
                self.reg.write_16(&Reg16::HL, address_after(hl));
            },
            Pointer::HlDecrement => {
                let hl: u16 = self.reg.read_16(&Reg16::HL);
                self.reg.write_16(&Reg16::HL, address_before(hl));
            },
            _ => {},
        }
    }

    fn run_load(&mut self, destination: Operand, source: Operand)
        ensures
            final(self).audio_ring == old(self).audio_ring,
            final(self)@ == old(self)@.executed(Instruction::Load(destination, source)),
    {
        proof {
            reveal(Machine::executed);
            reveal(Machine::moved);
        }
        let value: u8 = self.operand_value(source);
        self.write_operand(destination, value);
    }

    fn run_load_immediate(&mut self, destination: Operand)
        ensures
            final(self).audio_ring == old(self).audio_ring,
            final(self)@ == old(self)@.executed(Instruction::LoadImmediate(destination)),
    {
        proof {
            reveal(Machine::executed);
            reveal(Machine::moved);
        }
        let value: u8 = self.read_operand();
        self.write_operand(destination, value);
    }

    fn run_load_wide(&mut self, pair: Reg16)
        ensures
            final(self).audio_ring == old(self).audio_ring,
            final(self)@ == old(self)@.executed(Instruction::LoadWide(pair)),
    {
        proof {
            reveal(Machine::executed);
            reveal(Machine::moved);
        }
        let value: u16 = self.read_operand_16();
        self.reg.write_16(&pair, value);
    }

    fn run_store_a(&mut self, pointer: Pointer)
        ensures
            final(self).audio_ring == old(self).audio_ring,
            final(self)@ == old(self)@.executed(Instruction::StoreA(pointer)),
    {
        proof {
            reveal(Machine::executed);
            reveal(Machine::moved);
        }
        let address: u16 = self.pointer_address(pointer);
        self.store(address, self.reg.a);
        self.move_pointer(pointer);
    }

    fn run_load_a(&mut self, pointer: Pointer)
        ensures
            final(self).audio_ring == old(self).audio_ring,
            final(self)@ == old(self)@.executed(Instruction::LoadA(pointer)),
    {
        proof {
            reveal(Machine::executed);
            reveal(Machine::moved);
        }
        let value: u8 = self.read(self.pointer_address(pointer));
        self.cycle(1);
        self.reg.a = value;
        self.move_pointer(pointer);
    }

    fn run_store_sp(&mut self)
        ensures
            final(self).audio_ring == old(self).audio_ring,
            final(self)@ == old(self)@.executed(Instruction::StoreSp),
    {
        proof {
            reveal(Machine::executed);
            reveal(Machine::moved);
        }
        let sp: u16 = self.reg.sp;
        let address: u16 = self.read_operand_16();
        self.store(address, lo_of(sp));
        self.store(address_after(address), hi_of(sp));
    }

    fn run_pop(&mut self, pair: Reg16)
        ensures
            final(self).audio_ring == old(self).audio_ring,
            final(self)@ == old(self)@.executed(Instruction::Pop(pair)),
    {
        proof {
            reveal(Machine::executed);
            reveal(Machine::moved);
        }
        let value: u16 = self.pop();
        self.reg.write_16(&pair, value);
    }

    fn run_push(&mut self, pair: Reg16)
        ensures
            final(self).audio_ring == old(self).audio_ring,
            final(self)@ == old(self)@.executed(Instruction::Push(pair)),
    {
        proof {
            reveal(Machine::executed);
            reveal(Machine::moved);
        }
        let value: u16 = self.reg.read_16(&pair);
        self.cycle(1);
        self.push(value);
    }

    fn run_store_high(&mut self)
        ensures
            final(self).audio_ring == old(self).audio_ring,
            final(self)@ == old(self)@.executed(Instruction::StoreHigh),
    {
        proof {
            reveal(Machine::executed);
            reveal(Machine::moved);
        }
        let accumulator: u8 = self.reg.a;
        let offset: u8 = self.read_operand();
        self.store(0xFF00 + offset as u16, accumulator);
    }

    fn run_load_high(&mut self)
        ensures
            final(self).audio_ring == old(self).audio_ring,
            final(self)@ == old(self)@.executed(Instruction::LoadHigh),
    {
        proof {
            reveal(Machine::executed);
            reveal(Machine::moved);
        }
        let offset: u8 = self.read_operand();
        let value: u8 = self.read(0xFF00 + offset as u16);
        self.cycle(1);
        self.reg.a = value;
    }

    fn run_store_high_c(&mut self)
        ensures
            final(self).audio_ring == old(self).audio_ring,
            final(self)@ == old(self)@.executed(Instruction::StoreHighC),
    {
        proof {
            reveal(Machine::executed);
            reveal(Machine::moved);
        }
        self.store(0xFF00 + self.reg.c as u16, self.reg.a);
    }

    fn run_load_high_c(&mut self)
        ensures
            final(self).audio_ring == old(self).audio_ring,
            final(self)@ == old(self)@.executed(Instruction::LoadHighC),
    {
        proof {
            reveal(Machine::executed);
            reveal(Machine::moved);
        }
        let value: u8 = self.read(0xFF00 + self.reg.c as u16);
        self.cycle(1);
        self.reg.a = value;
    }

    fn run_store_direct(&mut self)
        ensures
            final(self).audio_ring == old(self).audio_ring,
            final(self)@ == old(self)@.executed(Instruction::StoreDirect),
    {
        proof {
            reveal(Machine::executed);
            reveal(Machine::moved);
        }
        let accumulator: u8 = self.reg.a;
        let address: u16 = self.read_operand_16();
        self.store(address, accumulator);
    }

    fn run_load_direct(&mut self)
        ensures
            final(self).audio_ring == old(self).audio_ring,
            final(self)@ == old(self)@.executed(Instruction::LoadDirect),
    {
        proof {
            reveal(Machine::executed);
            reveal(Machine::moved);
        }
        let address: u16 = self.read_operand_16();
        let value: u8 = self.read(address);
        self.cycle(1);
        self.reg.a = value;
    }

    fn run_load_sp_hl(&mut self)
        ensures
            final(self).audio_ring == old(self).audio_ring,
            final(self)@ == old(self)@.executed(Instruction::LoadSpHl),
    {
        proof {
            reveal(Machine::executed);
            reveal(Machine::moved);
        }
        let hl: u16 = self.reg.read_16(&Reg16::HL);
        self.cycle(1);
        self.reg.sp = hl;
    }

    fn run_inc_wide(&mut self, pair: Reg16)
        ensures
            final(self).audio_ring == old(self).audio_ring,
            final(self)@ == old(self)@.executed(Instruction::IncWide(pair)),
    {
        proof {
            reveal(Machine::executed);
            reveal(Machine::computed);
        }
        let value: u16 = self.reg.read_16(&pair);
        self.reg.write_16(&pair, address_after(value));
        self.cycle(1);
    }

    fn run_dec_wide(&mut self, pair: Reg16)
        ensures
            final(self).audio_ring == old(self).audio_ring,
            final(self)@ == old(self)@.executed(Instruction::DecWide(pair)),
    {
        proof {
            reveal(Machine::executed);
            reveal(Machine::computed);
        }
        let value: u16 = self.reg.read_16(&pair);
        self.reg.write_16(&pair, address_before(value));
        self.cycle(1);
    }

    fn run_inc(&mut self, operand: Operand)
        ensures
            final(self).audio_ring == old(self).audio_ring,
            final(self)@ == old(self)@.executed(Instruction::Inc(operand)),
    {
        proof {
            reveal(Machine::executed);
            reveal(Machine::computed);
        }
        let flags: FlagReg = self.reg.f;
        let value: u8 = self.operand_value(operand);
        let result: AluResult = inc(value, flags);
        self.reg.f = result.flags;
        self.write_operand(operand, result.value);
    }

    fn run_dec(&mut self, operand: Operand)
        ensures
            final(self).audio_ring == old(self).audio_ring,
            final(self)@ == old(self)@.executed(Instruction::Dec(operand)),
    {
        proof {
            reveal(Machine::executed);
            reveal(Machine::computed);
        }
        let flags: FlagReg = self.reg.f;
        let value: u8 = self.operand_value(operand);
        let result: AluResult = dec(value, flags);
        self.reg.f = result.flags;
        self.write_operand(operand, result.value);
    }

    fn run_add_hl(&mut self, pair: Reg16)
        ensures
            final(self).audio_ring == old(self).audio_ring,
            final(self)@ == old(self)@.executed(Instruction::AddHl(pair)),
    {
        proof {
            reveal(Machine::executed);
            reveal(Machine::computed);
        }
        let result: WideResult = add_16(
            self.reg.read_16(&Reg16::HL),
            self.reg.read_16(&pair),
            self.reg.f,
        );
        self.reg.f = result.flags;
        self.reg.write_16(&Reg16::HL, result.value);
        self.cycle(1);
    }

    fn run_rotate_a(&mut self, op: ShiftOp)
        ensures
            final(self).audio_ring == old(self).audio_ring,
            final(self)@ == old(self)@.executed(Instruction::RotateA(op)),
    {
        proof {
            reveal(Machine::executed);
            reveal(Machine::computed);
        }
        let result: AluResult = rotate_a(op, self.reg.a, self.reg.f);
        self.reg.f = result.flags;
        self.reg.a = result.value;
    }

    fn run_daa(&mut self)
        ensures
            final(self).audio_ring == old(self).audio_ring,
            final(self)@ == old(self)@.executed(Instruction::Daa),
    {
        proof {
            reveal(Machine::executed);
            reveal(Machine::computed);
        }
        let result: AluResult = daa(self.reg.a, self.reg.f);
        self.reg.f = result.flags;
        self.reg.a = result.value;
    }

    fn run_cpl(&mut self)
        ensures
            final(self).audio_ring == old(self).audio_ring,
            final(self)@ == old(self)@.executed(Instruction::Cpl),
    {
        proof {
            reveal(Machine::executed);
            reveal(Machine::computed);
        }
        self.reg.f.subtract = true;
        self.reg.f.half_carry = true;
        self.reg.a = 255 - self.reg.a;
    }

    fn run_scf(&mut self)
        ensures
            final(self).audio_ring == old(self).audio_ring,
            final(self)@ == old(self)@.executed(Instruction::Scf),
    {
        proof {
            reveal(Machine::executed);
            reveal(Machine::computed);
        }
        self.reg.f.subtract = false;
        self.reg.f.half_carry = false;
        self.reg.f.carry = true;
    }

    fn run_ccf(&mut self)
        ensures
            final(self).audio_ring == old(self).audio_ring,
            final(self)@ == old(self)@.executed(Instruction::Ccf),
    {
        proof {
            reveal(Machine::executed);
            reveal(Machine::computed);
        }
        self.reg.f.subtract = false;
        self.reg.f.half_carry = false;
        self.reg.f.carry = !self.reg.f.carry;
    }

    fn run_alu(&mut self, op: AluOp, operand: Operand)
        ensures
            final(self).audio_ring == old(self).audio_ring,
            final(self)@ == old(self)@.executed(Instruction::Alu(op, operand)),
    {
        proof {
            reveal(Machine::executed);
            reveal(Machine::computed);
        }
        let flags: FlagReg = self.reg.f;
        let accumulator: u8 = self.reg.a;
        let value: u8 = self.operand_value(operand);
        let result: AluResult = alu(op, accumulator, value, flags);
        self.reg.f = result.flags;
        self.reg.a = if op == AluOp::Cp {
            accumulator
        } else {
            result.value
        };
    }

    fn run_alu_immediate(&mut self, op: AluOp)
        ensures
            final(self).audio_ring == old(self).audio_ring,
            final(self)@ == old(self)@.executed(Instruction::AluImmediate(op)),
    {
        proof {
            reveal(Machine::executed);
            reveal(Machine::computed);
        }
        let flags: FlagReg = self.reg.f;
        let accumulator: u8 = self.reg.a;
        let value: u8 = self.read_operand();
        let result: AluResult = alu(op, accumulator, value, flags);
        self.reg.f = result.flags;
        self.reg.a = if op == AluOp::Cp {
            accumulator
        } else {
            result.value
        };
    }

    fn run_add_sp(&mut self)
        ensures
            final(self).audio_ring == old(self).audio_ring,
            final(self)@ == old(self)@.executed(Instruction::AddSp),
    {
        proof {
            reveal(Machine::executed);
            reveal(Machine::computed);
        }
        let sp: u16 = self.reg.sp;
        let offset: u8 = self.read_operand();
        let result: WideResult = add_sp(sp, offset);
        self.reg.f = result.flags;
        self.reg.sp = result.value;
        self.cycle(2);
    }

    fn run_load_hl_sp(&mut self)
        ensures
            final(self).audio_ring == old(self).audio_ring,
            final(self)@ == old(self)@.executed(Instruction::LoadHlSp),
    {
        proof {
            reveal(Machine::executed);
            reveal(Machine::computed);
        }
        let sp: u16 = self.reg.sp;
        let offset: u8 = self.read_operand();
        let result: WideResult = add_sp(sp, offset);
        self.reg.f = result.flags;
        self.reg.write_16(&Reg16::HL, result.value);
        self.cycle(1);
    }

    fn run_nop(&mut self)
        ensures
            final(self).audio_ring == old(self).audio_ring,
            final(self)@ == old(self)@.executed(Instruction::Nop),
    {
        proof {
            reveal(Machine::executed);
            reveal(Machine::branched);
        }
    }

    fn run_stop(&mut self)
        ensures
            final(self).audio_ring == old(self).audio_ring,
            final(self)@ == old(self)@.executed(Instruction::Stop),
    {
        proof {
            reveal(Machine::executed);
            reveal(Machine::branched);
        }
        self.reg.pc = address_after(self.reg.pc);
    }

    fn run_halt(&mut self)
        ensures
            final(self).audio_ring == old(self).audio_ring,
            final(self)@ == old(self)@.executed(Instruction::Halt),
    {
        proof {
            reveal(Machine::executed);
            reveal(Machine::branched);
        }
        self.halt = true;
    }

    fn run_di(&mut self)
        ensures
            final(self).audio_ring == old(self).audio_ring,
            final(self)@ == old(self)@.executed(Instruction::Di),
    {
        proof {
            reveal(Machine::executed);
            reveal(Machine::branched);
        }
        self.istate.ime = false;
    }

    fn run_ei(&mut self)
        ensures
            final(self).audio_ring == old(self).audio_ring,
            final(self)@ == old(self)@.executed(Instruction::Ei),
    {
        proof {
            reveal(Machine::executed);
            reveal(Machine::branched);
        }
        self.istate.ime = true;
    }

    fn run_jump_relative(&mut self, condition: Option<Condition>)
        ensures
            final(self).audio_ring == old(self).audio_ring,
            final(self)@ == old(self)@.executed(Instruction::JumpRelative(condition)),
    {
        proof {
            reveal(Machine::executed);
            reveal(Machine::branched);
        }
        let flags: FlagReg = self.reg.f;
        let offset: u8 = self.read_operand();
        if is_taken(condition, flags) {
            self.reg.pc = add_signed(self.reg.pc, offset);
            self.cycle(1);
        }
    }

    fn run_jump(&mut self, condition: Option<Condition>)
        ensures
            final(self).audio_ring == old(self).audio_ring,
            final(self)@ == old(self)@.executed(Instruction::Jump(condition)),
    {
        proof {
            reveal(Machine::executed);
            reveal(Machine::branched);
        }
        let flags: FlagReg = self.reg.f;
        let address: u16 = self.read_operand_16();
        if is_taken(condition, flags) {
            self.reg.pc = address;
            self.cycle(1);
        }
    }

    fn run_jump_hl(&mut self)
        ensures
            final(self).audio_ring == old(self).audio_ring,
            final(self)@ == old(self)@.executed(Instruction::JumpHl),
    {
        proof {
            reveal(Machine::executed);
            reveal(Machine::branched);
        }
        self.reg.pc = self.reg.read_16(&Reg16::HL);
    }

    fn run_call(&mut self, condition: Option<Condition>)
        ensures
            final(self).audio_ring == old(self).audio_ring,
            final(self)@ == old(self)@.executed(Instruction::Call(condition)),
    {
        proof {
            reveal(Machine::executed);
            reveal(Machine::branched);
        }
        let flags: FlagReg = self.reg.f;
        let address: u16 = self.read_operand_16();
        let return_to: u16 = self.reg.pc;
        if is_taken(condition, flags) {
            self.cycle(1);
            self.push(return_to);
            self.reg.pc = address;
        }
    }

    fn run_return(&mut self, condition: Option<Condition>)
        ensures
            final(self).audio_ring == old(self).audio_ring,
            final(self)@ == old(self)@.executed(Instruction::Return(condition)),
    {
        proof {
            reveal(Machine::executed);
            reveal(Machine::branched);
        }
        let flags: FlagReg = self.reg.f;
        match condition {
            None => {
                self.execute_return();
            },
            Some(_) => {
                self.cycle(1);
                if is_taken(condition, flags) {
                    self.execute_return();
                }
            },
        }
    }

    fn run_return_interrupt(&mut self)
        ensures
            final(self).audio_ring == old(self).audio_ring,
            final(self)@ == old(self)@.executed(Instruction::ReturnInterrupt),
    {
        proof {
            reveal(Machine::executed);
            reveal(Machine::branched);
        }
        self.execute_return();
        self.istate.ime = true;
    }

    fn run_restart(&mut self, target: u8)
        ensures
            final(self).audio_ring == old(self).audio_ring,
            final(self)@ == old(self)@.executed(Instruction::Restart(target)),
    {
        proof {
            reveal(Machine::executed);
            reveal(Machine::branched);
        }
        let return_to: u16 = self.reg.pc;
        self.cycle(1);
        self.push(return_to);
        self.reg.pc = target as u16;
    }

    /// Pops the return address into PC.
    fn execute_return(&mut self)
        ensures
            final(self).audio_ring == old(self).audio_ring,
            final(self)@ == old(self)@.returned(),
    {
        proof {
            reveal(Machine::returned);
        }
        let address: u16 = self.pop();
        self.reg.pc = address;
        self.cycle(1);
    }

    /// Runs the instruction of the second table whose opcode is `opcode`.
    pub fn arithmetic(&mut self, opcode: u8)
        ensures
            final(self).audio_ring == old(self).audio_ring,
            final(self)@ == old(self)@.prefixed(opcode),
    {
        proof {
            reveal(Machine::prefixed);
        }
        let flags: FlagReg = self.reg.f;
        let operand: Operand = get_opcode_reg(opcode % 8);
        let index: u8 = (opcode / 8) % 8;
        let value: u8 = self.operand_value(operand);
        if opcode < 0x40 {
            let result: AluResult = shift(get_opcode_shift(index), value, flags);
            self.reg.f = result.flags;
            self.write_operand(operand, result.value);
        } else if opcode < 0x80 {
            self.reg.f = bit_test(index, value, flags);
        } else if opcode < 0xC0 {
            self.write_operand(operand, bit_reset(index, value));
        } else {
            self.write_operand(operand, bit_set(index, value));
        }
    }

    fn run_prefix(&mut self)
        ensures
            final(self).audio_ring == old(self).audio_ring,
            final(self)@ == old(self)@.executed(Instruction::Prefix),
    {
        proof {
            reveal(Machine::executed);
        }
        let opcode: u8 = self.read_operand();
        self.arithmetic(opcode);
    }

    /// Runs one decoded instruction, PC standing behind its opcode.
    fn execute_instruction(&mut self, instruction: Instruction)
        requires
            instruction != Instruction::Invalid,
        ensures
            final(self).audio_ring == old(self).audio_ring,
            final(self)@ == old(self)@.executed(instruction),
    {
        match instruction {
            Instruction::Nop => self.run_nop(),
            Instruction::Stop => self.run_stop(),
            Instruction::Halt => self.run_halt(),
            Instruction::Di => self.run_di(),
            Instruction::Ei => self.run_ei(),
            Instruction::Load(destination, source) => self.run_load(destination, source),
            Instruction::LoadImmediate(destination) => self.run_load_immediate(destination),
            Instruction::LoadWide(pair) => self.run_load_wide(pair),
            Instruction::StoreA(pointer) => self.run_store_a(pointer),
            Instruction::LoadA(pointer) => self.run_load_a(pointer),
            Instruction::StoreSp => self.run_store_sp(),
            Instruction::IncWide(pair) => self.run_inc_wide(pair),
            Instruction::DecWide(pair) => self.run_dec_wide(pair),
            Instruction::Inc(operand) => self.run_inc(operand),
            Instruction::Dec(operand) => self.run_dec(operand),
            Instruction::AddHl(pair) => self.run_add_hl(pair),
            Instruction::RotateA(op) => self.run_rotate_a(op),
            Instruction::Daa => self.run_daa(),
            Instruction::Cpl => self.run_cpl(),
            Instruction::Scf => self.run_scf(),
            Instruction::Ccf => self.run_ccf(),
            Instruction::JumpRelative(condition) => self.run_jump_relative(condition),
            Instruction::Alu(op, operand) => self.run_alu(op, operand),
            Instruction::AluImmediate(op) => self.run_alu_immediate(op),
            Instruction::Return(condition) => self.run_return(condition),
            Instruction::ReturnInterrupt => self.run_return_interrupt(),
            Instruction::Jump(condition) => self.run_jump(condition),
            Instruction::JumpHl => self.run_jump_hl(),
            Instruction::Call(condition) => self.run_call(condition),
            Instruction::Restart(target) => self.run_restart(target),
            Instruction::Pop(pair) => self.run_pop(pair),
            Instruction::Push(pair) => self.run_push(pair),
            Instruction::StoreHigh => self.run_store_high(),
            Instruction::LoadHigh => self.run_load_high(),
            Instruction::StoreHighC => self.run_store_high_c(),
            Instruction::LoadHighC => self.run_load_high_c(),
            Instruction::StoreDirect => self.run_store_direct(),
            Instruction::LoadDirect => self.run_load_direct(),
            Instruction::AddSp => self.run_add_sp(),
            Instruction::LoadHlSp => self.run_load_hl_sp(),
            Instruction::LoadSpHl => self.run_load_sp_hl(),
            Instruction::Prefix => self.run_prefix(),
            Instruction::Invalid => {},
        }
    }

    /// Serves the interrupt `line`.
    fn run_interrupt(&mut self, line: u8)
        ensures
            final(self).audio_ring == old(self).audio_ring,
            final(self)@ == (Machine {
                halt: old(self)@.halt,
                board: Board {
                    istate: InterruptState {
                        ime: false,
                        iflag: old(self)@.board.istate.iflag.without(line),
                        ..old(self)@.board.istate
                    },
                    ..old(self)@.board
                },
                ..old(self)@
            }).internal(2).pushed(old(self).reg.pc).with_pc(
                crate::interrupts::vector_of(line),
            ).internal(1),
    {
        let return_to: u16 = self.reg.pc;
        self.istate.iflag.remove(line);
        self.istate.ime = false;
        self.cycle(2);
        self.push(return_to);
        self.reg.pc = interrupt_vector(line);
        self.cycle(1);
    }

    /// The interrupt check that precedes every instruction.
    pub fn check_for_interrupt(&mut self)
        ensures
            final(self).audio_ring == old(self).audio_ring,
            final(self)@ == old(self)@.interrupts_checked(),
    {
        proof {
            reveal(Machine::interrupts_checked);
        }
        let pending: u8 = self.istate.pending_lines();
        if pending != 0 {
            self.halt = false;
            if self.istate.ime {
                self.run_interrupt(first_pending(pending));
            }
        }
    }

    /// Runs one step: the interrupt check, then an idle cycle if the
    /// processor is halted, else the instruction at PC. Says whether the
    /// step took the PPU into VBlank, or which opcode stopped it.
    pub fn execute(&mut self) -> (r: Result<bool, ExecutionError>)
        ensures
            final(self).audio_ring == old(self).audio_ring,
            final(self)@ == old(self)@.step(),
            match r {
                Ok(vblank) => old(self)@.fault() is None && vblank == (old(self)@.board.ppu.mode
                    != PPUMode::VBlank && final(self)@.board.ppu.mode == PPUMode::VBlank),
                Err(ExecutionError::InvalidOpcode(opcode)) => old(self)@.fault() == Some(opcode),
            },
    {
        proof {
            reveal(Machine::step);
            reveal(Machine::fault);
        }
        let before: bool = self.ppu.mode == PPUMode::VBlank;
        self.check_for_interrupt();
        if self.halt {
            self.cycle(1);
        } else {
            let opcode: u8 = self.read(self.reg.pc);
            let instruction: Instruction = decode(opcode);
            if instruction == Instruction::Invalid {
                return Err(ExecutionError::InvalidOpcode(opcode));
            }
            self.reg.pc = address_after(self.reg.pc);
            self.execute_instruction(instruction);
            self.cycle(1);
        }
        Ok(!before && self.ppu.mode == PPUMode::VBlank)
    }

    /// Runs instructions until `target_cycles` machine cycles have passed,
    /// counted from zero, and stops at the end of the instruction that
    /// reaches the target. An opcode that names no instruction stops the
    /// run at once and is reported. Either way the sound that was queued
    /// is offered to the host's ring and the cycle counter is left at zero.
    pub fn run(&mut self, target_cycles: u32) -> (r: Result<(), ExecutionError>)
        ensures
            final(self)@ == (Machine {
                cycle_counter: 0,
                board: Board {
                    audio: Seq::empty(),
                    ..(Machine { cycle_counter: 0, ..old(self)@ }).run_for(
                        target_cycles as u64,
                        target_cycles as nat,
                    ).0.board
                },
                ..(Machine { cycle_counter: 0, ..old(self)@ }).run_for(
                    target_cycles as u64,
                    target_cycles as nat,
                ).0
            }),
            ring_delivered(
                old(self).audio_ring,
                final(self).audio_ring,
                (Machine { cycle_counter: 0, ..old(self)@ }).run_for(
                    target_cycles as u64,
                    target_cycles as nat,
                ).0.board.audio,
            ),
            match r {
                Ok(_) => (Machine { cycle_counter: 0, ..old(self)@ }).run_for(
                    target_cycles as u64,
                    target_cycles as nat,
                ).1 is None,
                Err(ExecutionError::InvalidOpcode(opcode)) => (Machine {
                    cycle_counter: 0,
                    ..old(self)@
                }).run_for(target_cycles as u64, target_cycles as nat).1 == Some(opcode),
            },
    {
        self.cycle_counter = 0;
        let target: u64 = target_cycles as u64;
        let ghost start = self@;
        while self.cycle_counter < target
            invariant
                target == target_cycles,
                start == (Machine { cycle_counter: 0, ..old(self)@ }),
                self.audio_ring == old(self).audio_ring,
                self.cycle_counter <= target + 11,
                start.run_for(target, target as nat) == self@.run_for(
                    target,
                    cycles_left(self@, target),
                ),
            decreases target + 11 - self.cycle_counter,
        {
            let ghost before = self@;
            proof {
                reveal(counted);
                if before.fault() is None {
                    lemma_step_time(before);
                    lemma_run_limit(
                        before.step(),
                        target,
                        (cycles_left(before, target) - 1) as nat,
                        cycles_left(before.step(), target),
                    );
                }
            }
            match self.execute() {
                Ok(_) => {},
                Err(error) => {
                    assert(before.fault() is Some);
                    assert(before.run_for(target, cycles_left(before, target)) == (
                        before.step(),
                        before.fault(),
                    ));
                    self.cycle_counter = 0;
                    self.flush_audio();
                    return Err(error);
                },
            }
        }
        self.cycle_counter = 0;
        self.flush_audio();
        Ok(())
    }
}

/// Machine cycles to go before the counter reaches `target`.
pub open spec fn cycles_left(machine: Machine, target: u64) -> nat {
    if machine.cycle_counter < target {
        (target - machine.cycle_counter) as nat
    } else {
        0
    }
}

/// A run is the same under every limit that is at least the number of
/// cycles still to go.
pub proof fn lemma_run_limit(machine: Machine, target: u64, large: nat, small: nat)
    requires
        cycles_left(machine, target) <= small <= large,
        machine.cycle_counter <= target + 11,
        target <= u32::MAX,
    ensures
        machine.run_for(target, large) == machine.run_for(target, small),
    decreases small,
{
    if machine.cycle_counter < target && machine.fault() is None {
        lemma_step_time(machine);
        reveal(counted);
        lemma_run_limit(machine.step(), target, (large - 1) as nat, (small - 1) as nat);
    }
}

} // verus!
