//! Cycle accounting: every instruction takes exactly the machine cycles it
//! is published to take, and serving an interrupt takes five.

use vstd::prelude::*;
use crate::board::next_address;
use crate::alu::{AluOp, ShiftOp};
use crate::decode::{
    branch_taken, decode_spec, published_cycles, published_prefixed_cycles, Condition,
    Instruction, Operand, Pointer,
};
use crate::machine::{counted, Machine};
use crate::registers::Reg16;

verus! {

/// Counting on in two goes is counting on by the sum.
pub broadcast proof fn lemma_counted_twice(counter: u64, first: nat, second: nat)
    ensures
        #[trigger] counted(counted(counter, first), second) == counted(counter, first + second),
{
    reveal(counted);
}

/// Counting on by nothing changes nothing.
pub broadcast proof fn lemma_counted_zero(counter: u64)
    ensures
        #[trigger] counted(counter, 0) == counter,
{
    reveal(counted);
}

/// Waiting takes the cycles waited and touches neither registers nor the
/// halt latch.
pub broadcast proof fn lemma_internal_time(machine: Machine, cycles: nat)
    ensures
        (#[trigger] machine.internal(cycles)).cycle_counter == counted(
            machine.cycle_counter,
            cycles,
        ),
        machine.internal(cycles).reg == machine.reg,
        machine.internal(cycles).halt == machine.halt,
{
    reveal(Machine::internal);
}

/// A store takes one cycle.
pub broadcast proof fn lemma_stored_time(machine: Machine, address: u16, value: u8)
    ensures
        (#[trigger] machine.stored(address, value)).cycle_counter == counted(
            machine.cycle_counter,
            1,
        ),
        machine.stored(address, value).reg == machine.reg,
        machine.stored(address, value).halt == machine.halt,
{
    reveal(Machine::stored);
    reveal(Machine::internal);
}

/// A fetch takes one cycle and moves PC on by one.
pub broadcast proof fn lemma_fetched_time(machine: Machine)
    ensures
        (#[trigger] machine.fetched()).cycle_counter == counted(machine.cycle_counter, 1),
        machine.fetched().reg == machine.with_pc(next_address(machine.reg.pc)).reg,
        machine.fetched().halt == machine.halt,
{
    reveal(Machine::fetched);
    reveal(Machine::internal);
}

/// A fetch of a word takes two cycles and moves PC on by two.
pub broadcast proof fn lemma_fetched_16_time(machine: Machine)
    ensures
        (#[trigger] machine.fetched_16()).cycle_counter == counted(machine.cycle_counter, 2),
        machine.fetched_16().reg == machine.with_pc(
            next_address(next_address(machine.reg.pc)),
        ).reg,
        machine.fetched_16().halt == machine.halt,
{
    reveal(Machine::fetched_16);
    lemma_fetched_time(machine);
    lemma_fetched_time(machine.fetched());
    lemma_counted_twice(machine.cycle_counter, 1, 1);
}

/// A push takes two cycles and changes no register but SP.
pub broadcast proof fn lemma_pushed_time(machine: Machine, value: u16)
    ensures
        (#[trigger] machine.pushed(value)).cycle_counter == counted(machine.cycle_counter, 2),
        machine.pushed(value).reg.pc == machine.reg.pc,
        machine.pushed(value).reg.f == machine.reg.f,
        machine.pushed(value).halt == machine.halt,
{
    reveal(Machine::pushed);
    reveal(Machine::stored);
    reveal(Machine::internal);
    lemma_counted_twice(machine.cycle_counter, 1, 1);
}

/// A pop takes two cycles and changes no register but SP.
pub broadcast proof fn lemma_popped_time(machine: Machine)
    ensures
        (#[trigger] machine.popped()).cycle_counter == counted(machine.cycle_counter, 2),
        machine.popped().reg.pc == machine.reg.pc,
        machine.popped().reg.f == machine.reg.f,
        machine.popped().halt == machine.halt,
{
    reveal(Machine::popped);
    reveal(Machine::internal);
    lemma_counted_twice(machine.cycle_counter, 1, 1);
}

/// Reading (HL) takes a cycle, reading a register takes none.
pub broadcast proof fn lemma_operand_read_time(machine: Machine, operand: Operand)
    ensures
        (#[trigger] machine.operand_read(operand)).cycle_counter == counted(
            machine.cycle_counter,
            if operand == Operand::HlIndirect {
                1nat
            } else {
                0nat
            },
        ),
        machine.operand_read(operand).reg == machine.reg,
        machine.operand_read(operand).halt == machine.halt,
{
    reveal(Machine::operand_read);
    reveal(Machine::internal);
    reveal(counted);
}

/// Writing (HL) takes a cycle, writing a register takes none.
pub broadcast proof fn lemma_operand_written_time(machine: Machine, operand: Operand, value: u8)
    ensures
        (#[trigger] machine.operand_written(operand, value)).cycle_counter == counted(
            machine.cycle_counter,
            if operand == Operand::HlIndirect {
                1nat
            } else {
                0nat
            },
        ),
        machine.operand_written(operand, value).halt == machine.halt,
{
    reveal(Machine::operand_written);
    reveal(Machine::stored);
    reveal(Machine::internal);
    reveal(counted);
}

/// Moving HL on after an access takes no time.
pub broadcast proof fn lemma_pointer_moved_time(machine: Machine, pointer: Pointer)
    ensures
        (#[trigger] machine.pointer_moved(pointer)).cycle_counter == machine.cycle_counter,
        machine.pointer_moved(pointer).halt == machine.halt,
{
    reveal(Machine::pointer_moved);
}

/// A return takes three cycles.
pub broadcast proof fn lemma_returned_time(machine: Machine)
    ensures
        (#[trigger] machine.returned()).cycle_counter == counted(machine.cycle_counter, 3),
        machine.returned().halt == machine.halt,
{
    reveal(Machine::returned);
    lemma_popped_time(machine);
    lemma_internal_time(machine.popped().with_pc(machine.stack_top()), 1);
    lemma_counted_twice(machine.cycle_counter, 2, 1);
}

pub broadcast group group_timing {
    lemma_counted_twice,
    lemma_counted_zero,
    lemma_internal_time,
    lemma_stored_time,
    lemma_fetched_time,
    lemma_fetched_16_time,
    lemma_pushed_time,
    lemma_popped_time,
    lemma_operand_read_time,
    lemma_operand_written_time,
    lemma_pointer_moved_time,
    lemma_returned_time,
}

impl Machine {
    /// Whether the instruction is a branch that the present flags take.
    pub open spec fn takes(self, instruction: Instruction) -> bool {
        match instruction {
            Instruction::JumpRelative(condition) | Instruction::Jump(condition)
            | Instruction::Call(condition) | Instruction::Return(condition) => branch_taken(
                condition,
                self.reg.f,
            ),
            _ => false,
        }
    }

    /// Machine cycles that the instruction at PC is published to take.
    pub open spec fn instruction_cycles(self) -> nat {
        published_cycles(
            decode_spec(self.opcode()),
            self.takes(decode_spec(self.opcode())),
            self.board.read(next_address(self.reg.pc)),
        ) as nat
    }

    /// Whether the interrupt check at the start of a step serves an
    /// interrupt.
    pub open spec fn serves_interrupt(self) -> bool {
        self.board.istate.pending() != 0 && self.board.istate.ime
    }

    /// Machine cycles that the next step takes: five if an interrupt is
    /// served, and then one if the processor is halted, else what the
    /// instruction at PC is published to take.
    pub open spec fn step_cycles(self) -> nat {
        let ready = self.interrupts_checked();
        (if self.serves_interrupt() {
            5nat
        } else {
            0nat
        }) + (if ready.halt {
            1nat
        } else {
            ready.instruction_cycles()
        })
    }
}

/// Whether an opcode can decode to the instruction: the table holds
/// every instruction but a load from (HL) to (HL), whose opcode is HALT.
pub open spec fn encodable(instruction: Instruction) -> bool {
    instruction != Instruction::Invalid && instruction != Instruction::Load(
        Operand::HlIndirect,
        Operand::HlIndirect,
    )
}

/// Every opcode but the eleven prohibited ones decodes to an instruction
/// that the table holds.
pub proof fn lemma_decoded_is_encodable(opcode: u8)
    ensures
        decode_spec(opcode) != Instruction::Invalid ==> encodable(decode_spec(opcode)),
{
}

impl Machine {
    /// What the cycle counter shows once the instruction has run, the
    /// cycle of its opcode fetch not yet counted.
    pub open spec fn counter_after(self, instruction: Instruction) -> u64 {
        counted(
            self.cycle_counter,
            (published_cycles(instruction, self.takes(instruction), self.immediate()) - 1) as nat,
        )
    }
}

proof fn lemma_time_nop(machine: Machine)
    ensures
        machine.executed(Instruction::Nop).cycle_counter == machine.counter_after(Instruction::Nop),
{
    broadcast use group_timing;

    reveal(Machine::executed);
    reveal(Machine::branched);
}

proof fn lemma_time_stop(machine: Machine)
    ensures
        machine.executed(Instruction::Stop).cycle_counter == machine.counter_after(Instruction::Stop),
{
    broadcast use group_timing;

    reveal(Machine::executed);
    reveal(Machine::branched);
}

proof fn lemma_time_halt(machine: Machine)
    ensures
        machine.executed(Instruction::Halt).cycle_counter == machine.counter_after(Instruction::Halt),
{
    broadcast use group_timing;

    reveal(Machine::executed);
    reveal(Machine::branched);
}

proof fn lemma_time_di(machine: Machine)
    ensures
        machine.executed(Instruction::Di).cycle_counter == machine.counter_after(Instruction::Di),
{
    broadcast use group_timing;

    reveal(Machine::executed);
    reveal(Machine::branched);
}

proof fn lemma_time_ei(machine: Machine)
    ensures
        machine.executed(Instruction::Ei).cycle_counter == machine.counter_after(Instruction::Ei),
{
    broadcast use group_timing;

    reveal(Machine::executed);
    reveal(Machine::branched);
}

proof fn lemma_time_load(machine: Machine, destination: Operand, source: Operand)
    requires
        destination != Operand::HlIndirect || source != Operand::HlIndirect,
    ensures
        machine.executed(Instruction::Load(destination, source)).cycle_counter == machine.counter_after(Instruction::Load(destination, source)),
{
    broadcast use group_timing;

    reveal(Machine::executed);
    reveal(Machine::moved);
}

proof fn lemma_time_load_immediate(machine: Machine, destination: Operand)
    ensures
        machine.executed(Instruction::LoadImmediate(destination)).cycle_counter == machine.counter_after(Instruction::LoadImmediate(destination)),
{
    broadcast use group_timing;

    reveal(Machine::executed);
    reveal(Machine::moved);
}

proof fn lemma_time_load_wide(machine: Machine, pair: Reg16)
    ensures
        machine.executed(Instruction::LoadWide(pair)).cycle_counter == machine.counter_after(Instruction::LoadWide(pair)),
{
    broadcast use group_timing;

    reveal(Machine::executed);
    reveal(Machine::moved);
}

proof fn lemma_time_store_a(machine: Machine, pointer: Pointer)
    ensures
        machine.executed(Instruction::StoreA(pointer)).cycle_counter == machine.counter_after(Instruction::StoreA(pointer)),
{
    broadcast use group_timing;

    reveal(Machine::executed);
    reveal(Machine::moved);
}

proof fn lemma_time_load_a(machine: Machine, pointer: Pointer)
    ensures
        machine.executed(Instruction::LoadA(pointer)).cycle_counter == machine.counter_after(Instruction::LoadA(pointer)),
{
    broadcast use group_timing;

    reveal(Machine::executed);
    reveal(Machine::moved);
}

proof fn lemma_time_store_sp(machine: Machine)
    ensures
        machine.executed(Instruction::StoreSp).cycle_counter == machine.counter_after(Instruction::StoreSp),
{
    broadcast use group_timing;

    reveal(Machine::executed);
    reveal(Machine::moved);
}

proof fn lemma_time_inc_wide(machine: Machine, pair: Reg16)
    ensures
        machine.executed(Instruction::IncWide(pair)).cycle_counter == machine.counter_after(Instruction::IncWide(pair)),
{
    broadcast use group_timing;

    reveal(Machine::executed);
    reveal(Machine::computed);
}

proof fn lemma_time_dec_wide(machine: Machine, pair: Reg16)
    ensures
        machine.executed(Instruction::DecWide(pair)).cycle_counter == machine.counter_after(Instruction::DecWide(pair)),
{
    broadcast use group_timing;

    reveal(Machine::executed);
    reveal(Machine::computed);
}

proof fn lemma_time_inc(machine: Machine, operand: Operand)
    ensures
        machine.executed(Instruction::Inc(operand)).cycle_counter == machine.counter_after(Instruction::Inc(operand)),
{
    broadcast use group_timing;

    reveal(Machine::executed);
    reveal(Machine::computed);
}

proof fn lemma_time_dec(machine: Machine, operand: Operand)
    ensures
        machine.executed(Instruction::Dec(operand)).cycle_counter == machine.counter_after(Instruction::Dec(operand)),
{
    broadcast use group_timing;

    reveal(Machine::executed);
    reveal(Machine::computed);
}

proof fn lemma_time_add_hl(machine: Machine, pair: Reg16)
    ensures
        machine.executed(Instruction::AddHl(pair)).cycle_counter == machine.counter_after(Instruction::AddHl(pair)),
{
    broadcast use group_timing;

    reveal(Machine::executed);
    reveal(Machine::computed);
}

proof fn lemma_time_rotate_a(machine: Machine, op: ShiftOp)
    ensures
        machine.executed(Instruction::RotateA(op)).cycle_counter == machine.counter_after(Instruction::RotateA(op)),
{
    broadcast use group_timing;

    reveal(Machine::executed);
    reveal(Machine::computed);
}

proof fn lemma_time_daa(machine: Machine)
    ensures
        machine.executed(Instruction::Daa).cycle_counter == machine.counter_after(Instruction::Daa),
{
    broadcast use group_timing;

    reveal(Machine::executed);
    reveal(Machine::computed);
}

proof fn lemma_time_cpl(machine: Machine)
    ensures
        machine.executed(Instruction::Cpl).cycle_counter == machine.counter_after(Instruction::Cpl),
{
    broadcast use group_timing;

    reveal(Machine::executed);
    reveal(Machine::computed);
}

proof fn lemma_time_scf(machine: Machine)
    ensures
        machine.executed(Instruction::Scf).cycle_counter == machine.counter_after(Instruction::Scf),
{
    broadcast use group_timing;

    reveal(Machine::executed);
    reveal(Machine::computed);
}

proof fn lemma_time_ccf(machine: Machine)
    ensures
        machine.executed(Instruction::Ccf).cycle_counter == machine.counter_after(Instruction::Ccf),
{
    broadcast use group_timing;

    reveal(Machine::executed);
    reveal(Machine::computed);
}

proof fn lemma_time_jump_relative(machine: Machine, condition: Option<Condition>)
    ensures
        machine.executed(Instruction::JumpRelative(condition)).cycle_counter == machine.counter_after(Instruction::JumpRelative(condition)),
{
    broadcast use group_timing;

    reveal(Machine::executed);
    reveal(Machine::branched);
}

proof fn lemma_time_alu(machine: Machine, op: AluOp, operand: Operand)
    ensures
        machine.executed(Instruction::Alu(op, operand)).cycle_counter == machine.counter_after(Instruction::Alu(op, operand)),
{
    broadcast use group_timing;

    reveal(Machine::executed);
    reveal(Machine::computed);
}

proof fn lemma_time_alu_immediate(machine: Machine, op: AluOp)
    ensures
        machine.executed(Instruction::AluImmediate(op)).cycle_counter == machine.counter_after(Instruction::AluImmediate(op)),
{
    broadcast use group_timing;

    reveal(Machine::executed);
    reveal(Machine::computed);
}

proof fn lemma_time_return(machine: Machine, condition: Option<Condition>)
    ensures
        machine.executed(Instruction::Return(condition)).cycle_counter == machine.counter_after(Instruction::Return(condition)),
{
    broadcast use group_timing;

    reveal(Machine::executed);
    reveal(Machine::branched);
}

proof fn lemma_time_return_interrupt(machine: Machine)
    ensures
        machine.executed(Instruction::ReturnInterrupt).cycle_counter == machine.counter_after(Instruction::ReturnInterrupt),
{
    broadcast use group_timing;

    reveal(Machine::executed);
    reveal(Machine::branched);
}

proof fn lemma_time_jump(machine: Machine, condition: Option<Condition>)
    ensures
        machine.executed(Instruction::Jump(condition)).cycle_counter == machine.counter_after(Instruction::Jump(condition)),
{
    broadcast use group_timing;

    reveal(Machine::executed);
    reveal(Machine::branched);
}

proof fn lemma_time_jump_hl(machine: Machine)
    ensures
        machine.executed(Instruction::JumpHl).cycle_counter == machine.counter_after(Instruction::JumpHl),
{
    broadcast use group_timing;

    reveal(Machine::executed);
    reveal(Machine::branched);
}

proof fn lemma_time_call(machine: Machine, condition: Option<Condition>)
    ensures
        machine.executed(Instruction::Call(condition)).cycle_counter == machine.counter_after(Instruction::Call(condition)),
{
    broadcast use group_timing;

    reveal(Machine::executed);
    reveal(Machine::branched);
}

proof fn lemma_time_restart(machine: Machine, target: u8)
    ensures
        machine.executed(Instruction::Restart(target)).cycle_counter == machine.counter_after(Instruction::Restart(target)),
{
    broadcast use group_timing;

    reveal(Machine::executed);
    reveal(Machine::branched);
}

proof fn lemma_time_pop(machine: Machine, pair: Reg16)
    ensures
        machine.executed(Instruction::Pop(pair)).cycle_counter == machine.counter_after(Instruction::Pop(pair)),
{
    broadcast use group_timing;

    reveal(Machine::executed);
    reveal(Machine::moved);
}

proof fn lemma_time_push(machine: Machine, pair: Reg16)
    ensures
        machine.executed(Instruction::Push(pair)).cycle_counter == machine.counter_after(Instruction::Push(pair)),
{
    broadcast use group_timing;

    reveal(Machine::executed);
    reveal(Machine::moved);
}

proof fn lemma_time_store_high(machine: Machine)
    ensures
        machine.executed(Instruction::StoreHigh).cycle_counter == machine.counter_after(Instruction::StoreHigh),
{
    broadcast use group_timing;

    reveal(Machine::executed);
    reveal(Machine::moved);
}

proof fn lemma_time_load_high(machine: Machine)
    ensures
        machine.executed(Instruction::LoadHigh).cycle_counter == machine.counter_after(Instruction::LoadHigh),
{
    broadcast use group_timing;

    reveal(Machine::executed);
    reveal(Machine::moved);
}

proof fn lemma_time_store_high_c(machine: Machine)
    ensures
        machine.executed(Instruction::StoreHighC).cycle_counter == machine.counter_after(Instruction::StoreHighC),
{
    broadcast use group_timing;

    reveal(Machine::executed);
    reveal(Machine::moved);
}

proof fn lemma_time_load_high_c(machine: Machine)
    ensures
        machine.executed(Instruction::LoadHighC).cycle_counter == machine.counter_after(Instruction::LoadHighC),
{
    broadcast use group_timing;

    reveal(Machine::executed);
    reveal(Machine::moved);
}

proof fn lemma_time_store_direct(machine: Machine)
    ensures
        machine.executed(Instruction::StoreDirect).cycle_counter == machine.counter_after(Instruction::StoreDirect),
{
    broadcast use group_timing;

    reveal(Machine::executed);
    reveal(Machine::moved);
}

proof fn lemma_time_load_direct(machine: Machine)
    ensures
        machine.executed(Instruction::LoadDirect).cycle_counter == machine.counter_after(Instruction::LoadDirect),
{
    broadcast use group_timing;

    reveal(Machine::executed);
    reveal(Machine::moved);
}

proof fn lemma_time_add_sp(machine: Machine)
    ensures
        machine.executed(Instruction::AddSp).cycle_counter == machine.counter_after(Instruction::AddSp),
{
    broadcast use group_timing;

    reveal(Machine::executed);
    reveal(Machine::computed);
}

proof fn lemma_time_load_hl_sp(machine: Machine)
    ensures
        machine.executed(Instruction::LoadHlSp).cycle_counter == machine.counter_after(Instruction::LoadHlSp),
{
    broadcast use group_timing;

    reveal(Machine::executed);
    reveal(Machine::computed);
}

proof fn lemma_time_load_sp_hl(machine: Machine)
    ensures
        machine.executed(Instruction::LoadSpHl).cycle_counter == machine.counter_after(Instruction::LoadSpHl),
{
    broadcast use group_timing;

    reveal(Machine::executed);
    reveal(Machine::moved);
}

/// A rotate, shift or bit instruction of the second table takes its
/// published cycles less the two of its opcode fetches.
proof fn lemma_time_prefixed(machine: Machine, opcode: u8)
    ensures
        machine.prefixed(opcode).cycle_counter == counted(
            machine.cycle_counter,
            (published_prefixed_cycles(opcode) - 2) as nat,
        ),
{
    broadcast use group_timing;

    reveal(Machine::prefixed);
}

proof fn lemma_time_prefix(machine: Machine)
    ensures
        machine.executed(Instruction::Prefix).cycle_counter == machine.counter_after(
            Instruction::Prefix,
        ),
{
    broadcast use group_timing;

    reveal(Machine::executed);
    lemma_time_prefixed(machine.fetched(), machine.immediate());
}

/// Every instruction takes exactly the machine cycles it is published to
/// take, a conditional branch the longer count exactly when it is taken:
/// once the instruction has run, all but the cycle of the opcode fetch
/// have been counted.
pub proof fn lemma_executed_time(machine: Machine, instruction: Instruction)
    requires
        encodable(instruction),
    ensures
        machine.executed(instruction).cycle_counter == machine.counter_after(instruction),
        1 <= published_cycles(instruction, machine.takes(instruction), machine.immediate()) <= 6,
{
    match instruction {
        Instruction::Nop => lemma_time_nop(machine),
        Instruction::Stop => lemma_time_stop(machine),
        Instruction::Halt => lemma_time_halt(machine),
        Instruction::Di => lemma_time_di(machine),
        Instruction::Ei => lemma_time_ei(machine),
        Instruction::Load(destination, source) => lemma_time_load(machine, destination, source),
        Instruction::LoadImmediate(destination) => lemma_time_load_immediate(machine, destination),
        Instruction::LoadWide(pair) => lemma_time_load_wide(machine, pair),
        Instruction::StoreA(pointer) => lemma_time_store_a(machine, pointer),
        Instruction::LoadA(pointer) => lemma_time_load_a(machine, pointer),
        Instruction::StoreSp => lemma_time_store_sp(machine),
        Instruction::IncWide(pair) => lemma_time_inc_wide(machine, pair),
        Instruction::DecWide(pair) => lemma_time_dec_wide(machine, pair),
        Instruction::Inc(operand) => lemma_time_inc(machine, operand),
        Instruction::Dec(operand) => lemma_time_dec(machine, operand),
        Instruction::AddHl(pair) => lemma_time_add_hl(machine, pair),
        Instruction::RotateA(op) => lemma_time_rotate_a(machine, op),
        Instruction::Daa => lemma_time_daa(machine),
        Instruction::Cpl => lemma_time_cpl(machine),
        Instruction::Scf => lemma_time_scf(machine),
        Instruction::Ccf => lemma_time_ccf(machine),
        Instruction::JumpRelative(condition) => lemma_time_jump_relative(machine, condition),
        Instruction::Alu(op, operand) => lemma_time_alu(machine, op, operand),
        Instruction::AluImmediate(op) => lemma_time_alu_immediate(machine, op),
        Instruction::Return(condition) => lemma_time_return(machine, condition),
        Instruction::ReturnInterrupt => lemma_time_return_interrupt(machine),
        Instruction::Jump(condition) => lemma_time_jump(machine, condition),
        Instruction::JumpHl => lemma_time_jump_hl(machine),
        Instruction::Call(condition) => lemma_time_call(machine, condition),
        Instruction::Restart(target) => lemma_time_restart(machine, target),
        Instruction::Pop(pair) => lemma_time_pop(machine, pair),
        Instruction::Push(pair) => lemma_time_push(machine, pair),
        Instruction::StoreHigh => lemma_time_store_high(machine),
        Instruction::LoadHigh => lemma_time_load_high(machine),
        Instruction::StoreHighC => lemma_time_store_high_c(machine),
        Instruction::LoadHighC => lemma_time_load_high_c(machine),
        Instruction::StoreDirect => lemma_time_store_direct(machine),
        Instruction::LoadDirect => lemma_time_load_direct(machine),
        Instruction::AddSp => lemma_time_add_sp(machine),
        Instruction::LoadHlSp => lemma_time_load_hl_sp(machine),
        Instruction::LoadSpHl => lemma_time_load_sp_hl(machine),
        Instruction::Prefix => lemma_time_prefix(machine),
        Instruction::Invalid => {},
    }
}

/// The interrupt check takes five cycles when it serves an interrupt and
/// none when it does not.
pub proof fn lemma_interrupt_time(machine: Machine)
    ensures
        machine.interrupts_checked().cycle_counter == counted(
            machine.cycle_counter,
            if machine.serves_interrupt() {
                5nat
            } else {
                0nat
            },
        ),
{
    broadcast use group_timing;

    reveal(Machine::interrupts_checked);
}

/// A step accounts exactly the cycles it is due: five for an interrupt
/// that is served, then one for a halted processor or the published
/// count of the instruction at PC.
pub proof fn lemma_step_time(machine: Machine)
    requires
        machine.fault() is None,
    ensures
        machine.step().cycle_counter == counted(machine.cycle_counter, machine.step_cycles()),
        1 <= machine.step_cycles() <= 11,
{
    broadcast use group_timing;

    reveal(Machine::step);
    reveal(Machine::fault);
    let ready = machine.interrupts_checked();
    lemma_interrupt_time(machine);
    if !ready.halt {
        let instruction = decode_spec(ready.opcode());
        lemma_decoded_is_encodable(ready.opcode());
        lemma_executed_time(ready.with_pc(next_address(ready.reg.pc)), instruction);
    }
}

} // verus!
