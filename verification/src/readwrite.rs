//! The processor's side of the bus: reads, writes, the clock that runs the
//! board while the processor works, the stack and operand fetches.

use vstd::prelude::*;
use crate::apu::AudioFrame;
use crate::board::{next_address, Board};
use crate::cpu::CPU;
use crate::interrupts::{INT_TIMER, INT_VBLANK};
use crate::machine::{counted, previous_address, Machine};
use crate::ppu::{OAMSprite, OAM_SPRITES};
use crate::registers::{hi_of, lo_of, make_word};

verus! {

/// The address after `address`.
pub fn address_after(address: u16) -> (r: u16)
    ensures
        r == next_address(address),
{
    if address == 0xFFFF {
        0
    } else {
        address + 1
    }
}

/// The address before `address`.
pub fn address_before(address: u16) -> (r: u16)
    ensures
        r == previous_address(address),
{
    if address == 0 {
        0xFFFF
    } else {
        address - 1
    }
}

impl CPU {
    /// Reads the bus.
    pub fn read(&self, address: u16) -> (r: u8)
        ensures
            r == self@.board.read(address),
    {
        if address < 0x8000 || (0xA000 <= address && address < 0xFE00) || (0xFF80 <= address
            && address < 0xFFFF) {
            self.mem.mem_read(address)
        } else if (0x8000 <= address && address < 0xA000) || (0xFE00 <= address && address
            < 0xFEA0) || (0xFF40 <= address && address <= 0xFF4B) {
            self.ppu.mem_read(address)
        } else if 0xFF10 <= address && address <= 0xFF3F {
            self.apu.mem_read(address)
        } else if address == 0xFF00 {
            self.input.mem_read()
        } else if 0xFF04 <= address && address <= 0xFF07 {
            self.timer.mem_read(address)
        } else if address == 0xFF0F || address == 0xFFFF {
            self.istate.mem_read(address)
        } else {
            0xFF
        }
    }

    /// Reads a little-endian word from the bus.
    pub fn read_16(&self, address: u16) -> (r: u16)
        ensures
            r == self@.board.read_16(address),
    {
        make_word(self.read(address_after(address)), self.read(address))
    }

    /// Writes the bus.
    pub fn write(&mut self, address: u16, value: u8)
        ensures
            final(self).audio_ring == old(self).audio_ring,
            final(self)@ == (Machine {
                board: old(self)@.board.write(address, value),
                ..old(self)@
            }),
    {
        if address < 0x8000 || (0xA000 <= address && address < 0xFE00) || (0xFF80 <= address
            && address < 0xFFFF) {
            self.mem.mem_write(address, value);
        } else if (0x8000 <= address && address < 0xA000) || (0xFE00 <= address && address
            < 0xFEA0) || (0xFF40 <= address && address <= 0xFF4B) {
            self.ppu.mem_write(address, value);
        } else if 0xFF10 <= address && address <= 0xFF3F {
            self.apu.mem_write(address, value);
        } else if address == 0xFF00 {
            self.input.mem_write(value);
        } else if 0xFF04 <= address && address <= 0xFF07 {
            self.timer.mem_write(address, value);
        } else if address == 0xFF0F || address == 0xFFFF {
            self.istate.mem_write(address, value);
        }
    }

    /// Copies 160 bytes from page `source` into the sprite table.
    pub fn oam_dma(&mut self, source: u8)
        ensures
            final(self).audio_ring == old(self).audio_ring,
            final(self)@ == (Machine { board: old(self)@.board.oam_dma(source), ..old(self)@ }),
    {
        let base: u16 = (source as u16) * 0x100;
        let blank: OAMSprite = OAMSprite::from([0u8;4]);
        let mut sprites: [OAMSprite; OAM_SPRITES] = [blank;OAM_SPRITES];
        let mut index: usize = 0;
        while index < OAM_SPRITES
            invariant
                index <= OAM_SPRITES,
                base == source * 0x100,
                *self == *old(self),
                forall|k: int|
                    0 <= k < index ==> #[trigger] sprites@[k] == self@.board.dma_sprite(source, k),
            decreases OAM_SPRITES - index,
        {
            let from: u16 = base + 4 * (index as u16);
            let data: [u8; 4] = [
                self.read(from),
                self.read(from + 1),
                self.read(from + 2),
                self.read(from + 3),
            ];
            let sprite: OAMSprite = OAMSprite::from(data);
            assert(data@ =~= seq![data@[0], data@[1], data@[2], data@[3]]);
            sprites[index] = sprite;
            index = index + 1;
        }
        self.ppu.oam.sprites = sprites;
        self.ppu.oam_dma_request = false;
        assert(self@.board.ppu.oam =~= old(self)@.board.oam_dma(source).ppu.oam);
    }

    /// Runs the board for one tick of the clock.
    pub fn tick(&mut self)
        ensures
            final(self).audio_ring == old(self).audio_ring,
            final(self)@ == (Machine { board: old(self)@.board.tick(), ..old(self)@ }),
    {
        reveal(Board::tick);
        if self.ppu.oam_dma_request {
            self.oam_dma(self.ppu.oam_dma_source);
        }
        let ghost served = self@.board;
        self.ppu.cycle();
        self.timer.cycle();
        let frame: Option<AudioFrame> = self.apu.cycle(self.timer.div);
        let timer_line: u8 = if self.timer.request_interrupt {
            INT_TIMER
        } else {
            0
        };
        self.istate.iflag.insert(self.ppu.interrupt_request.0 | timer_line);
        if self.ppu.interrupt_request.intersects(INT_VBLANK) {
            self.frame_counter = self.frame_counter.wrapping_add(1);
        }
        match frame {
            Some(due) => {
                self.audio.push(due);
            },
            None => {},
        }
        assert(self@.board == served.tick()) by {
            reveal(Board::tick);
        }
    }

    /// Lets `cycles` machine cycles pass on the board.
    pub fn cycle(&mut self, cycles: u8)
        ensures
            final(self).audio_ring == old(self).audio_ring,
            final(self)@ == old(self)@.internal(cycles as nat),
    {
        proof {
            reveal(Machine::internal);
        }
        let ticks: u16 = 4 * (cycles as u16);
        let mut done: u16 = 0;
        while done < ticks
            invariant
                done <= ticks,
                ticks == 4 * cycles,
                self.audio_ring == old(self).audio_ring,
                self@ == (Machine { board: old(self)@.board.ticks(done as nat), ..old(self)@ }),
            decreases ticks - done,
        {
            self.tick();
            done = done + 1;
        }
        proof {
            reveal(counted);
        }
        self.cycle_counter = self.cycle_counter.wrapping_add(cycles as u64);
    }

    /// Writes a byte and lets its cycle pass.
    pub fn store(&mut self, address: u16, value: u8)
        ensures
            final(self).audio_ring == old(self).audio_ring,
            final(self)@ == old(self)@.stored(address, value),
    {
        proof {
            reveal(Machine::stored);
        }
        self.write(address, value);
        self.cycle(1);
    }

    /// Fetches the byte at PC.
    pub fn read_operand(&mut self) -> (r: u8)
        ensures
            final(self).audio_ring == old(self).audio_ring,
            r == old(self)@.immediate(),
            final(self)@ == old(self)@.fetched(),
    {
        proof {
            reveal(Machine::fetched);
        }
        let value: u8 = self.read(self.reg.pc);
        self.reg.pc = address_after(self.reg.pc);
        self.cycle(1);
        value
    }

    /// Fetches the word at PC.
    pub fn read_operand_16(&mut self) -> (r: u16)
        ensures
            final(self).audio_ring == old(self).audio_ring,
            r == old(self)@.immediate_16(),
            final(self)@ == old(self)@.fetched_16(),
    {
        proof {
            reveal(Machine::fetched_16);
            reveal(Machine::immediate_16);
        }
        let low: u8 = self.read_operand();
        let high: u8 = self.read_operand();
        make_word(high, low)
    }

    /// Pops a word off the stack.
    pub fn pop(&mut self) -> (r: u16)
        ensures
            final(self).audio_ring == old(self).audio_ring,
            r == old(self)@.stack_top(),
            final(self)@ == old(self)@.popped(),
    {
        proof {
            reveal(Machine::popped);
            reveal(Machine::stack_top);
            reveal(Machine::internal);
        }
        let at: u16 = self.reg.sp;
        self.reg.sp = address_after(address_after(at));
        let low: u8 = self.read(at);
        self.cycle(1);
        let high: u8 = self.read(address_after(at));
        self.cycle(1);
        make_word(high, low)
    }

    /// Pushes a word onto the stack.
    pub fn push(&mut self, value: u16)
        ensures
            final(self).audio_ring == old(self).audio_ring,
            final(self)@ == old(self)@.pushed(value),
    {
        proof {
            reveal(Machine::pushed);
            reveal(Machine::stored);
            reveal(Machine::internal);
        }
        self.reg.sp = address_before(address_before(self.reg.sp));
        self.store(address_after(self.reg.sp), hi_of(value));
        self.store(self.reg.sp, lo_of(value));
    }
}

} // verus!
