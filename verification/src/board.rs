//! Everything on the board but the processor, as one value: what the bus
//! reads and writes, and what one tick of the master clock does to it.

use vstd::prelude::*;
use crate::apu::{AudioFrame, APU};
use crate::input::InputReg;
use crate::interrupts::{InterruptState, INT_TIMER, INT_VBLANK};
use crate::memory::MemoryView;
use crate::ppu::{OAMSprite, PpuView, OAM_SPRITES};
use crate::registers::word;
use crate::timer::Timer;

verus! {

/// The devices on the bus.
pub struct Board {
    pub mem: MemoryView,
    pub ppu: PpuView,
    pub apu: APU,
    pub timer: Timer,
    pub input: InputReg,
    pub istate: InterruptState,
    /// Counts the frames completed, wrapping at 256.
    pub frame_counter: u8,
    /// The frames the mixer has put out and that have not been offered to
    /// the host's ring yet.
    pub audio: Seq<AudioFrame>,
}

/// Whether `address` belongs to the cartridge, work RAM, its echo or high
/// RAM.
pub open spec fn is_memory(address: u16) -> bool {
    address < 0x8000 || 0xA000 <= address < 0xFE00 || 0xFF80 <= address < 0xFFFF
}

/// Whether `address` belongs to video RAM, the sprite table or the LCD
/// registers.
pub open spec fn is_video(address: u16) -> bool {
    0x8000 <= address < 0xA000 || 0xFE00 <= address < 0xFEA0 || 0xFF40 <= address <= 0xFF4B
}

/// Whether `address` belongs to the sound registers or wave RAM.
pub open spec fn is_sound(address: u16) -> bool {
    0xFF10 <= address <= 0xFF3F
}

pub open spec fn is_timer(address: u16) -> bool {
    0xFF04 <= address <= 0xFF07
}

pub open spec fn is_interrupt(address: u16) -> bool {
    address == 0xFF0F || address == 0xFFFF
}

/// The address after `address`, wrapping at the top of the address space.
pub open spec fn next_address(address: u16) -> u16 {
    if address == 0xFFFF {
        0
    } else {
        (address + 1) as u16
    }
}

impl Board {
    /// What a read of `address` returns: the byte of the device that owns
    /// the address, 0xFF where no device does.
    pub open spec fn read(self, address: u16) -> u8 {
        if is_memory(address) {
            self.mem.read(address)
        } else if is_video(address) {
            self.ppu.read(address)
        } else if is_sound(address) {
            self.apu.read(address)
        } else if address == 0xFF00 {
            self.input.read()
        } else if is_timer(address) {
            self.timer.read(address)
        } else if is_interrupt(address) {
            self.istate.read(address)
        } else {
            0xFF
        }
    }

    /// The little-endian word at `address`.
    pub open spec fn read_16(self, address: u16) -> u16 {
        word(self.read(next_address(address)), self.read(address))
    }

    /// The board after a write of `value` to `address`: the device that
    /// owns the address takes it, and a write that no device owns is lost.
    pub open spec fn write(self, address: u16, value: u8) -> Board {
        Board {
            mem: if is_memory(address) {
                self.mem.write(address, value)
            } else {
                self.mem
            },
            ppu: if is_video(address) {
                self.ppu.write(address, value)
            } else {
                self.ppu
            },
            apu: if is_sound(address) {
                self.apu.written(address, value)
            } else {
                self.apu
            },
            input: if address == 0xFF00 {
                self.input.write(value)
            } else {
                self.input
            },
            timer: if is_timer(address) {
                self.timer.write(address, value)
            } else {
                self.timer
            },
            istate: if is_interrupt(address) {
                self.istate.write(address, value)
            } else {
                self.istate
            },
            ..self
        }
    }

    /// The sprite that an OAM DMA transfer from page `source` puts into
    /// entry `index` of the table.
    pub open spec fn dma_sprite(self, source: u8, index: int) -> OAMSprite {
        OAMSprite::of_bytes(
            seq![
                self.read((source * 0x100 + 4 * index) as u16),
                self.read((source * 0x100 + 4 * index + 1) as u16),
                self.read((source * 0x100 + 4 * index + 2) as u16),
                self.read((source * 0x100 + 4 * index + 3) as u16),
            ],
        )
    }

    /// The board after an OAM DMA transfer: the 160 bytes from
    /// `source * 0x100` on, as the bus reads them, fill the sprite table.
    pub open spec fn oam_dma(self, source: u8) -> Board {
        Board {
            ppu: PpuView {
                oam: Seq::new(OAM_SPRITES as nat, |index: int| self.dma_sprite(source, index)),
                oam_dma_request: false,
                ..self.ppu
            },
            ..self
        }
    }

    /// The board after a pending OAM DMA transfer, if there is one.
    pub open spec fn dma_served(self) -> Board {
        if self.ppu.oam_dma_request {
            self.oam_dma(self.ppu.oam_dma_source)
        } else {
            self
        }
    }

    /// The board one T-cycle later. A requested DMA transfer is served,
    /// then the PPU, the timer and the APU each advance one cycle, the APU
    /// seeing the timer's new divider. The interrupts they raise go into
    /// IF; a completed frame counts; a frame of sound that is due joins
    /// the queue.
    #[verifier::opaque]
    pub open spec fn tick(self) -> Board {
        let served = self.dma_served();
        let ppu = served.ppu.tick();
        let timer = served.timer.tick();
        Board {
            ppu,
            timer,
            apu: served.apu.tick(timer.div),
            istate: served.istate.raised(
                ppu.interrupt_request.0 | (if timer.request_interrupt {
                    INT_TIMER
                } else {
                    0u8
                }),
            ),
            frame_counter: if ppu.interrupt_request.has(INT_VBLANK) {
                ((served.frame_counter + 1) % 256) as u8
            } else {
                served.frame_counter
            },
            audio: match served.apu.frame_due(timer.div) {
                Some(frame) => served.audio.push(frame),
                None => served.audio,
            },
            ..served
        }
    }

    /// The board `n` T-cycles later.
    pub open spec fn ticks(self, n: nat) -> Board
        decreases n,
    {
        if n == 0 {
            self
        } else {
            self.ticks((n - 1) as nat).tick()
        }
    }
}

/// Video RAM, the sprite table, work RAM, its echo and high RAM give back
/// the byte that was written to them.
pub proof fn lemma_ram_write_then_read(board: Board, address: u16, value: u8)
    requires
        board.ppu.vram.len() == 0x2000,
        board.ppu.oam.len() == OAM_SPRITES,
        board.mem.wram.len() == 0x2000,
        board.mem.hram.len() == 0x7F,
        0x8000 <= address < 0xA000 || 0xC000 <= address < 0xFE00 || 0xFE00 <= address < 0xFEA0
            || 0xFF80 <= address < 0xFFFF,
    ensures
        board.write(address, value).read(address) == value,
{
}

/// Work RAM and its echo are the same cells.
pub proof fn lemma_echo_mirrors_work_ram(board: Board, address: u16, value: u8)
    requires
        board.mem.wram.len() == 0x2000,
        0xC000 <= address < 0xDE00,
    ensures
        board.write(address, value).read((address + 0x2000) as u16) == value,
        board.write((address + 0x2000) as u16, value).read(address) == value,
{
}

/// Right after any write to DIV, DIV reads 0.
pub proof fn lemma_div_write_reads_zero(board: Board, value: u8)
    ensures
        board.write(0xFF04, value).read(0xFF04) == 0,
        board.write(0xFF04, value).timer.div == 0,
{
}

/// A read from the unusable area or from an I/O address that no device
/// owns gives 0xFF.
pub proof fn lemma_open_bus(board: Board, address: u16)
    requires
        0xFEA0 <= address < 0xFF00 || 0xFF01 <= address <= 0xFF03 || 0xFF08 <= address <= 0xFF0E
            || 0xFF4C <= address <= 0xFF7F,
    ensures
        board.read(address) == 0xFF,
{
}

} // verus!
