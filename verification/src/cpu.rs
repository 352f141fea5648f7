//! The processor with the board it drives, and the interface the host
//! uses: load a ROM, run, feed buttons, fetch frames and sound.

use vstd::prelude::*;
use crate::apu::{AudioFrame, APU};
use crate::audio::{
    accepted_frames, new_audio_ring, push_frames, ring_delivered, split_audio_ring,
    AudioBufferConsumer, AudioBufferProducer,
};
use crate::board::Board;
use crate::display::DisplayBuffer;
use crate::input::{InputFlag, InputReg};
use crate::interrupts::{InterruptState, INT_JOYPAD};
use crate::machine::Machine;
use crate::memory::{
    rom_refusal, CartridgeInfo, MbcView, Memory, MemoryInitializationError, MemoryView,
};
use crate::ppu::{PpuView, PPU};
use crate::registers::Registers;
use crate::timer::Timer;

verus! {

/// The emulated Game Boy.
pub struct CPU {
    pub mem: Memory,
    pub reg: Registers,
    pub ppu: PPU,
    pub apu: APU,
    pub timer: Timer,
    pub input: InputReg,
    pub istate: InterruptState,
    pub halt: bool,
    /// Counts the frames completed, wrapping at 256.
    pub frame_counter: u8,
    /// Machine cycles accounted so far.
    pub cycle_counter: u64,
    /// Frames of sound put out and not yet offered to the host's ring.
    pub audio: Vec<AudioFrame>,
    /// The writing end of the host's ring, once the host has asked for one.
    pub audio_ring: Option<AudioBufferProducer>,
}

impl View for CPU {
    type V = Machine;

    open spec fn view(&self) -> Machine {
        Machine {
            reg: self.reg,
            halt: self.halt,
            cycle_counter: self.cycle_counter,
            board: Board {
                mem: self.mem@,
                ppu: self.ppu@,
                apu: self.apu,
                timer: self.timer,
                input: self.input,
                istate: self.istate,
                frame_counter: self.frame_counter,
                audio: self.audio@,
            },
        }
    }
}

/// The machine at power-on with an accepted ROM image in the slot.
pub open spec fn power_on(rom: Seq<u8>, info: CartridgeInfo) -> Machine {
    Machine {
        reg: Registers::power_on(),
        halt: false,
        cycle_counter: 0,
        board: Board {
            mem: MemoryView::initial(rom, info),
            ppu: PpuView::power_on(),
            apu: APU::power_on(),
            timer: Timer::power_on(),
            input: InputReg::power_on(),
            istate: InterruptState::power_on(),
            frame_counter: 0,
            audio: Seq::empty(),
        },
    }
}

/// What a save state keeps of a machine: everything but the ROM image,
/// the sound that is on its way to the host, and the host's sound
/// settings.
pub open spec fn persisted(machine: Machine) -> Machine {
    Machine {
        board: Board {
            mem: MemoryView {
                mbc: MbcView { rom: Seq::empty(), ..machine.board.mem.mbc },
                ..machine.board.mem
            },
            apu: APU {
                sample_delay: 0,
                channels: 0,
                sample_capacity: 0,
                buffer_ready: false,
                ..machine.board.apu
            },
            audio: Seq::empty(),
            ..machine.board
        },
        ..machine
    }
}

/// A machine with a ROM image in the cartridge slot.
pub open spec fn with_rom(machine: Machine, rom: Seq<u8>) -> Machine {
    Machine {
        board: Board {
            mem: MemoryView {
                mbc: MbcView { rom, ..machine.board.mem.mbc },
                ..machine.board.mem
            },
            ..machine.board
        },
        ..machine
    }
}

/// Save, restore, save gives the first save again: a machine that was
/// restored from a save state, with whatever ROM and sound settings the
/// host gave it since, saves to the same state; and a save state saves to
/// itself.
pub proof fn lemma_snapshot_round_trip(
    machine: Machine,
    rom: Seq<u8>,
    sample_rate: u32,
    sample_capacity: usize,
    channels: usize,
)
    ensures
        persisted(persisted(machine)) == persisted(machine),
        persisted(with_rom(persisted(machine), rom)) == persisted(machine),
        persisted(
            Machine {
                board: Board {
                    apu: APU {
                        sample_delay: crate::apu::CLOCK_SPEED / sample_rate,
                        sample_capacity,
                        channels,
                        buffer_ready: true,
                        ..with_rom(persisted(machine), rom).board.apu
                    },
                    ..with_rom(persisted(machine), rom).board
                },
                ..with_rom(persisted(machine), rom)
            },
        ) == persisted(machine),
{
}

impl CPU {
    /// Starts a machine on a ROM image, or says why the image is refused.
    pub fn new(rom_file: Vec<u8>) -> (r: Result<CPU, MemoryInitializationError>)
        ensures
            match r {
                Ok(cpu) => {
                    &&& rom_refusal(rom_file@) is None
                    &&& cpu@ == power_on(rom_file@, cpu.mem.info)
                    &&& cpu.mem.info.describes(rom_file@.subrange(0x100, 0x150))
                    &&& cpu.audio_ring is None
                },
                Err(error) => rom_refusal(rom_file@) == Some(error.error_type),
            },
    {
        match Memory::new(rom_file) {
            Ok(mem) => Ok(
                CPU {
                    mem,
                    reg: Registers::new(),
                    ppu: PPU::new(),
                    apu: APU::new(),
                    timer: Timer::new(),
                    input: InputReg::new(),
                    istate: InterruptState::new(),
                    halt: false,
                    frame_counter: 0,
                    cycle_counter: 0,
                    audio: Vec::new(),
                    audio_ring: None,
                },
            ),
            Err(error) => Err(error),
        }
    }

    /// Makes the ring that carries the sound to the host and hands out its
    /// reading end. The ring has room for the frames that hold
    /// `sample_capacity` samples on `channels` channels, a frame that is
    /// begun counting as one. A ring made earlier is let go.
    pub fn init_audio_buffer(&mut self, sample_capacity: usize, channels: usize) -> (consumer:
        AudioBufferConsumer)
        requires
            channels == 1 || channels == 2,
            sample_capacity > 0,
        ensures
            final(self)@ == (Machine {
                board: Board {
                    apu: APU {
                        sample_capacity,
                        channels,
                        buffer_ready: true,
                        ..old(self)@.board.apu
                    },
                    ..old(self)@.board
                },
                ..old(self)@
            }),
            final(self).audio_ring is Some,
            accepted_frames(final(self).audio_ring->0) == Seq::<AudioFrame>::empty(),
    {
        self.apu.init_buffer(sample_capacity, channels);
        let begun: usize = if sample_capacity % channels != 0 {
            1
        } else {
            0
        };
        let (producer, consumer) = split_audio_ring(
            new_audio_ring(sample_capacity / channels + begun),
        );
        self.audio_ring = Some(producer);
        consumer
    }

    /// Sets the sample rate of the host's sound output.
    pub fn set_audio_sample_rate(&mut self, sample_rate: u32)
        requires
            sample_rate > 0,
        ensures
            final(self).audio_ring == old(self).audio_ring,
            final(self)@ == (Machine {
                board: Board {
                    apu: APU {
                        sample_delay: crate::apu::CLOCK_SPEED / sample_rate,
                        ..old(self)@.board.apu
                    },
                    ..old(self)@.board
                },
                ..old(self)@
            }),
    {
        self.apu.set_sample_rate(sample_rate);
    }

    /// The frame that was completed last.
    pub fn get_display_buffer(&self) -> (buffer: &DisplayBuffer)
        ensures
            buffer@ == self@.board.ppu.front,
    {
        self.ppu.frame()
    }

    /// What the cartridge header says.
    pub fn get_cartridge_info(&self) -> (info: &CartridgeInfo)
        ensures
            *info == self@.board.mem.info,
    {
        &self.mem.info
    }

    /// A copy of the cartridge RAM.
    pub fn get_ram(&self) -> (ram: Vec<u8>)
        ensures
            ram@ == self@.board.mem.mbc.ram,
    {
        self.mem.get_ram()
    }

    /// Restores the cartridge RAM from a snapshot, cut or zero-padded to
    /// the size of the cartridge RAM.
    pub fn set_ram(&mut self, ram: Vec<u8>)
        ensures
            final(self).audio_ring == old(self).audio_ring,
            final(self)@ == (Machine {
                board: Board {
                    mem: MemoryView {
                        mbc: MbcView {
                            ram: old(self)@.board.mem.mbc.fitted(ram@),
                            ..old(self)@.board.mem.mbc
                        },
                        ..old(self)@.board.mem
                    },
                    ..old(self)@.board
                },
                ..old(self)@
            }),
    {
        self.mem.set_ram(ram);
    }

    /// Replaces the cartridge ROM.
    pub fn set_rom(&mut self, rom: Vec<u8>)
        ensures
            final(self).audio_ring == old(self).audio_ring,
            final(self)@ == (Machine {
                board: Board {
                    mem: MemoryView {
                        mbc: MbcView { rom: rom@, ..old(self)@.board.mem.mbc },
                        ..old(self)@.board.mem
                    },
                    ..old(self)@.board
                },
                ..old(self)@
            }),
    {
        self.mem.set_rom(rom);
    }

    /// The save state of the machine: a machine of its own that holds
    /// everything but the ROM image, the sound on its way to the host and
    /// the host's sound settings. It is brought back to life with
    /// `set_rom`, `set_audio_sample_rate` and `init_audio_buffer`.
    pub fn snapshot(&mut self) -> (saved: CPU)
        ensures
            final(self)@ == old(self)@,
            final(self).audio_ring == old(self).audio_ring,
            saved@ == persisted(old(self)@),
            saved.audio_ring is None,
    {
        let mut apu: APU = self.apu;
        apu.sample_delay = 0;
        apu.channels = 0;
        apu.sample_capacity = 0;
        apu.buffer_ready = false;
        CPU {
            mem: self.mem.without_rom(),
            reg: self.reg,
            ppu: self.ppu.duplicate(),
            apu,
            timer: self.timer,
            input: self.input,
            istate: self.istate,
            halt: self.halt,
            frame_counter: self.frame_counter,
            cycle_counter: self.cycle_counter,
            audio: Vec::new(),
            audio_ring: None,
        }
    }

    /// Raises interrupt lines.
    pub fn request_interrupt(&mut self, lines: u8)
        ensures
            final(self).audio_ring == old(self).audio_ring,
            final(self)@ == (Machine {
                board: Board {
                    istate: old(self)@.board.istate.raised(lines),
                    ..old(self)@.board
                },
                ..old(self)@
            }),
    {
        self.istate.iflag.insert(lines);
    }

    /// Latches the buttons; a button of the selected row that went down
    /// raises the joypad interrupt.
    pub fn update_input(&mut self, input: &InputFlag)
        ensures
            final(self).audio_ring == old(self).audio_ring,
            final(self)@ == (Machine {
                board: Board {
                    input: InputReg { flags: *input, ..old(self)@.board.input },
                    istate: if old(self)@.board.input.raises(*input) {
                        old(self)@.board.istate.raised(INT_JOYPAD)
                    } else {
                        old(self)@.board.istate
                    },
                    ..old(self)@.board
                },
                ..old(self)@
            }),
    {
        if self.input.update(*input) {
            self.request_interrupt(INT_JOYPAD);
        }
    }

    /// Offers the queued frames of sound to the host's ring, oldest first,
    /// and empties the queue. The ring takes a frame if it has room; a
    /// frame it refuses is lost. Without a ring the frames are dropped.
    pub fn flush_audio(&mut self)
        ensures
            final(self)@ == (Machine {
                board: Board { audio: Seq::empty(), ..old(self)@.board },
                ..old(self)@
            }),
            ring_delivered(old(self).audio_ring, final(self).audio_ring, old(self)@.board.audio),
    {
        let mut frames: Vec<AudioFrame> = Vec::new();
        core::mem::swap(&mut frames, &mut self.audio);
        let mut ring: Option<AudioBufferProducer> = None;
        core::mem::swap(&mut ring, &mut self.audio_ring);
        match ring {
            Some(mut producer) => {
                push_frames(&mut producer, &frames);
                self.audio_ring = Some(producer);
            },
            None => {},
        }
    }
}

} // verus!
