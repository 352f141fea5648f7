//! The audio processing unit: two square channels, the wave channel, the
//! noise channel, the frame sequencer that clocks them and the digital
//! mixer. Sound leaves the unit as frames of integer levels; turning them
//! into voltages is left to the host.

use vstd::prelude::*;
use vstd::array::spec_array_update;
use crate::timer::{divider_bit, divider_bit_set};

verus! {

/// Length a square or noise channel plays for after a trigger, in ticks
/// of the length counter.
pub const LENGTH_MAX: u8 = 64;

/// Length the wave channel plays for after a trigger.
pub const WAVE_LENGTH_MAX: u16 = 256;

/// Bytes of wave RAM: 32 samples of four bits.
pub const WAVE_RAM_SIZE: usize = 16;

/// Value at which a period counter reloads.
pub const PERIOD_WRAP: u16 = 0x7FF;

/// A square channel (channel 1 or 2).
#[derive(Clone, Copy, PartialEq, Eq, Structural, Debug)]
pub struct SquareChannel {
    pub channel_on: bool,
    pub dac_on: bool,
    pub period_div: u16,
    pub duty_cycle_pointer: u8,
    pub length_timer: u8,
    pub volume: u8,
    pub period: u16,
    pub sweep_timer: u8,
    pub envelope_timer: u8,
    pub sweep_pace: u8,
    pub sweep_increase: bool,
    pub sweep_step: u8,
    pub duty_cycle_index: u8,
    pub initial_length_timer: u8,
    pub length_timer_enabled: bool,
    pub initial_period: u16,
    pub initial_volume: u8,
    pub envelope_increase: bool,
    pub envelope_pace: u8,
}

/// Step `step` (taken modulo 8) of duty pattern `duty` (any value past 2
/// counts as 3): 1 while the output is high.
pub open spec fn duty_bit(duty: u8, step: u8) -> u8 {
    let at: u8 = step % 8;
    if duty == 0 {
        if at == 7 {
            0
        } else {
            1
        }
    } else if duty == 1 {
        if at == 0 || at == 7 {
            0
        } else {
            1
        }
    } else if duty == 2 {
        if 1 <= at <= 4 {
            1
        } else {
            0
        }
    } else {
        if at == 0 || at == 7 {
            1
        } else {
            0
        }
    }
}

/// Number (0..5) of the square-channel register at `address`.
pub open spec fn square_register(address: u16) -> int {
    if address <= 0xFF14 {
        address - 0xFF10
    } else {
        address - 0xFF15
    }
}

/// Whether `address` is a register of channel 1 or channel 2.
pub open spec fn is_square_register(address: u16) -> bool {
    0xFF10 <= address <= 0xFF14 || 0xFF16 <= address <= 0xFF19
}

/// `value` with its low byte replaced.
pub open spec fn with_low_byte(value: u16, low: u8) -> u16 {
    ((value / 256) * 256 + low) as u16
}

/// `value` with bits 10..8 replaced by the low three bits of `high` and
/// everything above cleared.
pub open spec fn with_high_bits(value: u16, high: u8) -> u16 {
    (value % 256 + (high % 8) * 256) as u16
}

/// How far a sweep moves the period.
pub open spec fn sweep_delta(period: u16, step: u8) -> u16 {
    if step < 16 {
        period >> step
    } else {
        0
    }
}

/// The volume after one envelope step: one up or one down, held in 0..=15.
pub open spec fn envelope_step(volume: u8, increase: bool) -> u8 {
    if increase {
        if volume < 15 {
            (volume + 1) as u8
        } else {
            volume
        }
    } else if volume > 0 {
        (volume - 1) as u8
    } else {
        volume
    }
}

pub fn step_envelope(volume: u8, increase: bool) -> (r: u8)
    ensures
        r == envelope_step(volume, increase),
{
    if increase {
        if volume < 15 {
            volume + 1
        } else {
            volume
        }
    } else if volume > 0 {
        volume - 1
    } else {
        volume
    }
}

impl SquareChannel {
    pub open spec fn power_on() -> SquareChannel {
        SquareChannel {
            channel_on: false,
            dac_on: false,
            period_div: 0,
            duty_cycle_pointer: 0,
            length_timer: 0,
            volume: 0,
            period: 0,
            sweep_timer: 1,
            envelope_timer: 1,
            sweep_pace: 0,
            sweep_increase: true,
            sweep_step: 0,
            duty_cycle_index: 0,
            initial_length_timer: 0,
            length_timer_enabled: false,
            initial_period: 0,
            initial_volume: 0,
            envelope_increase: false,
            envelope_pace: 0,
        }
    }

    /// What holds of the channel whatever is done to it: it only plays
    /// with its DAC on and with length left.
    pub open spec fn consistent(self) -> bool {
        &&& self.channel_on ==> self.dac_on
        &&& self.channel_on ==> self.length_timer != 0
    }

    /// The channel after a tick of the length counter: an enabled counter
    /// runs down and switches the channel off when it is spent.
    pub open spec fn length_ticked(self) -> SquareChannel {
        if !self.length_timer_enabled {
            self
        } else if self.length_timer <= 1 {
            SquareChannel { length_timer: 0, channel_on: false, ..self }
        } else {
            SquareChannel { length_timer: (self.length_timer - 1) as u8, ..self }
        }
    }

    /// The channel after a sweep tick: every `sweep_pace` ticks the period
    /// moves by itself shifted right by `sweep_step`; a period past 0x7FF
    /// is held there and switches the channel off. A pace of 0 stops the
    /// sweep.
    pub open spec fn swept(self) -> SquareChannel {
        if self.sweep_pace == 0 {
            self
        } else if self.sweep_timer < self.sweep_pace {
            SquareChannel { sweep_timer: (self.sweep_timer + 1) as u8, ..self }
        } else {
            let delta = sweep_delta(self.period, self.sweep_step);
            let moved: int = if self.sweep_increase {
                self.period + delta
            } else if delta <= self.period {
                self.period - delta
            } else {
                0
            };
            if moved > PERIOD_WRAP {
                SquareChannel { sweep_timer: 1, period: PERIOD_WRAP, channel_on: false, ..self }
            } else {
                SquareChannel { sweep_timer: 1, period: moved as u16, ..self }
            }
        }
    }

    /// The channel after an envelope tick: every `envelope_pace` ticks the
    /// volume takes one step. A pace of 0 stops the envelope.
    pub open spec fn envelope_ticked(self) -> SquareChannel {
        if self.envelope_pace == 0 {
            self
        } else if self.envelope_timer < self.envelope_pace {
            SquareChannel { envelope_timer: (self.envelope_timer + 1) as u8, ..self }
        } else {
            SquareChannel {
                envelope_timer: 1,
                volume: envelope_step(self.volume, self.envelope_increase),
                ..self
            }
        }
    }

    /// The channel after a tick of its period counter: at 0x7FF the
    /// counter reloads from the period and the duty pattern moves on.
    pub open spec fn period_ticked(self) -> SquareChannel {
        if self.period_div >= PERIOD_WRAP {
            SquareChannel {
                duty_cycle_pointer: if self.duty_cycle_pointer >= 7 {
                    0
                } else {
                    (self.duty_cycle_pointer + 1) as u8
                },
                period_div: self.period,
                ..self
            }
        } else {
            SquareChannel { period_div: (self.period_div + 1) as u16, ..self }
        }
    }

    /// The channel after a trigger: it plays if its DAC is on, from the
    /// programmed period and volume, with timers reset and full length.
    pub open spec fn triggered(self) -> SquareChannel {
        SquareChannel {
            channel_on: self.dac_on,
            period: self.initial_period,
            period_div: self.initial_period,
            volume: self.initial_volume,
            envelope_timer: 1,
            sweep_timer: 1,
            length_timer: LENGTH_MAX,
            ..self
        }
    }

    /// What a read of the register at `address` returns; bits that cannot
    /// be read back are 1.
    pub open spec fn read(self, address: u16) -> u8 {
        let register = square_register(address);
        if register == 0 {
            (self.sweep_pace << 4) | (if self.sweep_increase {
                0u8
            } else {
                0x08u8
            }) | self.sweep_step | 0x80
        } else if register == 1 {
            (self.duty_cycle_index << 6) | 0x3F
        } else if register == 2 {
            (self.initial_volume << 4) | (if self.envelope_increase {
                0x08u8
            } else {
                0u8
            }) | self.envelope_pace
        } else if register == 3 {
            0xFF
        } else {
            (if self.length_timer_enabled {
                0x40u8
            } else {
                0u8
            }) | 0xBF
        }
    }

    /// The channel after a write of `value` to the register at `address`.
    pub open spec fn written(self, address: u16, value: u8) -> SquareChannel {
        let register = square_register(address);
        if register == 0 {
            SquareChannel {
                sweep_pace: value / 16,
                sweep_increase: (value / 8) % 2 == 0,
                sweep_step: value % 8,
                ..self
            }
        } else if register == 1 {
            SquareChannel {
                duty_cycle_index: value / 64,
                initial_length_timer: (64 - value % 64) as u8,
                ..self
            }
        } else if register == 2 {
            SquareChannel {
                initial_volume: value / 16,
                envelope_increase: (value / 8) % 2 == 1,
                envelope_pace: value % 8,
                dac_on: value / 8 != 0,
                channel_on: self.channel_on && value / 8 != 0,
                ..self
            }
        } else if register == 3 {
            SquareChannel { initial_period: with_low_byte(self.initial_period, value), ..self }
        } else {
            let set = SquareChannel {
                length_timer_enabled: (value / 64) % 2 == 1,
                initial_period: with_high_bits(self.initial_period, value),
                ..self
            };
            if value >= 128 {
                set.triggered()
            } else {
                set
            }
        }
    }

    /// The 4-bit sample the channel feeds its DAC, or nothing while the
    /// DAC is off.
    pub open spec fn digital(self) -> Option<u8> {
        if !self.dac_on {
            None
        } else if self.channel_on {
            Some(
                if duty_bit(self.duty_cycle_index, self.duty_cycle_pointer) == 1 {
                    self.volume
                } else {
                    0
                },
            )
        } else {
            Some(0)
        }
    }

    pub fn new() -> (r: SquareChannel)
        ensures
            r == Self::power_on(),
            r.consistent(),
    {
        SquareChannel {
            channel_on: false,
            dac_on: false,
            period_div: 0,
            duty_cycle_pointer: 0,
            length_timer: 0,
            volume: 0,
            period: 0,
            sweep_timer: 1,
            envelope_timer: 1,
            sweep_pace: 0,
            sweep_increase: true,
            sweep_step: 0,
            duty_cycle_index: 0,
            initial_length_timer: 0,
            length_timer_enabled: false,
            initial_period: 0,
            initial_volume: 0,
            envelope_increase: false,
            envelope_pace: 0,
        }
    }

    pub fn update_length_timer(&mut self)
        ensures
            *final(self) == old(self).length_ticked(),
            old(self).consistent() ==> final(self).consistent(),
    {
        if self.length_timer_enabled {
            if self.length_timer <= 1 {
                self.length_timer = 0;
                self.channel_on = false;
            } else {
                self.length_timer = self.length_timer - 1;
            }
        }
    }

    pub fn update_sweep(&mut self)
        ensures
            *final(self) == old(self).swept(),
            old(self).consistent() ==> final(self).consistent(),
    {
        if self.sweep_pace == 0 {
            return ;
        }
        if self.sweep_timer < self.sweep_pace {
            self.sweep_timer = self.sweep_timer + 1;
        } else {
            self.sweep_timer = 1;
            let delta: u16 = if self.sweep_step < 16 {
                self.period >> self.sweep_step
            } else {
                0
            };
            let moved: u32 = if self.sweep_increase {
                self.period as u32 + delta as u32
            } else if delta <= self.period {
                (self.period - delta) as u32
            } else {
                0
            };
            if moved > PERIOD_WRAP as u32 {
                self.period = PERIOD_WRAP;
                self.channel_on = false;
            } else {
                self.period = moved as u16;
            }
        }
    }

    pub fn update_envelope(&mut self)
        ensures
            *final(self) == old(self).envelope_ticked(),
            old(self).consistent() ==> final(self).consistent(),
    {
        if self.envelope_pace == 0 {
            return ;
        }
        if self.envelope_timer < self.envelope_pace {
            self.envelope_timer = self.envelope_timer + 1;
        } else {
            self.envelope_timer = 1;
            self.volume = step_envelope(self.volume, self.envelope_increase);
        }
    }

    pub fn update_period(&mut self)
        ensures
            *final(self) == old(self).period_ticked(),
            old(self).consistent() ==> final(self).consistent(),
    {
        if self.period_div >= PERIOD_WRAP {
            if self.duty_cycle_pointer >= 7 {
                self.duty_cycle_pointer = 0;
            } else {
                self.duty_cycle_pointer = self.duty_cycle_pointer + 1;
            }
            self.period_div = self.period;
        } else {
            self.period_div = self.period_div + 1;
        }
    }

    /// The duty pattern's level at step `index`.
    pub fn get_duty_cycle_val(&self, index: u8) -> (r: u8)
        ensures
            r == duty_bit(self.duty_cycle_index, index),
            r <= 1,
    {
        let at: u8 = index % 8;
        let high: bool = if self.duty_cycle_index == 0 {
            at != 7
        } else if self.duty_cycle_index == 1 {
            at != 0 && at != 7
        } else if self.duty_cycle_index == 2 {
            1 <= at && at <= 4
        } else {
            at == 0 || at == 7
        };
        if high {
            1
        } else {
            0
        }
    }

    pub fn read_register(&self, address: u16) -> (r: u8)
        requires
            is_square_register(address),
        ensures
            r == self.read(address),
    {
        let register: u16 = if address <= 0xFF14 {
            address - 0xFF10
        } else {
            address - 0xFF15
        };
        if register == 0 {
            let direction: u8 = if self.sweep_increase {
                0
            } else {
                0x08
            };
            (self.sweep_pace << 4) | direction | self.sweep_step | 0x80
        } else if register == 1 {
            (self.duty_cycle_index << 6) | 0x3F
        } else if register == 2 {
            let direction: u8 = if self.envelope_increase {
                0x08
            } else {
                0
            };
            (self.initial_volume << 4) | direction | self.envelope_pace
        } else if register == 3 {
            0xFF
        } else {
            let length: u8 = if self.length_timer_enabled {
                0x40
            } else {
                0
            };
            length | 0xBF
        }
    }

    pub fn write_register(&mut self, address: u16, value: u8)
        requires
            is_square_register(address),
        ensures
            *final(self) == old(self).written(address, value),
            old(self).consistent() ==> final(self).consistent(),
    {
        let register: u16 = if address <= 0xFF14 {
            address - 0xFF10
        } else {
            address - 0xFF15
        };
        if register == 0 {
            self.sweep_pace = value / 16;
            self.sweep_increase = (value / 8) % 2 == 0;
            self.sweep_step = value % 8;
        } else if register == 1 {
            self.duty_cycle_index = value / 64;
            self.initial_length_timer = 64 - value % 64;
        } else if register == 2 {
            self.initial_volume = value / 16;
            self.envelope_increase = (value / 8) % 2 == 1;
            self.envelope_pace = value % 8;
            self.dac_on = self.initial_volume > 0 || self.envelope_increase;
            if !self.dac_on {
                self.channel_on = false;
            }
        } else if register == 3 {
            self.initial_period = (self.initial_period / 256) * 256 + value as u16;
        } else {
            self.length_timer_enabled = (value / 64) % 2 == 1;
            self.initial_period = self.initial_period % 256 + ((value % 8) as u16) * 256;
            if value >= 128 {
                self.trigger();
            }
        }
    }

    pub fn trigger(&mut self)
        ensures
            *final(self) == old(self).triggered(),
            final(self).consistent(),
    {
        self.channel_on = self.dac_on;
        self.period = self.initial_period;
        self.period_div = self.period;
        self.volume = self.initial_volume;
        self.envelope_timer = 1;
        self.sweep_timer = 1;
        self.length_timer = LENGTH_MAX;
    }

    /// The sample fed to the DAC, or nothing while the DAC is off.
    pub fn digital_sample(&self) -> (r: Option<u8>)
        ensures
            r == self.digital(),
    {
        if !self.dac_on {
            None
        } else if self.channel_on {
            if self.get_duty_cycle_val(self.duty_cycle_pointer) == 1 {
                Some(self.volume)
            } else {
                Some(0)
            }
        } else {
            Some(0)
        }
    }
}

/// The wave channel (channel 3).
#[derive(Clone, Copy, Debug)]
pub struct WaveChannel {
    pub dac_on: bool,
    pub channel_on: bool,
    pub period_div: u16,
    pub wave_pointer: u8,
    pub length_timer: u16,
    pub output_level: u8,
    pub period: u16,
    pub initial_length_timer: u16,
    pub length_timer_enabled: bool,
    pub initial_period: u16,
    pub wave_ram: [u8; WAVE_RAM_SIZE],
}

/// Whether `address` is a register of the wave channel or a byte of wave
/// RAM.
pub open spec fn is_wave_register(address: u16) -> bool {
    0xFF1A <= address <= 0xFF1E || 0xFF30 <= address <= 0xFF3F
}

/// Sample `pointer` (taken modulo 32) of the wave table: two to a byte,
/// the high nibble first.
pub open spec fn wave_sample(wave_ram: Seq<u8>, pointer: u8) -> u8 {
    let byte = wave_ram[(pointer % 32) as int / 2];
    if pointer % 2 == 0 {
        byte / 16
    } else {
        byte % 16
    }
}

/// A sample at the given output level: 0 mutes, 1 passes, 2 halves, 3
/// quarters.
pub open spec fn wave_scaled(sample: u8, level: u8) -> u8 {
    if level % 4 == 0 {
        0
    } else if level % 4 == 1 {
        sample
    } else if level % 4 == 2 {
        sample / 2
    } else {
        sample / 4
    }
}

impl WaveChannel {
    pub open spec fn power_on() -> WaveChannel {
        WaveChannel {
            dac_on: false,
            channel_on: false,
            period_div: 0,
            wave_pointer: 0,
            length_timer: 0,
            output_level: 0,
            period: 0,
            initial_length_timer: 0,
            length_timer_enabled: false,
            initial_period: 0,
            wave_ram: [0u8;WAVE_RAM_SIZE],
        }
    }

    pub open spec fn consistent(self) -> bool {
        &&& self.channel_on ==> self.dac_on
        &&& self.channel_on ==> self.length_timer != 0
    }

    pub open spec fn length_ticked(self) -> WaveChannel {
        if !self.length_timer_enabled {
            self
        } else if self.length_timer <= 1 {
            WaveChannel { length_timer: 0, channel_on: false, ..self }
        } else {
            WaveChannel { length_timer: (self.length_timer - 1) as u16, ..self }
        }
    }

    /// The channel after a tick of its period counter: at 0x7FF the
    /// counter reloads and the wave pointer moves on through its 32 steps.
    pub open spec fn period_ticked(self) -> WaveChannel {
        if self.period_div >= PERIOD_WRAP {
            WaveChannel {
                wave_pointer: if self.wave_pointer >= 31 {
                    0
                } else {
                    (self.wave_pointer + 1) as u8
                },
                period_div: self.period,
                ..self
            }
        } else {
            WaveChannel { period_div: (self.period_div + 1) as u16, ..self }
        }
    }

    pub open spec fn triggered(self) -> WaveChannel {
        WaveChannel {
            channel_on: self.dac_on,
            period: self.initial_period,
            period_div: self.initial_period,
            length_timer: WAVE_LENGTH_MAX,
            wave_pointer: 0,
            ..self
        }
    }

    pub open spec fn read(self, address: u16) -> u8 {
        if address == 0xFF1A {
            (if self.dac_on {
                0x80u8
            } else {
                0u8
            }) | 0x7F
        } else if address == 0xFF1B {
            0xFF
        } else if address == 0xFF1C {
            (self.output_level << 5) | 0x9F
        } else if address == 0xFF1D {
            0xFF
        } else if address == 0xFF1E {
            (if self.length_timer_enabled {
                0x40u8
            } else {
                0u8
            }) | 0xBF
        } else {
            self.wave_ram[address - 0xFF30]
        }
    }

    pub open spec fn written(self, address: u16, value: u8) -> WaveChannel {
        if address == 0xFF1A {
            WaveChannel {
                dac_on: value >= 128,
                channel_on: self.channel_on && value >= 128,
                ..self
            }
        } else if address == 0xFF1B {
            WaveChannel { initial_length_timer: (256 - value) as u16, ..self }
        } else if address == 0xFF1C {
            WaveChannel { output_level: (value / 32) % 4, ..self }
        } else if address == 0xFF1D {
            WaveChannel { initial_period: with_low_byte(self.initial_period, value), ..self }
        } else if address == 0xFF1E {
            let set = WaveChannel {
                length_timer_enabled: (value / 64) % 2 == 1,
                initial_period: with_high_bits(self.initial_period, value),
                ..self
            };
            if value >= 128 {
                set.triggered()
            } else {
                set
            }
        } else {
            WaveChannel {
                wave_ram: spec_array_update(self.wave_ram, address - 0xFF30, value),
                ..self
            }
        }
    }

    pub open spec fn digital(self) -> Option<u8> {
        if !self.dac_on {
            None
        } else if self.channel_on {
            Some(wave_scaled(wave_sample(self.wave_ram@, self.wave_pointer), self.output_level))
        } else {
            Some(0)
        }
    }

    /// The state that a reset gives the channel: everything cleared but
    /// the wave table.
    pub open spec fn cleared(self) -> WaveChannel {
        WaveChannel {
            dac_on: false,
            channel_on: false,
            period_div: 0,
            wave_pointer: 0,
            length_timer: 0,
            output_level: 0,
            period: 0,
            initial_length_timer: 0,
            length_timer_enabled: false,
            initial_period: 0,
            wave_ram: self.wave_ram,
        }
    }

    pub fn new() -> (r: WaveChannel)
        ensures
            r == Self::power_on(),
            r.consistent(),
    {
        let r = WaveChannel {
            dac_on: false,
            channel_on: false,
            period_div: 0,
            wave_pointer: 0,
            length_timer: 0,
            output_level: 0,
            period: 0,
            initial_length_timer: 0,
            length_timer_enabled: false,
            initial_period: 0,
            wave_ram: [0u8;WAVE_RAM_SIZE],
        };
        assert(r.wave_ram =~= Self::power_on().wave_ram);
        r
    }

    pub fn update_length_timer(&mut self)
        ensures
            *final(self) == old(self).length_ticked(),
            old(self).consistent() ==> final(self).consistent(),
    {
        if self.length_timer_enabled {
            if self.length_timer <= 1 {
                self.length_timer = 0;
                self.channel_on = false;
            } else {
                self.length_timer = self.length_timer - 1;
            }
        }
    }

    pub fn update_period(&mut self)
        ensures
            *final(self) == old(self).period_ticked(),
            old(self).consistent() ==> final(self).consistent(),
    {
        if self.period_div >= PERIOD_WRAP {
            if self.wave_pointer >= 31 {
                self.wave_pointer = 0;
            } else {
                self.wave_pointer = self.wave_pointer + 1;
            }
            self.period_div = self.period;
        } else {
            self.period_div = self.period_div + 1;
        }
    }

    pub fn read_register(&self, address: u16) -> (r: u8)
        requires
            is_wave_register(address),
        ensures
            r == self.read(address),
    {
        if address == 0xFF1A {
            let dac: u8 = if self.dac_on {
                0x80
            } else {
                0
            };
            dac | 0x7F
        } else if address == 0xFF1B {
            0xFF
        } else if address == 0xFF1C {
            (self.output_level << 5) | 0x9F
        } else if address == 0xFF1D {
            0xFF
        } else if address == 0xFF1E {
            let length: u8 = if self.length_timer_enabled {
                0x40
            } else {
                0
            };
            length | 0xBF
        } else {
            self.wave_ram[(address - 0xFF30) as usize]
        }
    }

    pub fn write_register(&mut self, address: u16, value: u8)
        requires
            is_wave_register(address),
        ensures
            *final(self) == old(self).written(address, value),
            old(self).consistent() ==> final(self).consistent(),
    {
        if address == 0xFF1A {
            self.dac_on = value >= 128;
            if !self.dac_on {
                self.channel_on = false;
            }
        } else if address == 0xFF1B {
            self.initial_length_timer = 256 - value as u16;
        } else if address == 0xFF1C {
            self.output_level = (value / 32) % 4;
        } else if address == 0xFF1D {
            self.initial_period = (self.initial_period / 256) * 256 + value as u16;
        } else if address == 0xFF1E {
            self.length_timer_enabled = (value / 64) % 2 == 1;
            self.initial_period = self.initial_period % 256 + ((value % 8) as u16) * 256;
            if value >= 128 {
                self.trigger();
            }
        } else {
            self.wave_ram[(address - 0xFF30) as usize] = value;
            assert(self.wave_ram =~= spec_array_update(
                old(self).wave_ram,
                address - 0xFF30,
                value,
            ));
        }
    }

    pub fn trigger(&mut self)
        ensures
            *final(self) == old(self).triggered(),
            final(self).consistent(),
    {
        self.channel_on = self.dac_on;
        self.period = self.initial_period;
        self.period_div = self.period;
        self.length_timer = WAVE_LENGTH_MAX;
        self.wave_pointer = 0;
    }

    pub fn digital_sample(&self) -> (r: Option<u8>)
        ensures
            r == self.digital(),
    {
        if !self.dac_on {
            None
        } else if self.channel_on {
            let byte: u8 = self.wave_ram[((self.wave_pointer % 32) / 2) as usize];
            let sample: u8 = if self.wave_pointer % 2 == 0 {
                byte / 16
            } else {
                byte % 16
            };
            let level: u8 = self.output_level % 4;
            if level == 0 {
                Some(0)
            } else if level == 1 {
                Some(sample)
            } else if level == 2 {
                Some(sample / 2)
            } else {
                Some(sample / 4)
            }
        } else {
            Some(0)
        }
    }

    /// Clears everything but the wave table.
    pub fn clear(&mut self)
        ensures
            *final(self) == old(self).cleared(),
            final(self).consistent(),
    {
        self.dac_on = false;
        self.channel_on = false;
        self.period_div = 0;
        self.wave_pointer = 0;
        self.length_timer = 0;
        self.output_level = 0;
        self.period = 0;
        self.initial_length_timer = 0;
        self.length_timer_enabled = false;
        self.initial_period = 0;
    }
}

/// The noise channel (channel 4).
#[derive(Clone, Copy, PartialEq, Eq, Structural, Debug)]
pub struct NoiseChannel {
    pub dac_on: bool,
    pub channel_on: bool,
    pub duty_cycle_pointer: u8,
    pub length_timer: u8,
    pub volume: u8,
    pub envelope_timer: u8,
    pub lfsr: u16,
    pub lfsr_bit: bool,
    pub lfsr_timer: u32,
    pub lfsr_pace: u32,
    pub clock_shift: u8,
    pub short_lfsr: bool,
    pub clock_divider: u8,
    pub initial_length_timer: u8,
    pub length_timer_enabled: bool,
    pub initial_volume: u8,
    pub envelope_increase: bool,
    pub envelope_pace: u8,
}

/// Whether `address` is a register of the noise channel.
pub open spec fn is_noise_register(address: u16) -> bool {
    0xFF20 <= address <= 0xFF23
}

/// The shift register one step later: the XNOR of its two low bits goes
/// into bit 15, in short mode into bit 7 as well, and the register moves
/// right by one.
pub open spec fn lfsr_step(lfsr: u16, short: bool) -> u16 {
    let feedback: u16 = if lfsr & 1 == (lfsr >> 1) & 1 {
        1
    } else {
        0
    };
    let wide: u16 = (lfsr & 0x7FFF) | (feedback << 15);
    let fed: u16 = if short {
        (wide & 0xFF7F) | (feedback << 7)
    } else {
        wide
    };
    fed >> 1
}

pub fn step_lfsr(lfsr: u16, short: bool) -> (r: u16)
    ensures
        r == lfsr_step(lfsr, short),
{
    let feedback: u16 = if lfsr & 1 == (lfsr >> 1) & 1 {
        1
    } else {
        0
    };
    let wide: u16 = (lfsr & 0x7FFF) | (feedback << 15);
    let fed: u16 = if short {
        (wide & 0xFF7F) | (feedback << 7)
    } else {
        wide
    };
    fed >> 1
}

/// Steps of the noise clock between two moves of the shift register: the
/// divider shifted left by the clock shift, the divider 0 counting as one
/// half.
pub open spec fn noise_pace(divider: u8, shift: u8) -> u32 {
    if shift >= 16 {
        0
    } else if divider == 0 {
        (1u32 << (shift as u32)) >> 1
    } else {
        (divider as u32) << (shift as u32)
    }
}

pub fn pace_of(divider: u8, shift: u8) -> (r: u32)
    ensures
        r == noise_pace(divider, shift),
{
    if shift >= 16 {
        0
    } else if divider == 0 {
        (1u32 << (shift as u32)) >> 1
    } else {
        (divider as u32) << (shift as u32)
    }
}

/// The part of the shift register that feeds back on itself: bits 6..0 in
/// short mode, the whole register else.
pub open spec fn lfsr_core(lfsr: u16, short: bool) -> u16 {
    if short {
        lfsr & 0x7F
    } else {
        lfsr
    }
}

/// The core of the register one step later.
pub open spec fn core_step(core: u16, short: bool) -> u16 {
    lfsr_core(lfsr_step(core, short), short)
}

/// The shift register `steps` steps later.
pub open spec fn lfsr_after(lfsr: u16, short: bool, steps: nat) -> u16
    decreases steps,
{
    if steps == 0 {
        lfsr
    } else {
        lfsr_after(lfsr_step(lfsr, short), short, (steps - 1) as nat)
    }
}

/// The core of the register `steps` steps later.
pub open spec fn core_after(core: u16, short: bool, steps: nat) -> u16
    decreases steps,
{
    if steps == 0 {
        core
    } else {
        core_after(core_step(core, short), short, (steps - 1) as nat)
    }
}

/// The core `steps` steps later if none of these steps lands on 0, and 0
/// if one does.
pub open spec fn core_walk(core: u16, short: bool, steps: nat) -> u16
    decreases steps,
{
    if steps == 0 {
        core
    } else if core_step(core, short) == 0 {
        0
    } else {
        core_walk(core_step(core, short), short, (steps - 1) as nat)
    }
}

/// Steps after which the core of a register that starts from 0 is 0 again
/// for the first time: 127 in short mode, 32767 else.
pub open spec fn lfsr_period(short: bool) -> nat {
    if short {
        127
    } else {
        32767
    }
}

/// Length of the stretches in which the long walk is checked.
pub open spec fn walk_stretch() -> nat {
    1024
}

/// The long register after `chunk` stretches from 0.
pub open spec fn long_checkpoint(chunk: nat) -> u16 {
    if chunk == 0 {
        0x0000
    } else if chunk == 1 {
        0x5800
    } else if chunk == 2 {
        0x6780
    } else if chunk == 3 {
        0x7458
    } else if chunk == 4 {
        0x587F
    } else if chunk == 5 {
        0x67A7
    } else if chunk == 6 {
        0x5440
    } else if chunk == 7 {
        0x6274
    } else if chunk == 8 {
        0x4780
    } else if chunk == 9 {
        0x6E58
    } else if chunk == 10 {
        0x525F
    } else if chunk == 11 {
        0x609D
    } else if chunk == 12 {
        0x4E60
    } else if chunk == 13 {
        0x684E
    } else if chunk == 14 {
        0x58B0
    } else if chunk == 15 {
        0x27FF
    } else if chunk == 16 {
        0x407F
    } else if chunk == 17 {
        0x6C27
    } else if chunk == 18 {
        0x53D8
    } else if chunk == 19 {
        0x4027
    } else if chunk == 20 {
        0x4C18
    } else if chunk == 21 {
        0x49CB
    } else if chunk == 22 {
        0x5A0B
    } else if chunk == 23 {
        0x5627
    } else if chunk == 24 {
        0x43F8
    } else if chunk == 25 {
        0x4D3D
    } else if chunk == 26 {
        0x5102
    } else if chunk == 27 {
        0x59D1
    } else if chunk == 28 {
        0x4F01
    } else if chunk == 29 {
        0x00B0
    } else if chunk == 30 {
        0x187F
    } else {
        0x53A7
    }
}

/// A step keeps the register within fifteen bits, and in short mode the
/// low seven bits after a step depend on the low seven bits before alone.
pub proof fn lemma_step_bits(lfsr: u16)
    by (bit_vector)
    ensures
        lfsr_step(lfsr, false) < 0x8000,
        lfsr_step(lfsr, true) < 0x8000,
        lfsr_step(lfsr, true) & 0x7F == lfsr_step(lfsr & 0x7F, true) & 0x7F,
        lfsr_step(0u16, false) == 0x4000,
        lfsr_step(0u16, false) & 1 == 0,
{
}

/// The walks of the long register from 0, stretch by stretch, and of the
/// short one: no step but the last lands on 0.
proof fn lemma_walks()
    by (bit_vector)
    ensures
        core_walk(0x0000u16, false, 1024) == 0x5800u16,
        core_walk(0x5800u16, false, 1024) == 0x6780u16,
        core_walk(0x6780u16, false, 1024) == 0x7458u16,
        core_walk(0x7458u16, false, 1024) == 0x587Fu16,
        core_walk(0x587Fu16, false, 1024) == 0x67A7u16,
        core_walk(0x67A7u16, false, 1024) == 0x5440u16,
        core_walk(0x5440u16, false, 1024) == 0x6274u16,
        core_walk(0x6274u16, false, 1024) == 0x4780u16,
        core_walk(0x4780u16, false, 1024) == 0x6E58u16,
        core_walk(0x6E58u16, false, 1024) == 0x525Fu16,
        core_walk(0x525Fu16, false, 1024) == 0x609Du16,
        core_walk(0x609Du16, false, 1024) == 0x4E60u16,
        core_walk(0x4E60u16, false, 1024) == 0x684Eu16,
        core_walk(0x684Eu16, false, 1024) == 0x58B0u16,
        core_walk(0x58B0u16, false, 1024) == 0x27FFu16,
        core_walk(0x27FFu16, false, 1024) == 0x407Fu16,
        core_walk(0x407Fu16, false, 1024) == 0x6C27u16,
        core_walk(0x6C27u16, false, 1024) == 0x53D8u16,
        core_walk(0x53D8u16, false, 1024) == 0x4027u16,
        core_walk(0x4027u16, false, 1024) == 0x4C18u16,
        core_walk(0x4C18u16, false, 1024) == 0x49CBu16,
        core_walk(0x49CBu16, false, 1024) == 0x5A0Bu16,
        core_walk(0x5A0Bu16, false, 1024) == 0x5627u16,
        core_walk(0x5627u16, false, 1024) == 0x43F8u16,
        core_walk(0x43F8u16, false, 1024) == 0x4D3Du16,
        core_walk(0x4D3Du16, false, 1024) == 0x5102u16,
        core_walk(0x5102u16, false, 1024) == 0x59D1u16,
        core_walk(0x59D1u16, false, 1024) == 0x4F01u16,
        core_walk(0x4F01u16, false, 1024) == 0x00B0u16,
        core_walk(0x00B0u16, false, 1024) == 0x187Fu16,
        core_walk(0x187Fu16, false, 1024) == 0x53A7u16,
        core_walk(0x53A7u16, false, 1022) == 0x0001u16,
        core_step(0x0001u16, false) == 0u16,
        core_walk(0u16, true, 126) == 0x0001u16,
        core_step(0x0001u16, true) == 0u16,
{
}

/// The core of the register after some steps is what the core alone
/// comes to in as many steps.
pub proof fn lemma_core_follows(lfsr: u16, short: bool, steps: nat)
    ensures
        lfsr_core(lfsr_after(lfsr, short, steps), short) == core_after(
            lfsr_core(lfsr, short),
            short,
            steps,
        ),
    decreases steps,
{
    if steps > 0 {
        lemma_step_bits(lfsr);
        lemma_core_follows(lfsr_step(lfsr, short), short, (steps - 1) as nat);
    }
}

/// Steps add up.
pub proof fn lemma_core_after_add(core: u16, short: bool, first: nat, second: nat)
    ensures
        core_after(core, short, first + second) == core_after(
            core_after(core, short, first),
            short,
            second,
        ),
    decreases first,
{
    if first > 0 {
        lemma_core_after_add(core_step(core, short), short, (first - 1) as nat, second);
    }
}

/// A walk that does not end in 0 met no 0 on its way and ends where the
/// core is after as many steps.
pub proof fn lemma_walk_is_sound(core: u16, short: bool, steps: nat)
    requires
        core_walk(core, short, steps) != 0,
    ensures
        core_after(core, short, steps) == core_walk(core, short, steps),
        forall|j: nat| 1 <= j <= steps ==> #[trigger] core_after(core, short, j) != 0,
    decreases steps,
{
    if steps > 0 {
        let next = core_step(core, short);
        lemma_walk_is_sound(next, short, (steps - 1) as nat);
        assert forall|j: nat| 1 <= j <= steps implies #[trigger] core_after(core, short, j)
            != 0 by {
            assert(core_after(core, short, j) == core_after(next, short, (j - 1) as nat));
            if j > 1 {
                assert(core_after(next, short, (j - 1) as nat) != 0);
            } else {
                assert(core_after(next, short, 0) == next);
                assert(core_walk(core, short, steps) != 0 ==> next != 0);
            }
        }
    }
}

/// From 0 the long register meets no 0 within the first `chunk`
/// stretches, and is at the checkpoint after them.
proof fn lemma_long_prefix(chunk: nat)
    requires
        chunk <= 31,
    ensures
        core_after(0, false, chunk * walk_stretch()) == long_checkpoint(chunk),
        forall|j: nat|
            1 <= j <= chunk * walk_stretch() ==> #[trigger] core_after(0, false, j) != 0,
    decreases chunk,
{
    if chunk > 0 {
        let done: nat = ((chunk - 1) * walk_stretch()) as nat;
        let from = long_checkpoint((chunk - 1) as nat);
        lemma_long_prefix((chunk - 1) as nat);
        lemma_walks();
        lemma_walk_is_sound(from, false, walk_stretch());
        lemma_core_after_add(0, false, done, walk_stretch());
        assert forall|j: nat| 1 <= j <= chunk * walk_stretch() implies #[trigger] core_after(
            0,
            false,
            j,
        ) != 0 by {
            if j > done {
                lemma_core_after_add(0, false, done, (j - done) as nat);
                assert(core_after(from, false, (j - done) as nat) != 0);
            }
        }
    }
}

/// From 0 the core of the register is 0 again after a full period, and
/// never before.
pub proof fn lemma_first_return(short: bool)
    ensures
        core_after(0, short, lfsr_period(short)) == 0,
        forall|j: nat| 1 <= j < lfsr_period(short) ==> #[trigger] core_after(0, short, j) != 0,
{
    lemma_walks();
    if short {
        lemma_walk_is_sound(0, true, 126);
        lemma_core_after_add(0, true, 126, 1);
        assert(core_after(core_after(0, true, 126), true, 1) == 0) by {
            reveal_with_fuel(core_after, 2);
        }
    } else {
        let done: nat = 31 * walk_stretch();
        let from = long_checkpoint(31);
        lemma_long_prefix(31);
        lemma_walk_is_sound(from, false, 1022);
        lemma_core_after_add(0, false, done, 1022);
        lemma_core_after_add(0, false, 32766, 1);
        assert(core_after(core_after(0, false, 32766), false, 1) == 0) by {
            reveal_with_fuel(core_after, 2);
        }
        assert forall|j: nat| 1 <= j < 32767 implies #[trigger] core_after(0, false, j)
            != 0 by {
            if j > done {
                lemma_core_after_add(0, false, done, (j - done) as nat);
                assert(core_after(from, false, (j - done) as nat) != 0);
            }
        }
    }
}

/// From 0 the core of the register is 0 exactly after whole periods: the
/// long register has period 32767, the low seven bits of the short one
/// have period 127.
pub proof fn lemma_lfsr_period(short: bool, steps: nat)
    ensures
        core_after(0, short, steps) == 0 <==> steps % lfsr_period(short) == 0,
    decreases steps,
{
    lemma_first_return(short);
    if steps >= lfsr_period(short) {
        let rest: nat = (steps - lfsr_period(short)) as nat;
        lemma_core_after_add(0, short, lfsr_period(short), rest);
        lemma_lfsr_period(short, rest);
        assert(rest % lfsr_period(short) == steps % lfsr_period(short)) by {
            if short {
                assert((steps - 127) % 127 == steps % 127);
            } else {
                assert((steps - 32767) % 32767 == steps % 32767);
            }
        }
    }
}

impl NoiseChannel {
    pub open spec fn power_on() -> NoiseChannel {
        NoiseChannel {
            dac_on: false,
            channel_on: false,
            duty_cycle_pointer: 0,
            length_timer: 0,
            volume: 0,
            envelope_timer: 1,
            lfsr: 0,
            lfsr_bit: false,
            lfsr_timer: 1,
            lfsr_pace: 1,
            clock_shift: 0,
            short_lfsr: false,
            clock_divider: 0,
            initial_length_timer: 0,
            length_timer_enabled: false,
            initial_volume: 0,
            envelope_increase: false,
            envelope_pace: 0,
        }
    }

    pub open spec fn consistent(self) -> bool {
        &&& self.channel_on ==> self.dac_on
        &&& self.channel_on ==> self.length_timer != 0
    }

    pub open spec fn length_ticked(self) -> NoiseChannel {
        if !self.length_timer_enabled {
            self
        } else if self.length_timer <= 1 {
            NoiseChannel { length_timer: 0, channel_on: false, ..self }
        } else {
            NoiseChannel { length_timer: (self.length_timer - 1) as u8, ..self }
        }
    }

    pub open spec fn envelope_ticked(self) -> NoiseChannel {
        if self.envelope_pace == 0 {
            self
        } else if self.envelope_timer < self.envelope_pace {
            NoiseChannel { envelope_timer: (self.envelope_timer + 1) as u8, ..self }
        } else {
            NoiseChannel {
                envelope_timer: 1,
                volume: envelope_step(self.volume, self.envelope_increase),
                ..self
            }
        }
    }

    /// The channel after a tick of the noise clock: every `lfsr_pace`
    /// ticks the shift register moves and its new low bit is the output.
    pub open spec fn lfsr_ticked(self) -> NoiseChannel {
        if self.lfsr_timer < self.lfsr_pace {
            NoiseChannel { lfsr_timer: (self.lfsr_timer + 1) as u32, ..self }
        } else {
            NoiseChannel {
                lfsr_timer: 1,
                lfsr: lfsr_step(self.lfsr, self.short_lfsr),
                lfsr_bit: lfsr_step(self.lfsr, self.short_lfsr) & 1 == 1,
                ..self
            }
        }
    }

    pub open spec fn triggered(self) -> NoiseChannel {
        NoiseChannel {
            channel_on: self.dac_on,
            lfsr: 0,
            volume: self.initial_volume,
            envelope_timer: 1,
            length_timer: LENGTH_MAX,
            ..self
        }
    }

    pub open spec fn read(self, address: u16) -> u8 {
        if address == 0xFF20 {
            0xFF
        } else if address == 0xFF21 {
            (self.initial_volume << 4) | (if self.envelope_increase {
                0x08u8
            } else {
                0u8
            }) | self.envelope_pace
        } else if address == 0xFF22 {
            (self.clock_shift << 4) | (if self.short_lfsr {
                0x08u8
            } else {
                0u8
            }) | self.clock_divider
        } else {
            (if self.length_timer_enabled {
                0x40u8
            } else {
                0u8
            }) | 0xBF
        }
    }

    pub open spec fn written(self, address: u16, value: u8) -> NoiseChannel {
        if address == 0xFF20 {
            NoiseChannel { initial_length_timer: (64 - value % 64) as u8, ..self }
        } else if address == 0xFF21 {
            NoiseChannel {
                initial_volume: value / 16,
                envelope_increase: (value / 8) % 2 == 1,
                envelope_pace: value % 8,
                dac_on: value / 8 != 0,
                channel_on: self.channel_on && value / 8 != 0,
                ..self
            }
        } else if address == 0xFF22 {
            NoiseChannel {
                clock_shift: value / 16,
                short_lfsr: (value / 8) % 2 == 1,
                clock_divider: value % 8,
                lfsr_pace: noise_pace(value % 8, value / 16),
                ..self
            }
        } else {
            let set = NoiseChannel { length_timer_enabled: (value / 64) % 2 == 1, ..self };
            if value >= 128 {
                set.triggered()
            } else {
                set
            }
        }
    }

    pub open spec fn digital(self) -> Option<u8> {
        if !self.dac_on {
            None
        } else if self.channel_on && self.lfsr_bit {
            Some(self.volume)
        } else {
            Some(0)
        }
    }

    /// The channel after `ticks` ticks of the noise clock.
    pub open spec fn lfsr_ticked_times(self, ticks: nat) -> NoiseChannel
        decreases ticks,
    {
        if ticks == 0 {
            self
        } else {
            self.lfsr_ticked().lfsr_ticked_times((ticks - 1) as nat)
        }
    }

    /// Whether every tick of the noise clock moves the shift register: the
    /// pace is at most one tick and the timer has run out.
    pub open spec fn steps_every_tick(self) -> bool {
        self.lfsr_pace <= 1 && self.lfsr_timer >= self.lfsr_pace && self.lfsr_timer >= 1
    }

    /// Where every tick moves the shift register, the register after some
    /// ticks is the register after as many steps, it stays within fifteen
    /// bits, and the output is its low bit.
    pub proof fn lemma_ticks_are_steps(self, ticks: nat)
        requires
            self.steps_every_tick(),
        ensures
            self.lfsr_ticked_times(ticks).lfsr == lfsr_after(self.lfsr, self.short_lfsr, ticks),
            self.lfsr_ticked_times(ticks).short_lfsr == self.short_lfsr,
            self.lfsr_ticked_times(ticks).steps_every_tick(),
            ticks >= 1 ==> self.lfsr_ticked_times(ticks).lfsr < 0x8000,
            ticks >= 1 ==> self.lfsr_ticked_times(ticks).lfsr_bit == (self.lfsr_ticked_times(
                ticks,
            ).lfsr & 1 == 1),
        decreases ticks,
    {
        if ticks > 0 {
            lemma_step_bits(self.lfsr);
            self.lfsr_ticked().lemma_ticks_are_steps((ticks - 1) as nat);
        }
    }

    /// A channel whose shift register is 0, as a trigger leaves it, and
    /// which moves the register with every tick, has the register at 0
    /// again exactly after every 32767 ticks; in short mode the low seven
    /// bits, from which the output comes, are 0 again exactly after every
    /// 127 ticks. The first tick takes the long register to 0x4000 with
    /// the output low.
    pub proof fn lemma_noise_period(self, ticks: nat)
        requires
            self.lfsr == 0,
            self.steps_every_tick(),
        ensures
            lfsr_core(self.lfsr_ticked_times(ticks).lfsr, self.short_lfsr) == 0 <==> ticks
                % lfsr_period(self.short_lfsr) == 0,
            !self.short_lfsr ==> (self.lfsr_ticked_times(ticks).lfsr == 0 <==> ticks % 32767 == 0),
            self.short_lfsr ==> (self.lfsr_ticked_times(ticks).lfsr & 0x7F == 0 <==> ticks % 127
                == 0),
            !self.short_lfsr ==> self.lfsr_ticked_times(1).lfsr == 0x4000
                && !self.lfsr_ticked_times(1).lfsr_bit,
    {
        self.lemma_ticks_are_steps(ticks);
        lemma_core_follows(0, self.short_lfsr, ticks);
        lemma_lfsr_period(self.short_lfsr, ticks);
        assert(0u16 & 0x7F == 0) by (bit_vector);
        if !self.short_lfsr {
            lemma_step_bits(0);
            self.lemma_ticks_are_steps(1);
            assert(self.lfsr_ticked_times(1).lfsr == lfsr_after(0, false, 1));
            assert(lfsr_after(0, false, 1) == lfsr_step(0, false)) by {
                reveal_with_fuel(lfsr_after, 2);
            }
        }
    }

    pub fn new() -> (r: NoiseChannel)
        ensures
            r == Self::power_on(),
            r.consistent(),
    {
        NoiseChannel {
            dac_on: false,
            channel_on: false,
            duty_cycle_pointer: 0,
            length_timer: 0,
            volume: 0,
            envelope_timer: 1,
            lfsr: 0,
            lfsr_bit: false,
            lfsr_timer: 1,
            lfsr_pace: 1,
            clock_shift: 0,
            short_lfsr: false,
            clock_divider: 0,
            initial_length_timer: 0,
            length_timer_enabled: false,
            initial_volume: 0,
            envelope_increase: false,
            envelope_pace: 0,
        }
    }

    pub fn update_length_timer(&mut self)
        ensures
            *final(self) == old(self).length_ticked(),
            old(self).consistent() ==> final(self).consistent(),
    {
        if self.length_timer_enabled {
            if self.length_timer <= 1 {
                self.length_timer = 0;
                self.channel_on = false;
            } else {
                self.length_timer = self.length_timer - 1;
            }
        }
    }

    pub fn update_envelope(&mut self)
        ensures
            *final(self) == old(self).envelope_ticked(),
            old(self).consistent() ==> final(self).consistent(),
    {
        if self.envelope_pace == 0 {
            return ;
        }
        if self.envelope_timer < self.envelope_pace {
            self.envelope_timer = self.envelope_timer + 1;
        } else {
            self.envelope_timer = 1;
            self.volume = step_envelope(self.volume, self.envelope_increase);
        }
    }

    pub fn update_lfsr(&mut self)
        ensures
            *final(self) == old(self).lfsr_ticked(),
            old(self).consistent() ==> final(self).consistent(),
    {
        if self.lfsr_timer < self.lfsr_pace {
            self.lfsr_timer = self.lfsr_timer + 1;
        } else {
            self.lfsr_timer = 1;
            self.lfsr = step_lfsr(self.lfsr, self.short_lfsr);
            self.lfsr_bit = self.lfsr & 1 == 1;
        }
    }

    pub fn read_register(&self, address: u16) -> (r: u8)
        requires
            is_noise_register(address),
        ensures
            r == self.read(address),
    {
        if address == 0xFF20 {
            0xFF
        } else if address == 0xFF21 {
            let direction: u8 = if self.envelope_increase {
                0x08
            } else {
                0
            };
            (self.initial_volume << 4) | direction | self.envelope_pace
        } else if address == 0xFF22 {
            let short: u8 = if self.short_lfsr {
                0x08
            } else {
                0
            };
            (self.clock_shift << 4) | short | self.clock_divider
        } else {
            let length: u8 = if self.length_timer_enabled {
                0x40
            } else {
                0
            };
            length | 0xBF
        }
    }

    pub fn write_register(&mut self, address: u16, value: u8)
        requires
            is_noise_register(address),
        ensures
            *final(self) == old(self).written(address, value),
            old(self).consistent() ==> final(self).consistent(),
    {
        if address == 0xFF20 {
            self.initial_length_timer = 64 - value % 64;
        } else if address == 0xFF21 {
            self.initial_volume = value / 16;
            self.envelope_increase = (value / 8) % 2 == 1;
            self.envelope_pace = value % 8;
            self.dac_on = self.initial_volume > 0 || self.envelope_increase;
            if !self.dac_on {
                self.channel_on = false;
            }
        } else if address == 0xFF22 {
            self.clock_shift = value / 16;
            self.short_lfsr = (value / 8) % 2 == 1;
            self.clock_divider = value % 8;
            self.lfsr_pace = pace_of(self.clock_divider, self.clock_shift);
        } else {
            self.length_timer_enabled = (value / 64) % 2 == 1;
            if value >= 128 {
                self.trigger();
            }
        }
    }

    pub fn trigger(&mut self)
        ensures
            *final(self) == old(self).triggered(),
            final(self).consistent(),
    {
        self.channel_on = self.dac_on;
        self.lfsr = 0;
        self.volume = self.initial_volume;
        self.envelope_timer = 1;
        self.length_timer = LENGTH_MAX;
    }

    pub fn digital_sample(&self) -> (r: Option<u8>)
        ensures
            r == self.digital(),
    {
        if !self.dac_on {
            None
        } else if self.channel_on && self.lfsr_bit {
            Some(self.volume)
        } else {
            Some(0)
        }
    }
}

/// NR51: which channel feeds which side.
#[derive(Clone, Copy, PartialEq, Eq, Structural, Debug)]
pub struct PanRegister(pub u8);

pub const PAN_CH4_LEFT: u8 = 0b1000_0000;

pub const PAN_CH3_LEFT: u8 = 0b0100_0000;

pub const PAN_CH2_LEFT: u8 = 0b0010_0000;

pub const PAN_CH1_LEFT: u8 = 0b0001_0000;

pub const PAN_CH4_RIGHT: u8 = 0b0000_1000;

pub const PAN_CH3_RIGHT: u8 = 0b0000_0100;

pub const PAN_CH2_RIGHT: u8 = 0b0000_0010;

pub const PAN_CH1_RIGHT: u8 = 0b0000_0001;

impl PanRegister {
    pub open spec fn has(self, mask: u8) -> bool {
        self.0 & mask != 0
    }

    pub fn from_bits_truncate(value: u8) -> (r: PanRegister)
        ensures
            r == PanRegister(value),
    {
        PanRegister(value)
    }

    pub fn bits(&self) -> (r: u8)
        ensures
            r == self.0,
    {
        self.0
    }

    pub fn intersects(&self, mask: u8) -> (r: bool)
        ensures
            r == self.has(mask),
    {
        self.0 & mask != 0
    }
}

/// T-cycles per second.
pub const CLOCK_SPEED: u32 = 4194304;

/// What the mixer puts out at one sample instant. Levels are in fifteenths
/// of a DAC's full swing: one channel at full volume ranges over -15..=15
/// before the master volume multiplies it.
#[derive(Clone, Copy, PartialEq, Eq, Structural, Debug)]
pub enum AudioFrame {
    /// The unit is off, or every DAC is: the output rests at zero.
    Silence,
    Mix { left: i32, right: i32 },
}

/// The level a DAC puts out for a 4-bit sample: `2 * sample - 15`, that
/// is -1 to 1 in fifteenths; a DAC that is off puts out 0.
pub open spec fn dac_level(sample: Option<u8>) -> int {
    match sample {
        None => 0,
        Some(digital) => 2 * digital - 15,
    }
}

pub fn level_of(sample: Option<u8>) -> (r: i32)
    ensures
        r == dac_level(sample),
        -15 <= r <= 495,
{
    match sample {
        None => 0,
        Some(digital) => 2 * (digital as i32) - 15,
    }
}

/// The audio processing unit.
#[derive(Clone, Copy, Debug)]
pub struct APU {
    /// T-cycles between two samples; set by the host.
    pub sample_delay: u32,
    /// Output channels of the host, 1 or 2.
    pub channels: usize,
    /// Samples the host's buffer holds.
    pub sample_capacity: usize,
    /// Whether the host has asked for samples yet.
    pub buffer_ready: bool,
    pub on: bool,
    pub sample_delay_counter: u32,
    pub period_delay_counter: u8,
    pub div_apu: u8,
    pub last_div_bit: bool,
    pub pan_options: PanRegister,
    /// Left master volume, 1..=8.
    pub left_volume: u8,
    /// Right master volume, 1..=8.
    pub right_volume: u8,
    pub square_channel_1: SquareChannel,
    pub square_channel_2: SquareChannel,
    pub wave_channel: WaveChannel,
    pub noise_channel: NoiseChannel,
}

/// A master volume as NR50 shows it: one less than the multiplier.
pub open spec fn volume_bits(volume: u8) -> u8 {
    if volume == 0 {
        255
    } else {
        (volume - 1) as u8
    }
}

/// Whether the APU answers at `address`.
pub open spec fn is_apu_register(address: u16) -> bool {
    is_square_register(address) || is_wave_register(address) || is_noise_register(address) || (
    0xFF24 <= address <= 0xFF26)
}

impl APU {
    pub open spec fn power_on() -> APU {
        APU {
            sample_delay: 0,
            channels: 0,
            sample_capacity: 0,
            buffer_ready: false,
            on: true,
            sample_delay_counter: 0,
            period_delay_counter: 0,
            div_apu: 0,
            last_div_bit: false,
            pan_options: PanRegister(0),
            left_volume: 1,
            right_volume: 1,
            square_channel_1: SquareChannel::power_on(),
            square_channel_2: SquareChannel::power_on(),
            wave_channel: WaveChannel::power_on(),
            noise_channel: NoiseChannel::power_on(),
        }
    }

    /// No channel plays with its DAC off or its length spent.
    pub open spec fn consistent(self) -> bool {
        &&& self.square_channel_1.consistent()
        &&& self.square_channel_2.consistent()
        &&& self.wave_channel.consistent()
        &&& self.noise_channel.consistent()
    }

    /// The unit after the frame sequencer saw `timer_div`. On a falling
    /// edge of divider bit 12 the sequencer counts up; every second count
    /// ticks the length counters, every fourth the sweep of channel 1,
    /// every eighth the envelopes.
    pub open spec fn sequenced(self, timer_div: u16) -> APU {
        let bit: bool = divider_bit(timer_div, 12);
        if self.last_div_bit && !bit {
            let count: u8 = ((self.div_apu + 1) % 256) as u8;
            APU {
                last_div_bit: bit,
                div_apu: count,
                square_channel_1: {
                    let timed = if count % 2 == 0 {
                        self.square_channel_1.length_ticked()
                    } else {
                        self.square_channel_1
                    };
                    let swept = if count % 4 == 0 {
                        timed.swept()
                    } else {
                        timed
                    };
                    if count % 8 == 0 {
                        swept.envelope_ticked()
                    } else {
                        swept
                    }
                },
                square_channel_2: {
                    let timed = if count % 2 == 0 {
                        self.square_channel_2.length_ticked()
                    } else {
                        self.square_channel_2
                    };
                    if count % 8 == 0 {
                        timed.envelope_ticked()
                    } else {
                        timed
                    }
                },
                wave_channel: if count % 2 == 0 {
                    self.wave_channel.length_ticked()
                } else {
                    self.wave_channel
                },
                noise_channel: {
                    let timed = if count % 2 == 0 {
                        self.noise_channel.length_ticked()
                    } else {
                        self.noise_channel
                    };
                    if count % 8 == 0 {
                        timed.envelope_ticked()
                    } else {
                        timed
                    }
                },
                ..self
            }
        } else {
            APU { last_div_bit: bit, ..self }
        }
    }

    /// The unit after the period counters saw one T-cycle: the wave
    /// channel is clocked every second cycle, the square channels every
    /// fourth, the noise channel every sixteenth.
    pub open spec fn clocked(self) -> APU {
        let count: u8 = ((self.period_delay_counter + 1) % 256) as u8;
        APU {
            period_delay_counter: count,
            wave_channel: if count % 2 == 0 {
                self.wave_channel.period_ticked()
            } else {
                self.wave_channel
            },
            square_channel_1: if count % 4 == 0 {
                self.square_channel_1.period_ticked()
            } else {
                self.square_channel_1
            },
            square_channel_2: if count % 4 == 0 {
                self.square_channel_2.period_ticked()
            } else {
                self.square_channel_2
            },
            noise_channel: if count % 16 == 0 {
                self.noise_channel.lfsr_ticked()
            } else {
                self.noise_channel
            },
            ..self
        }
    }

    /// Whether a sample is due in this T-cycle: with it the sample clock
    /// has counted `sample_delay` cycles since the last sample, and the
    /// host has asked for samples.
    pub open spec fn sample_due(self) -> bool {
        self.sample_delay_counter + 1 >= self.sample_delay && self.buffer_ready
    }

    /// The unit after the sample clock saw one T-cycle: the clock counts
    /// up, and starts again from zero in the cycle in which a sample is
    /// due, so that samples are `sample_delay` cycles apart.
    pub open spec fn sampled(self) -> APU {
        if self.sample_delay_counter + 1 < self.sample_delay {
            APU { sample_delay_counter: (self.sample_delay_counter + 1) as u32, ..self }
        } else if self.buffer_ready {
            APU { sample_delay_counter: 0, ..self }
        } else {
            self
        }
    }

    /// Whether nothing can sound: the unit is off or every DAC is.
    pub open spec fn silent(self) -> bool {
        !self.on || (!self.square_channel_1.dac_on && !self.square_channel_2.dac_on
            && !self.wave_channel.dac_on && !self.noise_channel.dac_on)
    }

    /// The sum of the DAC levels of the channels that NR51 routes to one
    /// side; `ch1` to `ch4` are that side's NR51 bits for the four
    /// channels.
    pub open spec fn side_level(self, ch1: u8, ch2: u8, ch3: u8, ch4: u8) -> int {
        (if self.pan_options.has(ch1) {
            dac_level(self.square_channel_1.digital())
        } else {
            0
        }) + (if self.pan_options.has(ch2) {
            dac_level(self.square_channel_2.digital())
        } else {
            0
        }) + (if self.pan_options.has(ch3) {
            dac_level(self.wave_channel.digital())
        } else {
            0
        }) + (if self.pan_options.has(ch4) {
            dac_level(self.noise_channel.digital())
        } else {
            0
        })
    }

    /// What the mixer puts out: on each side the sum of the routed DAC
    /// levels times that side's master volume.
    pub open spec fn mixed(self) -> AudioFrame {
        if self.silent() {
            AudioFrame::Silence
        } else {
            AudioFrame::Mix {
                left: (self.left_volume * self.side_level(
                    PAN_CH1_LEFT,
                    PAN_CH2_LEFT,
                    PAN_CH3_LEFT,
                    PAN_CH4_LEFT,
                )) as i32,
                right: (self.right_volume * self.side_level(
                    PAN_CH1_RIGHT,
                    PAN_CH2_RIGHT,
                    PAN_CH3_RIGHT,
                    PAN_CH4_RIGHT,
                )) as i32,
            }
        }
    }

    /// The unit one T-cycle later, given the timer's divider.
    pub open spec fn tick(self, timer_div: u16) -> APU {
        self.sequenced(timer_div).clocked().sampled()
    }

    /// The frame, if any, that the T-cycle puts out.
    pub open spec fn frame_due(self, timer_div: u16) -> Option<AudioFrame> {
        let now = self.sequenced(timer_div).clocked();
        if now.sample_due() {
            Some(now.mixed())
        } else {
            None
        }
    }

    /// The unit after it was switched off: every register and all channel
    /// state cleared, the wave table and the host's settings kept.
    pub open spec fn off(self) -> APU {
        APU {
            on: false,
            sample_delay_counter: 0,
            period_delay_counter: 0,
            div_apu: 0,
            last_div_bit: false,
            pan_options: PanRegister(0),
            left_volume: 1,
            right_volume: 1,
            square_channel_1: SquareChannel::power_on(),
            square_channel_2: SquareChannel::power_on(),
            wave_channel: self.wave_channel.cleared(),
            noise_channel: NoiseChannel::power_on(),
            ..self
        }
    }

    /// NR52 as it reads: the master switch in bit 7, the channels that
    /// play in bits 3..0, ones in between.
    pub open spec fn status(self) -> u8 {
        (0x70 + (if self.on {
            0x80int
        } else {
            0
        }) + (if self.noise_channel.channel_on {
            8int
        } else {
            0
        }) + (if self.wave_channel.channel_on {
            4int
        } else {
            0
        }) + (if self.square_channel_2.channel_on {
            2int
        } else {
            0
        }) + (if self.square_channel_1.channel_on {
            1int
        } else {
            0
        })) as u8
    }

    /// What a read of `address` returns; 0xFF where nothing answers.
    pub open spec fn read(self, address: u16) -> u8 {
        if 0xFF10 <= address <= 0xFF14 {
            self.square_channel_1.read(address)
        } else if 0xFF16 <= address <= 0xFF19 {
            self.square_channel_2.read(address)
        } else if is_wave_register(address) {
            self.wave_channel.read(address)
        } else if is_noise_register(address) {
            self.noise_channel.read(address)
        } else if address == 0xFF24 {
            (volume_bits(self.left_volume) << 4) | volume_bits(self.right_volume)
        } else if address == 0xFF25 {
            self.pan_options.0
        } else if address == 0xFF26 {
            self.status()
        } else {
            0xFF
        }
    }

    /// The unit after a write of `value` to `address`. While the unit is
    /// off only NR52 and the wave table take writes.
    pub open spec fn written(self, address: u16, value: u8) -> APU {
        if !self.on && address != 0xFF26 && !(0xFF30 <= address <= 0xFF3F) {
            self
        } else if 0xFF10 <= address <= 0xFF14 {
            APU { square_channel_1: self.square_channel_1.written(address, value), ..self }
        } else if 0xFF16 <= address <= 0xFF19 {
            APU { square_channel_2: self.square_channel_2.written(address, value), ..self }
        } else if is_wave_register(address) {
            APU { wave_channel: self.wave_channel.written(address, value), ..self }
        } else if is_noise_register(address) {
            APU { noise_channel: self.noise_channel.written(address, value), ..self }
        } else if address == 0xFF24 {
            APU {
                left_volume: ((value / 16) % 8 + 1) as u8,
                right_volume: (value % 8 + 1) as u8,
                ..self
            }
        } else if address == 0xFF25 {
            APU { pan_options: PanRegister(value), ..self }
        } else if address == 0xFF26 {
            if self.on && value < 128 {
                self.off()
            } else {
                APU { on: value >= 128, ..self }
            }
        } else {
            self
        }
    }

    pub fn new() -> (r: APU)
        ensures
            r == Self::power_on(),
            r.consistent(),
    {
        APU {
            sample_delay: 0,
            channels: 0,
            sample_capacity: 0,
            buffer_ready: false,
            on: true,
            sample_delay_counter: 0,
            period_delay_counter: 0,
            div_apu: 0,
            last_div_bit: false,
            pan_options: PanRegister::from_bits_truncate(0),
            left_volume: 1,
            right_volume: 1,
            square_channel_1: SquareChannel::new(),
            square_channel_2: SquareChannel::new(),
            wave_channel: WaveChannel::new(),
            noise_channel: NoiseChannel::new(),
        }
    }

    /// Sets the host's sample rate: a sample is due every
    /// `4194304 / sample_rate` T-cycles (every cycle where that is 0).
    pub fn set_sample_rate(&mut self, sample_rate: u32)
        requires
            sample_rate > 0,
        ensures
            *final(self) == (APU { sample_delay: CLOCK_SPEED / sample_rate, ..*old(self) }),
    {
        self.sample_delay = CLOCK_SPEED / sample_rate;
    }

    /// Takes note of the host's buffer and starts the sample clock.
    pub fn init_buffer(&mut self, sample_capacity: usize, channels: usize)
        requires
            channels == 1 || channels == 2,
        ensures
            *final(self) == (APU {
                sample_capacity,
                channels,
                buffer_ready: true,
                ..*old(self)
            }),
    {
        self.sample_capacity = sample_capacity;
        self.channels = channels;
        self.buffer_ready = true;
    }

    fn sequence(&mut self, timer_div: u16)
        ensures
            *final(self) == old(self).sequenced(timer_div),
            old(self).consistent() ==> final(self).consistent(),
    {
        let bit: bool = divider_bit_set(timer_div, 12);
        if self.last_div_bit && !bit {
            self.div_apu = self.div_apu.wrapping_add(1);
            if self.div_apu % 2 == 0 {
                self.square_channel_1.update_length_timer();
                self.square_channel_2.update_length_timer();
                self.wave_channel.update_length_timer();
                self.noise_channel.update_length_timer();
                if self.div_apu % 4 == 0 {
                    self.square_channel_1.update_sweep();
                    if self.div_apu % 8 == 0 {
                        self.square_channel_1.update_envelope();
                        self.square_channel_2.update_envelope();
                        self.noise_channel.update_envelope();
                    }
                }
            }
        }
        self.last_div_bit = bit;
    }

    fn clock(&mut self)
        ensures
            *final(self) == old(self).clocked(),
            old(self).consistent() ==> final(self).consistent(),
    {
        self.period_delay_counter = self.period_delay_counter.wrapping_add(1);
        if self.period_delay_counter % 2 == 0 {
            self.wave_channel.update_period();
            if self.period_delay_counter % 4 == 0 {
                self.square_channel_1.update_period();
                self.square_channel_2.update_period();
                if self.period_delay_counter % 16 == 0 {
                    self.noise_channel.update_lfsr();
                }
            }
        }
    }

    fn side(&self, ch1: u8, ch2: u8, ch3: u8, ch4: u8) -> (r: i32)
        ensures
            r == self.side_level(ch1, ch2, ch3, ch4),
            -60 <= r <= 1980,
    {
        let first: i32 = if self.pan_options.intersects(ch1) {
            level_of(self.square_channel_1.digital_sample())
        } else {
            0
        };
        let second: i32 = if self.pan_options.intersects(ch2) {
            level_of(self.square_channel_2.digital_sample())
        } else {
            0
        };
        let third: i32 = if self.pan_options.intersects(ch3) {
            level_of(self.wave_channel.digital_sample())
        } else {
            0
        };
        let fourth: i32 = if self.pan_options.intersects(ch4) {
            level_of(self.noise_channel.digital_sample())
        } else {
            0
        };
        first + second + third + fourth
    }

    /// The mixer's output for the present state.
    pub fn mix(&self) -> (frame: AudioFrame)
        ensures
            frame == self.mixed(),
    {
        if !self.on || (!self.square_channel_1.dac_on && !self.square_channel_2.dac_on
            && !self.wave_channel.dac_on && !self.noise_channel.dac_on) {
            return AudioFrame::Silence;
        }
        let left: i32 = self.side(PAN_CH1_LEFT, PAN_CH2_LEFT, PAN_CH3_LEFT, PAN_CH4_LEFT);
        let right: i32 = self.side(PAN_CH1_RIGHT, PAN_CH2_RIGHT, PAN_CH3_RIGHT, PAN_CH4_RIGHT);
        assert(-60 * 255 <= self.left_volume * left <= 1980 * 255) by (nonlinear_arith)
            requires
                -60 <= left <= 1980,
                0 <= self.left_volume <= 255,
        ;
        assert(-60 * 255 <= self.right_volume * right <= 1980 * 255) by (nonlinear_arith)
            requires
                -60 <= right <= 1980,
                0 <= self.right_volume <= 255,
        ;
        AudioFrame::Mix {
            left: (self.left_volume as i32) * left,
            right: (self.right_volume as i32) * right,
        }
    }

    /// Advances the unit by one T-cycle and hands out the frame that is
    /// due, if one is.
    pub fn cycle(&mut self, timer_div: u16) -> (frame: Option<AudioFrame>)
        ensures
            *final(self) == old(self).tick(timer_div),
            frame == old(self).frame_due(timer_div),
            old(self).consistent() ==> final(self).consistent(),
    {
        self.sequence(timer_div);
        self.clock();
        if self.sample_delay_counter < self.sample_delay && self.sample_delay_counter + 1
            < self.sample_delay {
            self.sample_delay_counter = self.sample_delay_counter + 1;
            return None;
        }
        if !self.buffer_ready {
            return None;
        }
        self.sample_delay_counter = 0;
        Some(self.mix())
    }

    fn turn_off(&mut self)
        ensures
            *final(self) == old(self).off(),
            final(self).consistent(),
    {
        self.on = false;
        self.sample_delay_counter = 0;
        self.period_delay_counter = 0;
        self.div_apu = 0;
        self.last_div_bit = false;
        self.pan_options = PanRegister::from_bits_truncate(0);
        self.left_volume = 1;
        self.right_volume = 1;
        self.square_channel_1 = SquareChannel::new();
        self.square_channel_2 = SquareChannel::new();
        self.wave_channel.clear();
        self.noise_channel = NoiseChannel::new();
    }

    pub fn mem_read(&self, address: u16) -> (r: u8)
        ensures
            r == self.read(address),
    {
        if 0xFF10 <= address && address <= 0xFF14 {
            self.square_channel_1.read_register(address)
        } else if 0xFF16 <= address && address <= 0xFF19 {
            self.square_channel_2.read_register(address)
        } else if (0xFF1A <= address && address <= 0xFF1E) || (0xFF30 <= address && address
            <= 0xFF3F) {
            self.wave_channel.read_register(address)
        } else if 0xFF20 <= address && address <= 0xFF23 {
            self.noise_channel.read_register(address)
        } else if address == 0xFF24 {
            (self.left_volume.wrapping_sub(1) << 4) | self.right_volume.wrapping_sub(1)
        } else if address == 0xFF25 {
            self.pan_options.bits()
        } else if address == 0xFF26 {
            let on: u8 = if self.on {
                0x80
            } else {
                0
            };
            let noise: u8 = if self.noise_channel.channel_on {
                8
            } else {
                0
            };
            let wave: u8 = if self.wave_channel.channel_on {
                4
            } else {
                0
            };
            let second: u8 = if self.square_channel_2.channel_on {
                2
            } else {
                0
            };
            let first: u8 = if self.square_channel_1.channel_on {
                1
            } else {
                0
            };
            0x70 + on + noise + wave + second + first
        } else {
            0xFF
        }
    }

    pub fn mem_write(&mut self, address: u16, value: u8)
        ensures
            *final(self) == old(self).written(address, value),
            old(self).consistent() ==> final(self).consistent(),
    {
        if !self.on && address != 0xFF26 && !(0xFF30 <= address && address <= 0xFF3F) {
            return ;
        }
        if 0xFF10 <= address && address <= 0xFF14 {
            self.square_channel_1.write_register(address, value);
        } else if 0xFF16 <= address && address <= 0xFF19 {
            self.square_channel_2.write_register(address, value);
        } else if (0xFF1A <= address && address <= 0xFF1E) || (0xFF30 <= address && address
            <= 0xFF3F) {
            self.wave_channel.write_register(address, value);
        } else if 0xFF20 <= address && address <= 0xFF23 {
            self.noise_channel.write_register(address, value);
        } else if address == 0xFF24 {
            self.left_volume = (value / 16) % 8 + 1;
            self.right_volume = value % 8 + 1;
        } else if address == 0xFF25 {
            self.pan_options = PanRegister::from_bits_truncate(value);
        } else if address == 0xFF26 {
            let on: bool = value >= 128;
            if self.on && !on {
                self.turn_off();
            } else {
                self.on = on;
            }
        }
    }

    /// A channel that plays has its DAC on.
    pub proof fn lemma_playing_needs_dac(self)
        requires
            self.consistent(),
        ensures
            self.square_channel_1.channel_on ==> self.square_channel_1.dac_on,
            self.square_channel_2.channel_on ==> self.square_channel_2.dac_on,
            self.wave_channel.channel_on ==> self.wave_channel.dac_on,
            self.noise_channel.channel_on ==> self.noise_channel.dac_on,
    {
    }

    /// Whatever is written and however long the unit runs, no channel
    /// plays with its DAC off or with its length counter spent.
    pub proof fn lemma_consistency_is_kept(self, timer_div: u16, address: u16, value: u8)
        requires
            self.consistent(),
        ensures
            self.tick(timer_div).consistent(),
            self.written(address, value).consistent(),
    {
    }
}

} // verus!
