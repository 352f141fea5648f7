//! DIV, TIMA, TMA and TAC: the divider and the programmable timer it feeds.

use vstd::prelude::*;

verus! {

/// TAC, the timer control register: bit 2 enables the timer, bits 1..0
/// select the divider bit that clocks it.
#[derive(Clone, Copy, PartialEq, Eq, Structural, Debug)]
pub struct TimerControl(pub u8);

impl TimerControl {
    pub open spec fn of_byte(value: u8) -> TimerControl {
        TimerControl(value % 8)
    }

    pub fn from_bits_truncate(value: u8) -> (r: TimerControl)
        ensures
            r == Self::of_byte(value),
    {
        TimerControl(value % 8)
    }

    pub fn bits(&self) -> (r: u8)
        ensures
            r == self.0,
    {
        self.0
    }

    /// Whether bit 2 is set.
    pub open spec fn enabled(self) -> bool {
        (self.0 / 4) % 2 == 1
    }

    /// The divider bit selected by bits 1..0: 9, 3, 5 or 7.
    pub open spec fn selected_bit(self) -> u8 {
        if self.0 % 4 == 0 {
            9
        } else if self.0 % 4 == 1 {
            3
        } else if self.0 % 4 == 2 {
            5
        } else {
            7
        }
    }
}

/// Where the reload counter rests when no overflow is pending.
pub const NO_OVERFLOW: i8 = -1;

/// The timer block.
#[derive(Clone, Copy, PartialEq, Eq, Structural, Debug)]
pub struct Timer {
    /// The 16-bit divider; DIV shows its high byte.
    pub div: u16,
    pub tima: u8,
    pub tma: u8,
    pub control: TimerControl,
    pub enabled: bool,
    /// Raised by the cycle in which TIMA is reloaded, cleared by every other.
    pub request_interrupt: bool,
    /// Index of the divider bit that clocks TIMA.
    pub div_bit: u8,
    /// Enable AND selected divider bit, as of the previous cycle.
    pub previous_and: bool,
    /// Cycles left before a pending overflow reloads TIMA; negative when
    /// none is pending.
    pub overflow_delay: i8,
}

/// Bit `index` of the divider, as 2^index is at most 2^15.
pub open spec fn divider_bit(div: u16, index: u8) -> bool {
    index < 16 && (div >> index) & 1 == 1
}

pub fn divider_bit_set(div: u16, index: u8) -> (r: bool)
    ensures
        r == divider_bit(div, index),
{
    index < 16 && (div >> index) & 1 == 1
}

impl Timer {
    pub open spec fn power_on() -> Timer {
        Timer {
            div: 0,
            tima: 0,
            tma: 0,
            control: TimerControl(0),
            enabled: false,
            request_interrupt: false,
            div_bit: 9,
            previous_and: false,
            overflow_delay: NO_OVERFLOW,
        }
    }

    /// The first half of a T-cycle: a pending overflow counts down, and
    /// when it runs out TIMA is reloaded from TMA and the interrupt raised.
    pub open spec fn after_reload(self) -> Timer {
        if self.overflow_delay == 0 {
            Timer { tima: self.tma, request_interrupt: true, overflow_delay: NO_OVERFLOW, ..self }
        } else if self.overflow_delay > 0 {
            Timer {
                request_interrupt: false,
                overflow_delay: (self.overflow_delay - 1) as i8,
                ..self
            }
        } else {
            Timer { request_interrupt: false, ..self }
        }
    }

    /// The timer one T-cycle later: after the reload step the divider
    /// advances, and on a falling edge of (enable AND selected bit) TIMA
    /// counts up; when TIMA wraps, the reload is armed three cycles ahead.
    pub open spec fn tick(self) -> Timer {
        let t = self.after_reload();
        let div: u16 = if t.div == 0xFFFF {
            0
        } else {
            (t.div + 1) as u16
        };
        let and: bool = t.enabled && divider_bit(div, t.div_bit);
        if !and && t.previous_and {
            if t.tima == 0xFF {
                Timer { div, tima: 0, overflow_delay: 3, previous_and: and, ..t }
            } else {
                Timer { div, tima: (t.tima + 1) as u8, previous_and: and, ..t }
            }
        } else {
            Timer { div, previous_and: and, ..t }
        }
    }

    /// What a read of a timer register (0xFF04..0xFF08) returns.
    pub open spec fn read(self, address: u16) -> u8 {
        if address == 0xFF04 {
            (self.div / 256) as u8
        } else if address == 0xFF05 {
            self.tima
        } else if address == 0xFF06 {
            self.tma
        } else {
            self.control.0
        }
    }

    /// The timer after a write to one of its registers (0xFF04..0xFF08):
    /// any write to DIV clears the whole divider; a write to TIMA cancels
    /// a pending reload.
    pub open spec fn write(self, address: u16, value: u8) -> Timer {
        if address == 0xFF04 {
            Timer { div: 0, ..self }
        } else if address == 0xFF05 {
            Timer { tima: value, overflow_delay: NO_OVERFLOW, ..self }
        } else if address == 0xFF06 {
            Timer { tma: value, ..self }
        } else {
            Timer {
                control: TimerControl::of_byte(value),
                enabled: TimerControl::of_byte(value).enabled(),
                div_bit: TimerControl::of_byte(value).selected_bit(),
                ..self
            }
        }
    }

    pub fn new() -> (r: Timer)
        ensures
            r == Self::power_on(),
    {
        Timer {
            div: 0,
            tima: 0,
            tma: 0,
            control: TimerControl::from_bits_truncate(0),
            enabled: false,
            request_interrupt: false,
            div_bit: 9,
            previous_and: false,
            overflow_delay: NO_OVERFLOW,
        }
    }

    /// Advances the timer by one T-cycle.
    pub fn cycle(&mut self)
        ensures
            *final(self) == old(self).tick(),
    {
        self.request_interrupt = false;
        if self.overflow_delay == 0 {
            self.tima = self.tma;
            self.request_interrupt = true;
            self.overflow_delay = NO_OVERFLOW;
        } else if self.overflow_delay > 0 {
            self.overflow_delay = self.overflow_delay - 1;
        }
        self.div = self.div.wrapping_add(1);
        let and: bool = self.enabled && divider_bit_set(self.div, self.div_bit);
        if !and && self.previous_and {
            if self.tima == 0xFF {
                self.tima = 0;
                self.overflow_delay = 3;
            } else {
                self.tima = self.tima + 1;
            }
        }
        self.previous_and = and;
    }

    pub fn mem_read(&self, address: u16) -> (r: u8)
        requires
            0xFF04 <= address <= 0xFF07,
        ensures
            r == self.read(address),
    {
        if address == 0xFF04 {
            (self.div / 256) as u8
        } else if address == 0xFF05 {
            self.tima
        } else if address == 0xFF06 {
            self.tma
        } else {
            self.control.bits()
        }
    }

    pub fn mem_write(&mut self, address: u16, value: u8)
        requires
            0xFF04 <= address <= 0xFF07,
        ensures
            *final(self) == old(self).write(address, value),
    {
        if address == 0xFF04 {
            self.div = 0;
        } else if address == 0xFF05 {
            self.tima = value;
            self.overflow_delay = NO_OVERFLOW;
        } else if address == 0xFF06 {
            self.tma = value;
        } else {
            self.control = TimerControl::from_bits_truncate(value);
            self.enabled = (self.control.0 / 4) % 2 == 1;
            let select: u8 = self.control.0 % 4;
            self.div_bit = if select == 0 {
                9
            } else if select == 1 {
                3
            } else if select == 2 {
                5
            } else {
                7
            };
        }
    }

    /// Right after any write to DIV the divider is zero and DIV reads 0.
    pub proof fn lemma_div_write_reads_zero(self, value: u8)
        ensures
            self.write(0xFF04, value).div == 0,
            self.write(0xFF04, value).read(0xFF04) == 0,
    {
    }

    /// TIMA only changes in a cycle with a falling edge or a reload, and
    /// the interrupt is raised exactly by the reload.
    pub proof fn lemma_tick_interrupt(self)
        ensures
            self.tick().request_interrupt == (self.overflow_delay == 0),
            self.tick().request_interrupt ==> self.after_reload().tima == self.tma,
    {
    }
}

} // verus!
