//! The divider and the programmable counter.

use vstd::prelude::*;

verus! {

/// Timer registers and the running count of ticks seen.
#[derive(Debug, Clone, Copy, PartialEq, Eq, Structural)]
pub struct Timer {
    /// Divider, register `0xFF04`.
    pub div: u8,
    /// Counter, register `0xFF05`.
    pub tima: u8,
    /// Value the counter restarts from, register `0xFF06`.
    pub tma: u8,
    /// Control, register `0xFF07`: bit 2 enables the counter, bits 1-0 select its rate.
    pub tac: u8,
    /// Ticks seen, modulo 65536.
    pub ticker: u16,
}

impl Timer {
    /// Whether `loc` is one of the four timer registers.
    pub open spec fn owns(loc: u16) -> bool {
        0xFF04 <= loc <= 0xFF07
    }

    /// The counter runs: bit 2 of the control register.
    pub open spec fn enabled(self) -> bool {
        (self.tac / 4) % 2 == 1
    }

    /// Ticks per counter step, chosen by the low two control bits.
    pub open spec fn period(self) -> int {
        match self.tac % 4 {
            0 => 1024,
            1 => 16,
            2 => 64,
            _ => 256,
        }
    }

    /// The tick count after one more tick.
    pub open spec fn next_ticker(self) -> u16 {
        if self.ticker == 0xFFFF {
            0
        } else {
            (self.ticker + 1) as u16
        }
    }

    /// The counter steps on the coming tick.
    pub open spec fn counter_steps(self) -> bool {
        self.enabled() && self.next_ticker() as int % self.period() == 0
    }

    /// The coming tick overflows the counter and so requests a timer interrupt.
    pub open spec fn tick_fires(self) -> bool {
        self.counter_steps() && self.tima == 0xFF
    }

    /// The timer after one tick: the divider steps every 256 ticks, the
    /// counter at its chosen rate, restarting from `tma` after `0xFF`.
    pub open spec fn tick_spec(self) -> Timer {
        Timer {
            ticker: self.next_ticker(),
            div: if self.next_ticker() % 256 == 0 {
                if self.div == 0xFF {
                    0
                } else {
                    (self.div + 1) as u8
                }
            } else {
                self.div
            },
            tima: if self.counter_steps() {
                if self.tima == 0xFF {
                    self.tma
                } else {
                    (self.tima + 1) as u8
                }
            } else {
                self.tima
            },
            ..self
        }
    }

    /// The register at `loc`.
    pub open spec fn read_spec(self, loc: u16) -> u8 {
        if loc == 0xFF04 {
            self.div
        } else if loc == 0xFF05 {
            self.tima
        } else if loc == 0xFF06 {
            self.tma
        } else {
            self.tac
        }
    }

    /// The timer after `val` is written to `loc`; any write to the divider clears it.
    pub open spec fn write_spec(self, loc: u16, val: u8) -> Timer {
        if loc == 0xFF04 {
            Timer { div: 0, ..self }
        } else if loc == 0xFF05 {
            Timer { tima: val, ..self }
        } else if loc == 0xFF06 {
            Timer { tma: val, ..self }
        } else {
            Timer { tac: val, ..self }
        }
    }

    pub fn new() -> (r: Timer)
        ensures
            r == (Timer { div: 0, tima: 0, tma: 0, tac: 0, ticker: 0 }),
    {
        Timer { div: 0, tima: 0, tma: 0, tac: 0, ticker: 0 }
    }

    pub fn read(&self, loc: u16) -> (r: u8)
        requires
            Self::owns(loc),
        ensures
            r == self.read_spec(loc),
    {
        match loc {
            0xFF04 => self.div,
            0xFF05 => self.tima,
            0xFF06 => self.tma,
            _ => self.tac,
        }
    }

    pub fn write(&mut self, loc: u16, val: u8)
        requires
            Self::owns(loc),
        ensures
            *final(self) == old(self).write_spec(loc, val),
    {
        match loc {
            0xFF04 => self.div = 0,
            0xFF05 => self.tima = val,
            0xFF06 => self.tma = val,
            _ => self.tac = val,
        }
    }

    /// Advances the timer by one tick and says whether it requests an interrupt.
    pub fn tick(&mut self) -> (irq: bool)
        ensures
            *final(self) == old(self).tick_spec(),
            irq == old(self).tick_fires(),
    {
        self.ticker = self.ticker.wrapping_add(1);
        if self.ticker % 256 == 0 {
            self.div = self.div.wrapping_add(1);
        }
        let mut irq: bool = false;
        if self.is_timer_enabled() {
            let period: u16 = self.timer_clock();
            if self.ticker % period == 0 {
                if self.tima == 0xFF {
                    self.tima = self.tma;
                    irq = true;
                } else {
                    self.tima += 1;
                }
            }
        }
        irq
    }

    fn is_timer_enabled(&self) -> (r: bool)
        ensures
            r == self.enabled(),
    {
        (self.tac / 4) % 2 == 1
    }

    fn timer_clock(&self) -> (r: u16)
        ensures
            r == self.period(),
    {
        match self.tac % 4 {
            0 => 1024,
            1 => 16,
            2 => 64,
            _ => 256,
        }
    }
}

} // verus!
