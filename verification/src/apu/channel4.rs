//! Channel 4: noise from a 15-bit linear-feedback shift register.

use vstd::prelude::*;
use super::channel1::dac_level;
use super::envelope::{Envelope, EnvelopeState};

verus! {

/// Ticks between two shifts for a divisor code, before the clock shift:
/// 8, then 16 times the code.
pub open spec fn noise_divisor(code: u8) -> int {
    if code == 0 {
        8
    } else {
        16 * code
    }
}

/// `2^shift` for a four-bit shift.
pub open spec fn clock_scale(shift: u8) -> int {
    if shift == 0 {
        1
    } else if shift == 1 {
        2
    } else if shift == 2 {
        4
    } else if shift == 3 {
        8
    } else if shift == 4 {
        16
    } else if shift == 5 {
        32
    } else if shift == 6 {
        64
    } else if shift == 7 {
        128
    } else if shift == 8 {
        256
    } else if shift == 9 {
        512
    } else if shift == 10 {
        1024
    } else if shift == 11 {
        2048
    } else if shift == 12 {
        4096
    } else if shift == 13 {
        8192
    } else if shift == 14 {
        16384
    } else {
        32768
    }
}

/// The shift register after one shift: the exclusive or of its two lowest
/// bits enters at bit 14 and, in the short mode, at bit 6 too.
pub open spec fn lfsr_next(lfsr: u16, short: bool) -> u16 {
    let result: u16 = (lfsr & 1) ^ ((lfsr >> 1) & 1);
    let shifted: u16 = (lfsr >> 1) | (result << 14);
    if short {
        (shifted & !0x40u16) | (result << 6)
    } else {
        shifted
    }
}

#[derive(Clone, Copy, Debug, PartialEq, Eq, Structural)]
pub struct Channel4 {
    /// Length enable, bit 6 of `0xFF23`.
    pub counter_selection: bool,
    /// 1 for the short mode of the shift register.
    pub counter_step: u8,
    pub dac_enabled: bool,
    /// Three-bit divisor code.
    pub dividing_ratio: u8,
    pub enabled: bool,
    pub envelope: Envelope,
    pub envelope_period_counter: u8,
    pub envelope_running: bool,
    pub frequency_count: u32,
    pub length_counter: u8,
    pub lfsr: u16,
    pub output_volume: u8,
    pub sequence_pointer: u32,
    /// Four-bit clock shift.
    pub shift_clock_frequency: u8,
    pub status: bool,
    pub volume: u8,
}

impl Channel4 {
    /// The channel at power-on: off, every register 0, the converter on.
    pub open spec fn initial() -> Channel4 {
        Channel4 {
            counter_selection: false,
            counter_step: 0,
            dac_enabled: true,
            dividing_ratio: 0,
            enabled: false,
            envelope: Envelope { initial_volume: 0, direction: 0, period: 0 },
            envelope_period_counter: 0,
            envelope_running: false,
            frequency_count: 0,
            length_counter: 0,
            lfsr: 0,
            output_volume: 0,
            sequence_pointer: 0,
            shift_clock_frequency: 0,
            status: false,
            volume: 0,
        }
    }

    /// The addresses at which the device answers.
    pub open spec fn owns(loc: u16) -> bool {
        0xFF20 <= loc <= 0xFF23
    }

    /// What holds of a valid value: every field is in the range that the operations keep it in.
    pub open spec fn wf(self) -> bool {
        &&& self.envelope.wf()
        &&& self.volume <= 15
        &&& self.counter_step <= 1
        &&& self.dividing_ratio <= 7
        &&& self.shift_clock_frequency <= 15
    }

    /// Ticks between two shifts: the divisor scaled by the clock shift, with
    /// no bit of the product lost.
    pub open spec fn period(self) -> u32 {
        (noise_divisor(self.dividing_ratio) * clock_scale(self.shift_clock_frequency)) as u32
    }

    /// What a read at `loc` answers.
    pub open spec fn read_spec(self, loc: u16) -> u8 {
        if loc == 0xFF20 {
            self.length_counter
        } else if loc == 0xFF21 {
            self.envelope.read_spec()
        } else if loc == 0xFF22 {
            (self.shift_clock_frequency * 16 + self.counter_step * 8 + self.dividing_ratio) as u8
        } else if self.counter_selection {
            0x40
        } else {
            0
        }
    }

    /// The channel after a trigger: the generator runs from the start of its period, and an expired length counter is full again.
    pub open spec fn initialize_spec(self) -> Channel4 {
        Channel4 {
            enabled: true,
            length_counter: if self.length_counter == 0 {
                63
            } else {
                self.length_counter
            },
            frequency_count: self.period(),
            sequence_pointer: 0,
            envelope_running: true,
            envelope_period_counter: self.envelope.period,
            volume: self.envelope.initial_volume,
            lfsr: 0x7FFF,
            ..self
        }
    }

    /// The state after `val` is written at `loc`.
    pub open spec fn write_spec(self, loc: u16, val: u8) -> Channel4 {
        if loc == 0xFF20 {
            Channel4 { length_counter: val % 64, ..self }
        } else if loc == 0xFF21 {
            Channel4 { dac_enabled: val >= 8, envelope: Envelope::of(val), ..self }
        } else if loc == 0xFF22 {
            Channel4 {
                shift_clock_frequency: val / 16,
                counter_step: (val / 8) % 2,
                dividing_ratio: val % 8,
                ..self
            }
        } else {
            let c = Channel4 { status: val >= 128, counter_selection: (val / 64) % 2 == 1, ..self };
            if val >= 128 {
                c.initialize_spec()
            } else {
                c
            }
        }
    }

    /// The channel after one tick: when the frequency count has run out the
    /// register shifts, and the output takes the volume if the register's
    /// lowest bit is then 0.
    pub open spec fn tick_spec(self) -> Channel4 {
        if self.frequency_count > 0 {
            Channel4 { frequency_count: (self.frequency_count - 1) as u32, ..self }
        } else {
            let lfsr = lfsr_next(self.lfsr, self.counter_step == 1);
            Channel4 {
                frequency_count: self.period(),
                lfsr,
                output_volume: if self.enabled && self.dac_enabled && lfsr % 2 == 0 {
                    self.volume
                } else {
                    0
                },
                ..self
            }
        }
    }

    /// The channel after one tick of the length clock: with the length enabled the counter runs down, and at 0 the channel goes off.
    pub open spec fn length_step_spec(self) -> Channel4 {
        if self.counter_selection && self.length_counter > 0 {
            if self.length_counter == 1 {
                Channel4 { length_counter: 0, status: false, enabled: false, ..self }
            } else {
                Channel4 { length_counter: (self.length_counter - 1) as u8, ..self }
            }
        } else {
            self
        }
    }

    /// The running state of the envelope.
    pub open spec fn envelope_state(self) -> EnvelopeState {
        EnvelopeState {
            volume: self.volume,
            counter: self.envelope_period_counter,
            running: self.envelope_running,
        }
    }

    /// The channel after one tick of the envelope clock.
    pub open spec fn envelope_step_spec(self) -> Channel4 {
        let s = self.envelope.step_spec(self.envelope_state(), false);
        Channel4 {
            volume: s.volume,
            envelope_period_counter: s.counter,
            envelope_running: s.running,
            ..self
        }
    }

    /// The wave: the lowest bit of the shift register, inverted.
    pub open spec fn waveform(self) -> u8 {
        if self.lfsr % 2 == 0 {
            1
        } else {
            0
        }
    }

    /// The digital level: the volume while the generator runs and the wave is high.
    pub open spec fn level(self) -> int {
        if self.enabled && self.waveform() == 1 {
            self.volume as int
        } else {
            0
        }
    }

    /// What the channel adds to a mix, in fifteenths of full scale.
    pub open spec fn dac_spec(self) -> int {
        if self.dac_enabled {
            dac_level(self.level())
        } else {
            0
        }
    }

    pub fn new() -> (r: Self)
        ensures
            r.wf(),
            r == Self::initial(),
    {
        Channel4 {
            counter_selection: false,
            counter_step: 0,
            dac_enabled: true,
            dividing_ratio: 0,
            enabled: false,
            envelope: Envelope::new(),
            envelope_period_counter: 0,
            envelope_running: false,
            frequency_count: 0,
            length_counter: 0,
            lfsr: 0,
            output_volume: 0,
            sequence_pointer: 0,
            shift_clock_frequency: 0,
            status: false,
            volume: 0,
        }
    }

    pub fn is_valid(&self) -> (r: bool)
        ensures
            r == self.wf(),
    {
        self.envelope.is_valid() && self.volume <= 15 && self.counter_step <= 1
            && self.dividing_ratio <= 7 && self.shift_clock_frequency <= 15
    }

    #[verifier::rlimit(50)]
    pub fn read(&self, loc: u16) -> (r: u8)
        requires
            self.wf(),
            Self::owns(loc),
        ensures
            r == self.read_spec(loc),
    {
        match loc {
            0xFF20 => self.length_counter,
            0xFF21 => self.envelope.read(),
            0xFF22 => self.shift_clock_frequency * 16 + self.counter_step * 8 + self.dividing_ratio,
            _ => if self.counter_selection {
                0x40
            } else {
                0
            },
        }
    }

    #[verifier::rlimit(50)]
    pub fn write(&mut self, loc: u16, val: u8)
        requires
            old(self).wf(),
            Self::owns(loc),
        ensures
            final(self).wf(),
            *final(self) == old(self).write_spec(loc, val),
    {
        match loc {
            0xFF20 => {
                self.length_counter = val % 64;
            },
            0xFF21 => {
                self.dac_enabled = val >= 8;
                self.envelope.write(val);
            },
            0xFF22 => {
                self.shift_clock_frequency = val / 16;
                self.counter_step = (val / 8) % 2;
                self.dividing_ratio = val % 8;
            },
            _ => {
                self.status = val >= 128;
                self.counter_selection = (val / 64) % 2 == 1;
                if self.status {
                    self.initialize();
                }
            },
        }
    }

    fn reload(&self) -> (r: u32)
        requires
            self.wf(),
        ensures
            r == self.period(),
    {
        let divisor: u32 = if self.dividing_ratio == 0 {
            8
        } else {
            16 * self.dividing_ratio as u32
        };
        let scale: u32 = match self.shift_clock_frequency {
            0 => 1,
            1 => 2,
            2 => 4,
            3 => 8,
            4 => 16,
            5 => 32,
            6 => 64,
            7 => 128,
            8 => 256,
            9 => 512,
            10 => 1024,
            11 => 2048,
            12 => 4096,
            13 => 8192,
            14 => 16384,
            _ => 32768,
        };
        assert(divisor * scale <= 112 * 32768) by (nonlinear_arith)
            requires
                divisor <= 112,
                scale <= 32768,
        ;
        divisor * scale
    }

    #[verifier::rlimit(50)]
    pub fn tick(&mut self)
        requires
            old(self).wf(),
        ensures
            final(self).wf(),
            *final(self) == old(self).tick_spec(),
    {
        if self.frequency_count > 0 {
            self.frequency_count -= 1;
        } else {
            self.frequency_count = self.reload();
            let result: u16 = (self.lfsr & 1) ^ ((self.lfsr >> 1) & 1);
            self.lfsr = (self.lfsr >> 1) | (result << 14);
            if self.counter_step == 1 {
                self.lfsr = (self.lfsr & !0x40u16) | (result << 6);
            }
            if self.enabled && self.dac_enabled && self.lfsr % 2 == 0 {
                self.output_volume = self.volume;
            } else {
                self.output_volume = 0;
            }
        }
    }

    /// Restarts the channel, as a write of bit 7 to `0xFF23` does.
    #[verifier::rlimit(50)]
    pub fn initialize(&mut self)
        requires
            old(self).wf(),
        ensures
            final(self).wf(),
            *final(self) == old(self).initialize_spec(),
    {
        self.enabled = true;
        if self.length_counter == 0 {
            self.length_counter = 63;
        }
        self.frequency_count = self.reload();
        self.sequence_pointer = 0;
        self.envelope_running = true;
        self.envelope_period_counter = self.envelope.period;
        self.volume = self.envelope.initial_volume;
        self.lfsr = 0x7FFF;
    }

    pub fn length_step(&mut self)
        requires
            old(self).wf(),
        ensures
            final(self).wf(),
            *final(self) == old(self).length_step_spec(),
    {
        if self.counter_selection && self.length_counter > 0 {
            self.length_counter -= 1;
            if self.length_counter == 0 {
                self.status = false;
                self.enabled = false;
            }
        }
    }

    pub fn envelope_step(&mut self)
        requires
            old(self).wf(),
        ensures
            final(self).wf(),
            *final(self) == old(self).envelope_step_spec(),
    {
        let s = self.envelope.step(
            EnvelopeState {
                volume: self.volume,
                counter: self.envelope_period_counter,
                running: self.envelope_running,
            },
            false,
        );
        self.volume = s.volume;
        self.envelope_period_counter = s.counter;
        self.envelope_running = s.running;
    }

    pub fn waveform_output(&self) -> (r: u8)
        ensures
            r == self.waveform(),
            r <= 1,
    {
        if self.lfsr % 2 == 0 {
            1
        } else {
            0
        }
    }

    pub fn volume_output(&self) -> (r: u8)
        requires
            self.wf(),
        ensures
            r == self.level(),
            r <= 15,
    {
        if self.enabled && self.waveform_output() == 1 {
            self.volume
        } else {
            0
        }
    }

    pub fn dac_output(&self) -> (r: i8)
        requires
            self.wf(),
        ensures
            r == self.dac_spec(),
            -15 <= r <= 15,
            !self.dac_enabled ==> r == 0,
    {
        if self.dac_enabled {
            (2 * self.volume_output()) as i8 - 15
        } else {
            0
        }
    }
}

} // verus!
