//! Channel 1: a square wave with volume envelope and frequency sweep.

use vstd::prelude::*;
use super::envelope::{Envelope, EnvelopeState};
use super::pattern::{duty_level, pattern_code, pattern_from_register, pattern_of, pattern_to_u8, wave_level, Pattern};
use super::sweep::Sweep;

verus! {

/// `2^shift` for a three-bit shift.
pub open spec fn shift_divisor(shift: u8) -> int {
    if shift == 0 {
        1
    } else if shift == 1 {
        2
    } else if shift == 2 {
        4
    } else if shift == 3 {
        8
    } else if shift == 4 {
        16
    } else if shift == 5 {
        32
    } else if shift == 6 {
        64
    } else {
        128
    }
}

/// Analog level of a converter, in fifteenths of full scale, for a digital
/// level from 0 to 15: from -15 to 15.
pub open spec fn dac_level(digital: int) -> int {
    2 * digital - 15
}

#[derive(Clone, Copy, Debug, PartialEq, Eq, Structural)]
pub struct Channel1 {
    /// Length enable, bit 6 of `0xFF14`: the length counter may switch the channel off.
    pub counter_selection: bool,
    /// The converter is on: the envelope register holds volume or direction.
    pub dac_enabled: bool,
    /// The generator runs.
    pub enabled: bool,
    pub envelope: Envelope,
    pub envelope_period_counter: u8,
    pub envelope_running: bool,
    /// Ticks left before the wave moves a step on.
    pub frequency_count: u16,
    /// The eleven-bit frequency of `0xFF13` and `0xFF14`.
    pub frequency_load: u16,
    pub length_counter: u8,
    pub output_volume: u8,
    /// Step of the wave's period, 0 to 7.
    pub sequence_pointer: u8,
    /// The channel is on, as the sound-on register shows it.
    pub status: bool,
    pub sweep: Sweep,
    pub sweep_enable: bool,
    /// The frequency that the sweep works on.
    pub sweep_shadow: u16,
    pub sweep_period_counter: u8,
    /// The envelope's volume now.
    pub volume: u8,
    pub wave_pattern: Pattern,
}

impl Channel1 {
    /// The channel at power-on: off, silent, every register 0.
    pub open spec fn initial() -> Channel1 {
        Channel1 {
            counter_selection: false,
            dac_enabled: false,
            enabled: false,
            envelope: Envelope { initial_volume: 0, direction: 0, period: 0 },
            envelope_period_counter: 0,
            envelope_running: false,
            frequency_count: 0,
            frequency_load: 0,
            length_counter: 0,
            output_volume: 0,
            sequence_pointer: 0,
            status: false,
            sweep: Sweep { period: 0, direction: 0, shift: 0 },
            sweep_enable: false,
            sweep_shadow: 0,
            sweep_period_counter: 0,
            volume: 0,
            wave_pattern: Pattern::HalfQuarter,
        }
    }

    /// The addresses at which the device answers.
    pub open spec fn owns(loc: u16) -> bool {
        0xFF10 <= loc <= 0xFF14
    }

    /// What holds of a valid value: every field is in the range that the operations keep it in.
    pub open spec fn wf(self) -> bool {
        &&& self.envelope.wf()
        &&& self.sweep.wf()
        &&& self.volume <= 15
        &&& self.frequency_load <= 2047
        &&& self.sweep_shadow <= 2047
        &&& self.sequence_pointer <= 7
    }

    /// Ticks between two steps of the wave.
    pub open spec fn period(self) -> u16 {
        ((2048 - self.frequency_load) * 4) as u16
    }

    /// What a read at `loc` answers.
    pub open spec fn read_spec(self, loc: u16) -> u8 {
        if loc == 0xFF10 {
            self.sweep.read_spec()
        } else if loc == 0xFF11 {
            (pattern_code(self.wave_pattern) * 64) as u8
        } else if loc == 0xFF12 {
            self.envelope.read_spec()
        } else if loc == 0xFF13 {
            (self.frequency_load % 256) as u8
        } else if self.counter_selection {
            0x40
        } else {
            0
        }
    }

    /// The frequency that the sweep computes next: the shadow frequency plus
    /// or minus itself shifted right.
    pub open spec fn swept(self) -> u16 {
        let delta = (self.sweep_shadow as int) / shift_divisor(self.sweep.shift);
        if self.sweep.direction == 0 {
            (self.sweep_shadow + delta) as u16
        } else {
            (self.sweep_shadow - delta) as u16
        }
    }

    /// The channel after the sweep has computed a frequency: beyond eleven
    /// bits the generator stops.
    pub open spec fn sweep_check_spec(self) -> Channel1 {
        if self.swept() > 2047 {
            Channel1 { enabled: false, ..self }
        } else {
            self
        }
    }

    /// The channel after a trigger: the generator runs from the start of its
    /// period and of the wave, an expired length counter is full again, and
    /// the envelope starts over.
    pub open spec fn initialize_spec(self) -> Channel1 {
        let counter: u8 = if self.sweep.period == 0 {
            8
        } else {
            self.sweep.period
        };
        let c = Channel1 {
            enabled: true,
            length_counter: if self.length_counter == 0 {
                64
            } else {
                self.length_counter
            },
            frequency_count: self.period(),
            sequence_pointer: 0,
            envelope_running: true,
            envelope_period_counter: self.envelope.period,
            volume: self.envelope.initial_volume,
            sweep_shadow: self.frequency_load,
            sweep_period_counter: counter,
            sweep_enable: true,
            ..self
        };
        if self.sweep.shift > 0 {
            c.sweep_check_spec()
        } else {
            c
        }
    }

    /// The state after `val` is written at `loc`.
    pub open spec fn write_spec(self, loc: u16, val: u8) -> Channel1 {
        if loc == 0xFF10 {
            Channel1 { sweep: Sweep::of(val), ..self }
        } else if loc == 0xFF11 {
            Channel1 {
                wave_pattern: pattern_of(val / 64)->0,
                length_counter: (64 - val % 64) as u8,
                ..self
            }
        } else if loc == 0xFF12 {
            Channel1 {
                envelope: Envelope::of(val),
                dac_enabled: val >= 8,
                volume: val / 16,
                ..self
            }
        } else if loc == 0xFF13 {
            Channel1 { frequency_load: ((self.frequency_load / 256) * 256 + val) as u16, ..self }
        } else {
            let c = Channel1 {
                status: val >= 128,
                counter_selection: (val / 64) % 2 == 1,
                frequency_load: (self.frequency_load % 256 + (val % 8) * 256) as u16,
                ..self
            };
            if val >= 128 {
                c.initialize_spec()
            } else {
                c
            }
        }
    }

    /// The channel after one tick: when the frequency count has run out the
    /// wave moves a step on and the output takes the envelope's volume; the
    /// output is 0 while the wave is low.
    pub open spec fn tick_spec(self) -> Channel1 {
        let c = if self.frequency_count > 0 {
            Channel1 { frequency_count: (self.frequency_count - 1) as u16, ..self }
        } else {
            Channel1 {
                frequency_count: self.period(),
                sequence_pointer: ((self.sequence_pointer + 1) % 8) as u8,
                output_volume: if self.enabled && self.dac_enabled {
                    self.volume
                } else {
                    0
                },
                ..self
            }
        };
        if duty_level(c.wave_pattern, c.sequence_pointer) == 0 {
            Channel1 { output_volume: 0, ..c }
        } else {
            c
        }
    }

    /// The channel after one tick of the length clock: with the length
    /// enabled the counter runs down, and at 0 the channel goes off.
    pub open spec fn length_step_spec(self) -> Channel1 {
        if self.counter_selection && self.length_counter > 0 {
            if self.length_counter == 1 {
                Channel1 { length_counter: 0, status: false, enabled: false, ..self }
            } else {
                Channel1 { length_counter: (self.length_counter - 1) as u8, ..self }
            }
        } else {
            self
        }
    }

    /// The running state of the envelope.
    pub open spec fn envelope_state(self) -> EnvelopeState {
        EnvelopeState {
            volume: self.volume,
            counter: self.envelope_period_counter,
            running: self.envelope_running,
        }
    }

    /// The channel after one tick of the envelope clock.
    pub open spec fn envelope_step_spec(self) -> Channel1 {
        let s = self.envelope.step_spec(self.envelope_state(), false);
        Channel1 {
            volume: s.volume,
            envelope_period_counter: s.counter,
            envelope_running: s.running,
            ..self
        }
    }

    /// The channel after one tick of the sweep clock: when the sweep count
    /// has run out, a computed frequency within eleven bits, with a shift
    /// that is not 0, becomes the channel's frequency, and the next one is
    /// computed from it at once.
    pub open spec fn sweep_step_spec(self) -> Channel1 {
        if self.sweep_period_counter > 0 {
            Channel1 { sweep_period_counter: (self.sweep_period_counter - 1) as u8, ..self }
        } else {
            let c = (Channel1 { sweep_period_counter: self.sweep.period, ..self }).sweep_check_spec();
            if c.swept() <= 2047 && c.sweep.shift > 0 {
                (Channel1 { sweep_shadow: c.swept(), frequency_load: c.swept(), ..c }).sweep_check_spec()
            } else {
                c
            }
        }
    }

    /// What the channel adds to a mix, in fifteenths of full scale: nothing
    /// with the converter off; else the level of the volume while the
    /// generator runs and the wave is high, and of 0 otherwise.
    pub open spec fn dac_spec(self) -> int {
        if self.dac_enabled {
            dac_level(
                if self.enabled && duty_level(self.wave_pattern, self.sequence_pointer) == 1 {
                    self.volume as int
                } else {
                    0
                },
            )
        } else {
            0
        }
    }

    pub fn new() -> (r: Channel1)
        ensures
            r.wf(),
            r == Self::initial(),
    {
        Channel1 {
            counter_selection: false,
            dac_enabled: false,
            enabled: false,
            envelope: Envelope::new(),
            envelope_period_counter: 0,
            envelope_running: false,
            frequency_count: 0,
            frequency_load: 0,
            length_counter: 0,
            output_volume: 0,
            sequence_pointer: 0,
            status: false,
            sweep: Sweep::new(),
            sweep_enable: false,
            sweep_shadow: 0,
            sweep_period_counter: 0,
            volume: 0,
            wave_pattern: Pattern::HalfQuarter,
        }
    }

    pub fn is_valid(&self) -> (r: bool)
        ensures
            r == self.wf(),
    {
        self.envelope.is_valid() && self.sweep.is_valid() && self.volume <= 15
            && self.frequency_load <= 2047 && self.sweep_shadow <= 2047 && self.sequence_pointer
            <= 7
    }

    #[verifier::rlimit(50)]
    pub fn read(&self, loc: u16) -> (r: u8)
        requires
            self.wf(),
            Self::owns(loc),
        ensures
            r == self.read_spec(loc),
    {
        match loc {
            0xFF10 => self.sweep.read(),
            0xFF11 => pattern_to_u8(self.wave_pattern) * 64,
            0xFF12 => self.envelope.read(),
            0xFF13 => (self.frequency_load % 256) as u8,
            _ => if self.counter_selection {
                0x40
            } else {
                0
            },
        }
    }

    #[verifier::rlimit(50)]
    pub fn write(&mut self, loc: u16, val: u8)
        requires
            old(self).wf(),
            Self::owns(loc),
        ensures
            final(self).wf(),
            *final(self) == old(self).write_spec(loc, val),
    {
        match loc {
            0xFF10 => {
                self.sweep.write(val);
            },
            0xFF11 => {
                self.wave_pattern = pattern_from_register(val);
                self.length_counter = 64 - val % 64;
            },
            0xFF12 => {
                self.envelope.write(val);
                self.dac_enabled = val >= 8;
                self.volume = self.envelope.initial_volume;
            },
            0xFF13 => self.write_frequency(val),
            _ => self.write_control(val),
        }
    }

    /// A write to the low byte of the frequency.
    #[verifier::rlimit(50)]
    fn write_frequency(&mut self, val: u8)
        requires
            old(self).wf(),
        ensures
            final(self).wf(),
            *final(self) == old(self).write_spec(0xFF13, val),
    {
        self.frequency_load = (self.frequency_load / 256) * 256 + val as u16;
    }

    /// A write to the control register: the high bits of the frequency, the
    /// length enable and the trigger.
    #[verifier::rlimit(50)]
    fn write_control(&mut self, val: u8)
        requires
            old(self).wf(),
        ensures
            final(self).wf(),
            *final(self) == old(self).write_spec(0xFF14, val),
    {
        self.status = val >= 128;
        self.counter_selection = (val / 64) % 2 == 1;
        self.frequency_load = self.frequency_load % 256 + ((val % 8) as u16) * 256;
        if self.status {
            self.initialize();
        }
    }

    #[verifier::rlimit(50)]
    pub fn tick(&mut self)
        requires
            old(self).wf(),
        ensures
            final(self).wf(),
            *final(self) == old(self).tick_spec(),
    {
        if self.frequency_count > 0 {
            self.frequency_count -= 1;
        } else {
            self.frequency_count = (2048 - self.frequency_load) * 4;
            self.sequence_pointer = (self.sequence_pointer + 1) % 8;
            if self.enabled && self.dac_enabled {
                self.output_volume = self.volume;
            } else {
                self.output_volume = 0;
            }
        }
        if wave_level(self.wave_pattern, self.sequence_pointer) == 0 {
            self.output_volume = 0;
        }
    }

    pub fn length_step(&mut self)
        requires
            old(self).wf(),
        ensures
            final(self).wf(),
            *final(self) == old(self).length_step_spec(),
    {
        if self.counter_selection && self.length_counter > 0 {
            self.length_counter -= 1;
            if self.length_counter == 0 {
                self.status = false;
                self.enabled = false;
            }
        }
    }

    pub fn envelope_step(&mut self)
        requires
            old(self).wf(),
        ensures
            final(self).wf(),
            *final(self) == old(self).envelope_step_spec(),
    {
        let s = self.envelope.step(
            EnvelopeState {
                volume: self.volume,
                counter: self.envelope_period_counter,
                running: self.envelope_running,
            },
            false,
        );
        self.volume = s.volume;
        self.envelope_period_counter = s.counter;
        self.envelope_running = s.running;
    }

    #[verifier::rlimit(50)]
    pub fn sweep_step(&mut self)
        requires
            old(self).wf(),
        ensures
            final(self).wf(),
            *final(self) == old(self).sweep_step_spec(),
    {
        if self.sweep_period_counter > 0 {
            self.sweep_period_counter -= 1;
        } else {
            self.sweep_period_counter = self.sweep.period;
            let new_frequency: u16 = self.sweep_calculation();
            if new_frequency <= 2047 && self.sweep.shift > 0 {
                self.sweep_shadow = new_frequency;
                self.frequency_load = new_frequency;
                let _ = self.sweep_calculation();
            }
        }
    }

    /// Computes the next frequency of the sweep and stops the generator if
    /// it does not fit in eleven bits.
    #[verifier::rlimit(50)]
    pub fn sweep_calculation(&mut self) -> (r: u16)
        requires
            old(self).wf(),
        ensures
            final(self).wf(),
            r == old(self).swept(),
            *final(self) == old(self).sweep_check_spec(),
    {
        let divisor: u16 = match self.sweep.shift {
            0 => 1,
            1 => 2,
            2 => 4,
            3 => 8,
            4 => 16,
            5 => 32,
            6 => 64,
            _ => 128,
        };
        let delta: u16 = self.sweep_shadow / divisor;
        let new_frequency: u16 = if self.sweep.direction == 0 {
            self.sweep_shadow + delta
        } else {
            self.sweep_shadow - delta
        };
        if new_frequency > 2047 {
            self.enabled = false;
        }
        new_frequency
    }

    /// Restarts the channel, as a write of bit 7 to `0xFF14` does.
    #[verifier::rlimit(50)]
    pub fn initialize(&mut self)
        requires
            old(self).wf(),
        ensures
            final(self).wf(),
            *final(self) == old(self).initialize_spec(),
    {
        self.enabled = true;
        if self.length_counter == 0 {
            self.length_counter = 64;
        }
        self.frequency_count = (2048 - self.frequency_load) * 4;
        self.sequence_pointer = 0;
        self.envelope_running = true;
        self.envelope_period_counter = self.envelope.period;
        self.volume = self.envelope.initial_volume;
        self.sweep_shadow = self.frequency_load;
        self.sweep_period_counter = if self.sweep.period == 0 {
            8
        } else {
            self.sweep.period
        };
        self.sweep_enable = self.sweep_period_counter > 0 || self.sweep.shift > 0;
        if self.sweep.shift > 0 {
            let _ = self.sweep_calculation();
        }
    }

    pub fn dac_output(&self) -> (r: i8)
        requires
            self.wf(),
        ensures
            r == self.dac_spec(),
            -15 <= r <= 15,
            !self.dac_enabled ==> r == 0,
    {
        if self.dac_enabled {
            let digital: u8 = if self.enabled && wave_level(
                self.wave_pattern,
                self.sequence_pointer,
            ) == 1 {
                self.volume
            } else {
                0
            };
            (2 * digital) as i8 - 15
        } else {
            0
        }
    }
}

} // verus!
