//! Channel 2: a square wave with volume envelope.

use vstd::prelude::*;
use super::channel1::dac_level;
use super::envelope::{Envelope, EnvelopeState};
use super::pattern::{duty_level, pattern_code, pattern_from_register, pattern_of, pattern_to_u8, wave_level, Pattern};

verus! {

#[derive(Clone, Copy, Debug, PartialEq, Eq, Structural)]
pub struct Channel2 {
    /// Length enable, bit 6 of `0xFF19`.
    pub counter_selection: bool,
    pub dac_enabled: bool,
    pub enabled: bool,
    pub envelope: Envelope,
    pub envelope_period_counter: u8,
    pub envelope_running: bool,
    pub frequency_count: u16,
    pub frequency_load: u16,
    pub length_counter: u8,
    pub output_volume: u8,
    pub sequence_pointer: u8,
    pub status: bool,
    pub volume: u8,
    pub wave_pattern: Pattern,
}

impl Channel2 {
    /// The channel at power-on: off, silent, every register 0.
    pub open spec fn initial() -> Channel2 {
        Channel2 {
            counter_selection: false,
            dac_enabled: false,
            enabled: false,
            envelope: Envelope { initial_volume: 0, direction: 0, period: 0 },
            envelope_period_counter: 0,
            envelope_running: false,
            frequency_count: 0,
            frequency_load: 0,
            length_counter: 0,
            output_volume: 0,
            sequence_pointer: 0,
            status: false,
            volume: 0,
            wave_pattern: Pattern::HalfQuarter,
        }
    }

    /// The addresses at which the device answers.
    pub open spec fn owns(loc: u16) -> bool {
        0xFF15 <= loc <= 0xFF19
    }

    /// What holds of a valid value: every field is in the range that the operations keep it in.
    pub open spec fn wf(self) -> bool {
        &&& self.envelope.wf()
        &&& self.volume <= 15
        &&& self.frequency_load <= 2047
        &&& self.sequence_pointer <= 7
    }

    /// Ticks between two steps of the generator.
    pub open spec fn period(self) -> u16 {
        ((2048 - self.frequency_load) * 4) as u16
    }

    /// What a register reads as: bits that cannot be read back are 1.
    pub open spec fn read_spec(self, loc: u16) -> u8 {
        if loc == 0xFF15 {
            0xFF
        } else if loc == 0xFF16 {
            (0x3F + pattern_code(self.wave_pattern) * 64) as u8
        } else if loc == 0xFF17 {
            self.envelope.read_spec()
        } else if loc == 0xFF18 {
            0xFF
        } else if self.counter_selection {
            0xFF
        } else {
            0xBF
        }
    }

    /// The channel after a trigger: the generator runs from the start of its period, and an expired length counter is full again.
    pub open spec fn initialize_spec(self) -> Channel2 {
        Channel2 {
            enabled: true,
            length_counter: if self.length_counter == 0 {
                64
            } else {
                self.length_counter
            },
            frequency_count: self.period(),
            sequence_pointer: 0,
            envelope_running: true,
            envelope_period_counter: self.envelope.period,
            volume: self.envelope.initial_volume,
            ..self
        }
    }

    /// The state after `val` is written at `loc`.
    pub open spec fn write_spec(self, loc: u16, val: u8) -> Channel2 {
        if loc == 0xFF15 {
            self
        } else if loc == 0xFF16 {
            Channel2 {
                wave_pattern: pattern_of(val / 64)->0,
                length_counter: (64 - val % 64) as u8,
                ..self
            }
        } else if loc == 0xFF17 {
            Channel2 {
                envelope: Envelope::of(val),
                dac_enabled: val >= 8,
                volume: val / 16,
                ..self
            }
        } else if loc == 0xFF18 {
            Channel2 { frequency_load: ((self.frequency_load / 256) * 256 + val) as u16, ..self }
        } else {
            let c = Channel2 {
                status: val >= 128,
                counter_selection: (val / 64) % 2 == 1,
                frequency_load: (self.frequency_load % 256 + (val % 8) * 256) as u16,
                ..self
            };
            if val >= 128 {
                c.initialize_spec()
            } else {
                c
            }
        }
    }

    /// The channel after one tick: when the frequency count has run out the
    /// wave moves a step on.
    pub open spec fn tick_spec(self) -> Channel2 {
        if self.frequency_count > 0 {
            Channel2 { frequency_count: (self.frequency_count - 1) as u16, ..self }
        } else {
            Channel2 {
                frequency_count: self.period(),
                sequence_pointer: ((self.sequence_pointer + 1) % 8) as u8,
                ..self
            }
        }
    }

    /// The channel after one tick of the length clock: with the length enabled the counter runs down, and at 0 the channel goes off.
    pub open spec fn length_step_spec(self) -> Channel2 {
        if self.counter_selection && self.length_counter > 0 {
            if self.length_counter == 1 {
                Channel2 { length_counter: 0, status: false, enabled: false, ..self }
            } else {
                Channel2 { length_counter: (self.length_counter - 1) as u8, ..self }
            }
        } else {
            self
        }
    }

    /// The running state of the envelope.
    pub open spec fn envelope_state(self) -> EnvelopeState {
        EnvelopeState {
            volume: self.volume,
            counter: self.envelope_period_counter,
            running: self.envelope_running,
        }
    }

    /// The channel after one tick of the envelope clock; the volume does not
    /// move while the period is 0.
    pub open spec fn envelope_step_spec(self) -> Channel2 {
        let s = self.envelope.step_spec(self.envelope_state(), true);
        Channel2 {
            volume: s.volume,
            envelope_period_counter: s.counter,
            envelope_running: s.running,
            ..self
        }
    }

    /// What the channel adds to a mix, in fifteenths of full scale.
    pub open spec fn dac_spec(self) -> int {
        if self.dac_enabled {
            dac_level(
                if self.enabled && duty_level(self.wave_pattern, self.sequence_pointer) == 1 {
                    self.volume as int
                } else {
                    0
                },
            )
        } else {
            0
        }
    }

    pub fn new() -> (r: Self)
        ensures
            r.wf(),
            r == Self::initial(),
    {
        Channel2 {
            counter_selection: false,
            dac_enabled: false,
            enabled: false,
            envelope: Envelope::new(),
            envelope_running: false,
            envelope_period_counter: 0,
            frequency_count: 0,
            frequency_load: 0,
            length_counter: 0,
            output_volume: 0,
            sequence_pointer: 0,
            status: false,
            volume: 0,
            wave_pattern: Pattern::HalfQuarter,
        }
    }

    pub fn is_valid(&self) -> (r: bool)
        ensures
            r == self.wf(),
    {
        self.envelope.is_valid() && self.volume <= 15 && self.frequency_load <= 2047
            && self.sequence_pointer <= 7
    }

    #[verifier::rlimit(50)]
    pub fn read(&self, loc: u16) -> (r: u8)
        requires
            self.wf(),
            Self::owns(loc),
        ensures
            r == self.read_spec(loc),
    {
        match loc {
            0xFF15 => 0xFF,
            0xFF16 => 0x3F + pattern_to_u8(self.wave_pattern) * 64,
            0xFF17 => self.envelope.read(),
            0xFF18 => 0xFF,
            _ => if self.counter_selection {
                0xFF
            } else {
                0xBF
            },
        }
    }

    #[verifier::rlimit(50)]
    pub fn write(&mut self, loc: u16, val: u8)
        requires
            old(self).wf(),
            Self::owns(loc),
        ensures
            final(self).wf(),
            *final(self) == old(self).write_spec(loc, val),
    {
        match loc {
            0xFF15 => (),
            0xFF16 => {
                self.wave_pattern = pattern_from_register(val);
                self.length_counter = 64 - val % 64;
            },
            0xFF17 => {
                self.envelope.write(val);
                self.dac_enabled = val >= 8;
                self.volume = self.envelope.initial_volume;
            },
            0xFF18 => self.write_frequency(val),
            _ => self.write_control(val),
        }
    }

    /// A write to the low byte of the frequency.
    #[verifier::rlimit(50)]
    fn write_frequency(&mut self, val: u8)
        requires
            old(self).wf(),
        ensures
            final(self).wf(),
            *final(self) == old(self).write_spec(0xFF18, val),
    {
        self.frequency_load = (self.frequency_load / 256) * 256 + val as u16;
    }

    /// A write to the control register: the high bits of the frequency, the
    /// length enable and the trigger.
    #[verifier::rlimit(50)]
    fn write_control(&mut self, val: u8)
        requires
            old(self).wf(),
        ensures
            final(self).wf(),
            *final(self) == old(self).write_spec(0xFF19, val),
    {
        self.status = val >= 128;
        self.counter_selection = (val / 64) % 2 == 1;
        self.frequency_load = self.frequency_load % 256 + ((val % 8) as u16) * 256;
        if self.status {
            self.initialize();
        }
    }

    #[verifier::rlimit(50)]
    pub fn tick(&mut self)
        requires
            old(self).wf(),
        ensures
            final(self).wf(),
            *final(self) == old(self).tick_spec(),
    {
        if self.frequency_count > 0 {
            self.frequency_count -= 1;
        } else {
            self.frequency_count = (2048 - self.frequency_load) * 4;
            self.sequence_pointer = (self.sequence_pointer + 1) % 8;
        }
    }

    pub fn length_step(&mut self)
        requires
            old(self).wf(),
        ensures
            final(self).wf(),
            *final(self) == old(self).length_step_spec(),
    {
        if self.counter_selection && self.length_counter > 0 {
            self.length_counter -= 1;
            if self.length_counter == 0 {
                self.status = false;
                self.enabled = false;
            }
        }
    }

    pub fn envelope_step(&mut self)
        requires
            old(self).wf(),
        ensures
            final(self).wf(),
            *final(self) == old(self).envelope_step_spec(),
    {
        let s = self.envelope.step(
            EnvelopeState {
                volume: self.volume,
                counter: self.envelope_period_counter,
                running: self.envelope_running,
            },
            true,
        );
        self.volume = s.volume;
        self.envelope_period_counter = s.counter;
        self.envelope_running = s.running;
    }

    /// Restarts the channel, as a write of bit 7 to `0xFF19` does.
    #[verifier::rlimit(50)]
    pub fn initialize(&mut self)
        requires
            old(self).wf(),
        ensures
            final(self).wf(),
            *final(self) == old(self).initialize_spec(),
    {
        self.enabled = true;
        if self.length_counter == 0 {
            self.length_counter = 64;
        }
        self.frequency_count = (2048 - self.frequency_load) * 4;
        self.sequence_pointer = 0;
        self.envelope_running = true;
        self.envelope_period_counter = self.envelope.period;
        self.volume = self.envelope.initial_volume;
    }

    pub fn dac_output(&self) -> (r: i8)
        requires
            self.wf(),
        ensures
            r == self.dac_spec(),
            -15 <= r <= 15,
            !self.dac_enabled ==> r == 0,
    {
        if self.dac_enabled {
            let digital: u8 = if self.enabled && wave_level(
                self.wave_pattern,
                self.sequence_pointer,
            ) == 1 {
                self.volume
            } else {
                0
            };
            (2 * digital) as i8 - 15
        } else {
            0
        }
    }
}

} // verus!
