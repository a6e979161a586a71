//! Channel 3: 32 four-bit samples played from wave memory.

use vstd::prelude::*;
use vstd::array::spec_array_update;
use super::channel1::dac_level;

verus! {

#[derive(Clone, Copy, Debug, PartialEq, Eq)]
pub struct Channel3 {
    /// Length enable, bit 6 of `0xFF1E`.
    pub counter_selection: bool,
    pub dac_enabled: bool,
    pub enabled: bool,
    pub frequency_count: u16,
    pub frequency_load: u16,
    pub length_counter: u16,
    /// The sample played now, 0 to 31.
    pub position_counter: u8,
    pub status: bool,
    /// Two-bit code: the sample is shifted right this far.
    pub volume: u8,
    /// Two samples a byte, the first in the high nibble.
    pub wave_ram: [u8; 16],
    /// The sample last fetched.
    pub sample_byte: u8,
}

impl Channel3 {
    /// The channel as it is at power-on: off, silent, every register and
    /// every sample 0.
    pub open spec fn is_initial(self) -> bool {
        &&& !self.counter_selection
        &&& !self.dac_enabled
        &&& !self.enabled
        &&& self.frequency_count == 0
        &&& self.frequency_load == 0
        &&& self.length_counter == 0
        &&& self.position_counter == 0
        &&& !self.status
        &&& self.volume == 0
        &&& self.sample_byte == 0
        &&& forall|i: int| 0 <= i < 16 ==> self.wave_ram[i] == 0
    }

    /// The channel's registers and the wave memory.
    pub open spec fn owns(loc: u16) -> bool {
        0xFF1A <= loc <= 0xFF1E || 0xFF30 <= loc <= 0xFF3F
    }

    /// What holds of a valid value: every field is in the range that the operations keep it in.
    pub open spec fn wf(self) -> bool {
        &&& self.volume <= 3
        &&& self.frequency_load <= 2047
        &&& self.position_counter <= 31
        &&& self.sample_byte <= 15
        &&& self.length_counter <= 256
    }

    /// Ticks between two steps of the generator.
    pub open spec fn period(self) -> u16 {
        ((2048 - self.frequency_load) * 2) as u16
    }

    /// Sample `position` of the wave memory.
    pub open spec fn sample(self, position: u8) -> u8 {
        let byte = self.wave_ram[(position / 2) as int];
        if position % 2 == 0 {
            byte / 16
        } else {
            byte % 16
        }
    }

    /// The digital level: the fetched sample shifted right by the volume code.
    pub open spec fn level(self) -> int {
        if self.volume == 0 {
            self.sample_byte as int
        } else if self.volume == 1 {
            (self.sample_byte / 2) as int
        } else if self.volume == 2 {
            (self.sample_byte / 4) as int
        } else {
            (self.sample_byte / 8) as int
        }
    }

    /// What a register reads as: bits that cannot be read back are 1. Byte
    /// `n` of the wave memory is at address `0xFF30 + n`.
    pub open spec fn read_spec(self, loc: u16) -> u8 {
        if loc == 0xFF1A {
            if self.dac_enabled {
                0xFF
            } else {
                0x7F
            }
        } else if loc == 0xFF1B {
            0xFF
        } else if loc == 0xFF1C {
            (0x9F + self.volume * 32) as u8
        } else if loc == 0xFF1D {
            0xFF
        } else if loc == 0xFF1E {
            if self.counter_selection {
                0xFF
            } else {
                0xBF
            }
        } else {
            self.wave_ram[loc - 0xFF30]
        }
    }

    /// The channel after a trigger: the generator runs from the start of its period, and an expired length counter is full again.
    pub open spec fn initialize_spec(self) -> Channel3 {
        Channel3 {
            enabled: true,
            length_counter: if self.length_counter == 0 {
                256
            } else {
                self.length_counter
            },
            frequency_count: self.period(),
            position_counter: 0,
            ..self
        }
    }

    /// The state after `val` is written at `loc`.
    pub open spec fn write_spec(self, loc: u16, val: u8) -> Channel3 {
        if loc == 0xFF1A {
            Channel3 { dac_enabled: val >= 128, ..self }
        } else if loc == 0xFF1B {
            Channel3 { length_counter: (256 - val) as u16, ..self }
        } else if loc == 0xFF1C {
            Channel3 { volume: (val / 32) % 4, ..self }
        } else if loc == 0xFF1D {
            Channel3 { frequency_load: ((self.frequency_load / 256) * 256 + val) as u16, ..self }
        } else if loc == 0xFF1E {
            let c = Channel3 {
                status: val >= 128,
                counter_selection: (val / 64) % 2 == 1,
                frequency_load: (self.frequency_load % 256 + (val % 8) * 256) as u16,
                ..self
            };
            if val >= 128 {
                c.initialize_spec()
            } else {
                c
            }
        } else {
            Channel3 { wave_ram: spec_array_update(self.wave_ram, loc - 0xFF30, val), ..self }
        }
    }

    /// The channel after one tick: when the frequency count has run out the
    /// next of the 32 samples is fetched.
    pub open spec fn tick_spec(self) -> Channel3 {
        if self.frequency_count > 0 {
            Channel3 { frequency_count: (self.frequency_count - 1) as u16, ..self }
        } else {
            let position = ((self.position_counter + 1) % 32) as u8;
            Channel3 {
                frequency_count: self.period(),
                position_counter: position,
                sample_byte: self.sample(position),
                ..self
            }
        }
    }

    /// The channel after one tick of the length clock: with the length enabled the counter runs down, and at 0 the channel goes off.
    pub open spec fn length_step_spec(self) -> Channel3 {
        if self.counter_selection && self.length_counter > 0 {
            if self.length_counter == 1 {
                Channel3 { length_counter: 0, status: false, enabled: false, ..self }
            } else {
                Channel3 { length_counter: (self.length_counter - 1) as u16, ..self }
            }
        } else {
            self
        }
    }

    /// What the channel adds to a mix, in fifteenths of full scale.
    pub open spec fn dac_spec(self) -> int {
        if self.dac_enabled {
            dac_level(
                if self.enabled {
                    self.level()
                } else {
                    0
                },
            )
        } else {
            0
        }
    }

    pub fn new() -> (r: Self)
        ensures
            r.wf(),
            r.is_initial(),
    {
        Channel3 {
            counter_selection: false,
            dac_enabled: false,
            enabled: false,
            frequency_count: 0,
            frequency_load: 0,
            length_counter: 0,
            position_counter: 0,
            status: false,
            volume: 0,
            wave_ram: [0; 16],
            sample_byte: 0,
        }
    }

    pub fn is_valid(&self) -> (r: bool)
        ensures
            r == self.wf(),
    {
        self.volume <= 3 && self.frequency_load <= 2047 && self.position_counter <= 31
            && self.sample_byte <= 15 && self.length_counter <= 256
    }

    #[verifier::rlimit(50)]
    pub fn read(&self, loc: u16) -> (r: u8)
        requires
            self.wf(),
            Self::owns(loc),
        ensures
            r == self.read_spec(loc),
    {
        match loc {
            0xFF1A => if self.dac_enabled {
                0xFF
            } else {
                0x7F
            },
            0xFF1B => 0xFF,
            0xFF1C => 0x9F + self.volume * 32,
            0xFF1D => 0xFF,
            0xFF1E => if self.counter_selection {
                0xFF
            } else {
                0xBF
            },
            _ => self.wave_ram[loc as usize - 0xFF30],
        }
    }

    #[verifier::rlimit(50)]
    pub fn write(&mut self, loc: u16, val: u8)
        requires
            old(self).wf(),
            Self::owns(loc),
        ensures
            final(self).wf(),
            *final(self) == old(self).write_spec(loc, val),
    {
        match loc {
            0xFF1A => {
                self.dac_enabled = val >= 128;
            },
            0xFF1B => {
                self.length_counter = 256 - (val as u16);
            },
            0xFF1C => {
                self.volume = (val / 32) % 4;
            },
            0xFF1D => self.write_frequency(val),
            0xFF1E => self.write_control(val),
            _ => {
                self.wave_ram[loc as usize - 0xFF30] = val;
            },
        }
    }

    /// A write to the low byte of the frequency.
    #[verifier::rlimit(50)]
    fn write_frequency(&mut self, val: u8)
        requires
            old(self).wf(),
        ensures
            final(self).wf(),
            *final(self) == old(self).write_spec(0xFF1D, val),
    {
        self.frequency_load = (self.frequency_load / 256) * 256 + val as u16;
    }

    /// A write to the control register: the high bits of the frequency, the
    /// length enable and the trigger.
    #[verifier::rlimit(50)]
    fn write_control(&mut self, val: u8)
        requires
            old(self).wf(),
        ensures
            final(self).wf(),
            *final(self) == old(self).write_spec(0xFF1E, val),
    {
        self.status = val >= 128;
        self.counter_selection = (val / 64) % 2 == 1;
        self.frequency_load = self.frequency_load % 256 + ((val % 8) as u16) * 256;
        if self.status {
            self.initialize();
        }
    }

    #[verifier::rlimit(50)]
    pub fn tick(&mut self)
        requires
            old(self).wf(),
        ensures
            final(self).wf(),
            *final(self) == old(self).tick_spec(),
    {
        if self.frequency_count > 0 {
            self.frequency_count -= 1;
        } else {
            self.frequency_count = (2048 - self.frequency_load) * 2;
            self.position_counter = (self.position_counter + 1) % 32;
            let byte: u8 = self.wave_ram[(self.position_counter / 2) as usize];
            self.sample_byte = if self.position_counter % 2 == 0 {
                byte / 16
            } else {
                byte % 16
            };
        }
    }

    /// Restarts the channel, as a write of bit 7 to `0xFF1E` does.
    #[verifier::rlimit(50)]
    pub fn initialize(&mut self)
        requires
            old(self).wf(),
        ensures
            final(self).wf(),
            *final(self) == old(self).initialize_spec(),
    {
        self.enabled = true;
        if self.length_counter == 0 {
            self.length_counter = 256;
        }
        self.frequency_count = (2048 - self.frequency_load) * 2;
        self.position_counter = 0;
    }

    pub fn length_step(&mut self)
        requires
            old(self).wf(),
        ensures
            final(self).wf(),
            *final(self) == old(self).length_step_spec(),
    {
        if self.counter_selection && self.length_counter > 0 {
            self.length_counter -= 1;
            if self.length_counter == 0 {
                self.status = false;
                self.enabled = false;
            }
        }
    }

    /// The digital level, 0 to 15.
    pub fn volume_output(&self) -> (r: u8)
        requires
            self.wf(),
        ensures
            r == self.level(),
            r <= 15,
    {
        match self.volume {
            0 => self.sample_byte,
            1 => self.sample_byte / 2,
            2 => self.sample_byte / 4,
            _ => self.sample_byte / 8,
        }
    }

    pub fn dac_output(&self) -> (r: i8)
        requires
            self.wf(),
        ensures
            r == self.dac_spec(),
            -15 <= r <= 15,
            !self.dac_enabled ==> r == 0,
    {
        if self.dac_enabled {
            let digital: u8 = if self.enabled {
                self.volume_output()
            } else {
                0
            };
            (2 * digital) as i8 - 15
        } else {
            0
        }
    }
}

} // verus!
