//! The audio unit: four channels, the frame sequencer that clocks their
//! length, sweep and envelope units, and the mixer.

pub mod pattern;
pub mod envelope;
pub mod sweep;
pub mod channel1;
pub mod channel2;
pub mod channel3;
pub mod channel4;

use vstd::prelude::*;
use vstd::array::spec_array_update;
use channel1::Channel1;
use channel2::Channel2;
use channel3::Channel3;
use channel4::Channel4;

verus! {

/// Samples that the output buffer holds: 2048 pairs of left and right.
pub const SAMPLE_SIZE: usize = 4096;

/// Ticks between two samples of the output.
pub const DOWN_SAMPLE: u8 = 95;

/// Ticks between two steps of the frame sequencer.
pub const SEQUENCER_PERIOD: u16 = 8192;

/// A bit of the output selection register `0xFF25`: one channel on one terminal.
#[derive(Clone, Copy, Debug, PartialEq, Eq, Structural)]
pub enum ChannelBit {
    Channel4Left,
    Channel3Left,
    Channel2Left,
    Channel1Left,
    Channel4Right,
    Channel3Right,
    Channel2Right,
    Channel1Right,
}

impl ChannelBit {
    /// The value of the bit in the register.
    pub open spec fn mask_spec(self) -> u8 {
        match self {
            ChannelBit::Channel4Left => 0x80,
            ChannelBit::Channel3Left => 0x40,
            ChannelBit::Channel2Left => 0x20,
            ChannelBit::Channel1Left => 0x10,
            ChannelBit::Channel4Right => 0x08,
            ChannelBit::Channel3Right => 0x04,
            ChannelBit::Channel2Right => 0x02,
            ChannelBit::Channel1Right => 0x01,
        }
    }

    /// The bit is set in the register value `selection`.
    pub open spec fn selected(self, selection: u8) -> bool {
        (selection / self.mask_spec()) % 2 == 1
    }

    pub fn mask(self) -> (r: u8)
        ensures
            r == self.mask_spec(),
            r > 0,
    {
        match self {
            ChannelBit::Channel4Left => 0x80,
            ChannelBit::Channel3Left => 0x40,
            ChannelBit::Channel2Left => 0x20,
            ChannelBit::Channel1Left => 0x10,
            ChannelBit::Channel4Right => 0x08,
            ChannelBit::Channel3Right => 0x04,
            ChannelBit::Channel2Right => 0x02,
            ChannelBit::Channel1Right => 0x01,
        }
    }

    pub fn is_selected(self, selection: u8) -> (r: bool)
        ensures
            r == self.selected(selection),
    {
        (selection / self.mask()) % 2 == 1
    }
}

pub struct APU {
    /// Mixed samples in fifteenths of one channel's full scale, left and
    /// right in turn.
    pub audio_buffer: Box<[i16; 4096]>,
    /// Where the next pair of samples goes.
    pub audio_buffer_position: usize,
    /// The buffer has been filled to its end since this was last cleared.
    pub audio_buffer_full: bool,
    pub channel1: Channel1,
    pub channel2: Channel2,
    pub channel3: Channel3,
    pub channel4: Channel4,
    /// Register `0xFF25`.
    pub channel_output_selection: u8,
    /// Ticks left before the next sample.
    pub down_sample_count: u8,
    /// Bit 7 of register `0xFF26`.
    pub apu_enabled: bool,
    /// Step of the frame sequencer, 0 to 7.
    pub frame_sequencer: u8,
    /// Ticks left before the next step of the frame sequencer.
    pub frame_sequencer_count: u16,
    pub left_terminal_vin: bool,
    pub left_terminal_volume: u8,
    pub right_terminal_vin: bool,
    pub right_terminal_volume: u8,
}

impl APU {
    /// The unit as it is at power-on: sound off, the channels in their
    /// initial states, both terminals at full volume, the buffer empty, the
    /// frame sequencer and the sample clock at the start of their periods.
    pub open spec fn is_initial(self) -> bool {
        &&& !self.apu_enabled
        &&& !self.audio_buffer_full
        &&& self.audio_buffer_position == 0
        &&& self.channel1 == Channel1::initial()
        &&& self.channel2 == Channel2::initial()
        &&& self.channel3.is_initial()
        &&& self.channel4 == Channel4::initial()
        &&& self.channel_output_selection == 0
        &&& self.down_sample_count == DOWN_SAMPLE
        &&& self.frame_sequencer == 0
        &&& self.frame_sequencer_count == SEQUENCER_PERIOD
        &&& self.left_terminal_volume == 7
        &&& self.right_terminal_volume == 7
        &&& !self.left_terminal_vin
        &&& !self.right_terminal_vin
        &&& forall|i: int| 0 <= i < SAMPLE_SIZE ==> self.audio_buffer[i] == 0
    }

    /// The sound registers and the wave memory.
    pub open spec fn owns(loc: u16) -> bool {
        0xFF10 <= loc <= 0xFF26 || 0xFF30 <= loc <= 0xFF3F
    }

    /// What holds of a valid value: every field is in the range that the operations keep it in.
    pub open spec fn wf(self) -> bool {
        &&& self.channel1.wf()
        &&& self.channel2.wf()
        &&& self.channel3.wf()
        &&& self.channel4.wf()
        &&& 1 <= self.frame_sequencer_count <= SEQUENCER_PERIOD
        &&& self.frame_sequencer <= 7
        &&& 1 <= self.down_sample_count <= DOWN_SAMPLE
        &&& self.audio_buffer_position < SAMPLE_SIZE
        &&& self.audio_buffer_position % 2 == 0
        &&& self.left_terminal_volume <= 7
        &&& self.right_terminal_volume <= 7
    }

    /// What register `0xFF24` reads as: the external-input switch of each
    /// terminal and the volume of the right one; the volume of the left
    /// terminal is not read back.
    pub open spec fn volume_register(self) -> u8 {
        ((if self.left_terminal_vin {
            0x80int
        } else {
            0
        }) + (if self.right_terminal_vin {
            0x08int
        } else {
            0
        }) + self.right_terminal_volume) as u8
    }

    /// Register `0xFF26`: sound on in bit 7, the four channels' status in bits 3-0.
    pub open spec fn status_register(self) -> u8 {
        ((if self.apu_enabled {
            0x80int
        } else {
            0
        }) + (if self.channel4.status {
            8int
        } else {
            0
        }) + (if self.channel3.status {
            4int
        } else {
            0
        }) + (if self.channel2.status {
            2int
        } else {
            0
        }) + (if self.channel1.status {
            1int
        } else {
            0
        })) as u8
    }

    /// What a read at `loc` answers.
    pub open spec fn read_spec(self, loc: u16) -> u8 {
        if loc <= 0xFF14 {
            self.channel1.read_spec(loc)
        } else if loc <= 0xFF19 {
            self.channel2.read_spec(loc)
        } else if loc <= 0xFF1E {
            self.channel3.read_spec(loc)
        } else if loc == 0xFF1F {
            0xFF
        } else if loc <= 0xFF23 {
            self.channel4.read_spec(loc)
        } else if loc == 0xFF24 {
            self.volume_register()
        } else if loc == 0xFF25 {
            self.channel_output_selection
        } else if loc == 0xFF26 {
            self.status_register()
        } else {
            self.channel3.read_spec(loc)
        }
    }

    /// With the sound off, only the sound-on register and the wave memory take writes.
    pub open spec fn write_ignored(self, loc: u16) -> bool {
        !self.apu_enabled && loc != 0xFF26 && loc < 0xFF30
    }

    /// The state after `val` is written at `loc`.
    pub open spec fn write_spec(self, loc: u16, val: u8) -> APU {
        if self.write_ignored(loc) {
            self
        } else if loc <= 0xFF14 {
            APU { channel1: self.channel1.write_spec(loc, val), ..self }
        } else if loc <= 0xFF19 {
            APU { channel2: self.channel2.write_spec(loc, val), ..self }
        } else if loc <= 0xFF1E {
            APU { channel3: self.channel3.write_spec(loc, val), ..self }
        } else if loc == 0xFF1F {
            self
        } else if loc <= 0xFF23 {
            APU { channel4: self.channel4.write_spec(loc, val), ..self }
        } else if loc == 0xFF24 {
            APU {
                left_terminal_vin: val >= 128,
                left_terminal_volume: (val / 16) % 8,
                right_terminal_vin: (val / 8) % 2 == 1,
                right_terminal_volume: val % 8,
                ..self
            }
        } else if loc == 0xFF25 {
            APU { channel_output_selection: val, ..self }
        } else if loc == 0xFF26 {
            APU { apu_enabled: val >= 128, ..self }
        } else {
            APU { channel3: self.channel3.write_spec(loc, val), ..self }
        }
    }

    /// The unit after one tick of the length clock in every channel.
    pub open spec fn clock_length_spec(self) -> APU {
        APU {
            channel1: self.channel1.length_step_spec(),
            channel2: self.channel2.length_step_spec(),
            channel3: self.channel3.length_step_spec(),
            channel4: self.channel4.length_step_spec(),
            ..self
        }
    }

    /// The unit after one tick of the envelope clock in the channels that have an envelope.
    pub open spec fn clock_envelope_spec(self) -> APU {
        APU {
            channel1: self.channel1.envelope_step_spec(),
            channel2: self.channel2.envelope_step_spec(),
            channel4: self.channel4.envelope_step_spec(),
            ..self
        }
    }

    /// The unit after one tick of every generator.
    pub open spec fn clock_frequency_spec(self) -> APU {
        APU {
            channel1: self.channel1.tick_spec(),
            channel2: self.channel2.tick_spec(),
            channel3: self.channel3.tick_spec(),
            channel4: self.channel4.tick_spec(),
            ..self
        }
    }

    /// The coming tick is a step of the frame sequencer.
    pub open spec fn sequencer_due(self) -> bool {
        self.frame_sequencer_count == 1
    }

    /// The coming tick clocks the length counters: a sequencer step 0, 2, 4 or 6.
    pub open spec fn clocks_length(self) -> bool {
        self.sequencer_due() && self.frame_sequencer % 2 == 0
    }

    /// The coming tick clocks the sweep: a sequencer step 2 or 6.
    pub open spec fn clocks_sweep(self) -> bool {
        self.sequencer_due() && (self.frame_sequencer == 2 || self.frame_sequencer == 6)
    }

    /// The coming tick clocks the envelopes: a sequencer step 7.
    pub open spec fn clocks_envelope(self) -> bool {
        self.sequencer_due() && self.frame_sequencer == 7
    }

    /// The unit after the frame sequencer's part of a tick.
    pub open spec fn sequencer_spec(self) -> APU {
        if self.sequencer_due() {
            let a = if self.clocks_length() {
                self.clock_length_spec()
            } else {
                self
            };
            let b = if self.clocks_sweep() {
                APU { channel1: a.channel1.sweep_step_spec(), ..a }
            } else {
                a
            };
            let c = if self.clocks_envelope() {
                b.clock_envelope_spec()
            } else {
                b
            };
            APU {
                frame_sequencer_count: SEQUENCER_PERIOD,
                frame_sequencer: ((self.frame_sequencer + 1) % 8) as u8,
                ..c
            }
        } else {
            APU { frame_sequencer_count: (self.frame_sequencer_count - 1) as u16, ..self }
        }
    }

    /// What channel 1 adds to the terminal chosen by `bit`.
    pub open spec fn share1(self, bit: ChannelBit) -> int {
        if bit.selected(self.channel_output_selection) {
            self.channel1.dac_spec()
        } else {
            0
        }
    }

    /// What channel 2 adds to the terminal chosen by `bit`.
    pub open spec fn share2(self, bit: ChannelBit) -> int {
        if bit.selected(self.channel_output_selection) {
            self.channel2.dac_spec()
        } else {
            0
        }
    }

    /// What channel 3 adds to the terminal chosen by `bit`.
    pub open spec fn share3(self, bit: ChannelBit) -> int {
        if bit.selected(self.channel_output_selection) {
            self.channel3.dac_spec()
        } else {
            0
        }
    }

    /// What channel 4 adds to the terminal chosen by `bit`.
    pub open spec fn share4(self, bit: ChannelBit) -> int {
        if bit.selected(self.channel_output_selection) {
            self.channel4.dac_spec()
        } else {
            0
        }
    }

    /// The left sample: the sum of what the channels routed to the left add.
    pub open spec fn left_sample(self) -> int {
        self.share1(ChannelBit::Channel1Left) + self.share2(ChannelBit::Channel2Left) + self.share3(
            ChannelBit::Channel3Left,
        ) + self.share4(ChannelBit::Channel4Left)
    }

    /// The right sample: the sum of what the channels routed to the right add.
    pub open spec fn right_sample(self) -> int {
        self.share1(ChannelBit::Channel1Right) + self.share2(ChannelBit::Channel2Right)
            + self.share3(ChannelBit::Channel3Right) + self.share4(ChannelBit::Channel4Right)
    }

    /// The coming tick writes a pair of samples.
    pub open spec fn sample_due(self) -> bool {
        self.down_sample_count == 1
    }

    /// The unit after the mixer's part of a tick: every 95th tick a pair of
    /// samples goes to the buffer, and when the buffer has been filled to its
    /// end it is marked full and filled from the start again.
    pub open spec fn mix_spec(self) -> APU {
        if self.sample_due() {
            let position = self.audio_buffer_position + 2;
            APU {
                down_sample_count: DOWN_SAMPLE,
                audio_buffer: Box::new(
                    spec_array_update(
                        spec_array_update(
                            *self.audio_buffer,
                            self.audio_buffer_position as int,
                            self.left_sample() as i16,
                        ),
                        self.audio_buffer_position + 1,
                        self.right_sample() as i16,
                    ),
                ),
                audio_buffer_position: if position >= SAMPLE_SIZE {
                    0
                } else {
                    position as usize
                },
                audio_buffer_full: self.audio_buffer_full || position >= SAMPLE_SIZE,
                ..self
            }
        } else {
            APU { down_sample_count: (self.down_sample_count - 1) as u8, ..self }
        }
    }

    /// The unit after one tick: the frame sequencer, then the four
    /// generators, then the mixer.
    pub open spec fn tick_spec(self) -> APU {
        self.sequencer_spec().clock_frequency_spec().mix_spec()
    }

    pub fn new() -> (r: Self)
        ensures
            r.wf(),
            r.is_initial(),
    {
        APU {
            audio_buffer: Box::new([0i16; 4096]),
            audio_buffer_position: 0,
            audio_buffer_full: false,
            channel1: Channel1::new(),
            channel2: Channel2::new(),
            channel3: Channel3::new(),
            channel4: Channel4::new(),
            channel_output_selection: 0,
            down_sample_count: 95,
            apu_enabled: false,
            frame_sequencer: 0,
            frame_sequencer_count: 8192,
            left_terminal_vin: false,
            left_terminal_volume: 7,
            right_terminal_vin: false,
            right_terminal_volume: 7,
        }
    }

    /// Whether the unit is in a state that its own operations can have left it in.
    #[verifier::rlimit(50)]
    pub fn is_valid(&self) -> (r: bool)
        ensures
            r == self.wf(),
    {
        self.channel1.is_valid() && self.channel2.is_valid() && self.channel3.is_valid()
            && self.channel4.is_valid() && 1 <= self.frame_sequencer_count
            && self.frame_sequencer_count <= SEQUENCER_PERIOD && self.frame_sequencer <= 7 && 1
            <= self.down_sample_count && self.down_sample_count <= DOWN_SAMPLE
            && self.audio_buffer_position < SAMPLE_SIZE && self.audio_buffer_position % 2 == 0
            && self.left_terminal_volume <= 7 && self.right_terminal_volume <= 7
    }

    #[verifier::rlimit(50)]
    pub fn read(&self, loc: u16) -> (r: u8)
        requires
            self.wf(),
            Self::owns(loc),
        ensures
            r == self.read_spec(loc),
    {
        match loc {
            0xFF10..=0xFF14 => self.channel1.read(loc),
            0xFF15..=0xFF19 => self.channel2.read(loc),
            0xFF1A..=0xFF1E => self.channel3.read(loc),
            0xFF1F => 0xFF,
            0xFF20..=0xFF23 => self.channel4.read(loc),
            0xFF24 => {
                let left_vin: u8 = if self.left_terminal_vin {
                    0x80
                } else {
                    0
                };
                let right_vin: u8 = if self.right_terminal_vin {
                    0x08
                } else {
                    0
                };
                left_vin + right_vin + self.right_terminal_volume
            },
            0xFF25 => self.channel_output_selection,
            0xFF26 => {
                let sound_on: u8 = if self.apu_enabled {
                    0x80
                } else {
                    0
                };
                let channel1_on: u8 = if self.channel1.status {
                    0x1
                } else {
                    0
                };
                let channel2_on: u8 = if self.channel2.status {
                    0x2
                } else {
                    0
                };
                let channel3_on: u8 = if self.channel3.status {
                    0x4
                } else {
                    0
                };
                let channel4_on: u8 = if self.channel4.status {
                    0x8
                } else {
                    0
                };
                sound_on + channel4_on + channel3_on + channel2_on + channel1_on
            },
            _ => self.channel3.read(loc),
        }
    }

    #[verifier::rlimit(50)]
    pub fn write(&mut self, loc: u16, val: u8)
        requires
            old(self).wf(),
            Self::owns(loc),
        ensures
            final(self).wf(),
            *final(self) == old(self).write_spec(loc, val),
    {
        if !self.apu_enabled && loc != 0xFF26 && loc < 0xFF30 {
            return ;
        }
        match loc {
            0xFF10..=0xFF14 => self.channel1.write(loc, val),
            0xFF15..=0xFF19 => self.channel2.write(loc, val),
            0xFF1A..=0xFF1E => self.channel3.write(loc, val),
            0xFF1F => (),
            0xFF20..=0xFF23 => self.channel4.write(loc, val),
            0xFF24 => {
                self.left_terminal_vin = val >= 128;
                self.left_terminal_volume = (val / 16) % 8;
                self.right_terminal_vin = (val / 8) % 2 == 1;
                self.right_terminal_volume = val % 8;
            },
            0xFF25 => {
                self.channel_output_selection = val;
            },
            0xFF26 => {
                self.apu_enabled = val >= 128;
            },
            _ => self.channel3.write(loc, val),
        }
    }

    /// Advances the unit by one tick.
    #[verifier::rlimit(50)]
    pub fn tick(&mut self)
        requires
            old(self).wf(),
        ensures
            final(self).wf(),
            *final(self) == old(self).tick_spec(),
    {
        self.step_sequencer();
        self.clock_frequency();
        self.mix_sample();
    }

    #[verifier::rlimit(40)]
    fn step_sequencer(&mut self)
        requires
            old(self).wf(),
        ensures
            final(self).wf(),
            *final(self) == old(self).sequencer_spec(),
    {
        self.frame_sequencer_count -= 1;
        if self.frame_sequencer_count == 0 {
            self.frame_sequencer_count = 8192;
            match self.frame_sequencer {
                0 | 4 => {
                    self.clock_length();
                },
                2 | 6 => {
                    self.clock_length();
                    self.channel1.sweep_step();
                },
                7 => {
                    self.clock_envelope();
                },
                _ => (),
            }
            self.frame_sequencer = (self.frame_sequencer + 1) % 8;
        }
    }

    /// What a channel with the level `level` adds to the terminal chosen by `bit`.
    fn routed(&self, bit: ChannelBit, level: i8) -> (r: i16)
        ensures
            r == if bit.selected(self.channel_output_selection) {
                level as int
            } else {
                0
            },
    {
        if bit.is_selected(self.channel_output_selection) {
            level as i16
        } else {
            0
        }
    }

    /// The sum of the channels routed to the left terminal.
    #[verifier::rlimit(50)]
    pub fn left_output(&self) -> (r: i16)
        requires
            self.wf(),
        ensures
            r == self.left_sample(),
            -60 <= r <= 60,
    {
        let one: i16 = self.routed(ChannelBit::Channel1Left, self.channel1.dac_output());
        let two: i16 = self.routed(ChannelBit::Channel2Left, self.channel2.dac_output());
        let three: i16 = self.routed(ChannelBit::Channel3Left, self.channel3.dac_output());
        let four: i16 = self.routed(ChannelBit::Channel4Left, self.channel4.dac_output());
        one + two + three + four
    }

    /// The sum of the channels routed to the right terminal.
    #[verifier::rlimit(50)]
    pub fn right_output(&self) -> (r: i16)
        requires
            self.wf(),
        ensures
            r == self.right_sample(),
            -60 <= r <= 60,
    {
        let one: i16 = self.routed(ChannelBit::Channel1Right, self.channel1.dac_output());
        let two: i16 = self.routed(ChannelBit::Channel2Right, self.channel2.dac_output());
        let three: i16 = self.routed(ChannelBit::Channel3Right, self.channel3.dac_output());
        let four: i16 = self.routed(ChannelBit::Channel4Right, self.channel4.dac_output());
        one + two + three + four
    }

    #[verifier::rlimit(50)]
    fn mix_sample(&mut self)
        requires
            old(self).wf(),
        ensures
            final(self).wf(),
            *final(self) == old(self).mix_spec(),
    {
        self.down_sample_count -= 1;
        if self.down_sample_count == 0 {
            self.down_sample_count = 95;
            let left: i16 = self.left_output();
            let right: i16 = self.right_output();
            self.audio_buffer[self.audio_buffer_position] = left;
            self.audio_buffer[self.audio_buffer_position + 1] = right;
            self.audio_buffer_position += 2;
            if self.audio_buffer_position >= SAMPLE_SIZE {
                self.audio_buffer_full = true;
                self.audio_buffer_position = 0;
            }
        }
    }

    fn clock_length(&mut self)
        requires
            old(self).wf(),
        ensures
            final(self).wf(),
            *final(self) == old(self).clock_length_spec(),
    {
        self.channel1.length_step();
        self.channel2.length_step();
        self.channel3.length_step();
        self.channel4.length_step();
    }

    fn clock_envelope(&mut self)
        requires
            old(self).wf(),
        ensures
            final(self).wf(),
            *final(self) == old(self).clock_envelope_spec(),
    {
        self.channel1.envelope_step();
        self.channel2.envelope_step();
        self.channel4.envelope_step();
    }

    fn clock_frequency(&mut self)
        requires
            old(self).wf(),
        ensures
            final(self).wf(),
            *final(self) == old(self).clock_frequency_spec(),
    {
        self.channel1.tick();
        self.channel2.tick();
        self.channel3.tick();
        self.channel4.tick();
    }

    /// The output buffer: pairs of left and right samples, each the sum of
    /// up to four channel levels in fifteenths of one channel's full scale.
    pub fn get_audio_buffer(&self) -> (r: &[i16; 4096])
        ensures
            *r == *self.audio_buffer,
    {
        &*self.audio_buffer
    }

    pub fn get_audio_buffer_status(&self) -> (r: bool)
        ensures
            r == self.audio_buffer_full,
    {
        self.audio_buffer_full
    }

    pub fn set_audio_buffer_status(&mut self, status: bool)
        ensures
            *final(self) == (APU { audio_buffer_full: status, ..*old(self) }),
    {
        self.audio_buffer_full = status;
    }
}

impl Clone for APU {
    fn clone(&self) -> (r: Self)
        ensures
            r == *self,
    {
        APU {
            audio_buffer: Box::new(*self.audio_buffer),
            audio_buffer_position: self.audio_buffer_position,
            audio_buffer_full: self.audio_buffer_full,
            channel1: self.channel1,
            channel2: self.channel2,
            channel3: self.channel3,
            channel4: self.channel4,
            channel_output_selection: self.channel_output_selection,
            down_sample_count: self.down_sample_count,
            apu_enabled: self.apu_enabled,
            frame_sequencer: self.frame_sequencer,
            frame_sequencer_count: self.frame_sequencer_count,
            left_terminal_vin: self.left_terminal_vin,
            left_terminal_volume: self.left_terminal_volume,
            right_terminal_vin: self.right_terminal_vin,
            right_terminal_volume: self.right_terminal_volume,
        }
    }
}

/// A channel whose converter is off adds exactly nothing to either sample,
/// whatever else its state is.
#[verifier::rlimit(50)]
pub proof fn dac_off_adds_nothing(a: APU, bit: ChannelBit)
    ensures
        !a.channel1.dac_enabled ==> a.channel1.dac_spec() == 0 && a.share1(bit) == 0,
        !a.channel2.dac_enabled ==> a.channel2.dac_spec() == 0 && a.share2(bit) == 0,
        !a.channel3.dac_enabled ==> a.channel3.dac_spec() == 0 && a.share3(bit) == 0,
        !a.channel4.dac_enabled ==> a.channel4.dac_spec() == 0 && a.share4(bit) == 0,
        !a.channel1.dac_enabled && !a.channel2.dac_enabled && !a.channel3.dac_enabled
            && !a.channel4.dac_enabled ==> a.left_sample() == 0 && a.right_sample() == 0,
{
}

/// The length counters switch a channel off at their clock and at no other
/// tick. A tick that clocks them switches off each channel whose length is
/// enabled and whose counter stands at 1, and leaves on each whose counter
/// stands higher or whose length is not enabled; a tick that does not clock
/// them changes neither a status nor a counter.
#[verifier::rlimit(50)]
pub proof fn length_expiry(a: APU)
    requires
        a.wf(),
    ensures
        ({
            let b = a.tick_spec();
            &&& a.clocks_length() && a.channel1.counter_selection && a.channel1.length_counter == 1
                ==> !b.channel1.status && !b.channel1.enabled
            &&& a.clocks_length() && a.channel2.counter_selection && a.channel2.length_counter == 1
                ==> !b.channel2.status && !b.channel2.enabled
            &&& a.clocks_length() && a.channel3.counter_selection && a.channel3.length_counter == 1
                ==> !b.channel3.status && !b.channel3.enabled
            &&& a.clocks_length() && a.channel4.counter_selection && a.channel4.length_counter == 1
                ==> !b.channel4.status && !b.channel4.enabled
            &&& !(a.clocks_length() && a.channel1.counter_selection && a.channel1.length_counter
                == 1) ==> b.channel1.status == a.channel1.status
            &&& !(a.clocks_length() && a.channel2.counter_selection && a.channel2.length_counter
                == 1) ==> b.channel2.status == a.channel2.status
            &&& !(a.clocks_length() && a.channel3.counter_selection && a.channel3.length_counter
                == 1) ==> b.channel3.status == a.channel3.status
            &&& !(a.clocks_length() && a.channel4.counter_selection && a.channel4.length_counter
                == 1) ==> b.channel4.status == a.channel4.status
            &&& !a.clocks_length() ==> b.channel1.length_counter == a.channel1.length_counter
                && b.channel2.length_counter == a.channel2.length_counter
                && b.channel3.length_counter == a.channel3.length_counter
                && b.channel4.length_counter == a.channel4.length_counter
        }),
{
}

} // verus!
