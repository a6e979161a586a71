//! The volume envelope of channels 1, 2 and 4.

use vstd::prelude::*;

verus! {

/// The envelope register: where the volume starts, which way it moves and
/// how often.
#[derive(Clone, Copy, Debug, PartialEq, Eq, Structural)]
pub struct Envelope {
    /// Four bits.
    pub initial_volume: u8,
    /// 1 to grow louder, 0 to fade.
    pub direction: u8,
    /// Three bits; 0 stops the envelope.
    pub period: u8,
}

/// The running state of an envelope: the volume now, ticks of the envelope
/// clock left before the next step, and whether steps still happen.
#[derive(Clone, Copy, Debug, PartialEq, Eq, Structural)]
pub struct EnvelopeState {
    pub volume: u8,
    pub counter: u8,
    pub running: bool,
}

proof fn fields_make_the_value(value: u8)
    by (bit_vector)
    ensures
        (value / 16) * 16 + ((value / 8) % 2) * 8 + value % 8 == value,
{
}

impl Envelope {
    /// What holds of a valid value: every field is in the range that the operations keep it in.
    pub open spec fn wf(self) -> bool {
        self.initial_volume <= 15 && self.direction <= 1 && self.period <= 7
    }

    /// The register value: volume in bits 7-4, direction in bit 3, period in bits 2-0.
    pub open spec fn read_spec(self) -> u8 {
        (self.initial_volume * 16 + self.direction * 8 + self.period) as u8
    }

    /// The envelope that a register value stands for.
    pub open spec fn of(value: u8) -> Envelope {
        Envelope { initial_volume: value / 16, direction: (value / 8) % 2, period: value % 8 }
    }

    /// Value the counter restarts from: the period, or 8 in place of 0.
    pub open spec fn reload(self) -> u8 {
        if self.period == 0 {
            8
        } else {
            self.period
        }
    }

    /// The state after one tick of the envelope clock. The counter runs down;
    /// at 0 it restarts and, while the envelope runs, the volume moves one
    /// step; once the volume is 0 or 15 the envelope stops. Where
    /// `needs_period` is set, the volume does not move while the period is 0.
    pub open spec fn step_spec(self, s: EnvelopeState, needs_period: bool) -> EnvelopeState {
        if s.counter > 0 {
            EnvelopeState { counter: (s.counter - 1) as u8, ..s }
        } else {
            let volume = if s.running && (self.period > 0 || !needs_period) {
                if self.direction == 1 && s.volume < 15 {
                    (s.volume + 1) as u8
                } else if self.direction == 0 && s.volume > 0 {
                    (s.volume - 1) as u8
                } else {
                    s.volume
                }
            } else {
                s.volume
            };
            EnvelopeState {
                volume,
                counter: self.reload(),
                running: s.running && !(volume == 0 || volume == 15),
            }
        }
    }

    pub fn new() -> (r: Self)
        ensures
            r == (Envelope { initial_volume: 0, direction: 0, period: 0 }),
            r.wf(),
    {
        Envelope { initial_volume: 0, direction: 0, period: 0 }
    }

    pub fn is_valid(&self) -> (r: bool)
        ensures
            r == self.wf(),
    {
        self.initial_volume <= 15 && self.direction <= 1 && self.period <= 7
    }

    pub fn read(&self) -> (r: u8)
        requires
            self.wf(),
        ensures
            r == self.read_spec(),
    {
        self.initial_volume * 16 + self.direction * 8 + self.period
    }

    pub fn write(&mut self, value: u8)
        ensures
            *final(self) == Self::of(value),
            final(self).wf(),
            final(self).read_spec() == value,
    {
        proof {
            fields_make_the_value(value);
        }
        self.initial_volume = value / 16;
        self.direction = (value / 8) % 2;
        self.period = value % 8;
    }

    /// One tick of the envelope clock.
    pub fn step(&self, s: EnvelopeState, needs_period: bool) -> (r: EnvelopeState)
        requires
            self.wf(),
            s.volume <= 15,
        ensures
            r == self.step_spec(s, needs_period),
            r.volume <= 15,
    {
        if s.counter > 0 {
            EnvelopeState { volume: s.volume, counter: s.counter - 1, running: s.running }
        } else {
            let mut volume: u8 = s.volume;
            if s.running && (self.period > 0 || !needs_period) {
                if self.direction == 1 && volume < 15 {
                    volume += 1;
                } else if self.direction == 0 && volume > 0 {
                    volume -= 1;
                }
            }
            let counter: u8 = if self.period == 0 {
                8
            } else {
                self.period
            };
            EnvelopeState { volume, counter, running: s.running && !(volume == 0 || volume == 15) }
        }
    }
}

} // verus!
