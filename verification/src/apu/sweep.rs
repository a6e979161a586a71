//! The frequency sweep of channel 1.

use vstd::prelude::*;

verus! {

/// The sweep register: how often the frequency moves, which way and by what share.
#[derive(Clone, Copy, Debug, PartialEq, Eq, Structural)]
pub struct Sweep {
    /// Three bits.
    pub period: u8,
    /// 0 to rise, 1 to fall.
    pub direction: u8,
    /// Three bits: the frequency moves by itself shifted right this far.
    pub shift: u8,
}

proof fn fields_make_the_value(value: u8)
    by (bit_vector)
    ensures
        ((value / 16) % 8) * 16 + ((value / 8) % 2) * 8 + value % 8 == value % 128,
{
}

impl Sweep {
    /// What holds of a valid value: every field is in the range that the operations keep it in.
    pub open spec fn wf(self) -> bool {
        self.period <= 7 && self.direction <= 1 && self.shift <= 7
    }

    /// The register value: period in bits 6-4, direction in bit 3, shift in bits 2-0.
    pub open spec fn read_spec(self) -> u8 {
        (self.period * 16 + self.direction * 8 + self.shift) as u8
    }

    /// The sweep that a register value stands for; bit 7 is not kept.
    pub open spec fn of(value: u8) -> Sweep {
        Sweep { period: (value / 16) % 8, direction: (value / 8) % 2, shift: value % 8 }
    }

    pub fn new() -> (r: Self)
        ensures
            r == (Sweep { period: 0, direction: 0, shift: 0 }),
            r.wf(),
    {
        Sweep { period: 0, direction: 0, shift: 0 }
    }

    pub fn is_valid(&self) -> (r: bool)
        ensures
            r == self.wf(),
    {
        self.period <= 7 && self.direction <= 1 && self.shift <= 7
    }

    pub fn read(&self) -> (r: u8)
        requires
            self.wf(),
        ensures
            r == self.read_spec(),
    {
        self.period * 16 + self.direction * 8 + self.shift
    }

    pub fn write(&mut self, value: u8)
        ensures
            *final(self) == Self::of(value),
            final(self).wf(),
            final(self).read_spec() == value % 128,
    {
        proof {
            fields_make_the_value(value);
        }
        self.period = (value / 16) % 8;
        self.direction = (value / 8) % 2;
        self.shift = value % 8;
    }
}

} // verus!
