//! Interrupt sources, the events that can be addressed to the processor, and
//! a first-in first-out queue to keep such events in.

use vstd::prelude::*;

verus! {

/// The five interrupt sources, in priority order.
#[derive(Debug, Clone, Copy, PartialEq, Eq, Structural)]
pub enum Interrupt {
    VBlank,
    LCDStat,
    Timer,
    Serial,
    Joypad,
}

impl Interrupt {
    /// Position of the source in the request and enable registers.
    pub open spec fn index(self) -> int {
        match self {
            Interrupt::VBlank => 0,
            Interrupt::LCDStat => 1,
            Interrupt::Timer => 2,
            Interrupt::Serial => 3,
            Interrupt::Joypad => 4,
        }
    }

    /// The register bit of the source: `1 << index`.
    pub open spec fn mask(self) -> u8 {
        match self {
            Interrupt::VBlank => 0x01,
            Interrupt::LCDStat => 0x02,
            Interrupt::Timer => 0x04,
            Interrupt::Serial => 0x08,
            Interrupt::Joypad => 0x10,
        }
    }

    /// Address the processor jumps to when it serves the source: `0x40 + 8 * index`.
    pub open spec fn vector(self) -> u16 {
        (0x40 + 8 * self.index()) as u16
    }

    pub fn bit(self) -> (r: u8)
        ensures
            r == self.mask(),
    {
        match self {
            Interrupt::VBlank => 0x01,
            Interrupt::LCDStat => 0x02,
            Interrupt::Timer => 0x04,
            Interrupt::Serial => 0x08,
            Interrupt::Joypad => 0x10,
        }
    }

    pub fn handler(self) -> (r: u16)
        ensures
            r == self.vector(),
    {
        match self {
            Interrupt::VBlank => 0x40,
            Interrupt::LCDStat => 0x48,
            Interrupt::Timer => 0x50,
            Interrupt::Serial => 0x58,
            Interrupt::Joypad => 0x60,
        }
    }
}

/// An event for the processor: an interrupt request, the enabling of
/// interrupt handling, or either of them after a number of instructions.
#[derive(Debug)]
pub enum CpuRecievable {
    Delay(usize, Box<CpuRecievable>),
    SendInterrupt(Interrupt),
    EnableInterrupts,
}

impl CpuRecievable {
    /// A copy of the event, equal to it.
    pub fn duplicate(&self) -> (r: CpuRecievable)
        ensures
            r == *self,
        decreases *self,
    {
        match self {
            CpuRecievable::Delay(n, inner) => {
                let copy = inner.duplicate();
                CpuRecievable::Delay(*n, Box::new(copy))
            },
            CpuRecievable::SendInterrupt(i) => CpuRecievable::SendInterrupt(*i),
            CpuRecievable::EnableInterrupts => CpuRecievable::EnableInterrupts,
        }
    }
}

/// A queue of events; what is sent first is received first.
#[derive(Debug)]
pub struct Recievables {
    data: Vec<CpuRecievable>,
}

impl View for Recievables {
    type V = Seq<CpuRecievable>;

    /// The queued events, oldest first.
    closed spec fn view(&self) -> Seq<CpuRecievable> {
        self.data@
    }
}

pub fn none_recivables() -> (r: Option<Recievables>)
    ensures
        r is None,
{
    None
}

pub fn new_recievables() -> (r: Recievables)
    ensures
        r@ == Seq::<CpuRecievable>::empty(),
{
    Recievables::new()
}

impl Recievables {
    pub fn new() -> (r: Self)
        ensures
            r@ == Seq::<CpuRecievable>::empty(),
    {
        Recievables { data: Vec::new() }
    }

    /// Appends `cr` behind everything already queued.
    pub fn send(&mut self, cr: CpuRecievable)
        ensures
            final(self)@ == old(self)@.push(cr),
    {
        self.data.push(cr);
    }

    /// Takes the oldest event, if there is one.
    pub fn recieve(&mut self) -> (r: Option<CpuRecievable>)
        ensures
            old(self)@.len() == 0 ==> r is None && final(self)@ == old(self)@,
            old(self)@.len() > 0 ==> r == Some(old(self)@[0]) && final(self)@ == old(
                self,
            )@.subrange(1, old(self)@.len() as int),
    {
        if self.data.len() == 0 {
            None
        } else {
            let first = self.data.remove(0);
            assert(self.data@ == old(self).data@.subrange(1, old(self).data@.len() as int));
            Some(first)
        }
    }

    /// The queued events, oldest first, leaving the queue as it is.
    pub fn serialized_data(&self) -> (r: Vec<CpuRecievable>)
        ensures
            r@ == self@,
    {
        let mut recievables: Vec<CpuRecievable> = Vec::new();
        let mut i: usize = 0;
        while i < self.data.len()
            invariant
                i <= self.data.len(),
                recievables@ == self.data@.subrange(0, i as int),
            decreases self.data.len() - i,
        {
            recievables.push(self.data[i].duplicate());
            i += 1;
        }
        assert(self.data@.subrange(0, self.data@.len() as int) == self.data@);
        recievables
    }
}

} // verus!
