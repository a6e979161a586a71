//! How long the steps of an instruction take: every access to memory is one
//! tick of the bus, four clock cycles, and nothing else moves the cycle count.

use vstd::prelude::*;
use crate::alu::AluResult;
use crate::cpu::{advance, high_byte, low_byte, CPU};
use crate::instruction::{operand_size_spec, RegisterLoc};

verus! {

/// The cycle count `ticks` ticks after `cycles`, modulo 2^64.
#[verifier::opaque]
pub open spec fn later(cycles: u64, ticks: int) -> u64 {
    ((cycles + 4 * ticks) % 0x1_0000_0000_0000_0000) as u64
}

/// Ticks that one access to an eight-bit operand takes: one for the byte at
/// HL, none for a register.
pub open spec fn operand_ticks(r: RegisterLoc) -> int {
    if r == RegisterLoc::MemHL {
        1
    } else {
        0
    }
}

/// Counting ticks one after the other is counting their sum.
pub proof fn later_adds_up(cycles: u64, a: int, b: int)
    requires
        a >= 0,
        b >= 0,
    ensures
        later(later(cycles, a), b) == later(cycles, a + b),
        later(cycles, 0) == cycles,
{
    reveal(later);
}

/// One tick of the bus is four cycles, and it moves no register.
pub proof fn clock_takes_a_tick(cpu: CPU)
    ensures
        cpu.clock_spec().cycles == later(cpu.cycles, 1),
        cpu.clock_spec().registers == cpu.registers,
        cpu.clock_spec().sp == cpu.sp,
        cpu.clock_spec().pc == cpu.pc,
{
    reveal(later);
}

/// Reading a byte at the program counter takes a tick; a word takes two.
pub proof fn fetch_takes_a_tick(cpu: CPU)
    ensures
        cpu.fetched().cycles == later(cpu.cycles, 1),
        cpu.fetched().fetched().cycles == later(cpu.cycles, 2),
{
    clock_takes_a_tick(cpu);
    clock_takes_a_tick(cpu.fetched());
    later_adds_up(cpu.cycles, 1, 1);
}

/// Reading or writing an eight-bit operand takes a tick if it is the byte at
/// HL, and no time if it is a register.
pub proof fn operand_access_takes_its_ticks(cpu: CPU, r: RegisterLoc, val: u8)
    ensures
        cpu.after_operand(r).cycles == later(cpu.cycles, operand_ticks(r)),
        cpu.with_operand(r, val).cycles == later(cpu.cycles, operand_ticks(r)),
{
    clock_takes_a_tick(cpu);
    clock_takes_a_tick(CPU { bus: cpu.bus.write_spec(cpu.hl_val(), val), ..cpu });
    later_adds_up(cpu.cycles, 0, 0);
}

/// Writing a byte over the bus takes a tick.
pub proof fn write_takes_a_tick(cpu: CPU, loc: u16, val: u8)
    ensures
        cpu.write_spec(loc, val).cycles == later(cpu.cycles, 1),
{
    clock_takes_a_tick(CPU { bus: cpu.bus.write_spec(loc, val), ..cpu });
}

/// A push and a pop take a tick for each of their two bytes.
pub proof fn stack_takes_two_ticks(cpu: CPU, data: u16)
    ensures
        cpu.pushed(data).cycles == later(cpu.cycles, 2),
        cpu.popped().cycles == later(cpu.cycles, 2),
{
    let sp1 = advance(cpu.sp, -1);
    let first = CPU { sp: sp1, bus: cpu.bus.with_ram(sp1 as int, high_byte(data)), ..cpu };
    clock_takes_a_tick(first);
    let sp2 = advance(sp1, -1);
    let second = CPU {
        sp: sp2,
        bus: first.clock_spec().bus.with_ram(sp2 as int, low_byte(data)),
        ..first.clock_spec()
    };
    clock_takes_a_tick(second);
    clock_takes_a_tick(cpu);
    clock_takes_a_tick(cpu.clock_spec());
    later_adds_up(cpu.cycles, 1, 1);
}

/// A call and a return take three ticks: two for the word on the stack and
/// one for the jump.
pub proof fn call_and_return_take_three_ticks(cpu: CPU, loc: u16)
    ensures
        cpu.called(loc).cycles == later(cpu.cycles, 3),
        cpu.returned().cycles == later(cpu.cycles, 3),
{
    stack_takes_two_ticks(cpu, cpu.pc);
    clock_takes_a_tick(cpu.pushed(cpu.pc));
    clock_takes_a_tick(cpu.popped());
    later_adds_up(cpu.cycles, 2, 1);
}

/// Storing the result of an operation in the accumulator and the flags
/// takes no time.
pub proof fn applying_takes_no_time(cpu: CPU, res: AluResult)
    ensures
        cpu.applied(res).cycles == cpu.cycles,
{
}

/// Fetching an instruction takes a tick for its opcode and one for each
/// operand byte, and one more for the absolute jump and for the load of the
/// stack pointer from HL.
pub proof fn fetching_takes_a_tick_per_byte(cpu: CPU)
    ensures
        cpu.after_decode().cycles == later(
            cpu.cycles,
            1 + operand_size_spec(cpu.opcode()) + if cpu.opcode() == 0xC3 || cpu.opcode() == 0xF9 {
                1int
            } else {
                0int
            },
        ),
{
    reveal(CPU::after_decode);
    let c = cpu.after_opcode();
    fetch_takes_a_tick(cpu);
    clock_takes_a_tick(cpu.fetched());
    fetch_takes_a_tick(c);
    later_adds_up(cpu.cycles, 1, 1);
    later_adds_up(cpu.cycles, 1, 2);
    later_adds_up(cpu.cycles, 2, 1);
    later_adds_up(cpu.cycles, 2, 2);
    later_adds_up(cpu.cycles, 1, 0);
    later_adds_up(cpu.cycles, 2, 0);
}

} // verus!
