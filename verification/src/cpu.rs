//! The processor: registers, the fetch-decode-execute step and interrupts.

use vstd::prelude::*;
use vstd::array::spec_array_update;
use crate::alu::{
    add16, add16_flags, add8, and8, bit_flags, cp8, dec8, inc8, offset16, offset16_flags, or8,
    rotate_a, shift8, sub8, with_bit, without_bit, xor8, AluResult, Flags, Shift,
};
use crate::bus::{tick_keeps_ram, Bus};
use crate::cpu_recievable::Interrupt;
use crate::debugger::DebugOptions;
use crate::instruction::{
    decode, decode_extended, decode_extended_spec, decode_spec, decoded_is_valid, operand_size,
    operand_size_spec,
    Instruction, JmpFlag, Jump, Location, Offset, Register16Loc, RegisterLoc, PREFIX,
};

verus! {

/// Direction of a rotate.
#[derive(Clone, Copy, Debug, PartialEq, Eq, Structural)]
pub enum Rotate {
    Right,
    Left,
}

/// A flag of the processor, by name.
#[derive(Clone, Copy, Debug, PartialEq, Eq, Structural)]
pub enum Flag {
    Zero,
    AddSub,
    HalfCarry,
    Carry,
}

/// Why a step did not execute an instruction.
#[derive(Clone, Copy, Debug, PartialEq, Eq, Structural)]
pub enum CpuError {
    /// The byte `opcode`, fetched at `pc`, stands for no instruction.
    UnimplementedInstruction { pc: u16, opcode: u8 },
}

pub struct CPU {
    /// The eight registers in the order H, L, D, E, B, C, A, F.
    pub registers: [u8; 8],
    pub sp: u16,
    pub pc: u16,
    /// Interrupt master enable: 1 when interrupts are served.
    pub ime: u8,
    pub bus: Bus,
    /// Clock cycles elapsed, four to a bus tick, modulo 2^64.
    pub cycles: u64,
    /// The processor sleeps until an enabled interrupt is requested.
    pub halted: bool,
    /// Steps until interrupts are served after they were enabled; 0 when none is due.
    pub ime_delay: u8,
    pub debug_options: DebugOptions,
}

/// The word with high byte `high` and low byte `low`.
pub open spec fn word(high: u8, low: u8) -> u16 {
    (high * 256 + low) as u16
}

/// The high byte of a word.
pub open spec fn high_byte(v: u16) -> u8 {
    (v / 256) as u8
}

/// The low byte of a word.
pub open spec fn low_byte(v: u16) -> u8 {
    (v % 256) as u8
}

/// The address `n` after `v`, modulo 65536.
pub open spec fn advance(v: u16, n: int) -> u16 {
    ((v + n) % 0x10000) as u16
}

impl CPU {
    /// What holds of a valid value: every field is in the range that the operations keep it in.
    pub open spec fn wf(self) -> bool {
        self.bus.wf() && self.registers[7] % 16 == 0
    }

    /// Same state throughout; the image, the boot program and the debugger's
    /// lists are compared by what they hold.
    pub open spec fn equiv(self, other: CPU) -> bool {
        &&& self.registers == other.registers
        &&& self.sp == other.sp
        &&& self.pc == other.pc
        &&& self.ime == other.ime
        &&& self.bus.equiv(other.bus)
        &&& self.cycles == other.cycles
        &&& self.halted == other.halted
        &&& self.ime_delay == other.ime_delay
        &&& self.debug_options.equiv(other.debug_options)
    }

    /// The processor before its first step: no cycle spent, interrupts
    /// off, awake, the debugger's settings at their defaults.
    pub open spec fn fresh(self) -> bool {
        &&& self.ime == 0
        &&& self.cycles == 0
        &&& !self.halted
        &&& self.ime_delay == 0
        &&& self.debug_options.is_default()
    }

    /// The processor at power-on: fresh, all registers 0.
    pub open spec fn at_rest(self) -> bool {
        &&& self.fresh()
        &&& self.sp == 0
        &&& self.pc == 0
        &&& forall|i: int| 0 <= i < 8 ==> self.registers[i] == 0
    }

    /// The processor as the boot program leaves it: fresh, the program
    /// counter at `0x0100`, the stack pointer at `0xFFFE`, AF = `0x01B0`,
    /// BC = `0x0013`, DE = `0x00D8`, HL = `0x014D`.
    pub open spec fn booted(self) -> bool {
        &&& self.fresh()
        &&& self.sp == 0xFFFE
        &&& self.pc == 0x0100
        &&& self.af_val() == 0x01B0
        &&& self.bc_val() == 0x0013
        &&& self.de_val() == 0x00D8
        &&& self.hl_val() == 0x014D
    }

    // ----- registers -----

    /// Register A, the accumulator.
    pub open spec fn a_val(self) -> u8 {
        self.registers[6]
    }

    /// Register B.
    pub open spec fn b_val(self) -> u8 {
        self.registers[4]
    }

    /// Register C.
    pub open spec fn c_val(self) -> u8 {
        self.registers[5]
    }

    /// Register D.
    pub open spec fn d_val(self) -> u8 {
        self.registers[2]
    }

    /// Register E.
    pub open spec fn e_val(self) -> u8 {
        self.registers[3]
    }

    /// Register F, the flags.
    pub open spec fn f_val(self) -> u8 {
        self.registers[7]
    }

    /// Register H.
    pub open spec fn h_val(self) -> u8 {
        self.registers[0]
    }

    /// Register L.
    pub open spec fn l_val(self) -> u8 {
        self.registers[1]
    }

    /// The pair AF.
    pub open spec fn af_val(self) -> u16 {
        word(self.a_val(), self.f_val())
    }

    /// The pair BC.
    pub open spec fn bc_val(self) -> u16 {
        word(self.b_val(), self.c_val())
    }

    /// The pair DE.
    pub open spec fn de_val(self) -> u16 {
        word(self.d_val(), self.e_val())
    }

    /// The pair HL.
    pub open spec fn hl_val(self) -> u16 {
        word(self.h_val(), self.l_val())
    }

    /// The state with `v` in the register of index `index`.
    pub open spec fn with_reg(self, index: int, v: u8) -> CPU {
        CPU { registers: spec_array_update(self.registers, index, v), ..self }
    }

    /// The processor with `v` in the flag register, whose low nibble stays 0.
    pub open spec fn with_f(self, v: u8) -> CPU {
        self.with_reg(7, (v - v % 16) as u8)
    }

    /// The processor with `v` in AF; the low nibble of F stays 0.
    pub open spec fn with_af(self, v: u16) -> CPU {
        self.with_reg(6, high_byte(v)).with_f(low_byte(v))
    }

    /// The processor with `v` in BC.
    pub open spec fn with_bc(self, v: u16) -> CPU {
        self.with_reg(4, high_byte(v)).with_reg(5, low_byte(v))
    }

    /// The processor with `v` in DE.
    pub open spec fn with_de(self, v: u16) -> CPU {
        self.with_reg(2, high_byte(v)).with_reg(3, low_byte(v))
    }

    /// The processor with `v` in HL.
    pub open spec fn with_hl(self, v: u16) -> CPU {
        self.with_reg(0, high_byte(v)).with_reg(1, low_byte(v))
    }

    /// The four flags, read from the flag register.
    pub open spec fn flags(self) -> Flags {
        Flags::of(self.f_val())
    }

    /// The processor with the flags in the flag register.
    pub open spec fn with_flags(self, flags: Flags) -> CPU {
        self.with_reg(7, flags.byte())
    }

    /// One flag by name.
    pub open spec fn flag(self, f: Flag) -> bool {
        match f {
            Flag::Zero => self.flags().zero,
            Flag::AddSub => self.flags().subtract,
            Flag::HalfCarry => self.flags().half_carry,
            Flag::Carry => self.flags().carry,
        }
    }

    /// The processor with one flag set or cleared and the others as they are.
    pub open spec fn with_flag(self, f: Flag, b: bool) -> CPU {
        let flags = self.flags();
        self.with_flags(
            match f {
                Flag::Zero => Flags { zero: b, ..flags },
                Flag::AddSub => Flags { subtract: b, ..flags },
                Flag::HalfCarry => Flags { half_carry: b, ..flags },
                Flag::Carry => Flags { carry: b, ..flags },
            },
        )
    }

    /// The value of a register pair.
    pub open spec fn pair(self, r: Register16Loc) -> u16 {
        match r {
            Register16Loc::BC => self.bc_val(),
            Register16Loc::DE => self.de_val(),
            Register16Loc::HL => self.hl_val(),
            Register16Loc::AF => self.af_val(),
            Register16Loc::SP => self.sp,
        }
    }

    /// The processor with `v` in a register pair: the high byte in the first
    /// register of the pair, the low byte in the second.
    pub open spec fn with_pair(self, r: Register16Loc, v: u16) -> CPU {
        match r {
            Register16Loc::BC => self.with_bc(v),
            Register16Loc::DE => self.with_de(v),
            Register16Loc::HL => self.with_hl(v),
            Register16Loc::AF => self.with_af(v),
            Register16Loc::SP => CPU { sp: v, ..self },
        }
    }

    /// Whether the condition of a jump holds.
    pub open spec fn condition(self, f: JmpFlag) -> bool {
        match f {
            JmpFlag::Zero => self.flags().zero,
            JmpFlag::NoZero => !self.flags().zero,
            JmpFlag::Carry => self.flags().carry,
            JmpFlag::NoCarry => !self.flags().carry,
        }
    }

    // ----- the bus -----

    /// The processor after one tick of the bus: four cycles later, every
    /// device one tick on.
    pub open spec fn clock_spec(self) -> CPU {
        CPU {
            cycles: ((self.cycles + 4) % 0x1_0000_0000_0000_0000) as u64,
            bus: self.bus.cpu_tick_spec(),
            ..self
        }
    }

    /// The processor after it has written `val` to `loc`, which takes a tick.
    pub open spec fn write_spec(self, loc: u16, val: u8) -> CPU {
        (CPU { bus: self.bus.write_spec(loc, val), ..self }).clock_spec()
    }

    /// The byte at the program counter.
    pub open spec fn imm8(self) -> u8 {
        self.bus.read_spec(self.pc)
    }

    /// The processor after it has read the byte at the program counter,
    /// which takes a tick.
    pub open spec fn fetched(self) -> CPU {
        CPU { pc: advance(self.pc, 1), ..self.clock_spec() }
    }

    /// The word at the program counter, low byte first.
    pub open spec fn imm16(self) -> u16 {
        word(self.fetched().imm8(), self.imm8())
    }

    /// The value of an eight-bit operand.
    pub open spec fn operand_value(self, r: RegisterLoc) -> u8 {
        match r {
            RegisterLoc::A => self.a_val(),
            RegisterLoc::B => self.b_val(),
            RegisterLoc::C => self.c_val(),
            RegisterLoc::D => self.d_val(),
            RegisterLoc::E => self.e_val(),
            RegisterLoc::H => self.h_val(),
            RegisterLoc::L => self.l_val(),
            RegisterLoc::MemHL => self.bus.read_spec(self.hl_val()),
        }
    }

    /// The processor after it has read an eight-bit operand: a tick later if
    /// the operand is in memory.
    pub open spec fn after_operand(self, r: RegisterLoc) -> CPU {
        if r == RegisterLoc::MemHL {
            self.clock_spec()
        } else {
            self
        }
    }

    /// The processor after it has stored `val` in an eight-bit operand.
    pub open spec fn with_operand(self, r: RegisterLoc, val: u8) -> CPU {
        match r {
            RegisterLoc::A => self.with_reg(6, val),
            RegisterLoc::B => self.with_reg(4, val),
            RegisterLoc::C => self.with_reg(5, val),
            RegisterLoc::D => self.with_reg(2, val),
            RegisterLoc::E => self.with_reg(3, val),
            RegisterLoc::H => self.with_reg(0, val),
            RegisterLoc::L => self.with_reg(1, val),
            RegisterLoc::MemHL => self.write_spec(self.hl_val(), val),
        }
    }

    // ----- the stack -----

    /// The processor after a push: the stack pointer goes down by one and
    /// the high byte is stored there, then the same for the low byte, each
    /// with a tick.
    pub open spec fn pushed(self, data: u16) -> CPU {
        let sp1 = advance(self.sp, -1);
        let first = (CPU { sp: sp1, bus: self.bus.with_ram(sp1 as int, high_byte(data)), ..self }).clock_spec();
        let sp2 = advance(sp1, -1);
        (CPU { sp: sp2, bus: first.bus.with_ram(sp2 as int, low_byte(data)), ..first }).clock_spec()
    }

    /// The word that a pop reads: the low byte at the stack pointer, the
    /// high byte above it.
    pub open spec fn popped_value(self) -> u16 {
        word(self.clock_spec().bus.ram[advance(self.sp, 1) as int], self.bus.ram[self.sp as int])
    }

    /// The processor after a pop: two ticks later, the stack pointer up by two.
    pub open spec fn popped(self) -> CPU {
        CPU { sp: advance(self.sp, 2), ..self.clock_spec().clock_spec() }
    }

    /// The processor after a jump that takes a tick.
    pub open spec fn jumped(self, loc: u16) -> CPU {
        CPU { pc: loc, ..self.clock_spec() }
    }

    // ----- executable code -----

    /// A processor at rest around `bus`: all registers 0.
    pub fn new(bus: Bus) -> (r: Self)
        requires
            bus.wf(),
        ensures
            r.wf(),
            r.bus == bus,
            r.at_rest(),
    {
        CPU {
            sp: 0,
            pc: 0,
            ime: 0,
            registers: [0, 0, 0, 0, 0, 0, 0, 0],
            cycles: 0,
            bus,
            halted: false,
            ime_delay: 0,
            debug_options: DebugOptions::default(),
        }
    }

    /// A processor that starts with the boot program at address 0.
    pub fn with_bios(bus: Bus) -> (r: Self)
        requires
            bus.wf(),
        ensures
            r.wf(),
            r.bus == bus,
            r.at_rest(),
    {
        CPU::new(bus)
    }

    /// A processor in the state in which the boot program leaves it: the
    /// program counter at `0x0100`, the stack pointer at `0xFFFE`,
    /// AF = `0x01B0`, BC = `0x0013`, DE = `0x00D8`, HL = `0x014D`.
    pub fn post_bootrom(bus: Bus) -> (r: Self)
        requires
            bus.wf(),
        ensures
            r.wf(),
            r.bus == bus,
            r.booted(),
    {
        CPU {
            sp: 0xFFFE,
            pc: 0x0100,
            ime: 0,
            registers: [0x01, 0x4D, 0x00, 0xD8, 0x00, 0x13, 0x01, 0xB0],
            cycles: 0,
            bus,
            halted: false,
            ime_delay: 0,
            debug_options: DebugOptions::default(),
        }
    }

    /// Whether the machine is in a state that its own operations can have
    /// left it in; a machine put together from parts is stepped only if it is.
    pub fn is_valid(&self) -> (r: bool)
        ensures
            r == self.wf(),
    {
        self.bus.is_valid() && self.registers[7] % 16 == 0
    }

    pub fn a(&self) -> (r: u8)
        ensures
            r == self.a_val(),
    {
        self.registers[6]
    }

    pub fn b(&self) -> (r: u8)
        ensures
            r == self.b_val(),
    {
        self.registers[4]
    }

    pub fn c(&self) -> (r: u8)
        ensures
            r == self.c_val(),
    {
        self.registers[5]
    }

    pub fn d(&self) -> (r: u8)
        ensures
            r == self.d_val(),
    {
        self.registers[2]
    }

    pub fn e(&self) -> (r: u8)
        ensures
            r == self.e_val(),
    {
        self.registers[3]
    }

    pub fn f(&self) -> (r: u8)
        ensures
            r == self.f_val(),
    {
        self.registers[7]
    }

    pub fn h(&self) -> (r: u8)
        ensures
            r == self.h_val(),
    {
        self.registers[0]
    }

    pub fn l(&self) -> (r: u8)
        ensures
            r == self.l_val(),
    {
        self.registers[1]
    }

    pub fn af(&self) -> (r: u16)
        ensures
            r == self.af_val(),
    {
        (self.a() as u16) * 256 + self.f() as u16
    }

    pub fn bc(&self) -> (r: u16)
        ensures
            r == self.bc_val(),
    {
        (self.b() as u16) * 256 + self.c() as u16
    }

    pub fn de(&self) -> (r: u16)
        ensures
            r == self.de_val(),
    {
        (self.d() as u16) * 256 + self.e() as u16
    }

    pub fn hl(&self) -> (r: u16)
        ensures
            r == self.hl_val(),
    {
        (self.h() as u16) * 256 + self.l() as u16
    }

    pub fn pc(&self) -> (r: u16)
        ensures
            r == self.pc,
    {
        self.pc
    }

    pub fn set_a(&mut self, v: u8)
        ensures
            *final(self) == old(self).with_reg(6, v),
    {
        self.registers[6] = v;
    }

    pub fn set_b(&mut self, v: u8)
        ensures
            *final(self) == old(self).with_reg(4, v),
    {
        self.registers[4] = v;
    }

    pub fn set_c(&mut self, v: u8)
        ensures
            *final(self) == old(self).with_reg(5, v),
    {
        self.registers[5] = v;
    }

    pub fn set_d(&mut self, v: u8)
        ensures
            *final(self) == old(self).with_reg(2, v),
    {
        self.registers[2] = v;
    }

    pub fn set_e(&mut self, v: u8)
        ensures
            *final(self) == old(self).with_reg(3, v),
    {
        self.registers[3] = v;
    }

    /// Sets the flag register; its low nibble is always 0.
    pub fn set_f(&mut self, v: u8)
        ensures
            *final(self) == old(self).with_f(v),
    {
        self.registers[7] = v - v % 16;
    }

    pub fn set_h(&mut self, v: u8)
        ensures
            *final(self) == old(self).with_reg(0, v),
    {
        self.registers[0] = v;
    }

    pub fn set_l(&mut self, v: u8)
        ensures
            *final(self) == old(self).with_reg(1, v),
    {
        self.registers[1] = v;
    }

    pub fn set_af(&mut self, v: u16)
        ensures
            *final(self) == old(self).with_af(v),
    {
        self.set_a((v / 256) as u8);
        self.set_f((v % 256) as u8);
    }

    pub fn set_bc(&mut self, v: u16)
        ensures
            *final(self) == old(self).with_bc(v),
    {
        self.set_b((v / 256) as u8);
        self.set_c((v % 256) as u8);
    }

    pub fn set_de(&mut self, v: u16)
        ensures
            *final(self) == old(self).with_de(v),
    {
        self.set_d((v / 256) as u8);
        self.set_e((v % 256) as u8);
    }

    pub fn set_hl(&mut self, v: u16)
        ensures
            *final(self) == old(self).with_hl(v),
    {
        self.set_h((v / 256) as u8);
        self.set_l((v % 256) as u8);
    }

    pub fn set_ime(&mut self)
        ensures
            *final(self) == (CPU { ime: 1, ..*old(self) }),
    {
        self.ime = 1;
    }

    pub fn clear_ime(&mut self)
        ensures
            *final(self) == (CPU { ime: 0, ..*old(self) }),
    {
        self.ime = 0;
    }

    pub fn get_flags(&self) -> (r: Flags)
        ensures
            r == self.flags(),
    {
        Flags::from_byte(self.registers[7])
    }

    pub fn set_flags(&mut self, flags: Flags)
        ensures
            *final(self) == old(self).with_flags(flags),
            old(self).bus.wf() ==> final(self).wf(),
    {
        self.registers[7] = flags.to_byte();
    }

    pub fn get_flag(&self, f: Flag) -> (r: bool)
        ensures
            r == self.flag(f),
    {
        let flags = self.get_flags();
        match f {
            Flag::Zero => flags.zero,
            Flag::AddSub => flags.subtract,
            Flag::HalfCarry => flags.half_carry,
            Flag::Carry => flags.carry,
        }
    }

    pub fn set_flag(&mut self, f: Flag, b: bool)
        ensures
            *final(self) == old(self).with_flag(f, b),
            old(self).bus.wf() ==> final(self).wf(),
    {
        let mut flags = self.get_flags();
        match f {
            Flag::Zero => {
                flags.zero = b;
            },
            Flag::AddSub => {
                flags.subtract = b;
            },
            Flag::HalfCarry => {
                flags.half_carry = b;
            },
            Flag::Carry => {
                flags.carry = b;
            },
        }
        self.set_flags(flags);
    }

    /// Reads an eight-bit operand; one in memory takes a tick.
    pub fn get_register(&mut self, r: RegisterLoc) -> (v: u8)
        requires
            old(self).wf(),
        ensures
            final(self).wf(),
            v == old(self).operand_value(r),
            *final(self) == old(self).after_operand(r),
    {
        match r {
            RegisterLoc::A => self.a(),
            RegisterLoc::B => self.b(),
            RegisterLoc::C => self.c(),
            RegisterLoc::D => self.d(),
            RegisterLoc::E => self.e(),
            RegisterLoc::H => self.h(),
            RegisterLoc::L => self.l(),
            RegisterLoc::MemHL => {
                let loc: u16 = self.hl();
                self.read(loc)
            },
        }
    }

    /// Stores into an eight-bit operand; one in memory takes a tick.
    pub fn set_register(&mut self, r: RegisterLoc, val: u8)
        requires
            old(self).wf(),
        ensures
            final(self).wf(),
            *final(self) == old(self).with_operand(r, val),
    {
        match r {
            RegisterLoc::A => self.set_a(val),
            RegisterLoc::B => self.set_b(val),
            RegisterLoc::C => self.set_c(val),
            RegisterLoc::D => self.set_d(val),
            RegisterLoc::E => self.set_e(val),
            RegisterLoc::H => self.set_h(val),
            RegisterLoc::L => self.set_l(val),
            RegisterLoc::MemHL => {
                let loc: u16 = self.hl();
                self.write(loc, val)
            },
        }
    }

    pub fn get_register16(&self, r: Register16Loc) -> (v: u16)
        ensures
            v == self.pair(r),
    {
        match r {
            Register16Loc::BC => self.bc(),
            Register16Loc::DE => self.de(),
            Register16Loc::HL => self.hl(),
            Register16Loc::AF => self.af(),
            Register16Loc::SP => self.sp,
        }
    }

    pub fn set_register16(&mut self, r: Register16Loc, val: u16)
        ensures
            *final(self) == old(self).with_pair(r, val),
            old(self).wf() ==> final(self).wf(),
    {
        match r {
            Register16Loc::BC => self.set_bc(val),
            Register16Loc::DE => self.set_de(val),
            Register16Loc::HL => self.set_hl(val),
            Register16Loc::AF => self.set_af(val),
            Register16Loc::SP => {
                self.sp = val;
            },
        }
    }

    /// One tick of the bus.
    #[verifier::rlimit(50)]
    pub fn clock(&mut self)
        requires
            old(self).wf(),
        ensures
            final(self).wf(),
            *final(self) == old(self).clock_spec(),
    {
        self.cycles = self.cycles.wrapping_add(4);
        self.bus.cpu_tick();
    }

    /// Reads a byte over the bus, which takes a tick.
    pub fn read(&mut self, loc: u16) -> (data: u8)
        requires
            old(self).wf(),
        ensures
            final(self).wf(),
            data == old(self).bus.read_spec(loc),
            *final(self) == old(self).clock_spec(),
    {
        let data: u8 = self.bus.read(loc);
        self.clock();
        data
    }

    /// Writes a byte over the bus, which takes a tick.
    pub fn write(&mut self, loc: u16, val: u8)
        requires
            old(self).wf(),
        ensures
            final(self).wf(),
            *final(self) == old(self).write_spec(loc, val),
    {
        self.bus.write(loc, val);
        self.clock();
    }

    /// Reads the byte at the program counter and steps over it.
    #[verifier::rlimit(50)]
    pub fn next(&mut self) -> (data: u8)
        requires
            old(self).wf(),
        ensures
            final(self).wf(),
            data == old(self).imm8(),
            *final(self) == old(self).fetched(),
    {
        let data: u8 = self.read(self.pc);
        self.pc = self.pc.wrapping_add(1);
        data
    }

    pub fn next_signed(&mut self) -> (data: i8)
        requires
            old(self).wf(),
        ensures
            final(self).wf(),
            data == crate::instruction::signed(old(self).imm8()),
            *final(self) == old(self).fetched(),
    {
        crate::instruction::to_signed(self.next())
    }

    /// Reads the word at the program counter, low byte first, and steps over it.
    #[verifier::rlimit(50)]
    pub fn next16(&mut self) -> (data: u16)
        requires
            old(self).wf(),
        ensures
            final(self).wf(),
            data == old(self).imm16(),
            *final(self) == old(self).fetched().fetched(),
    {
        let lower: u16 = self.next() as u16;
        let upper: u16 = self.next() as u16;
        upper * 256 + lower
    }

    pub fn check_jmp_flag(&self, f: JmpFlag) -> (r: bool)
        ensures
            r == self.condition(f),
    {
        match f {
            JmpFlag::Zero => self.get_flag(Flag::Zero),
            JmpFlag::NoZero => !self.get_flag(Flag::Zero),
            JmpFlag::Carry => self.get_flag(Flag::Carry),
            JmpFlag::NoCarry => !self.get_flag(Flag::Carry),
        }
    }

    /// Pops a word off the stack: the low byte first, a tick for each byte.
    #[verifier::rlimit(50)]
    pub fn stack_pop(&mut self) -> (data: u16)
        requires
            old(self).wf(),
        ensures
            final(self).wf(),
            data == old(self).popped_value(),
            *final(self) == old(self).popped(),
    {
        let low_data: u16 = self.bus.stack_pop(self.sp as usize) as u16;
        self.sp = self.sp.wrapping_add(1);
        self.clock();
        let high_data: u16 = self.bus.stack_pop(self.sp as usize) as u16;
        self.sp = self.sp.wrapping_add(1);
        self.clock();
        high_data * 256 + low_data
    }

    /// Pushes a word on the stack: the high byte first, a tick for each byte.
    #[verifier::rlimit(50)]
    pub fn stack_push(&mut self, data: u16)
        requires
            old(self).wf(),
        ensures
            final(self).wf(),
            *final(self) == old(self).pushed(data),
    {
        self.sp = self.sp.wrapping_sub(1);
        self.bus.stack_push(self.sp as usize, (data / 256) as u8);
        self.clock();
        self.sp = self.sp.wrapping_sub(1);
        self.bus.stack_push(self.sp as usize, (data % 256) as u8);
        self.clock();
    }

    /// Jumps to `loc`, which takes a tick.
    pub fn set_pc(&mut self, loc: u16)
        requires
            old(self).wf(),
        ensures
            final(self).wf(),
            *final(self) == old(self).jumped(loc),
    {
        self.clock();
        self.pc = loc;
    }

    // ----- what the instructions do -----

    /// The processor with the result of an operation in the accumulator and
    /// its flags in the flag register.
    pub open spec fn applied(self, res: AluResult) -> CPU {
        self.with_reg(6, res.value).with_flags(res.flags)
    }

    /// An arithmetic or logic instruction on the accumulator and a register
    /// or the byte at HL.
    pub open spec fn alu_spec(self, op: Instruction) -> CPU {
        let a = self.a_val();
        let carry = self.flags().carry;
        match op {
            Instruction::Add(r) => self.after_operand(r).applied(add8(a, self.operand_value(r), false)),
            Instruction::Adc(r) => self.after_operand(r).applied(add8(a, self.operand_value(r), carry)),
            Instruction::Sub(r) => self.after_operand(r).applied(sub8(a, self.operand_value(r), false)),
            Instruction::Sbc(r) => self.after_operand(r).applied(sub8(a, self.operand_value(r), carry)),
            Instruction::And(r) => self.after_operand(r).applied(and8(a, self.operand_value(r))),
            Instruction::Xor(r) => self.after_operand(r).applied(xor8(a, self.operand_value(r))),
            Instruction::Or(r) => self.after_operand(r).applied(or8(a, self.operand_value(r))),
            Instruction::Cp(r) => self.after_operand(r).applied(cp8(a, self.operand_value(r))),
            _ => self,
        }
    }

    /// An arithmetic or logic instruction on the accumulator and a constant.
    pub open spec fn alu_imm_spec(self, op: Instruction) -> CPU {
        let a = self.a_val();
        let carry = self.flags().carry;
        match op {
            Instruction::AddImm(n) => self.applied(add8(a, n, false)),
            Instruction::AdcImm(n) => self.applied(add8(a, n, carry)),
            Instruction::SubImm(n) => self.applied(sub8(a, n, false)),
            Instruction::SbcImm(n) => self.applied(sub8(a, n, carry)),
            Instruction::AndImm(n) => self.applied(and8(a, n)),
            Instruction::XorImm(n) => self.applied(xor8(a, n)),
            Instruction::OrImm(n) => self.applied(or8(a, n)),
            Instruction::CpImm(n) => self.applied(cp8(a, n)),
            _ => self,
        }
    }

    /// The processor after an operation that reads an operand, stores
    /// `res.value` in it and sets the flags.
    pub open spec fn updated(self, r: RegisterLoc, res: AluResult) -> CPU {
        self.after_operand(r).with_operand(r, res.value).with_flags(res.flags)
    }

    /// A rotate or shift of a register or the byte at HL.
    pub open spec fn shifted(self, kind: Shift, r: RegisterLoc) -> CPU {
        self.updated(r, shift8(kind, self.operand_value(r), self.flags().carry))
    }

    /// The rotates and shifts, and the rotates of the accumulator.
    pub open spec fn shift_spec(self, op: Instruction) -> CPU {
        let a = self.a_val();
        let carry = self.flags().carry;
        match op {
            Instruction::Rlc(r) => self.shifted(Shift::Rlc, r),
            Instruction::Rrc(r) => self.shifted(Shift::Rrc, r),
            Instruction::Rl(r) => self.shifted(Shift::Rl, r),
            Instruction::Rr(r) => self.shifted(Shift::Rr, r),
            Instruction::Sla(r) => self.shifted(Shift::Sla, r),
            Instruction::Sra(r) => self.shifted(Shift::Sra, r),
            Instruction::Swap(r) => self.shifted(Shift::Swap, r),
            Instruction::Srl(r) => self.shifted(Shift::Srl, r),
            Instruction::Rlca => self.applied(rotate_a(Shift::Rlc, a, carry)),
            Instruction::Rrca => self.applied(rotate_a(Shift::Rrc, a, carry)),
            Instruction::Rla => self.applied(rotate_a(Shift::Rl, a, carry)),
            Instruction::Rra => self.applied(rotate_a(Shift::Rr, a, carry)),
            _ => self,
        }
    }

    /// Increment, decrement, the bit instructions and the instructions on
    /// the accumulator and the carry alone.
    pub open spec fn unary_spec(self, op: Instruction) -> CPU {
        let flags = self.flags();
        match op {
            Instruction::Inc(r) => self.updated(r, inc8(self.operand_value(r), flags)),
            Instruction::Dec(r) => self.updated(r, dec8(self.operand_value(r), flags)),
            Instruction::Bit(n, r) => self.after_operand(r).with_flags(
                bit_flags(self.operand_value(r), n, flags),
            ),
            Instruction::SetBit(n, r) => self.after_operand(r).with_operand(
                r,
                with_bit(self.operand_value(r), n),
            ),
            Instruction::Res(n, r) => self.after_operand(r).with_operand(
                r,
                without_bit(self.operand_value(r), n),
            ),
            Instruction::Cpl => self.with_reg(6, !self.a_val()).with_flags(
                Flags { subtract: true, half_carry: true, ..flags },
            ),
            Instruction::Ccf => self.with_flags(
                Flags { subtract: false, half_carry: false, carry: !flags.carry, ..flags },
            ),
            Instruction::Scf => self.with_flags(
                Flags { subtract: false, half_carry: false, carry: true, ..flags },
            ),
            _ => self,
        }
    }

    /// The arithmetic on register pairs; each takes a tick more, and the
    /// addition to the stack pointer two.
    pub open spec fn wide_spec(self, op: Instruction) -> CPU {
        match op {
            Instruction::Inc16(r) => self.with_pair(r, advance(self.pair(r), 1)).clock_spec(),
            Instruction::Dec16(r) => self.with_pair(r, advance(self.pair(r), -1)).clock_spec(),
            Instruction::AddHL16(r) => self.with_hl(add16(self.hl_val(), self.pair(r))).with_flags(
                add16_flags(self.hl_val(), self.pair(r), self.flags()),
            ).clock_spec(),
            Instruction::AddSp(e) => (CPU { sp: offset16(self.sp, e), ..self }).with_flags(
                offset16_flags(self.sp, e),
            ).clock_spec().clock_spec(),
            _ => self,
        }
    }

    /// Where a jump goes.
    pub open spec fn target(self, j: Jump) -> u16 {
        match j {
            Jump::Relative(e) => advance(self.pc, e as int),
            Jump::Absolute(v) => v,
        }
    }

    /// A return: the program counter is popped off the stack, and the jump
    /// to it takes a tick.
    pub open spec fn returned(self) -> CPU {
        self.popped().jumped(self.popped_value())
    }

    /// A call: the program counter is pushed on the stack, and the jump takes a tick.
    pub open spec fn called(self, loc: u16) -> CPU {
        self.pushed(self.pc).jumped(loc)
    }

    /// Jumps, calls, returns and the stack.
    pub open spec fn control_spec(self, op: Instruction) -> CPU {
        match op {
            Instruction::Pop(r) => self.popped().with_pair(r, self.popped_value()),
            Instruction::Push(r) => self.pushed(self.pair(r)).clock_spec(),
            Instruction::Reti => CPU { ime: 1, ..self.returned() },
            Instruction::Ret(None) => self.returned(),
            Instruction::Ret(Some(f)) => if self.condition(f) {
                self.clock_spec().returned()
            } else {
                self.clock_spec()
            },
            Instruction::Call(None, l) => self.called(l),
            Instruction::Call(Some(f), l) => if self.condition(f) {
                self.called(l)
            } else {
                self
            },
            Instruction::Rst(v) => self.called(v as u16),
            Instruction::Jmp(j, Some(f)) => if self.condition(f) {
                self.jumped(self.target(j))
            } else {
                self
            },
            Instruction::Jmp(Jump::Relative(e), None) => self.jumped(advance(self.pc, e as int)),
            Instruction::Jmp(Jump::Absolute(v), None) => CPU { pc: v, ..self },
            _ => self,
        }
    }

    /// Interrupt enabling, which takes effect after the next instruction,
    /// disabling, halting, and doing nothing.
    pub open spec fn misc_spec(self, op: Instruction) -> CPU {
        match op {
            Instruction::EI => CPU { ime_delay: 2, ..self },
            Instruction::DI => CPU { ime: 0, ime_delay: 0, ..self },
            Instruction::Halt => CPU { halted: true, ..self },
            _ => self,
        }
    }

    /// The address that a pointer register holds.
    pub open spec fn address(self, off: Offset) -> u16 {
        match off {
            Offset::HLDec => self.hl_val(),
            Offset::HLInc => self.hl_val(),
            Offset::BC => self.bc_val(),
            Offset::DE => self.de_val(),
        }
    }

    /// The processor after a pointer register was used: HL steps if asked.
    pub open spec fn after_lookup(self, off: Offset) -> CPU {
        match off {
            Offset::HLDec => self.with_hl(advance(self.hl_val(), -1)),
            Offset::HLInc => self.with_hl(advance(self.hl_val(), 1)),
            _ => self,
        }
    }

    /// The address of a location in memory.
    pub open spec fn location_address(self, l: Location) -> u16 {
        match l {
            Location::ZeroPageC => (0xFF00 + self.c_val()) as u16,
            Location::ZeroPageAbsolute(v) => (0xFF00 + v) as u16,
            Location::IndirectLiteral(u) => u,
            Location::Indirect(off) => self.address(off),
            _ => 0,
        }
    }

    /// The byte that a load of eight bits reads.
    pub open spec fn source_value(self, src: Location) -> u8 {
        match src {
            Location::Immediate(i) => i,
            Location::Register(r) => self.operand_value(r),
            _ => self.bus.read_spec(self.location_address(src)),
        }
    }

    /// The processor after a load of eight bits has read its source.
    pub open spec fn after_source(self, src: Location) -> CPU {
        match src {
            Location::Immediate(i) => self,
            Location::Register(r) => self.after_operand(r),
            Location::Indirect(off) => self.after_lookup(off).clock_spec(),
            _ => self.clock_spec(),
        }
    }

    /// The processor after a load of eight bits has written `v`.
    pub open spec fn stored(self, dest: Location, v: u8) -> CPU {
        match dest {
            Location::Register(r) => self.with_operand(r, v),
            Location::Indirect(off) => self.after_lookup(off).write_spec(self.address(off), v),
            _ => self.write_spec(self.location_address(dest), v),
        }
    }

    /// The word that a load of sixteen bits reads.
    pub open spec fn wide_value(self, src: Location) -> u16 {
        match src {
            Location::Immediate16(i) => i,
            Location::Register16(r) => self.pair(r),
            Location::SP => self.sp,
            Location::SPOffset(e) => offset16(self.sp, e),
            _ => 0,
        }
    }

    /// The processor after a load of sixteen bits has read its source: the
    /// stack pointer with an offset takes a tick and sets the flags.
    pub open spec fn after_wide_source(self, src: Location) -> CPU {
        match src {
            Location::SPOffset(e) => self.clock_spec().with_flags(offset16_flags(self.sp, e)),
            _ => self,
        }
    }

    /// The processor after a load of sixteen bits has written `v`.
    pub open spec fn wide_stored(self, dest: Location, v: u16) -> CPU {
        match dest {
            Location::SP => CPU { sp: v, ..self },
            Location::Register16(r) => self.with_pair(r, v),
            _ => self,
        }
    }

    /// A load: of sixteen bits if either side is a word, else of eight.
    pub open spec fn load_spec(self, dest: Location, src: Location) -> CPU {
        if dest.is_wide() || src.is_wide() {
            self.after_wide_source(src).wide_stored(dest, self.wide_value(src))
        } else {
            self.after_source(src).stored(dest, self.source_value(src))
        }
    }

    /// The processor after it has executed `op`.
    #[verifier::opaque]
    pub open spec fn execute_spec(self, op: Instruction) -> CPU {
        match op {
            Instruction::Load(dest, src) => self.load_spec(dest, src),
            Instruction::Add(_) | Instruction::Adc(_) | Instruction::Sub(_) | Instruction::Sbc(_)
            | Instruction::And(_) | Instruction::Xor(_) | Instruction::Or(_) | Instruction::Cp(
                _,
            ) => self.alu_spec(op),
            Instruction::AddImm(_) | Instruction::AdcImm(_) | Instruction::SubImm(_)
            | Instruction::SbcImm(_) | Instruction::AndImm(_) | Instruction::XorImm(_)
            | Instruction::OrImm(_) | Instruction::CpImm(_) => self.alu_imm_spec(op),
            Instruction::Rlc(_) | Instruction::Rrc(_) | Instruction::Rl(_) | Instruction::Rr(_)
            | Instruction::Sla(_) | Instruction::Sra(_) | Instruction::Swap(_) | Instruction::Srl(_)
            | Instruction::Rla | Instruction::Rra | Instruction::Rlca | Instruction::Rrca => self.shift_spec(
                op,
            ),
            Instruction::Inc(_) | Instruction::Dec(_) | Instruction::Bit(_, _) | Instruction::Res(
                _,
                _,
            ) | Instruction::SetBit(_, _) | Instruction::Cpl | Instruction::Ccf | Instruction::Scf => self.unary_spec(
                op,
            ),
            Instruction::Inc16(_) | Instruction::Dec16(_) | Instruction::AddHL16(_)
            | Instruction::AddSp(_) => self.wide_spec(op),
            Instruction::Pop(_) | Instruction::Push(_) | Instruction::Call(_, _) | Instruction::Ret(
                _,
            ) | Instruction::Reti | Instruction::Rst(_) | Instruction::Jmp(_, _) => self.control_spec(
                op,
            ),
            Instruction::EI | Instruction::DI | Instruction::Halt | Instruction::Nop => self.misc_spec(
                op,
            ),
        }
    }

    /// Stores the result of an operation in the accumulator and its flags in
    /// the flag register.
    pub fn apply(&mut self, res: AluResult)
        requires
            old(self).wf(),
        ensures
            final(self).wf(),
            *final(self) == old(self).applied(res),
    {
        self.set_a(res.value);
        self.set_flags(res.flags);
    }

    #[verifier::rlimit(50)]
    fn execute_alu(&mut self, op: Instruction)
        requires
            old(self).wf(),
        ensures
            final(self).wf(),
            *final(self) == old(self).alu_spec(op),
    {
        let a: u8 = self.a();
        let carry: bool = self.get_flag(Flag::Carry);
        match op {
            Instruction::Add(r) => {
                let v: u8 = self.get_register(r);
                self.apply(crate::alu::alu_add(a, v, false));
            },
            Instruction::Adc(r) => {
                let v: u8 = self.get_register(r);
                self.apply(crate::alu::alu_add(a, v, carry));
            },
            Instruction::Sub(r) => {
                let v: u8 = self.get_register(r);
                self.apply(crate::alu::alu_sub(a, v, false));
            },
            Instruction::Sbc(r) => {
                let v: u8 = self.get_register(r);
                self.apply(crate::alu::alu_sub(a, v, carry));
            },
            Instruction::And(r) => {
                let v: u8 = self.get_register(r);
                self.apply(crate::alu::alu_and(a, v));
            },
            Instruction::Xor(r) => {
                let v: u8 = self.get_register(r);
                self.apply(crate::alu::alu_xor(a, v));
            },
            Instruction::Or(r) => {
                let v: u8 = self.get_register(r);
                self.apply(crate::alu::alu_or(a, v));
            },
            Instruction::Cp(r) => {
                let v: u8 = self.get_register(r);
                self.apply(crate::alu::alu_cp(a, v));
            },
            _ => (),
        }
    }

    #[verifier::rlimit(50)]
    fn execute_alu_imm(&mut self, op: Instruction)
        requires
            old(self).wf(),
        ensures
            final(self).wf(),
            *final(self) == old(self).alu_imm_spec(op),
    {
        let a: u8 = self.a();
        let carry: bool = self.get_flag(Flag::Carry);
        match op {
            Instruction::AddImm(n) => self.apply(crate::alu::alu_add(a, n, false)),
            Instruction::AdcImm(n) => self.apply(crate::alu::alu_add(a, n, carry)),
            Instruction::SubImm(n) => self.apply(crate::alu::alu_sub(a, n, false)),
            Instruction::SbcImm(n) => self.apply(crate::alu::alu_sub(a, n, carry)),
            Instruction::AndImm(n) => self.apply(crate::alu::alu_and(a, n)),
            Instruction::XorImm(n) => self.apply(crate::alu::alu_xor(a, n)),
            Instruction::OrImm(n) => self.apply(crate::alu::alu_or(a, n)),
            Instruction::CpImm(n) => self.apply(crate::alu::alu_cp(a, n)),
            _ => (),
        }
    }

    /// Rotates or shifts a register or the byte at HL.
    #[verifier::rlimit(50)]
    pub fn shift_register(&mut self, kind: Shift, r: RegisterLoc)
        requires
            old(self).wf(),
        ensures
            final(self).wf(),
            *final(self) == old(self).shifted(kind, r),
    {
        let carry: bool = self.get_flag(Flag::Carry);
        let val: u8 = self.get_register(r);
        let res = crate::alu::shift(kind, val, carry);
        self.set_register(r, res.value);
        self.set_flags(res.flags);
    }

    /// Rotates a register or the byte at HL by one bit, through the carry or not.
    pub fn rotate_register(&mut self, r: RegisterLoc, dir: Rotate, withcarry: bool)
        requires
            old(self).wf(),
        ensures
            final(self).wf(),
            *final(self) == old(self).shifted(rotation(dir, withcarry), r),
    {
        let kind = match dir {
            Rotate::Left => if withcarry {
                Shift::Rl
            } else {
                Shift::Rlc
            },
            Rotate::Right => if withcarry {
                Shift::Rr
            } else {
                Shift::Rrc
            },
        };
        self.shift_register(kind, r);
    }

    fn rotate_a_register(&mut self, kind: Shift)
        requires
            old(self).wf(),
        ensures
            final(self).wf(),
            *final(self) == old(self).applied(
                rotate_a(kind, old(self).a_val(), old(self).flags().carry),
            ),
    {
        let carry: bool = self.get_flag(Flag::Carry);
        let a: u8 = self.a();
        self.apply(crate::alu::rotate_accumulator(kind, a, carry));
    }

    #[verifier::rlimit(60)]
    fn execute_shift(&mut self, op: Instruction)
        requires
            old(self).wf(),
        ensures
            final(self).wf(),
            *final(self) == old(self).shift_spec(op),
    {
        match op {
            Instruction::Rl(r) => self.rotate_register(r, Rotate::Left, true),
            Instruction::Rr(r) => self.rotate_register(r, Rotate::Right, true),
            Instruction::Rlc(r) => self.rotate_register(r, Rotate::Left, false),
            Instruction::Rrc(r) => self.rotate_register(r, Rotate::Right, false),
            Instruction::Sla(r) => self.shift_register(Shift::Sla, r),
            Instruction::Sra(r) => self.shift_register(Shift::Sra, r),
            Instruction::Swap(r) => self.shift_register(Shift::Swap, r),
            Instruction::Srl(r) => self.shift_register(Shift::Srl, r),
            Instruction::Rla => self.rotate_a_register(Shift::Rl),
            Instruction::Rra => self.rotate_a_register(Shift::Rr),
            Instruction::Rlca => self.rotate_a_register(Shift::Rlc),
            Instruction::Rrca => self.rotate_a_register(Shift::Rrc),
            _ => (),
        }
    }

    #[verifier::rlimit(50)]
    fn execute_unary(&mut self, op: Instruction)
        requires
            old(self).wf(),
            op.valid(),
        ensures
            final(self).wf(),
            *final(self) == old(self).unary_spec(op),
    {
        let flags: Flags = self.get_flags();
        match op {
            Instruction::Inc(r) => {
                let old_val: u8 = self.get_register(r);
                let res = crate::alu::alu_inc(old_val, flags);
                self.set_register(r, res.value);
                self.set_flags(res.flags);
            },
            Instruction::Dec(r) => {
                let old_val: u8 = self.get_register(r);
                let res = crate::alu::alu_dec(old_val, flags);
                self.set_register(r, res.value);
                self.set_flags(res.flags);
            },
            Instruction::Bit(v3, r) => {
                let val: u8 = self.get_register(r);
                self.set_flags(crate::alu::test_bit(val, v3, flags));
            },
            Instruction::SetBit(v3, r) => {
                let val: u8 = self.get_register(r);
                self.set_register(r, crate::alu::set_bit(val, v3));
            },
            Instruction::Res(v3, r) => {
                let val: u8 = self.get_register(r);
                self.set_register(r, crate::alu::reset_bit(val, v3));
            },
            Instruction::Cpl => {
                let inverse: u8 = !self.a();
                self.set_a(inverse);
                self.set_flags(
                    Flags {
                        zero: flags.zero,
                        subtract: true,
                        half_carry: true,
                        carry: flags.carry,
                    },
                );
            },
            Instruction::Ccf => {
                self.set_flags(
                    Flags {
                        zero: flags.zero,
                        subtract: false,
                        half_carry: false,
                        carry: !flags.carry,
                    },
                );
            },
            Instruction::Scf => {
                self.set_flags(
                    Flags { zero: flags.zero, subtract: false, half_carry: false, carry: true },
                );
            },
            _ => (),
        }
    }

    #[verifier::rlimit(50)]
    fn step_pair(&mut self, r16: Register16Loc, up: bool)
        requires
            old(self).wf(),
        ensures
            final(self).wf(),
            *final(self) == old(self).with_pair(
                r16,
                advance(
                    old(self).pair(r16),
                    if up {
                        1
                    } else {
                        -1
                    },
                ),
            ).clock_spec(),
    {
        let v: u16 = self.get_register16(r16);
        let stepped: u16 = if up {
            v.wrapping_add(1)
        } else {
            v.wrapping_sub(1)
        };
        self.set_register16(r16, stepped);
        self.clock();
    }

    #[verifier::rlimit(50)]
    fn add_to_hl(&mut self, r: Register16Loc)
        requires
            old(self).wf(),
        ensures
            final(self).wf(),
            *final(self) == old(self).wide_spec(Instruction::AddHL16(r)),
    {
        let hl_val: u16 = self.hl();
        let reg_val: u16 = self.get_register16(r);
        let sum = crate::alu::add_words(hl_val, reg_val, self.get_flags());
        self.set_hl(sum.0);
        self.set_flags(sum.1);
        self.clock();
    }

    #[verifier::rlimit(50)]
    fn add_to_sp(&mut self, e8: i8)
        requires
            old(self).wf(),
        ensures
            final(self).wf(),
            *final(self) == old(self).wide_spec(Instruction::AddSp(e8)),
    {
        let sum = crate::alu::add_offset(self.sp, e8);
        self.sp = sum.0;
        self.set_flags(sum.1);
        self.clock();
        self.clock();
    }

    #[verifier::rlimit(50)]
    fn execute_wide(&mut self, op: Instruction)
        requires
            old(self).wf(),
        ensures
            final(self).wf(),
            *final(self) == old(self).wide_spec(op),
    {
        match op {
            Instruction::Inc16(r16) => self.step_pair(r16, true),
            Instruction::Dec16(r16) => self.step_pair(r16, false),
            Instruction::AddHL16(r) => self.add_to_hl(r),
            Instruction::AddSp(e8) => self.add_to_sp(e8),
            _ => (),
        }
    }

    fn do_return(&mut self)
        requires
            old(self).wf(),
        ensures
            final(self).wf(),
            *final(self) == old(self).returned(),
    {
        let loc: u16 = self.stack_pop();
        self.set_pc(loc);
    }

    fn do_call(&mut self, loc: u16)
        requires
            old(self).wf(),
        ensures
            final(self).wf(),
            *final(self) == old(self).called(loc),
    {
        self.stack_push(self.pc);
        self.set_pc(loc);
    }

    fn jump_target(&self, j: Jump) -> (dest: u16)
        ensures
            dest == self.target(j),
    {
        match j {
            Jump::Relative(v8) => ((self.pc as i32 + v8 as i32 + 0x10000) % 0x10000) as u16,
            Jump::Absolute(v16) => v16,
        }
    }

    #[verifier::rlimit(50)]
    fn execute_control(&mut self, op: Instruction)
        requires
            old(self).wf(),
        ensures
            final(self).wf(),
            *final(self) == old(self).control_spec(op),
    {
        match op {
            Instruction::Pop(r) => {
                let stack_val: u16 = self.stack_pop();
                self.set_register16(r, stack_val);
            },
            Instruction::Push(r) => {
                let v: u16 = self.get_register16(r);
                self.stack_push(v);
                self.clock();
            },
            Instruction::Reti => {
                self.do_return();
                self.ime = 1;
            },
            Instruction::Ret(cc) => {
                if let Some(flag) = cc {
                    let taken: bool = self.check_jmp_flag(flag);
                    self.clock();
                    if taken {
                        self.do_return();
                    }
                } else {
                    self.do_return();
                }
            },
            Instruction::Call(None, l) => {
                self.do_call(l);
            },
            Instruction::Call(Some(flag), l) => {
                if self.check_jmp_flag(flag) {
                    self.do_call(l);
                }
            },
            Instruction::Rst(vec) => {
                self.do_call(vec as u16);
            },
            Instruction::Jmp(j, Some(f)) => {
                if self.check_jmp_flag(f) {
                    let dest: u16 = self.jump_target(j);
                    self.set_pc(dest);
                }
            },
            Instruction::Jmp(j, None) => {
                let dest: u16 = self.jump_target(j);
                match j {
                    Jump::Relative(_) => {
                        self.set_pc(dest);
                    },
                    Jump::Absolute(_) => {
                        self.pc = dest;
                    },
                }
            },
            _ => (),
        }
    }

    fn execute_misc(&mut self, op: Instruction)
        requires
            old(self).wf(),
        ensures
            final(self).wf(),
            *final(self) == old(self).misc_spec(op),
    {
        match op {
            Instruction::EI => {
                self.ime_delay = 2;
            },
            Instruction::DI => {
                self.clear_ime();
                self.ime_delay = 0;
            },
            Instruction::Halt => {
                self.halted = true;
            },
            _ => (),
        }
    }

    /// The address in a pointer register, which steps HL if asked.
    pub fn indirect_lookup(&mut self, off: Offset) -> (loc: u16)
        ensures
            loc == old(self).address(off),
            *final(self) == old(self).after_lookup(off),
            old(self).wf() ==> final(self).wf(),
    {
        let hl: u16 = self.hl();
        match off {
            Offset::HLDec => {
                self.set_hl(hl.wrapping_sub(1));
                hl
            },
            Offset::HLInc => {
                self.set_hl(hl.wrapping_add(1));
                hl
            },
            Offset::BC => self.bc(),
            Offset::DE => self.de(),
        }
    }

    #[verifier::rlimit(50)]
    fn load_source(&mut self, src: Location) -> (v: u8)
        requires
            old(self).wf(),
            src.narrow_source(),
        ensures
            final(self).wf(),
            v == old(self).source_value(src),
            *final(self) == old(self).after_source(src),
    {
        match src {
            Location::Immediate(i) => i,
            Location::Register(r) => self.get_register(r),
            Location::ZeroPageC => {
                let loc: u16 = 0xFF00 + (self.c() as u16);
                self.read(loc)
            },
            Location::ZeroPageAbsolute(v) => self.read(0xFF00 + (v as u16)),
            Location::IndirectLiteral(u) => self.read(u),
            Location::Indirect(off) => {
                let loc: u16 = self.indirect_lookup(off);
                self.read(loc)
            },
            _ => 0,
        }
    }

    #[verifier::rlimit(50)]
    fn load_store(&mut self, dest: Location, v8: u8)
        requires
            old(self).wf(),
            dest.narrow_destination(),
        ensures
            final(self).wf(),
            *final(self) == old(self).stored(dest, v8),
    {
        match dest {
            Location::Register(r) => self.set_register(r, v8),
            Location::ZeroPageC => {
                let loc: u16 = 0xFF00 + (self.c() as u16);
                self.write(loc, v8)
            },
            Location::ZeroPageAbsolute(v) => self.write(0xFF00 + (v as u16), v8),
            Location::IndirectLiteral(u) => self.write(u, v8),
            Location::Indirect(off) => {
                let loc: u16 = self.indirect_lookup(off);
                self.write(loc, v8)
            },
            _ => (),
        }
    }

    #[verifier::rlimit(50)]
    fn load_wide(&mut self, dest: Location, src: Location)
        requires
            old(self).wf(),
            dest.wide_destination(),
            src.wide_source(),
        ensures
            final(self).wf(),
            *final(self) == old(self).after_wide_source(src).wide_stored(
                dest,
                old(self).wide_value(src),
            ),
    {
        let v16: u16 = match src {
            Location::Immediate16(i) => i,
            Location::Register16(r) => self.get_register16(r),
            Location::SP => self.sp,
            Location::SPOffset(e8) => {
                let sum = crate::alu::add_offset(self.sp, e8);
                self.clock();
                self.set_flags(sum.1);
                sum.0
            },
            _ => 0,
        };
        match dest {
            Location::SP => {
                self.sp = v16;
            },
            Location::Register16(r) => self.set_register16(r, v16),
            _ => (),
        }
    }

    #[verifier::rlimit(50)]
    fn execute_load(&mut self, dest: Location, src: Location)
        requires
            old(self).wf(),
            Instruction::Load(dest, src).valid(),
        ensures
            final(self).wf(),
            *final(self) == old(self).load_spec(dest, src),
    {
        if is_wide(dest) || is_wide(src) {
            self.load_wide(dest, src);
        } else {
            let v8: u8 = self.load_source(src);
            self.load_store(dest, v8);
        }
    }

    /// Executes one instruction.
    #[verifier::rlimit(50)]
    pub fn execute(&mut self, op: Instruction)
        requires
            old(self).wf(),
            op.valid(),
        ensures
            final(self).wf(),
            *final(self) == old(self).execute_spec(op),
    {
        proof {
            reveal(CPU::execute_spec);
        }
        match op {
            Instruction::Load(dest, src) => self.execute_load(dest, src),
            Instruction::Add(_) | Instruction::Adc(_) | Instruction::Sub(_) | Instruction::Sbc(_)
            | Instruction::And(_) | Instruction::Xor(_) | Instruction::Or(_) | Instruction::Cp(
                _,
            ) => self.execute_alu(op),
            Instruction::AddImm(_) | Instruction::AdcImm(_) | Instruction::SubImm(_)
            | Instruction::SbcImm(_) | Instruction::AndImm(_) | Instruction::XorImm(_)
            | Instruction::OrImm(_) | Instruction::CpImm(_) => self.execute_alu_imm(op),
            Instruction::Rlc(_) | Instruction::Rrc(_) | Instruction::Rl(_) | Instruction::Rr(_)
            | Instruction::Sla(_) | Instruction::Sra(_) | Instruction::Swap(_) | Instruction::Srl(_)
            | Instruction::Rla | Instruction::Rra | Instruction::Rlca | Instruction::Rrca => self.execute_shift(
                op,
            ),
            Instruction::Inc(_) | Instruction::Dec(_) | Instruction::Bit(_, _) | Instruction::Res(
                _,
                _,
            ) | Instruction::SetBit(_, _) | Instruction::Cpl | Instruction::Ccf | Instruction::Scf => self.execute_unary(
                op,
            ),
            Instruction::Inc16(_) | Instruction::Dec16(_) | Instruction::AddHL16(_)
            | Instruction::AddSp(_) => self.execute_wide(op),
            Instruction::Pop(_) | Instruction::Push(_) | Instruction::Call(_, _) | Instruction::Ret(
                _,
            ) | Instruction::Reti | Instruction::Rst(_) | Instruction::Jmp(_, _) => self.execute_control(
                op,
            ),
            Instruction::EI | Instruction::DI | Instruction::Halt | Instruction::Nop => self.execute_misc(
                op,
            ),
        }
    }

    // ----- one step -----

    /// The byte at the program counter, read as an opcode.
    pub open spec fn opcode(self) -> u8 {
        self.imm8()
    }

    /// The processor after it has fetched the opcode; the absolute jump and
    /// the load of the stack pointer from HL take their extra tick here.
    pub open spec fn after_opcode(self) -> CPU {
        if self.opcode() == 0xC3 || self.opcode() == 0xF9 {
            self.fetched().clock_spec()
        } else {
            self.fetched()
        }
    }

    /// The operand of `size` bytes at the program counter.
    pub open spec fn operand_word(self, size: u8) -> u16 {
        if size == 0 {
            0
        } else if size == 1 {
            self.imm8() as u16
        } else {
            self.imm16()
        }
    }

    /// The processor after it has fetched an operand of `size` bytes.
    pub open spec fn after_operands(self, size: u8) -> CPU {
        if size == 0 {
            self
        } else if size == 1 {
            self.fetched()
        } else {
            self.fetched().fetched()
        }
    }

    /// The instruction at the program counter, if the opcode there stands for one.
    pub open spec fn decoded(self) -> Option<Instruction> {
        let c = self.after_opcode();
        if self.opcode() == PREFIX {
            Some(decode_extended_spec(c.imm8()))
        } else {
            decode_spec(
                self.opcode(),
                c.operand_word(operand_size_spec(self.opcode())),
                c.hl_val(),
            )
        }
    }

    /// The processor after it has fetched the instruction at the program
    /// counter: a tick for each byte, the program counter behind the last.
    #[verifier::opaque]
    pub open spec fn after_decode(self) -> CPU {
        self.after_opcode().after_operands(operand_size_spec(self.opcode()))
    }

    /// What decoding answers: the instruction, or the opcode that stands for
    /// none and where it was fetched.
    #[verifier::opaque]
    pub open spec fn decode_result(self) -> Result<Instruction, CpuError> {
        match self.decoded() {
            Some(i) => Ok(i),
            None => Err(CpuError::UnimplementedInstruction { pc: self.pc, opcode: self.opcode() }),
        }
    }

    /// The interrupt `i` is requested and enabled.
    pub open spec fn requested(self, i: Interrupt) -> bool {
        self.bus.reg_ie.has(i) && self.bus.reg_if.has(i)
    }

    /// The interrupt to serve next: of those requested and enabled, the
    /// first in the order vertical blank, status, timer, serial, joypad.
    pub open spec fn pending(self) -> Option<Interrupt> {
        if self.requested(Interrupt::VBlank) {
            Some(Interrupt::VBlank)
        } else if self.requested(Interrupt::LCDStat) {
            Some(Interrupt::LCDStat)
        } else if self.requested(Interrupt::Timer) {
            Some(Interrupt::Timer)
        } else if self.requested(Interrupt::Serial) {
            Some(Interrupt::Serial)
        } else if self.requested(Interrupt::Joypad) {
            Some(Interrupt::Joypad)
        } else {
            None
        }
    }

    /// The processor after the count towards enabled interrupts has moved:
    /// when it reaches 0, interrupts are served.
    pub open spec fn ei_spec(self) -> CPU {
        if self.ime_delay > 1 {
            CPU { ime_delay: (self.ime_delay - 1) as u8, ..self }
        } else if self.ime_delay == 1 {
            CPU { ime_delay: 0, ime: 1, ..self }
        } else {
            self
        }
    }

    /// The processor after it has served the interrupt `i`: interrupts are
    /// off, the request is cleared, and after two ticks the handler is
    /// called like a subroutine.
    pub open spec fn served(self, i: Interrupt) -> CPU {
        (CPU {
            ime: 0,
            bus: Bus { reg_if: self.bus.reg_if.clear_spec(i), ..self.bus },
            ..self
        }).clock_spec().clock_spec().called(i.vector())
    }

    /// The step leaves the processor asleep: it is halted and nothing is pending.
    pub open spec fn sleeps(self) -> bool {
        self.ei_spec().halted && self.ei_spec().pending() is None
    }

    /// The processor awake, about to serve an interrupt or execute an instruction.
    pub open spec fn awake(self) -> CPU {
        CPU { halted: false, ..self.ei_spec() }
    }

    /// The step serves an interrupt.
    pub open spec fn serves(self) -> bool {
        !self.sleeps() && self.awake().ime == 1 && self.awake().pending() is Some
    }

    /// The processor after one step. Asleep, it lets a tick pass. Awake, it
    /// serves the pending interrupt if interrupts are on; else it fetches,
    /// decodes and executes the instruction at the program counter, and
    /// stops behind an opcode that stands for no instruction.
    pub open spec fn step_spec(self) -> CPU {
        if self.sleeps() {
            self.ei_spec().clock_spec()
        } else if self.serves() {
            self.awake().served(self.awake().pending()->0)
        } else {
            match self.awake().decode_result() {
                Ok(op) => self.awake().after_decode().execute_spec(op),
                Err(_) => self.awake().after_decode(),
            }
        }
    }

    /// What a step answers: an error exactly when it met an opcode that
    /// stands for no instruction.
    pub open spec fn step_result(self) -> Result<(), CpuError> {
        if self.sleeps() || self.serves() {
            Ok(())
        } else {
            match self.awake().decode_result() {
                Ok(_) => Ok(()),
                Err(e) => Err(e),
            }
        }
    }

    /// Decodes the instruction behind the prefix of the second table.
    pub fn next_op_extended(&mut self) -> (r: Instruction)
        requires
            old(self).wf(),
        ensures
            final(self).wf(),
            r == decode_extended_spec(old(self).imm8()),
            r.valid(),
            *final(self) == old(self).fetched(),
    {
        let data: u8 = self.next();
        proof {
            decoded_is_valid(data, 0, 0);
        }
        decode_extended(data)
    }

    /// Fetches and decodes the instruction at the program counter.
    #[verifier::rlimit(50)]
    pub fn next_op(&mut self) -> (r: Result<Instruction, CpuError>)
        requires
            old(self).wf(),
        ensures
            final(self).wf(),
            r == old(self).decode_result(),
            r matches Ok(i) ==> i.valid(),
            *final(self) == old(self).after_decode(),
    {
        proof {
            reveal(CPU::after_decode);
            reveal(CPU::decode_result);
        }
        let pc: u16 = self.pc;
        let data: u8 = self.next();
        if data == PREFIX {
            return Ok(self.next_op_extended());
        }
        if data == 0xC3 || data == 0xF9 {
            self.clock();
        }
        let hl: u16 = self.hl();
        let size: u8 = operand_size(data);
        let nn: u16 = if size == 0 {
            0
        } else if size == 1 {
            self.next() as u16
        } else {
            self.next16()
        };
        proof {
            decoded_is_valid(data, nn, hl);
        }
        match decode(data, nn, hl) {
            Some(i) => Ok(i),
            None => Err(CpuError::UnimplementedInstruction { pc, opcode: data }),
        }
    }

    /// The interrupt to serve next, if one is requested and enabled.
    pub fn pending_interrupt(&self) -> (r: Option<Interrupt>)
        ensures
            r == self.pending(),
    {
        if self.bus.reg_ie.get_vblank() && self.bus.reg_if.get_vblank() {
            Some(Interrupt::VBlank)
        } else if self.bus.reg_ie.get_lcdstat() && self.bus.reg_if.get_lcdstat() {
            Some(Interrupt::LCDStat)
        } else if self.bus.reg_ie.get_timer() && self.bus.reg_if.get_timer() {
            Some(Interrupt::Timer)
        } else if self.bus.reg_ie.get_serial() && self.bus.reg_if.get_serial() {
            Some(Interrupt::Serial)
        } else if self.bus.reg_ie.get_joypad() && self.bus.reg_if.get_joypad() {
            Some(Interrupt::Joypad)
        } else {
            None
        }
    }

    fn count_down_ei(&mut self)
        requires
            old(self).wf(),
        ensures
            final(self).wf(),
            *final(self) == old(self).ei_spec(),
    {
        if self.ime_delay > 1 {
            self.ime_delay -= 1;
        } else if self.ime_delay == 1 {
            self.ime_delay = 0;
            self.ime = 1;
        }
    }

    /// Serves the interrupt `i`.
    #[verifier::rlimit(50)]
    pub fn serve(&mut self, i: Interrupt)
        requires
            old(self).wf(),
        ensures
            final(self).wf(),
            *final(self) == old(self).served(i),
    {
        self.ime = 0;
        self.bus.acknowledge(i);
        self.clock();
        self.clock();
        self.do_call(i.handler());
    }

    /// One step of the processor: an instruction, an interrupt served, or a
    /// tick asleep.
    #[verifier::rlimit(50)]
    pub fn tick(&mut self) -> (r: Result<(), CpuError>)
        requires
            old(self).wf(),
        ensures
            final(self).wf(),
            *final(self) == old(self).step_spec(),
            r == old(self).step_result(),
    {
        self.count_down_ei();
        let pending = self.pending_interrupt();
        if self.halted && pending.is_none() {
            self.clock();
            return Ok(());
        }
        self.halted = false;
        if self.ime == 1 {
            if let Some(i) = pending {
                self.serve(i);
                return Ok(());
            }
        }
        self.run_instruction()
    }

    /// Fetches, decodes and executes the instruction at the program counter.
    #[verifier::rlimit(50)]
    pub fn run_instruction(&mut self) -> (r: Result<(), CpuError>)
        requires
            old(self).wf(),
        ensures
            final(self).wf(),
            match old(self).decode_result() {
                Ok(op) => r == Ok::<(), CpuError>(()) && *final(self) == old(
                    self,
                ).after_decode().execute_spec(op),
                Err(e) => r == Err::<(), CpuError>(e) && *final(self) == old(self).after_decode(),
            },
    {
        match self.next_op() {
            Ok(instruction) => {
                self.execute(instruction);
                Ok(())
            },
            Err(e) => Err(e),
        }
    }

    pub fn get_screen(&self) -> (r: &[u8; 23040])
        ensures
            *r == *self.bus.ppu.screen,
    {
        self.bus.get_screen()
    }

    pub fn get_canvas(&self) -> (canvas: Box<[u32; 23040]>)
        ensures
            forall|i: int|
                0 <= i < 23040 ==> canvas[i] == crate::ppu::shade_colour(self.bus.ppu.screen[i]),
    {
        self.bus.get_canvas()
    }

    pub fn get_audio_buffer(&self) -> (r: &[i16; 4096])
        ensures
            *r == *self.bus.apu.audio_buffer,
    {
        self.bus.get_audio_buffer()
    }

    pub fn get_audio_buffer_status(&self) -> (r: bool)
        ensures
            r == self.bus.apu.audio_buffer_full,
    {
        self.bus.get_audio_buffer_status()
    }

    pub fn set_audio_buffer_status(&mut self, status: bool)
        ensures
            final(self).bus.apu.audio_buffer_full == status,
            *final(self) == (CPU {
                bus: Bus {
                    apu: crate::apu::APU { audio_buffer_full: status, ..old(self).bus.apu },
                    ..old(self).bus
                },
                ..*old(self)
            }),
            old(self).wf() ==> final(self).wf(),
    {
        proof {
            reveal(Bus::wf);
        }
        self.bus.set_audio_buffer_status(status);
    }

    /// Tells the joypad which buttons are held down.
    pub fn update_joypad_register(&mut self, buttonmap: u8)
        requires
            old(self).wf(),
        ensures
            final(self).wf(),
            *final(self) == (CPU {
                bus: Bus { joypad: old(self).bus.joypad.update_spec(buttonmap), ..old(self).bus },
                ..*old(self)
            }),
    {
        self.bus.update_joypad(buttonmap);
    }

    pub fn set_debug_options(&mut self, b: DebugOptions)
        ensures
            *final(self) == (CPU { debug_options: b, ..*old(self) }),
    {
        self.debug_options = b;
    }
}

impl Clone for CPU {
    fn clone(&self) -> (r: Self)
        ensures
            r.equiv(*self),
            self.wf() ==> r.wf(),
    {
        let r = CPU {
            registers: self.registers,
            sp: self.sp,
            pc: self.pc,
            ime: self.ime,
            bus: self.bus.clone(),
            cycles: self.cycles,
            halted: self.halted,
            ime_delay: self.ime_delay,
            debug_options: self.debug_options.clone(),
        };
        proof {
            reveal(Bus::wf);
        }
        r
    }
}

/// A snapshot of the whole machine, taken between two steps.
pub struct SaveState {
    pub cpu: CPU,
}

impl SaveState {
    /// Copies the machine.
    pub fn create(cpu: &CPU) -> (r: SaveState)
        ensures
            r.cpu.equiv(*cpu),
            cpu.wf() ==> r.cpu.wf(),
    {
        SaveState { cpu: cpu.clone() }
    }

    /// The machine as it was when the snapshot was taken.
    pub fn load(&self) -> (r: CPU)
        ensures
            r.equiv(self.cpu),
            self.cpu.wf() ==> r.wf(),
    {
        self.cpu.clone()
    }
}

/// A register pair and its two halves hold the same bits. A word stored in
/// BC, DE or HL is read back from the pair, its high byte from the first
/// register and its low byte from the second; two bytes stored in the
/// registers are read back as their word. The same holds of AF for a word
/// whose low nibble is 0, which is all that the flag register keeps.
#[verifier::rlimit(50)]
pub proof fn pairs_keep_their_bits(cpu: CPU, v: u16, high: u8, low: u8)
    ensures
        cpu.with_pair(Register16Loc::BC, v).pair(Register16Loc::BC) == v,
        cpu.with_pair(Register16Loc::DE, v).pair(Register16Loc::DE) == v,
        cpu.with_pair(Register16Loc::HL, v).pair(Register16Loc::HL) == v,
        cpu.with_pair(Register16Loc::SP, v).pair(Register16Loc::SP) == v,
        v % 16 == 0 ==> cpu.with_pair(Register16Loc::AF, v).pair(Register16Loc::AF) == v,
        cpu.with_pair(Register16Loc::AF, v).pair(Register16Loc::AF) == v - v % 16,
        cpu.with_bc(v).b_val() == high_byte(v) && cpu.with_bc(v).c_val() == low_byte(v),
        cpu.with_de(v).d_val() == high_byte(v) && cpu.with_de(v).e_val() == low_byte(v),
        cpu.with_hl(v).h_val() == high_byte(v) && cpu.with_hl(v).l_val() == low_byte(v),
        cpu.with_af(v).a_val() == high_byte(v),
        word(high_byte(v), low_byte(v)) == v,
        high_byte(word(high, low)) == high && low_byte(word(high, low)) == low,
        cpu.with_reg(4, high).with_reg(5, low).bc_val() == word(high, low),
        cpu.with_reg(2, high).with_reg(3, low).de_val() == word(high, low),
        cpu.with_reg(0, high).with_reg(1, low).hl_val() == word(high, low),
{
}

/// What is pushed is popped: after a push of `v`, a pop reads `v` and leaves
/// the stack pointer where it was before the push, wherever that was.
#[verifier::rlimit(50)]
pub proof fn push_then_pop(cpu: CPU, v: u16)
    ensures
        cpu.pushed(v).popped_value() == v,
        cpu.pushed(v).popped().sp == cpu.sp,
{
    let sp1 = advance(cpu.sp, -1);
    let sp2 = advance(sp1, -1);
    let first = (CPU { sp: sp1, bus: cpu.bus.with_ram(sp1 as int, high_byte(v)), ..cpu }).clock_spec();
    let second = CPU { sp: sp2, bus: first.bus.with_ram(sp2 as int, low_byte(v)), ..first };
    tick_keeps_ram(cpu.bus.with_ram(sp1 as int, high_byte(v)));
    tick_keeps_ram(second.bus);
    assert(cpu.pushed(v) == second.clock_spec());
    tick_keeps_ram(second.clock_spec().bus);
    assert(sp1 != sp2);
    assert(advance(sp2, 1) == sp1);
    assert(advance(sp2, 2) == cpu.sp);
}

/// The result of an operation is read back from the accumulator and the
/// flag register as it was stored: after an arithmetic or logic instruction
/// the accumulator holds the value, and the flag register the flags, that
/// the reference gives for the operation.
pub proof fn applied_reads_back(cpu: CPU, res: AluResult)
    ensures
        cpu.applied(res).a_val() == res.value,
        cpu.applied(res).flags() == res.flags,
{
    crate::alu::flags_round_trip(res.flags, 0);
}

/// The rotate that a direction and the use of the carry name.
pub open spec fn rotation(dir: Rotate, withcarry: bool) -> Shift {
    match dir {
        Rotate::Left => if withcarry {
            Shift::Rl
        } else {
            Shift::Rlc
        },
        Rotate::Right => if withcarry {
            Shift::Rr
        } else {
            Shift::Rrc
        },
    }
}

fn is_wide(l: Location) -> (r: bool)
    ensures
        r == l.is_wide(),
{
    match l {
        Location::Immediate16(_) => true,
        Location::SP => true,
        Location::SPOffset(_) => true,
        _ => false,
    }
}

} // verus!
