//! Instructions and their encoding.

use vstd::prelude::*;

verus! {

/// Condition of a jump, call or return.
#[derive(Copy, Clone, Debug, PartialEq, Eq, Structural)]
pub enum JmpFlag {
    NoZero,
    Zero,
    Carry,
    NoCarry,
}

#[derive(Copy, Clone, Debug, PartialEq, Eq)]
pub enum Jump {
    /// To the address this far from the one behind the instruction.
    Relative(i8),
    Absolute(u16),
}

/// An eight-bit operand: a register, or the byte that HL points at.
#[derive(Copy, Clone, Debug, PartialEq, Eq, Structural)]
pub enum RegisterLoc {
    A,
    B,
    C,
    D,
    E,
    H,
    L,
    MemHL,
}

#[derive(Copy, Clone, Debug, PartialEq, Eq, Structural)]
pub enum Register16Loc {
    BC,
    DE,
    HL,
    AF,
    SP,
}

/// A register pair that points at memory; HL may step after the access.
#[derive(Copy, Clone, Debug, PartialEq, Eq, Structural)]
pub enum Offset {
    HLInc,
    HLDec,
    BC,
    DE,
}

/// Source or destination of a load.
#[derive(Copy, Clone, Debug, PartialEq, Eq)]
pub enum Location {
    Register(RegisterLoc),
    Register16(Register16Loc),
    Immediate(u8),
    Immediate16(u16),
    Indirect(Offset),
    IndirectLiteral(u16),
    SP,
    SPOffset(i8),
    ZeroPageC,
    ZeroPageAbsolute(u8),
}

#[derive(Copy, Clone, Debug, PartialEq, Eq)]
pub enum Instruction {
    /// Destination, then source.
    Load(Location, Location),
    Add(RegisterLoc),
    Adc(RegisterLoc),
    Sub(RegisterLoc),
    Sbc(RegisterLoc),
    And(RegisterLoc),
    Xor(RegisterLoc),
    Or(RegisterLoc),
    Cp(RegisterLoc),
    AddImm(u8),
    AdcImm(u8),
    SubImm(u8),
    SbcImm(u8),
    AndImm(u8),
    XorImm(u8),
    OrImm(u8),
    CpImm(u8),
    AddSp(i8),
    Rlc(RegisterLoc),
    Rrc(RegisterLoc),
    Rl(RegisterLoc),
    Rla,
    Rra,
    Rlca,
    Rrca,
    Cpl,
    Ccf,
    Scf,
    Rr(RegisterLoc),
    Sla(RegisterLoc),
    Sra(RegisterLoc),
    Swap(RegisterLoc),
    Srl(RegisterLoc),
    Inc(RegisterLoc),
    Dec(RegisterLoc),
    Bit(u8, RegisterLoc),
    Res(u8, RegisterLoc),
    SetBit(u8, RegisterLoc),
    Pop(Register16Loc),
    Push(Register16Loc),
    Call(Option<JmpFlag>, u16),
    Ret(Option<JmpFlag>),
    Inc16(Register16Loc),
    Dec16(Register16Loc),
    AddHL16(Register16Loc),
    Reti,
    Rst(u8),
    Jmp(Jump, Option<JmpFlag>),
    EI,
    DI,
    Halt,
    Nop,
}

impl Location {
    /// The location makes a load a load of sixteen bits.
    pub open spec fn is_wide(self) -> bool {
        self is Immediate16 || self is SP || self is SPOffset
    }

    /// Something that a load of sixteen bits can read.
    pub open spec fn wide_source(self) -> bool {
        self is Immediate16 || self is Register16 || self is SP || self is SPOffset
    }

    /// Something that a load of sixteen bits can write.
    pub open spec fn wide_destination(self) -> bool {
        self is Register16 || self is SP
    }

    /// Something that a load of eight bits can write.
    pub open spec fn narrow_destination(self) -> bool {
        self is Register || self is ZeroPageC || self is ZeroPageAbsolute || self is IndirectLiteral
            || self is Indirect
    }

    /// Something that a load of eight bits can read.
    pub open spec fn narrow_source(self) -> bool {
        self is Immediate || self.narrow_destination()
    }
}

impl Instruction {
    /// The instruction can be executed: a load moves between locations of
    /// one width, and a bit number is at most 7.
    pub open spec fn valid(self) -> bool {
        match self {
            Instruction::Load(dest, src) => if dest.is_wide() || src.is_wide() {
                dest.wide_destination() && src.wide_source()
            } else {
                dest.narrow_destination() && src.narrow_source()
            },
            Instruction::Bit(n, _) => n <= 7,
            Instruction::Res(n, _) => n <= 7,
            Instruction::SetBit(n, _) => n <= 7,
            _ => true,
        }
    }
}

/// Every opcode that stands for an instruction stands for one that can be executed.
#[verifier::rlimit(50)]
pub proof fn decoded_is_valid(opcode: u8, nn: u16, hl: u16)
    ensures
        decode_spec(opcode, nn, hl) matches Some(i) ==> i.valid(),
        decode_extended_spec(opcode).valid(),
{
}

/// The opcode that announces an instruction of the second table.
pub const PREFIX: u8 = 0xCB;

/// The eight-bit operand that a three-bit field selects: B, C, D, E, H, L,
/// the byte at HL, A.
pub open spec fn operand(field: int) -> RegisterLoc {
    if field == 0 {
        RegisterLoc::B
    } else if field == 1 {
        RegisterLoc::C
    } else if field == 2 {
        RegisterLoc::D
    } else if field == 3 {
        RegisterLoc::E
    } else if field == 4 {
        RegisterLoc::H
    } else if field == 5 {
        RegisterLoc::L
    } else if field == 6 {
        RegisterLoc::MemHL
    } else {
        RegisterLoc::A
    }
}

/// The register pair that a two-bit field selects, with `last` as the fourth.
pub open spec fn pair(field: int, last: Register16Loc) -> Register16Loc {
    if field == 0 {
        Register16Loc::BC
    } else if field == 1 {
        Register16Loc::DE
    } else if field == 2 {
        Register16Loc::HL
    } else {
        last
    }
}

/// The condition that a two-bit field selects.
pub open spec fn condition(field: int) -> JmpFlag {
    if field == 0 {
        JmpFlag::NoZero
    } else if field == 1 {
        JmpFlag::Zero
    } else if field == 2 {
        JmpFlag::NoCarry
    } else {
        JmpFlag::Carry
    }
}

/// The pointer that a two-bit field selects.
pub open spec fn pointer(field: int) -> Offset {
    if field == 0 {
        Offset::BC
    } else if field == 1 {
        Offset::DE
    } else if field == 2 {
        Offset::HLInc
    } else {
        Offset::HLDec
    }
}

/// The arithmetic or logic instruction on a register that a three-bit field selects.
pub open spec fn alu(field: int, r: RegisterLoc) -> Instruction {
    if field == 0 {
        Instruction::Add(r)
    } else if field == 1 {
        Instruction::Adc(r)
    } else if field == 2 {
        Instruction::Sub(r)
    } else if field == 3 {
        Instruction::Sbc(r)
    } else if field == 4 {
        Instruction::And(r)
    } else if field == 5 {
        Instruction::Xor(r)
    } else if field == 6 {
        Instruction::Or(r)
    } else {
        Instruction::Cp(r)
    }
}

/// The arithmetic or logic instruction on a constant that a three-bit field selects.
pub open spec fn alu_imm(field: int, n: u8) -> Instruction {
    if field == 0 {
        Instruction::AddImm(n)
    } else if field == 1 {
        Instruction::AdcImm(n)
    } else if field == 2 {
        Instruction::SubImm(n)
    } else if field == 3 {
        Instruction::SbcImm(n)
    } else if field == 4 {
        Instruction::AndImm(n)
    } else if field == 5 {
        Instruction::XorImm(n)
    } else if field == 6 {
        Instruction::OrImm(n)
    } else {
        Instruction::CpImm(n)
    }
}

/// The rotate or shift that a three-bit field selects.
pub open spec fn rotate(field: int, r: RegisterLoc) -> Instruction {
    if field == 0 {
        Instruction::Rlc(r)
    } else if field == 1 {
        Instruction::Rrc(r)
    } else if field == 2 {
        Instruction::Rl(r)
    } else if field == 3 {
        Instruction::Rr(r)
    } else if field == 4 {
        Instruction::Sla(r)
    } else if field == 5 {
        Instruction::Sra(r)
    } else if field == 6 {
        Instruction::Swap(r)
    } else {
        Instruction::Srl(r)
    }
}

/// The byte as a signed number.
pub open spec fn signed(n: u8) -> i8 {
    if n < 128 {
        n as i8
    } else {
        (n - 256) as i8
    }
}

/// An opcode of the first quarter of the table, `0x00-0x3F`.
pub open spec fn decode_low(y: int, z: int, n: u8, nn: u16) -> Option<Instruction> {
    let p = y / 2;
    let q = y % 2;
    if z == 0 {
        if y == 0 {
            Some(Instruction::Nop)
        } else if y == 1 || y == 2 {
            None
        } else if y == 3 {
            Some(Instruction::Jmp(Jump::Relative(signed(n)), None))
        } else {
            Some(Instruction::Jmp(Jump::Relative(signed(n)), Some(condition(y - 4))))
        }
    } else if z == 1 {
        if q == 0 {
            Some(
                Instruction::Load(
                    if p == 3 {
                        Location::SP
                    } else {
                        Location::Register16(pair(p, Register16Loc::SP))
                    },
                    Location::Immediate16(nn),
                ),
            )
        } else {
            Some(Instruction::AddHL16(pair(p, Register16Loc::SP)))
        }
    } else if z == 2 {
        if q == 0 {
            Some(Instruction::Load(Location::Indirect(pointer(p)), Location::Register(RegisterLoc::A)))
        } else {
            Some(Instruction::Load(Location::Register(RegisterLoc::A), Location::Indirect(pointer(p))))
        }
    } else if z == 3 {
        if q == 0 {
            Some(Instruction::Inc16(pair(p, Register16Loc::SP)))
        } else {
            Some(Instruction::Dec16(pair(p, Register16Loc::SP)))
        }
    } else if z == 4 {
        Some(Instruction::Inc(operand(y)))
    } else if z == 5 {
        Some(Instruction::Dec(operand(y)))
    } else if z == 6 {
        Some(Instruction::Load(Location::Register(operand(y)), Location::Immediate(n)))
    } else if y == 0 {
        Some(Instruction::Rlca)
    } else if y == 1 {
        Some(Instruction::Rrca)
    } else if y == 2 {
        Some(Instruction::Rla)
    } else if y == 3 {
        Some(Instruction::Rra)
    } else if y == 4 {
        None
    } else if y == 5 {
        Some(Instruction::Cpl)
    } else if y == 6 {
        Some(Instruction::Scf)
    } else {
        Some(Instruction::Ccf)
    }
}

/// An opcode of the last quarter of the table, `0xC0-0xFF`.
pub open spec fn decode_high(y: int, z: int, n: u8, nn: u16, hl: u16) -> Option<Instruction> {
    let p = y / 2;
    let q = y % 2;
    let a = Location::Register(RegisterLoc::A);
    if z == 0 {
        if y <= 3 {
            Some(Instruction::Ret(Some(condition(y))))
        } else if y == 4 {
            Some(Instruction::Load(Location::ZeroPageAbsolute(n), a))
        } else if y == 5 {
            Some(Instruction::AddSp(signed(n)))
        } else if y == 6 {
            Some(Instruction::Load(a, Location::ZeroPageAbsolute(n)))
        } else {
            Some(
                Instruction::Load(
                    Location::Register16(Register16Loc::HL),
                    Location::SPOffset(signed(n)),
                ),
            )
        }
    } else if z == 1 {
        if q == 0 {
            Some(Instruction::Pop(pair(p, Register16Loc::AF)))
        } else if p == 0 {
            Some(Instruction::Ret(None))
        } else if p == 1 {
            Some(Instruction::Reti)
        } else if p == 2 {
            Some(Instruction::Jmp(Jump::Absolute(hl), None))
        } else {
            Some(Instruction::Load(Location::SP, Location::Register16(Register16Loc::HL)))
        }
    } else if z == 2 {
        if y <= 3 {
            Some(Instruction::Jmp(Jump::Absolute(nn), Some(condition(y))))
        } else if y == 4 {
            Some(Instruction::Load(Location::ZeroPageC, a))
        } else if y == 5 {
            Some(Instruction::Load(Location::IndirectLiteral(nn), a))
        } else if y == 6 {
            Some(Instruction::Load(a, Location::ZeroPageC))
        } else {
            Some(Instruction::Load(a, Location::IndirectLiteral(nn)))
        }
    } else if z == 3 {
        if y == 0 {
            Some(Instruction::Jmp(Jump::Absolute(nn), None))
        } else if y == 6 {
            Some(Instruction::DI)
        } else if y == 7 {
            Some(Instruction::EI)
        } else {
            None
        }
    } else if z == 4 {
        if y <= 3 {
            Some(Instruction::Call(Some(condition(y)), nn))
        } else {
            None
        }
    } else if z == 5 {
        if q == 0 {
            Some(Instruction::Push(pair(p, Register16Loc::AF)))
        } else if p == 0 {
            Some(Instruction::Call(None, nn))
        } else {
            None
        }
    } else if z == 6 {
        Some(alu_imm(y, n))
    } else {
        Some(Instruction::Rst((y * 8) as u8))
    }
}

/// The instruction that an opcode of the first table stands for, given the
/// operand bytes behind it and the value of HL; `None` for an opcode that
/// stands for none, and for the prefix of the second table. The top two
/// bits of the opcode choose the quarter of the table; the low three bits
/// and the three bits above them choose within it, and in the middle of
/// the table they are the two operands.
pub open spec fn decode_spec(opcode: u8, nn: u16, hl: u16) -> Option<Instruction> {
    let x = opcode / 64;
    let y = (opcode / 8) % 8;
    let z = opcode % 8;
    let n = (nn % 256) as u8;
    if x == 0 {
        decode_low(y as int, z as int, n, nn)
    } else if x == 1 {
        if opcode == 0x76 {
            Some(Instruction::Halt)
        } else {
            Some(
                Instruction::Load(
                    Location::Register(operand(y as int)),
                    Location::Register(operand(z as int)),
                ),
            )
        }
    } else if x == 2 {
        Some(alu(y as int, operand(z as int)))
    } else {
        decode_high(y as int, z as int, n, nn, hl)
    }
}

/// The instruction that an opcode of the second table stands for: rotates
/// and shifts in the first quarter, then tests, resets and sets of one bit.
pub open spec fn decode_extended_spec(opcode: u8) -> Instruction {
    let x = opcode / 64;
    let y = (opcode / 8) % 8;
    let r = operand((opcode % 8) as int);
    if x == 0 {
        rotate(y as int, r)
    } else if x == 1 {
        Instruction::Bit(y, r)
    } else if x == 2 {
        Instruction::Res(y, r)
    } else {
        Instruction::SetBit(y, r)
    }
}

/// Number of operand bytes behind an opcode of the first table; the prefix
/// of the second table has the second opcode as its one operand byte.
pub open spec fn operand_size_spec(opcode: u8) -> u8 {
    let x = opcode / 64;
    let y = (opcode / 8) % 8;
    let z = opcode % 8;
    if decode_spec(opcode, 0, 0) is None {
        if opcode == PREFIX {
            1
        } else {
            0
        }
    } else if x == 0 {
        if z == 0 && y >= 3 || z == 6 {
            1
        } else if z == 1 && y % 2 == 0 {
            2
        } else {
            0
        }
    } else if x == 3 {
        if z == 0 && y >= 4 || z == 6 {
            1
        } else if z == 2 && y != 4 && y != 6 || z == 3 && y == 0 || z == 4 || z == 5 && y == 1 {
            2
        } else {
            0
        }
    } else {
        0
    }
}

/// Names the operand that the low three bits of `data` select.
pub fn register_from_data(data: u8) -> (r: RegisterLoc)
    ensures
        r == operand((data % 8) as int),
{
    match data % 8 {
        0 => RegisterLoc::B,
        1 => RegisterLoc::C,
        2 => RegisterLoc::D,
        3 => RegisterLoc::E,
        4 => RegisterLoc::H,
        5 => RegisterLoc::L,
        6 => RegisterLoc::MemHL,
        _ => RegisterLoc::A,
    }
}

/// Reads a byte as a signed number.
pub fn to_signed(n: u8) -> (e: i8)
    ensures
        e == signed(n),
{
    if n < 128 {
        n as i8
    } else {
        (n as i16 - 256) as i8
    }
}

#[verifier::rlimit(50)]
pub fn operand_size(opcode: u8) -> (r: u8)
    ensures
        r == operand_size_spec(opcode),
{
    match opcode {
        0x18 | 0x20 | 0x28 | 0x30 | 0x38 => 1,
        0x06 | 0x0E | 0x16 | 0x1E | 0x26 | 0x2E | 0x36 | 0x3E => 1,
        0x01 | 0x11 | 0x21 | 0x31 => 2,
        0xE0 | 0xE8 | 0xF0 | 0xF8 => 1,
        0xC6 | 0xCE | 0xD6 | 0xDE | 0xE6 | 0xEE | 0xF6 | 0xFE => 1,
        0xCB => 1,
        0xC2 | 0xCA | 0xD2 | 0xDA | 0xEA | 0xFA => 2,
        0xC3 => 2,
        0xC4 | 0xCC | 0xD4 | 0xDC | 0xCD => 2,
        _ => 0,
    }
}

/// Decodes an opcode of the first table by looking it up.
pub fn decode(opcode: u8, nn: u16, hl: u16) -> (r: Option<Instruction>)
    ensures
        r == decode_spec(opcode, nn, hl),
{
    if opcode < 0x40 {
        decode_first_quarter(opcode, nn)
    } else if opcode < 0xC0 {
        Some(decode_middle(opcode))
    } else {
        decode_last_quarter(opcode, nn, hl)
    }
}

#[verifier::rlimit(50)]
fn decode_first_quarter(opcode: u8, nn: u16) -> (r: Option<Instruction>)
    requires
        opcode < 0x40,
    ensures
        r == decode_spec(opcode, nn, 0),
{
    let n: u8 = (nn % 256) as u8;
    let e: i8 = to_signed(n);
    match opcode {
        0x00 => Some(Instruction::Nop),
        0x01 => Some(Instruction::Load(Location::Register16(Register16Loc::BC), Location::Immediate16(nn))),
        0x02 => Some(Instruction::Load(Location::Indirect(Offset::BC), Location::Register(RegisterLoc::A))),
        0x03 => Some(Instruction::Inc16(Register16Loc::BC)),
        0x04 => Some(Instruction::Inc(RegisterLoc::B)),
        0x05 => Some(Instruction::Dec(RegisterLoc::B)),
        0x06 => Some(Instruction::Load(Location::Register(RegisterLoc::B), Location::Immediate(n))),
        0x07 => Some(Instruction::Rlca),
        0x09 => Some(Instruction::AddHL16(Register16Loc::BC)),
        0x0A => Some(Instruction::Load(Location::Register(RegisterLoc::A), Location::Indirect(Offset::BC))),
        0x0B => Some(Instruction::Dec16(Register16Loc::BC)),
        0x0C => Some(Instruction::Inc(RegisterLoc::C)),
        0x0D => Some(Instruction::Dec(RegisterLoc::C)),
        0x0E => Some(Instruction::Load(Location::Register(RegisterLoc::C), Location::Immediate(n))),
        0x0F => Some(Instruction::Rrca),
        0x11 => Some(Instruction::Load(Location::Register16(Register16Loc::DE), Location::Immediate16(nn))),
        0x12 => Some(Instruction::Load(Location::Indirect(Offset::DE), Location::Register(RegisterLoc::A))),
        0x13 => Some(Instruction::Inc16(Register16Loc::DE)),
        0x14 => Some(Instruction::Inc(RegisterLoc::D)),
        0x15 => Some(Instruction::Dec(RegisterLoc::D)),
        0x16 => Some(Instruction::Load(Location::Register(RegisterLoc::D), Location::Immediate(n))),
        0x17 => Some(Instruction::Rla),
        0x18 => Some(Instruction::Jmp(Jump::Relative(e), None)),
        0x19 => Some(Instruction::AddHL16(Register16Loc::DE)),
        0x1A => Some(Instruction::Load(Location::Register(RegisterLoc::A), Location::Indirect(Offset::DE))),
        0x1B => Some(Instruction::Dec16(Register16Loc::DE)),
        0x1C => Some(Instruction::Inc(RegisterLoc::E)),
        0x1D => Some(Instruction::Dec(RegisterLoc::E)),
        0x1E => Some(Instruction::Load(Location::Register(RegisterLoc::E), Location::Immediate(n))),
        0x1F => Some(Instruction::Rra),
        0x20 => Some(Instruction::Jmp(Jump::Relative(e), Some(JmpFlag::NoZero))),
        0x21 => Some(Instruction::Load(Location::Register16(Register16Loc::HL), Location::Immediate16(nn))),
        0x22 => Some(Instruction::Load(Location::Indirect(Offset::HLInc), Location::Register(RegisterLoc::A))),
        0x23 => Some(Instruction::Inc16(Register16Loc::HL)),
        0x24 => Some(Instruction::Inc(RegisterLoc::H)),
        0x25 => Some(Instruction::Dec(RegisterLoc::H)),
        0x26 => Some(Instruction::Load(Location::Register(RegisterLoc::H), Location::Immediate(n))),
        0x28 => Some(Instruction::Jmp(Jump::Relative(e), Some(JmpFlag::Zero))),
        0x29 => Some(Instruction::AddHL16(Register16Loc::HL)),
        0x2A => Some(Instruction::Load(Location::Register(RegisterLoc::A), Location::Indirect(Offset::HLInc))),
        0x2B => Some(Instruction::Dec16(Register16Loc::HL)),
        0x2C => Some(Instruction::Inc(RegisterLoc::L)),
        0x2D => Some(Instruction::Dec(RegisterLoc::L)),
        0x2E => Some(Instruction::Load(Location::Register(RegisterLoc::L), Location::Immediate(n))),
        0x2F => Some(Instruction::Cpl),
        0x30 => Some(Instruction::Jmp(Jump::Relative(e), Some(JmpFlag::NoCarry))),
        0x31 => Some(Instruction::Load(Location::SP, Location::Immediate16(nn))),
        0x32 => Some(Instruction::Load(Location::Indirect(Offset::HLDec), Location::Register(RegisterLoc::A))),
        0x33 => Some(Instruction::Inc16(Register16Loc::SP)),
        0x34 => Some(Instruction::Inc(RegisterLoc::MemHL)),
        0x35 => Some(Instruction::Dec(RegisterLoc::MemHL)),
        0x36 => Some(Instruction::Load(Location::Register(RegisterLoc::MemHL), Location::Immediate(n))),
        0x37 => Some(Instruction::Scf),
        0x38 => Some(Instruction::Jmp(Jump::Relative(e), Some(JmpFlag::Carry))),
        0x39 => Some(Instruction::AddHL16(Register16Loc::SP)),
        0x3A => Some(Instruction::Load(Location::Register(RegisterLoc::A), Location::Indirect(Offset::HLDec))),
        0x3B => Some(Instruction::Dec16(Register16Loc::SP)),
        0x3C => Some(Instruction::Inc(RegisterLoc::A)),
        0x3D => Some(Instruction::Dec(RegisterLoc::A)),
        0x3E => Some(Instruction::Load(Location::Register(RegisterLoc::A), Location::Immediate(n))),
        0x3F => Some(Instruction::Ccf),
        _ => None,
    }
}

#[verifier::rlimit(50)]
fn decode_middle(opcode: u8) -> (r: Instruction)
    requires
        0x40 <= opcode < 0xC0,
    ensures
        Some(r) == decode_spec(opcode, 0, 0),
{
    let reg = register_from_data(opcode);
    let regloc = Location::Register(reg);
    match opcode {
        0x76 => Instruction::Halt,
        0x40..=0x47 => Instruction::Load(Location::Register(RegisterLoc::B), regloc),
        0x48..=0x4F => Instruction::Load(Location::Register(RegisterLoc::C), regloc),
        0x50..=0x57 => Instruction::Load(Location::Register(RegisterLoc::D), regloc),
        0x58..=0x5F => Instruction::Load(Location::Register(RegisterLoc::E), regloc),
        0x60..=0x67 => Instruction::Load(Location::Register(RegisterLoc::H), regloc),
        0x68..=0x6F => Instruction::Load(Location::Register(RegisterLoc::L), regloc),
        0x70..=0x77 => Instruction::Load(Location::Register(RegisterLoc::MemHL), regloc),
        0x78..=0x7F => Instruction::Load(Location::Register(RegisterLoc::A), regloc),
        0x80..=0x87 => Instruction::Add(reg),
        0x88..=0x8F => Instruction::Adc(reg),
        0x90..=0x97 => Instruction::Sub(reg),
        0x98..=0x9F => Instruction::Sbc(reg),
        0xA0..=0xA7 => Instruction::And(reg),
        0xA8..=0xAF => Instruction::Xor(reg),
        0xB0..=0xB7 => Instruction::Or(reg),
        _ => Instruction::Cp(reg),
    }
}

#[verifier::rlimit(50)]
fn decode_last_quarter(opcode: u8, nn: u16, hl: u16) -> (r: Option<Instruction>)
    requires
        opcode >= 0xC0,
    ensures
        r == decode_spec(opcode, nn, hl),
{
    let n: u8 = (nn % 256) as u8;
    let e: i8 = to_signed(n);
    match opcode {
        0xC0 => Some(Instruction::Ret(Some(JmpFlag::NoZero))),
        0xC1 => Some(Instruction::Pop(Register16Loc::BC)),
        0xC2 => Some(Instruction::Jmp(Jump::Absolute(nn), Some(JmpFlag::NoZero))),
        0xC3 => Some(Instruction::Jmp(Jump::Absolute(nn), None)),
        0xC4 => Some(Instruction::Call(Some(JmpFlag::NoZero), nn)),
        0xC5 => Some(Instruction::Push(Register16Loc::BC)),
        0xC6 => Some(Instruction::AddImm(n)),
        0xC7 => Some(Instruction::Rst(0x00)),
        0xC8 => Some(Instruction::Ret(Some(JmpFlag::Zero))),
        0xC9 => Some(Instruction::Ret(None)),
        0xCA => Some(Instruction::Jmp(Jump::Absolute(nn), Some(JmpFlag::Zero))),
        0xCC => Some(Instruction::Call(Some(JmpFlag::Zero), nn)),
        0xCD => Some(Instruction::Call(None, nn)),
        0xCE => Some(Instruction::AdcImm(n)),
        0xCF => Some(Instruction::Rst(0x08)),
        0xD0 => Some(Instruction::Ret(Some(JmpFlag::NoCarry))),
        0xD1 => Some(Instruction::Pop(Register16Loc::DE)),
        0xD2 => Some(Instruction::Jmp(Jump::Absolute(nn), Some(JmpFlag::NoCarry))),
        0xD4 => Some(Instruction::Call(Some(JmpFlag::NoCarry), nn)),
        0xD5 => Some(Instruction::Push(Register16Loc::DE)),
        0xD6 => Some(Instruction::SubImm(n)),
        0xD7 => Some(Instruction::Rst(0x10)),
        0xD8 => Some(Instruction::Ret(Some(JmpFlag::Carry))),
        0xD9 => Some(Instruction::Reti),
        0xDA => Some(Instruction::Jmp(Jump::Absolute(nn), Some(JmpFlag::Carry))),
        0xDC => Some(Instruction::Call(Some(JmpFlag::Carry), nn)),
        0xDE => Some(Instruction::SbcImm(n)),
        0xDF => Some(Instruction::Rst(0x18)),
        0xE0 => Some(Instruction::Load(Location::ZeroPageAbsolute(n), Location::Register(RegisterLoc::A))),
        0xE1 => Some(Instruction::Pop(Register16Loc::HL)),
        0xE2 => Some(Instruction::Load(Location::ZeroPageC, Location::Register(RegisterLoc::A))),
        0xE5 => Some(Instruction::Push(Register16Loc::HL)),
        0xE6 => Some(Instruction::AndImm(n)),
        0xE7 => Some(Instruction::Rst(0x20)),
        0xE8 => Some(Instruction::AddSp(e)),
        0xE9 => Some(Instruction::Jmp(Jump::Absolute(hl), None)),
        0xEA => Some(Instruction::Load(Location::IndirectLiteral(nn), Location::Register(RegisterLoc::A))),
        0xEE => Some(Instruction::XorImm(n)),
        0xEF => Some(Instruction::Rst(0x28)),
        0xF0 => Some(Instruction::Load(Location::Register(RegisterLoc::A), Location::ZeroPageAbsolute(n))),
        0xF1 => Some(Instruction::Pop(Register16Loc::AF)),
        0xF2 => Some(Instruction::Load(Location::Register(RegisterLoc::A), Location::ZeroPageC)),
        0xF3 => Some(Instruction::DI),
        0xF5 => Some(Instruction::Push(Register16Loc::AF)),
        0xF6 => Some(Instruction::OrImm(n)),
        0xF7 => Some(Instruction::Rst(0x30)),
        0xF8 => Some(Instruction::Load(Location::Register16(Register16Loc::HL), Location::SPOffset(e))),
        0xF9 => Some(Instruction::Load(Location::SP, Location::Register16(Register16Loc::HL))),
        0xFA => Some(Instruction::Load(Location::Register(RegisterLoc::A), Location::IndirectLiteral(nn))),
        0xFB => Some(Instruction::EI),
        0xFE => Some(Instruction::CpImm(n)),
        0xFF => Some(Instruction::Rst(0x38)),
        _ => None,
    }
}

/// Decodes an opcode of the second table.
#[verifier::rlimit(50)]
pub fn decode_extended(opcode: u8) -> (r: Instruction)
    ensures
        r == decode_extended_spec(opcode),
{
    let reg = register_from_data(opcode);
    match opcode {
        0x00..=0x07 => Instruction::Rlc(reg),
        0x08..=0x0F => Instruction::Rrc(reg),
        0x10..=0x17 => Instruction::Rl(reg),
        0x18..=0x1F => Instruction::Rr(reg),
        0x20..=0x27 => Instruction::Sla(reg),
        0x28..=0x2F => Instruction::Sra(reg),
        0x30..=0x37 => Instruction::Swap(reg),
        0x38..=0x3F => Instruction::Srl(reg),
        0x40..=0x47 => Instruction::Bit(0, reg),
        0x48..=0x4F => Instruction::Bit(1, reg),
        0x50..=0x57 => Instruction::Bit(2, reg),
        0x58..=0x5F => Instruction::Bit(3, reg),
        0x60..=0x67 => Instruction::Bit(4, reg),
        0x68..=0x6F => Instruction::Bit(5, reg),
        0x70..=0x77 => Instruction::Bit(6, reg),
        0x78..=0x7F => Instruction::Bit(7, reg),
        0x80..=0x87 => Instruction::Res(0, reg),
        0x88..=0x8F => Instruction::Res(1, reg),
        0x90..=0x97 => Instruction::Res(2, reg),
        0x98..=0x9F => Instruction::Res(3, reg),
        0xA0..=0xA7 => Instruction::Res(4, reg),
        0xA8..=0xAF => Instruction::Res(5, reg),
        0xB0..=0xB7 => Instruction::Res(6, reg),
        0xB8..=0xBF => Instruction::Res(7, reg),
        0xC0..=0xC7 => Instruction::SetBit(0, reg),
        0xC8..=0xCF => Instruction::SetBit(1, reg),
        0xD0..=0xD7 => Instruction::SetBit(2, reg),
        0xD8..=0xDF => Instruction::SetBit(3, reg),
        0xE0..=0xE7 => Instruction::SetBit(4, reg),
        0xE8..=0xEF => Instruction::SetBit(5, reg),
        0xF0..=0xF7 => Instruction::SetBit(6, reg),
        0xF8..=0xFF => Instruction::SetBit(7, reg),
    }
}

} // verus!
