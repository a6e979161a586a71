//! The program image and its bank-switching mapper.

use vstd::prelude::*;
use vstd::array::spec_array_update;
use vstd::arithmetic::power2::{pow2, lemma2_to64};

verus! {

/// Bytes in one bank of cartridge RAM.
pub const RAM_BANK_SIZE: usize = 8192;

/// Bytes in one bank of ROM.
pub const ROM_BANK_SIZE: usize = 16384;

/// Bytes of cartridge RAM that the two-bit bank register can reach.
pub const RAM_SIZE: usize = 32768;

/// Length of the image header; a shorter image cannot be loaded.
pub const HEADER_SIZE: usize = 0x150;

/// What a read returns where the image or the cartridge RAM holds nothing.
pub const FILL: u8 = 0x49;

/// Banking state of the cartridge.
#[derive(Clone, Copy, Debug, PartialEq, Eq, Structural)]
pub enum Mapper {
    /// Fixed mapping, no state.
    ROM,
    /// Banked mapping.
    MBC1 {
        /// Cartridge RAM answers reads and takes writes.
        ram_enabled: bool,
        /// Five-bit ROM bank number for the switchable window.
        bank_low: u8,
        /// Two-bit bank number: RAM bank, and upper ROM bank bits in the full mode.
        bank_high: u8,
        /// The simple mode: the fixed window shows bank 0, the switchable one `bank_low` alone.
        simple: bool,
    },
}

/// Why an image was not accepted.
#[derive(Clone, Copy, Debug, PartialEq, Eq, Structural)]
pub enum CartridgeError {
    /// The image is shorter than its header, or names a ROM size that no cartridge has.
    MalformedImage,
    /// The header names a mapper, given here, that is not emulated.
    UnimplementedMapper(u8),
}

pub struct Cartridge {
    pub mapper: Mapper,
    pub rom: Vec<u8>,
    pub ram: Box<[u8; 32768]>,
    pub ram_banks: usize,
    pub rom_banks: usize,
}

impl Mapper {
    /// The bank registers hold no more bits than the hardware has.
    pub open spec fn wf(self) -> bool {
        match self {
            Mapper::ROM => true,
            Mapper::MBC1 { bank_low, bank_high, .. } => bank_low < 32 && bank_high < 4,
        }
    }

    /// The bank that `bank_low` selects: number 0 selects bank 1.
    pub open spec fn selected(bank_low: u8) -> int {
        if bank_low == 0 {
            1
        } else {
            bank_low as int
        }
    }

    /// Offset in the image of the first byte of the fixed window `0x0000-0x3FFF`.
    pub open spec fn low_base(self) -> int {
        match self {
            Mapper::ROM => 0,
            Mapper::MBC1 { bank_high, simple, .. } => if simple {
                0
            } else {
                bank_high * 32 * ROM_BANK_SIZE
            },
        }
    }

    /// Offset in the image of the first byte of the switchable window `0x4000-0x7FFF`.
    pub open spec fn high_base(self) -> int {
        match self {
            Mapper::ROM => ROM_BANK_SIZE as int,
            Mapper::MBC1 { bank_low, bank_high, simple, .. } => if simple {
                Self::selected(bank_low) * ROM_BANK_SIZE
            } else {
                (bank_high * 32 + Self::selected(bank_low)) * ROM_BANK_SIZE
            },
        }
    }

    /// Offset in cartridge RAM of the first byte of the window `0xA000-0xBFFF`.
    pub open spec fn ram_base(self) -> int {
        match self {
            Mapper::ROM => 0,
            Mapper::MBC1 { bank_high, .. } => bank_high * RAM_BANK_SIZE,
        }
    }

    /// The mapper after `val` is written to `loc` in the ROM address range:
    /// each quarter of the range is one bank register.
    pub open spec fn select(self, loc: u16, val: u8) -> Mapper {
        match self {
            Mapper::ROM => self,
            Mapper::MBC1 { ram_enabled, bank_low, bank_high, simple } => if loc <= 0x1FFF {
                Mapper::MBC1 { ram_enabled: val % 16 == 0xA, bank_low, bank_high, simple }
            } else if loc <= 0x3FFF {
                Mapper::MBC1 { ram_enabled, bank_low: val % 32, bank_high, simple }
            } else if loc <= 0x5FFF {
                Mapper::MBC1 { ram_enabled, bank_low, bank_high: val % 4, simple }
            } else if loc <= 0x7FFF {
                Mapper::MBC1 { ram_enabled, bank_low, bank_high, simple: val % 2 == 0 }
            } else {
                self
            },
        }
    }
}

/// Number of ROM banks for a size code of the header: `2 * 2^code`.
pub open spec fn rom_bank_count(code: u8) -> int {
    2 * pow2(code as nat) as int
}

/// Number of RAM banks for a size code of the header.
pub open spec fn ram_bank_count(code: u8) -> int {
    if code == 2 {
        1
    } else if code == 3 {
        4
    } else if code == 4 {
        16
    } else if code == 5 {
        8
    } else {
        0
    }
}

/// What `Cartridge::from_data` answers for an image.
pub open spec fn load_error(data: Seq<u8>) -> Option<CartridgeError> {
    if data.len() < HEADER_SIZE {
        Some(CartridgeError::MalformedImage)
    } else if data[0x147] > 1 {
        Some(CartridgeError::UnimplementedMapper(data[0x147]))
    } else if data[0x148] > 8 {
        Some(CartridgeError::MalformedImage)
    } else {
        None
    }
}

impl Cartridge {
    /// The cartridge's own addresses: the two ROM windows and the RAM window.
    pub open spec fn owns(loc: u16) -> bool {
        loc <= 0x7FFF || 0xA000 <= loc <= 0xBFFF
    }

    /// What holds of a valid value: every field is in the range that the operations keep it in.
    pub open spec fn wf(self) -> bool {
        self.mapper.wf()
    }

    /// Same mapper state and same contents.
    pub open spec fn equiv(self, other: Cartridge) -> bool {
        &&& self.mapper == other.mapper
        &&& self.rom@ == other.rom@
        &&& self.ram == other.ram
        &&& self.ram_banks == other.ram_banks
        &&& self.rom_banks == other.rom_banks
    }

    /// The image byte at `offset`, or `FILL` beyond the image.
    pub open spec fn rom_byte(self, offset: int) -> u8 {
        if 0 <= offset < self.rom@.len() {
            self.rom@[offset]
        } else {
            FILL
        }
    }

    /// Offset in cartridge RAM that `loc` of the RAM window stands for.
    pub open spec fn ram_offset(self, loc: u16) -> int {
        self.mapper.ram_base() + loc % 0x2000
    }

    /// The RAM window is backed at `loc`: RAM is enabled and the selected bank exists.
    pub open spec fn ram_present(self, loc: u16) -> bool {
        match self.mapper {
            Mapper::ROM => false,
            Mapper::MBC1 { ram_enabled, .. } => ram_enabled && self.ram_offset(loc)
                < self.ram_banks * RAM_BANK_SIZE,
        }
    }

    /// The byte that the cartridge shows at `loc`.
    pub open spec fn read_spec(self, loc: u16) -> u8 {
        match self.mapper {
            Mapper::ROM => self.rom_byte(loc as int),
            Mapper::MBC1 { .. } => if loc <= 0x3FFF {
                self.rom_byte(self.mapper.low_base() + loc)
            } else if loc <= 0x7FFF {
                self.rom_byte(self.mapper.high_base() + (loc - 0x4000))
            } else if self.ram_present(loc) {
                self.ram[self.ram_offset(loc)]
            } else {
                FILL
            },
        }
    }

    /// The cartridge after `val` is written to `loc`: a write below `0x8000`
    /// sets a bank register and nothing else; one in the RAM window stores
    /// the byte where RAM is present.
    pub open spec fn write_spec(self, loc: u16, val: u8) -> Cartridge {
        if loc <= 0x7FFF {
            Cartridge { mapper: self.mapper.select(loc, val), ..self }
        } else if self.ram_present(loc) {
            Cartridge {
                ram: Box::new(spec_array_update(*self.ram, self.ram_offset(loc), val)),
                ..self
            }
        } else {
            self
        }
    }

    /// Whether the cartridge is in a state that its own operations can have
    /// left it in.
    pub fn is_valid(&self) -> (r: bool)
        ensures
            r == self.wf(),
    {
        match self.mapper {
            Mapper::ROM => true,
            Mapper::MBC1 { bank_low, bank_high, .. } => bank_low < 32 && bank_high < 4,
        }
    }

    pub fn is_bootrom(&self) -> (r: bool)
        ensures
            !r,
    {
        false
    }

    /// A cartridge without mapper and without RAM around `data`.
    pub fn test(data: Vec<u8>) -> (r: Self)
        ensures
            r.wf(),
            r.mapper == Mapper::ROM,
            r.rom == data,
            r.ram_banks == 0,
            r.rom_banks == 0,
            forall|i: int| 0 <= i < RAM_SIZE ==> r.ram[i] == 0,
    {
        Cartridge {
            mapper: Mapper::ROM,
            ram_banks: 0,
            rom_banks: 0,
            rom: data,
            ram: Box::new([0u8; 32768]),
        }
    }

    /// Loads an image, reading mapper type and sizes from its header.
    #[verifier::rlimit(50)]
    pub fn from_data(data: Vec<u8>) -> (r: Result<Self, CartridgeError>)
        ensures
            match r {
                Ok(c) => {
                    &&& load_error(data@) is None
                    &&& c.wf()
                    &&& c.rom == data
                    &&& c.mapper == initial_mapper(data@[0x147])
                    &&& c.rom_banks == rom_bank_count(data@[0x148])
                    &&& c.ram_banks == ram_bank_count(data@[0x149])
                    &&& forall|i: int| 0 <= i < RAM_SIZE ==> c.ram[i] == 0
                },
                Err(e) => load_error(data@) == Some(e),
            },
    {
        if data.len() < HEADER_SIZE {
            return Err(CartridgeError::MalformedImage);
        }
        let mapper = match Cartridge::check_mapper(&data) {
            Ok(m) => m,
            Err(e) => {
                return Err(e);
            },
        };
        let rom_banks: usize = match Cartridge::rom_banks_for(data[0x148]) {
            Some(n) => n,
            None => {
                return Err(CartridgeError::MalformedImage);
            },
        };
        let ram_banks: usize = match data[0x149] {
            0x2 => 1,
            0x3 => 4,
            0x4 => 16,
            0x5 => 8,
            _ => 0,
        };
        Ok(Cartridge { mapper, ram_banks, rom_banks, ram: Box::new([0u8; 32768]), rom: data })
    }

    /// The mapper that the header names, in its state at power-on.
    pub fn check_mapper(data: &Vec<u8>) -> (r: Result<Mapper, CartridgeError>)
        requires
            data@.len() >= HEADER_SIZE,
        ensures
            data@[0x147] <= 1 ==> r == Ok::<Mapper, CartridgeError>(initial_mapper(data@[0x147])),
            data@[0x147] > 1 ==> r == Err::<Mapper, CartridgeError>(
                CartridgeError::UnimplementedMapper(data@[0x147]),
            ),
    {
        match data[0x147] {
            0x0 => Ok(Mapper::ROM),
            0x1 => Ok(Mapper::MBC1 { ram_enabled: false, bank_low: 1, bank_high: 0, simple: true }),
            code => Err(CartridgeError::UnimplementedMapper(code)),
        }
    }

    fn rom_banks_for(code: u8) -> (r: Option<usize>)
        ensures
            code <= 8 ==> r == Some(rom_bank_count(code) as usize) && rom_bank_count(code) <= 512,
            code > 8 ==> r is None,
    {
        proof {
            lemma2_to64();
        }
        match code {
            0 => Some(2),
            1 => Some(4),
            2 => Some(8),
            3 => Some(16),
            4 => Some(32),
            5 => Some(64),
            6 => Some(128),
            7 => Some(256),
            8 => Some(512),
            _ => None,
        }
    }

    #[verifier::rlimit(50)]
    pub fn read(&self, loc: u16) -> (r: u8)
        requires
            self.wf(),
            Self::owns(loc),
        ensures
            r == self.read_spec(loc),
    {
        match self.mapper {
            Mapper::ROM => self.rom_at(loc as usize),
            Mapper::MBC1 { ram_enabled, bank_low, bank_high, simple } => {
                let selected: usize = if bank_low == 0 {
                    1
                } else {
                    bank_low as usize
                };
                if loc <= 0x3FFF {
                    let base: usize = if simple {
                        0
                    } else {
                        (bank_high as usize) * 32 * ROM_BANK_SIZE
                    };
                    self.rom_at(base + loc as usize)
                } else if loc <= 0x7FFF {
                    let base: usize = if simple {
                        selected * ROM_BANK_SIZE
                    } else {
                        ((bank_high as usize) * 32 + selected) * ROM_BANK_SIZE
                    };
                    self.rom_at(base + (loc as usize - 0x4000))
                } else {
                    let offset: usize = (bank_high as usize) * RAM_BANK_SIZE + (loc as usize)
                        % 0x2000;
                    if ram_enabled && offset / RAM_BANK_SIZE < self.ram_banks {
                        self.ram[offset]
                    } else {
                        FILL
                    }
                }
            },
        }
    }

    fn rom_at(&self, offset: usize) -> (r: u8)
        ensures
            r == self.rom_byte(offset as int),
    {
        if offset < self.rom.len() {
            self.rom[offset]
        } else {
            FILL
        }
    }

    #[verifier::rlimit(50)]
    pub fn write(&mut self, loc: u16, val: u8)
        requires
            old(self).wf(),
            Self::owns(loc),
        ensures
            final(self).wf(),
            *final(self) == old(self).write_spec(loc, val),
    {
        match self.mapper {
            Mapper::ROM => (),
            Mapper::MBC1 { ram_enabled, bank_low, bank_high, simple } => {
                if loc <= 0x1FFF {
                    self.mapper = Mapper::MBC1 {
                        ram_enabled: val % 16 == 0xA,
                        bank_low,
                        bank_high,
                        simple,
                    };
                } else if loc <= 0x3FFF {
                    self.mapper = Mapper::MBC1 { ram_enabled, bank_low: val % 32, bank_high, simple };
                } else if loc <= 0x5FFF {
                    self.mapper = Mapper::MBC1 { ram_enabled, bank_low, bank_high: val % 4, simple };
                } else if loc <= 0x7FFF {
                    self.mapper = Mapper::MBC1 {
                        ram_enabled,
                        bank_low,
                        bank_high,
                        simple: val % 2 == 0,
                    };
                } else {
                    let offset: usize = (bank_high as usize) * RAM_BANK_SIZE + (loc as usize)
                        % 0x2000;
                    if ram_enabled && offset / RAM_BANK_SIZE < self.ram_banks {
                        self.ram[offset] = val;
                    }
                }
            },
        }
    }
}

/// The mapper for a type code of the header, in its state at power-on.
pub open spec fn initial_mapper(code: u8) -> Mapper {
    if code == 0 {
        Mapper::ROM
    } else {
        Mapper::MBC1 { ram_enabled: false, bank_low: 1, bank_high: 0, simple: true }
    }
}

impl Clone for Cartridge {
    fn clone(&self) -> (r: Self)
        ensures
            r.equiv(*self),
    {
        Cartridge {
            mapper: self.mapper,
            rom: self.rom.clone(),
            ram: Box::new(*self.ram),
            ram_banks: self.ram_banks,
            rom_banks: self.rom_banks,
        }
    }
}

/// A write to a bank register leaves the image and the cartridge RAM as they were.
pub proof fn bank_select_keeps_contents(c: Cartridge, loc: u16, val: u8)
    requires
        loc <= 0x7FFF,
    ensures
        c.write_spec(loc, val).rom == c.rom,
        c.write_spec(loc, val).ram == c.ram,
{
}

/// Bank number 0 in the switchable window shows what bank number 1 shows:
/// whichever of the two is written to the bank register, every address of the
/// window then reads the same byte.
#[verifier::rlimit(50)]
pub proof fn bank_zero_reads_as_bank_one(c: Cartridge, reg: u16, zero: u8, one: u8, loc: u16)
    requires
        c.mapper is MBC1,
        0x2000 <= reg <= 0x3FFF,
        zero % 32 == 0,
        one % 32 == 1,
        0x4000 <= loc <= 0x7FFF,
    ensures
        c.write_spec(reg, zero).read_spec(loc) == c.write_spec(reg, one).read_spec(loc),
{
}

} // verus!
