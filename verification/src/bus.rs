//! The memory bus: every address belongs to exactly one device, and every
//! tick of the processor advances all of them.

use vstd::prelude::*;
use vstd::array::spec_array_update;
use crate::apu::APU;
use crate::cartridge::Cartridge;
use crate::cpu_recievable::Interrupt;
use crate::gameboy::{BUT_A, BUT_B, BUT_DOWN, BUT_LEFT, BUT_RIGHT, BUT_SELECT, BUT_START, BUT_UP};
use crate::ppu::{DMAManager, PPU};
use crate::timer::Timer;

verus! {

/// What the unused addresses `0xFEA0-0xFEFF` read as.
pub const UNUSED: u8 = 0x00;

/// An interrupt register: bit `i` stands for the interrupt source of index `i`.
#[derive(Clone, Copy, Debug, PartialEq, Eq, Structural)]
pub struct InterruptRegister {
    pub data: u8,
}

impl InterruptRegister {
    /// The register with the bit of `i` set.
    pub open spec fn request_spec(self, i: Interrupt) -> InterruptRegister {
        InterruptRegister { data: self.data | i.mask() }
    }

    /// The register with the bit of `i` clear.
    pub open spec fn clear_spec(self, i: Interrupt) -> InterruptRegister {
        InterruptRegister { data: self.data & !i.mask() }
    }

    /// The bit of `i` is set.
    pub open spec fn has(self, i: Interrupt) -> bool {
        (self.data & i.mask()) > 0
    }

    /// One of the five bits is set.
    pub open spec fn any(self) -> bool {
        (self.data & 0b11111) > 0
    }

    pub fn has_interrupts(&self) -> (r: bool)
        ensures
            r == self.any(),
    {
        (self.data & 0b11111) > 0
    }

    pub fn get_vblank(&self) -> (r: bool)
        ensures
            r == self.has(Interrupt::VBlank),
    {
        (self.data & 0b1) > 0
    }

    pub fn get_lcdstat(&self) -> (r: bool)
        ensures
            r == self.has(Interrupt::LCDStat),
    {
        (self.data & 0b10) > 0
    }

    pub fn get_timer(&self) -> (r: bool)
        ensures
            r == self.has(Interrupt::Timer),
    {
        (self.data & 0b100) > 0
    }

    pub fn get_serial(&self) -> (r: bool)
        ensures
            r == self.has(Interrupt::Serial),
    {
        (self.data & 0b1000) > 0
    }

    pub fn get_joypad(&self) -> (r: bool)
        ensures
            r == self.has(Interrupt::Joypad),
    {
        (self.data & 0b10000) > 0
    }

    /// Sets the bit of `i`.
    pub fn request(&mut self, i: Interrupt)
        ensures
            *final(self) == old(self).request_spec(i),
    {
        self.data = self.data | i.bit();
    }

    /// Clears the bit of `i`.
    pub fn acknowledge(&mut self, i: Interrupt)
        ensures
            *final(self) == old(self).clear_spec(i),
    {
        self.data = self.data & !i.bit();
    }
}

/// The joypad register `0xFF00`: bits 5 and 4 select, when 0, the action or
/// the direction buttons; bits 3-0 then show the selected buttons, 0 for a
/// button held down.
#[derive(Clone, Copy, Debug, PartialEq, Eq, Structural)]
pub struct Joypad {
    pub pins: u8,
    /// The buttons held down, as last told.
    pub last: u8,
}

/// `1` shifted to bit `n` if `on`, else 0.
pub open spec fn bit_if(on: bool, n: u8) -> u8 {
    (if on {
        1u8
    } else {
        0u8
    }) << n
}

impl Joypad {
    /// The register with the action select line high or low.
    pub open spec fn action_spec(self, high: bool) -> Joypad {
        Joypad { pins: self.pins & 0b011111 | bit_if(high, 5), ..self }
    }

    /// The register with the direction select line high or low.
    pub open spec fn direction_spec(self, high: bool) -> Joypad {
        Joypad { pins: self.pins & 0b101111 | bit_if(high, 4), ..self }
    }

    /// The register with the line of Down and Start low or high.
    pub open spec fn down_start_spec(self, low: bool) -> Joypad {
        Joypad { pins: self.pins & 0b110111 | bit_if(!low, 3), ..self }
    }

    /// The register with the line of Up and Select low or high.
    pub open spec fn up_select_spec(self, low: bool) -> Joypad {
        Joypad { pins: self.pins & 0b111011 | bit_if(!low, 2), ..self }
    }

    /// The register with the line of Left and B low or high.
    pub open spec fn left_b_spec(self, low: bool) -> Joypad {
        Joypad { pins: self.pins & 0b111101 | bit_if(!low, 1), ..self }
    }

    /// The register with the line of Right and A low or high.
    pub open spec fn right_a_spec(self, low: bool) -> Joypad {
        Joypad { pins: self.pins & 0b111110 | bit_if(!low, 0), ..self }
    }

    /// The direction buttons are selected.
    pub open spec fn directions(self) -> bool {
        self.pins & 0b010000 == 0
    }

    /// The action buttons are selected.
    pub open spec fn actions(self) -> bool {
        self.pins & 0b100000 == 0
    }

    /// A line is low when a button on it is held down and its group is selected.
    pub open spec fn line_low(self, buttonmap: u8, direction: u8, action: u8) -> bool {
        self.directions() && (buttonmap & direction > 0) || self.actions() && (buttonmap & action
            > 0)
    }

    /// The register after the host has told which buttons are held down.
    pub open spec fn update_spec(self, buttonmap: u8) -> Joypad {
        let j = Joypad { last: buttonmap, ..self };
        j.down_start_spec(j.line_low(buttonmap, BUT_DOWN, BUT_START)).up_select_spec(
            j.line_low(buttonmap, BUT_UP, BUT_SELECT),
        ).left_b_spec(j.line_low(buttonmap, BUT_LEFT, BUT_B)).right_a_spec(
            j.line_low(buttonmap, BUT_RIGHT, BUT_A),
        )
    }

    /// The register after the processor has written `val`: it sets the two
    /// select bits, and the button bits follow.
    pub open spec fn write_spec(self, val: u8) -> Joypad {
        (Joypad { pins: (self.pins & 0b00001111) | (val & 0b00110000), ..self }).update_spec(
            self.last,
        )
    }

    pub fn new() -> (r: Self)
        ensures
            r == (Joypad { pins: 0b1111, last: 0 }),
    {
        Joypad { pins: 0b1111, last: 0 }
    }

    pub fn set_action(&mut self, high: bool)
        ensures
            *final(self) == old(self).action_spec(high),
    {
        let bit: u8 = if high {
            1
        } else {
            0
        };
        self.pins = self.pins & 0b011111 | (bit << 5u8);
    }

    pub fn set_direction(&mut self, high: bool)
        ensures
            *final(self) == old(self).direction_spec(high),
    {
        let bit: u8 = if high {
            1
        } else {
            0
        };
        self.pins = self.pins & 0b101111 | (bit << 4u8);
    }

    pub fn set_down_start(&mut self, low: bool)
        ensures
            *final(self) == old(self).down_start_spec(low),
    {
        let bit: u8 = if low {
            0
        } else {
            1
        };
        self.pins = self.pins & 0b110111 | (bit << 3u8);
    }

    pub fn set_up_select(&mut self, low: bool)
        ensures
            *final(self) == old(self).up_select_spec(low),
    {
        let bit: u8 = if low {
            0
        } else {
            1
        };
        self.pins = self.pins & 0b111011 | (bit << 2u8);
    }

    pub fn set_left_b(&mut self, low: bool)
        ensures
            *final(self) == old(self).left_b_spec(low),
    {
        let bit: u8 = if low {
            0
        } else {
            1
        };
        self.pins = self.pins & 0b111101 | (bit << 1u8);
    }

    pub fn set_right_a(&mut self, low: bool)
        ensures
            *final(self) == old(self).right_a_spec(low),
    {
        let bit: u8 = if low {
            0
        } else {
            1
        };
        self.pins = self.pins & 0b111110 | (bit << 0u8);
    }

    #[verifier::rlimit(50)]
    pub fn write(&mut self, val: u8)
        ensures
            *final(self) == old(self).write_spec(val),
    {
        self.pins = (self.pins & 0b00001111) | (val & 0b00110000);
        self.update_joypad(self.last);
    }

    pub fn update_joypad(&mut self, buttonmap: u8)
        ensures
            *final(self) == old(self).update_spec(buttonmap),
    {
        self.last = buttonmap;
        let dir: bool = self.pins & 0b010000 == 0;
        let act: bool = self.pins & 0b100000 == 0;
        self.set_down_start(
            dir && (buttonmap & BUT_DOWN > 0) || act && (buttonmap & BUT_START > 0),
        );
        self.set_up_select(dir && (buttonmap & BUT_UP > 0) || act && (buttonmap & BUT_SELECT > 0));
        self.set_left_b(dir && (buttonmap & BUT_LEFT > 0) || act && (buttonmap & BUT_B > 0));
        self.set_right_a(dir && (buttonmap & BUT_RIGHT > 0) || act && (buttonmap & BUT_A > 0));
    }
}

pub struct Bus {
    pub rom: Cartridge,
    /// Work RAM and high RAM, each byte at its own address.
    pub ram: Box<[u8; 0x10000]>,
    pub ppu: PPU,
    pub apu: APU,
    pub timer: Timer,
    pub joypad: Joypad,
    /// The boot program, while it shadows the first addresses.
    pub bios: Option<Vec<u8>>,
    /// Interrupt enable, address `0xFFFF`.
    pub reg_ie: InterruptRegister,
    /// Interrupt request, address `0xFF0F`.
    pub reg_if: InterruptRegister,
}

/// The views of two optional byte strings are equal.
pub open spec fn same_bytes(a: Option<Vec<u8>>, b: Option<Vec<u8>>) -> bool {
    match (a, b) {
        (Some(x), Some(y)) => x@ == y@,
        (None, None) => true,
        _ => false,
    }
}

impl Bus {
    /// What holds of a valid value: every field is in the range that the operations keep it in.
    #[verifier::opaque]
    pub open spec fn wf(self) -> bool {
        self.rom.wf() && self.ppu.wf() && self.apu.wf()
    }

    /// Same state throughout, the image and the boot program compared by their bytes.
    pub open spec fn equiv(self, other: Bus) -> bool {
        &&& self.rom.equiv(other.rom)
        &&& self.ram == other.ram
        &&& self.ppu == other.ppu
        &&& self.apu == other.apu
        &&& self.timer == other.timer
        &&& self.joypad == other.joypad
        &&& same_bytes(self.bios, other.bios)
        &&& self.reg_ie == other.reg_ie
        &&& self.reg_if == other.reg_if
    }

    /// The devices and the memory as they are at power-on: RAM and both
    /// interrupt registers 0, no button held, timer and both units in their
    /// initial states.
    pub open spec fn is_initial(self) -> bool {
        &&& self.reg_ie.data == 0
        &&& self.reg_if.data == 0
        &&& self.timer == (Timer { div: 0, tima: 0, tma: 0, tac: 0, ticker: 0 })
        &&& self.joypad == (Joypad { pins: 0b1111, last: 0 })
        &&& self.ppu.is_initial()
        &&& self.apu.is_initial()
        &&& forall|i: int| 0 <= i < 0x10000 ==> self.ram[i] == 0
    }

    /// The boot program shadows `loc`.
    pub open spec fn shadowed(self, loc: u16) -> bool {
        match self.bios {
            Some(b) => loc <= 0xFF && loc < b@.len(),
            None => false,
        }
    }

    /// The byte at `loc`, from the one device that owns the address.
    #[verifier::opaque]
    pub open spec fn read_spec(self, loc: u16) -> u8 {
        if self.shadowed(loc) {
            self.bios->0@[loc as int]
        } else if loc <= 0x7FFF {
            self.rom.read_spec(loc)
        } else if loc <= 0x9FFF {
            self.ppu.read_spec(loc)
        } else if loc <= 0xBFFF {
            self.rom.read_spec(loc)
        } else if loc <= 0xDFFF {
            self.ram[loc as int]
        } else if loc <= 0xFDFF {
            self.ram[loc - 0x2000]
        } else if loc <= 0xFE9F {
            self.ppu.read_oam_spec(loc)
        } else if loc <= 0xFEFF {
            UNUSED
        } else if loc == 0xFF00 {
            self.joypad.pins
        } else if Timer::owns(loc) {
            self.timer.read_spec(loc)
        } else if loc == 0xFF0F {
            self.reg_if.data
        } else if APU::owns(loc) {
            self.apu.read_spec(loc)
        } else if PPU::owns_reg(loc) {
            self.ppu.read_reg_spec(loc)
        } else if loc <= 0xFF7F {
            0
        } else if loc <= 0xFFFE {
            self.ram[loc as int]
        } else {
            self.reg_ie.data
        }
    }

    /// The bus with `val` as byte `index` of its RAM.
    pub open spec fn with_ram(self, index: int, val: u8) -> Bus {
        Bus { ram: Box::new(spec_array_update(*self.ram, index, val)), ..self }
    }

    /// The bus after `val` is written to `loc`: the write goes to the one
    /// device that owns the address; `0xFF50` removes the boot program for
    /// good; unused addresses and registers without a device take nothing.
    #[verifier::opaque]
    pub open spec fn write_spec(self, loc: u16, val: u8) -> Bus {
        if loc <= 0x7FFF {
            Bus { rom: self.rom.write_spec(loc, val), ..self }
        } else if loc <= 0x9FFF {
            Bus { ppu: self.ppu.write_spec(loc, val), ..self }
        } else if loc <= 0xBFFF {
            Bus { rom: self.rom.write_spec(loc, val), ..self }
        } else if loc <= 0xDFFF {
            self.with_ram(loc as int, val)
        } else if loc <= 0xFDFF {
            self.with_ram(loc - 0x2000, val)
        } else if loc <= 0xFE9F {
            Bus { ppu: self.ppu.write_oam_spec(loc, val), ..self }
        } else if loc <= 0xFEFF {
            self
        } else if loc == 0xFF00 {
            Bus { joypad: self.joypad.write_spec(val), ..self }
        } else if Timer::owns(loc) {
            Bus { timer: self.timer.write_spec(loc, val), ..self }
        } else if loc == 0xFF0F {
            Bus { reg_if: InterruptRegister { data: val }, ..self }
        } else if APU::owns(loc) {
            Bus { apu: self.apu.write_spec(loc, val), ..self }
        } else if PPU::owns_reg(loc) {
            Bus { ppu: self.ppu.write_reg_spec(loc, val), ..self }
        } else if loc == 0xFF50 {
            Bus { bios: None, ..self }
        } else if loc <= 0xFF7F {
            self
        } else if loc <= 0xFFFE {
            self.with_ram(loc as int, val)
        } else {
            Bus { reg_ie: InterruptRegister { data: val }, ..self }
        }
    }

    /// The bus after one tick of the picture unit, with its requests noted.
    pub open spec fn ppu_tick_spec(self) -> Bus {
        let requests = self.ppu.tick_requests();
        let with_vblank = if requests.vblank {
            self.reg_if.request_spec(Interrupt::VBlank)
        } else {
            self.reg_if
        };
        let with_stat = if requests.lcd_stat {
            with_vblank.request_spec(Interrupt::LCDStat)
        } else {
            with_vblank
        };
        Bus { ppu: self.ppu.tick_spec(), reg_if: with_stat, ..self }
    }

    /// The bus after one tick of the timer, with its request noted.
    pub open spec fn timer_tick_spec(self) -> Bus {
        Bus {
            timer: self.timer.tick_spec(),
            reg_if: if self.timer.tick_fires() {
                self.reg_if.request_spec(Interrupt::Timer)
            } else {
                self.reg_if
            },
            ..self
        }
    }

    /// The bus after one step of the copy into the sprite table: while a copy
    /// runs, one byte a step is read over the bus and stored in the table,
    /// whatever the mode of the picture unit. The processor's own accesses to
    /// the table are not held back while a copy runs.
    pub open spec fn dma_spec(self) -> Bus {
        let stepped = Bus { ppu: PPU { dma: self.ppu.dma.next_spec(), ..self.ppu }, ..self };
        match self.ppu.dma.next_pair() {
            Some((from, to)) => Bus {
                ppu: stepped.ppu.store_oam_spec(to - 0xFE00, stepped.read_spec(from)),
                ..stepped
            },
            None => stepped,
        }
    }

    /// The bus after one tick of the processor: two ticks of the picture
    /// unit, one of the timer, one step of the copy into the sprite table,
    /// one tick of the audio unit.
    #[verifier::opaque]
    pub open spec fn cpu_tick_spec(self) -> Bus {
        let b = self.ppu_tick_spec().ppu_tick_spec().timer_tick_spec().dma_spec();
        Bus { apu: b.apu.tick_spec(), ..b }
    }

    /// Whether the bus and its devices are in a state that their own
    /// operations can have left them in.
    pub fn is_valid(&self) -> (r: bool)
        ensures
            r == self.wf(),
    {
        proof {
            reveal(Bus::wf);
        }
        self.rom.is_valid() && self.ppu.is_valid() && self.apu.is_valid()
    }

    pub fn get_screen(&self) -> (r: &[u8; 23040])
        ensures
            *r == *self.ppu.screen,
    {
        self.ppu.get_screen()
    }

    pub fn get_audio_buffer(&self) -> (r: &[i16; 4096])
        ensures
            *r == *self.apu.audio_buffer,
    {
        self.apu.get_audio_buffer()
    }

    pub fn get_audio_buffer_status(&self) -> (r: bool)
        ensures
            r == self.apu.audio_buffer_full,
    {
        self.apu.get_audio_buffer_status()
    }

    pub fn set_audio_buffer_status(&mut self, status: bool)
        ensures
            *final(self) == (Bus {
                apu: APU { audio_buffer_full: status, ..old(self).apu },
                ..*old(self)
            }),
    {
        proof {
            reveal(Bus::wf);
            reveal(Bus::read_spec);
            reveal(Bus::write_spec);
            reveal(Bus::cpu_tick_spec);
        }
        self.apu.set_audio_buffer_status(status);
    }

    pub fn get_canvas(&self) -> (canvas: Box<[u32; 23040]>)
        ensures
            forall|i: int| 0 <= i < 23040 ==> canvas[i] == crate::ppu::shade_colour(self.ppu.screen[i]),
    {
        self.ppu.get_canvas()
    }

    /// A bus around `rom` with the boot program `bios` over its first addresses.
    pub fn with_bios(rom: Cartridge, bios: Vec<u8>) -> (r: Self)
        requires
            rom.wf(),
        ensures
            r.wf(),
            r.rom == rom,
            r.bios == Some(bios),
            r.is_initial(),
    {
        proof {
            reveal(Bus::wf);
            reveal(Bus::read_spec);
            reveal(Bus::write_spec);
            reveal(Bus::cpu_tick_spec);
        }
        let mut bus = Self::new(rom);
        bus.bios = Some(bios);
        bus
    }

    /// A bus around `rom`, all memory zero and no boot program.
    pub fn new(rom: Cartridge) -> (r: Self)
        requires
            rom.wf(),
        ensures
            r.wf(),
            r.rom == rom,
            r.bios is None,
            r.is_initial(),
    {
        proof {
            reveal(Bus::wf);
            reveal(Bus::read_spec);
            reveal(Bus::write_spec);
            reveal(Bus::cpu_tick_spec);
        }
        Bus {
            rom,
            ram: Box::new([0u8; 0x10000]),
            ppu: PPU::new(),
            apu: APU::new(),
            timer: Timer::new(),
            joypad: Joypad::new(),
            reg_if: InterruptRegister { data: 0 },
            reg_ie: InterruptRegister { data: 0 },
            bios: None,
        }
    }

    fn bios_byte(&self, loc: u16) -> (r: Option<u8>)
        ensures
            self.shadowed(loc) ==> r == Some(self.bios->0@[loc as int]),
            !self.shadowed(loc) ==> r is None,
    {
        match &self.bios {
            Some(b) => {
                if loc <= 0xFF && (loc as usize) < b.len() {
                    Some(b[loc as usize])
                } else {
                    None
                }
            },
            None => None,
        }
    }

    #[verifier::rlimit(50)]
    pub fn read(&self, loc: u16) -> (r: u8)
        requires
            self.wf(),
        ensures
            r == self.read_spec(loc),
    {
        proof {
            reveal(Bus::wf);
            reveal(Bus::read_spec);
            reveal(Bus::write_spec);
            reveal(Bus::cpu_tick_spec);
        }
        if let Some(byte) = self.bios_byte(loc) {
            return byte;
        }
        match loc {
            0x0000..=0x7FFF => self.rom.read(loc),
            0x8000..=0x9FFF => self.ppu.read(loc),
            0xA000..=0xBFFF => self.rom.read(loc),
            0xC000..=0xDFFF => self.ram[loc as usize],
            0xE000..=0xFDFF => self.ram[loc as usize - 0x2000],
            0xFE00..=0xFE9F => self.ppu.readOAM(loc),
            0xFEA0..=0xFEFF => UNUSED,
            0xFF00 => self.joypad.pins,
            0xFF04..=0xFF07 => self.timer.read(loc),
            0xFF0F => self.reg_if.data,
            0xFF10..=0xFF26 => self.apu.read(loc),
            0xFF30..=0xFF3F => self.apu.read(loc),
            0xFF40..=0xFF4B => self.ppu.read_reg(loc),
            0xFF01..=0xFF7F => 0,
            0xFF80..=0xFFFE => self.ram[loc as usize],
            0xFFFF => self.reg_ie.data,
        }
    }

    #[verifier::rlimit(50)]
    pub fn write(&mut self, loc: u16, val: u8)
        requires
            old(self).wf(),
        ensures
            final(self).wf(),
            *final(self) == old(self).write_spec(loc, val),
    {
        proof {
            reveal(Bus::wf);
            reveal(Bus::read_spec);
            reveal(Bus::write_spec);
            reveal(Bus::cpu_tick_spec);
        }
        if loc <= 0xFDFF {
            self.write_memory(loc, val);
        } else if loc <= 0xFF0F {
            self.write_low_io(loc, val);
        } else {
            self.write_high_io(loc, val);
        }
    }

    /// A write to the cartridge, video memory, work RAM or its echo.
    #[verifier::rlimit(50)]
    fn write_memory(&mut self, loc: u16, val: u8)
        requires
            old(self).wf(),
            loc <= 0xFDFF,
        ensures
            final(self).wf(),
            *final(self) == old(self).write_spec(loc, val),
    {
        proof {
            reveal(Bus::wf);
            reveal(Bus::read_spec);
            reveal(Bus::write_spec);
            reveal(Bus::cpu_tick_spec);
        }
        match loc {
            0x0000..=0x7FFF => self.rom.write(loc, val),
            0x8000..=0x9FFF => self.ppu.write(loc, val),
            0xA000..=0xBFFF => self.rom.write(loc, val),
            0xC000..=0xDFFF => {
                self.ram[loc as usize] = val;
            },
            _ => {
                self.ram[loc as usize - 0x2000] = val;
            },
        }
    }

    /// A write to the sprite table, the unused addresses, the joypad, the
    /// timer or the interrupt requests.
    #[verifier::rlimit(50)]
    fn write_low_io(&mut self, loc: u16, val: u8)
        requires
            old(self).wf(),
            0xFE00 <= loc <= 0xFF0F,
        ensures
            final(self).wf(),
            *final(self) == old(self).write_spec(loc, val),
    {
        proof {
            reveal(Bus::wf);
            reveal(Bus::read_spec);
            reveal(Bus::write_spec);
            reveal(Bus::cpu_tick_spec);
        }
        match loc {
            0xFE00..=0xFE9F => self.ppu.writeOAM(loc, val),
            0xFEA0..=0xFEFF => (),
            0xFF00 => self.joypad.write(val),
            0xFF04..=0xFF07 => self.timer.write(loc, val),
            0xFF0F => {
                self.reg_if.data = val;
            },
            _ => (),
        }
    }

    /// A write to the sound or picture registers, the boot switch, high RAM
    /// or the interrupt enable.
    #[verifier::rlimit(50)]
    fn write_high_io(&mut self, loc: u16, val: u8)
        requires
            old(self).wf(),
            0xFF10 <= loc,
        ensures
            final(self).wf(),
            *final(self) == old(self).write_spec(loc, val),
    {
        proof {
            reveal(Bus::wf);
            reveal(Bus::read_spec);
            reveal(Bus::write_spec);
            reveal(Bus::cpu_tick_spec);
        }
        match loc {
            0xFF10..=0xFF26 => self.apu.write(loc, val),
            0xFF30..=0xFF3F => self.apu.write(loc, val),
            0xFF40..=0xFF4B => self.ppu.write_reg(loc, val),
            0xFF50 => {
                self.bios = None;
            },
            0xFF80..=0xFFFE => {
                self.ram[loc as usize] = val;
            },
            0xFFFF => {
                self.reg_ie.data = val;
            },
            _ => (),
        }
    }

    #[verifier::rlimit(50)]
    fn ppu_tick(&mut self)
        requires
            old(self).wf(),
        ensures
            final(self).wf(),
            *final(self) == old(self).ppu_tick_spec(),
    {
        proof {
            reveal(Bus::wf);
            reveal(Bus::read_spec);
            reveal(Bus::write_spec);
            reveal(Bus::cpu_tick_spec);
        }
        let requests = self.ppu.tick();
        if requests.vblank {
            self.reg_if.request(Interrupt::VBlank);
        }
        if requests.lcd_stat {
            self.reg_if.request(Interrupt::LCDStat);
        }
    }

    #[verifier::rlimit(50)]
    fn timer_tick(&mut self)
        requires
            old(self).wf(),
        ensures
            final(self).wf(),
            *final(self) == old(self).timer_tick_spec(),
    {
        proof {
            reveal(Bus::wf);
            reveal(Bus::read_spec);
            reveal(Bus::write_spec);
            reveal(Bus::cpu_tick_spec);
        }
        if self.timer.tick() {
            self.reg_if.request(Interrupt::Timer);
        }
    }

    /// One step of the copy into the sprite table.
    #[verifier::rlimit(50)]
    pub fn dma_transfer(&mut self)
        requires
            old(self).wf(),
        ensures
            final(self).wf(),
            *final(self) == old(self).dma_spec(),
    {
        proof {
            reveal(Bus::wf);
            reveal(Bus::read_spec);
            reveal(Bus::write_spec);
            reveal(Bus::cpu_tick_spec);
        }
        match self.ppu.dma.next() {
            Some((from, to)) => {
                let val: u8 = self.read(from);
                self.ppu.store_oam((to - 0xFE00) as u8, val);
            },
            None => (),
        }
    }

    /// One tick of the processor, passed on to every device.
    #[verifier::rlimit(50)]
    pub fn cpu_tick(&mut self)
        requires
            old(self).wf(),
        ensures
            final(self).wf(),
            *final(self) == old(self).cpu_tick_spec(),
    {
        proof {
            reveal(Bus::wf);
            reveal(Bus::read_spec);
            reveal(Bus::write_spec);
            reveal(Bus::cpu_tick_spec);
        }
        self.ppu_tick();
        self.ppu_tick();
        self.timer_tick();
        self.dma_transfer();
        self.apu.tick();
    }

    /// Clears the request of `i`, as the processor does when it serves the interrupt.
    pub fn acknowledge(&mut self, i: Interrupt)
        requires
            old(self).wf(),
        ensures
            final(self).wf(),
            *final(self) == (Bus { reg_if: old(self).reg_if.clear_spec(i), ..*old(self) }),
    {
        proof {
            reveal(Bus::wf);
        }
        self.reg_if.acknowledge(i);
    }

    /// Tells the joypad which buttons are held down.
    pub fn update_joypad(&mut self, buttonmap: u8)
        requires
            old(self).wf(),
        ensures
            final(self).wf(),
            *final(self) == (Bus { joypad: old(self).joypad.update_spec(buttonmap), ..*old(self) }),
    {
        proof {
            reveal(Bus::wf);
        }
        self.joypad.update_joypad(buttonmap);
    }

    /// Stores a byte of the stack, which lives in RAM whatever `sp` is.
    pub fn stack_push(&mut self, sp: usize, data: u8)
        requires
            sp < 0x10000,
        ensures
            *final(self) == old(self).with_ram(sp as int, data),
            old(self).wf() ==> final(self).wf(),
    {
        proof {
            reveal(Bus::wf);
        }
        self.ram[sp] = data;
    }

    pub fn stack_pop(&self, sp: usize) -> (r: u8)
        requires
            sp < 0x10000,
        ensures
            r == self.ram[sp as int],
    {
        self.ram[sp]
    }
}

impl Clone for Bus {
    fn clone(&self) -> (r: Self)
        ensures
            r.equiv(*self),
    {
        let bios: Option<Vec<u8>> = match &self.bios {
            Some(b) => Some(b.clone()),
            None => None,
        };
        Bus {
            rom: self.rom.clone(),
            ram: Box::new(*self.ram),
            ppu: self.ppu.clone(),
            apu: self.apu.clone(),
            timer: self.timer,
            joypad: self.joypad,
            bios,
            reg_ie: self.reg_ie,
            reg_if: self.reg_if,
        }
    }
}

/// A tick of the processor changes no byte of RAM and leaves the image,
/// the boot program and the interrupt enable register alone.
#[verifier::rlimit(50)]
pub proof fn tick_keeps_ram(bus: Bus)
    ensures
        bus.cpu_tick_spec().ram == bus.ram,
        bus.cpu_tick_spec().rom == bus.rom,
        bus.cpu_tick_spec().bios == bus.bios,
        bus.cpu_tick_spec().reg_ie == bus.reg_ie,
        bus.cpu_tick_spec().joypad == bus.joypad,
{
    reveal(Bus::cpu_tick_spec);
}

/// The bus keeps no byte for an address that a device owns: a write outside
/// work RAM, its echo and high RAM leaves the RAM of the bus as it was.
#[verifier::rlimit(50)]
pub proof fn device_writes_bypass_ram(bus: Bus, loc: u16, val: u8)
    requires
        !(0xC000 <= loc <= 0xFDFF) && !(0xFF80 <= loc <= 0xFFFE),
    ensures
        bus.write_spec(loc, val).ram == bus.ram,
{
    reveal(Bus::write_spec);
}

/// A write to RAM changes the byte written and nothing else on the bus.
#[verifier::rlimit(50)]
pub proof fn ram_writes_stay_in_ram(bus: Bus, loc: u16, val: u8)
    requires
        0xC000 <= loc <= 0xDFFF || 0xFF80 <= loc <= 0xFFFE,
    ensures
        bus.write_spec(loc, val) == bus.with_ram(loc as int, val),
        bus.write_spec(loc, val).read_spec(loc) == val,
{
    reveal(Bus::write_spec);
    reveal(Bus::read_spec);
}

proof fn setting_a_bit(data: u8, set: u8, asked: u8)
    by (bit_vector)
    requires
        set == 1 || set == 2 || set == 4 || set == 8 || set == 16,
        asked == 1 || asked == 2 || asked == 4 || asked == 8 || asked == 16,
    ensures
        (((data | set) & asked) > 0) == (set == asked || (data & asked) > 0),
{
}

proof fn clearing_a_bit(data: u8, cleared: u8, asked: u8)
    by (bit_vector)
    requires
        cleared == 1 || cleared == 2 || cleared == 4 || cleared == 8 || cleared == 16,
        asked == 1 || asked == 2 || asked == 4 || asked == 8 || asked == 16,
    ensures
        (((data & !cleared) & asked) > 0) == (cleared != asked && (data & asked) > 0),
{
}

/// The five interrupts have a bit each: requesting one sets its bit and
/// clearing one clears its bit, and the bits of the others stay as they are.
pub proof fn interrupt_bits_are_independent(reg: InterruptRegister, i: Interrupt, j: Interrupt)
    ensures
        reg.request_spec(i).has(j) == (i == j || reg.has(j)),
        reg.clear_spec(i).has(j) == (i != j && reg.has(j)),
{
    setting_a_bit(reg.data, i.mask(), j.mask());
    clearing_a_bit(reg.data, i.mask(), j.mask());
}

/// Work RAM and its echo are one memory: a byte written at an address of
/// `0xC000-0xDDFF` is read at the address `0x2000` above it, and a byte
/// written there is read at the address below.
#[verifier::rlimit(50)]
pub proof fn echo_mirrors_work_ram(bus: Bus, loc: u16, val: u8)
    requires
        0xC000 <= loc <= 0xDDFF,
    ensures
        bus.write_spec(loc, val).read_spec((loc + 0x2000) as u16) == val,
        bus.write_spec((loc + 0x2000) as u16, val).read_spec(loc) == val,
        bus.write_spec(loc, val) == bus.write_spec((loc + 0x2000) as u16, val),
        bus.read_spec(loc) == bus.read_spec((loc + 0x2000) as u16),
{
    reveal(Bus::read_spec);
    reveal(Bus::write_spec);
}

} // verus!
