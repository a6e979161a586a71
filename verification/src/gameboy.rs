//! The console as its host sees it: built from an image, stepped one
//! instruction at a time, with buttons, screen, sound and snapshots.

use vstd::prelude::*;
use crate::bus::Bus;
use crate::cartridge::Cartridge;
use crate::cpu::{CpuError, SaveState, CPU};
use crate::debugger::DebugOptions;

verus! {

pub const BUT_START: u8 = 0b1;

pub const BUT_SELECT: u8 = 0b10;

pub const BUT_UP: u8 = 0b100;

pub const BUT_DOWN: u8 = 0b1000;

pub const BUT_LEFT: u8 = 0b10000;

pub const BUT_RIGHT: u8 = 0b100000;

pub const BUT_A: u8 = 0b1000000;

pub const BUT_B: u8 = 0b10000000;


/// Collects what a console is built from.
pub struct GameboyBuilder {
    pub rom: Option<Cartridge>,
    pub bios: Option<Vec<u8>>,
}

pub struct Gameboy {
    pub cpu: CPU,
    /// The buttons held down, one bit each.
    pub buttons_pressed: u8,
}

impl GameboyBuilder {
    /// The builder has a cartridge, and a valid one.
    pub open spec fn ready(self) -> bool {
        self.rom matches Some(rom) && rom.wf()
    }

    pub fn new() -> (r: Self)
        ensures
            r.rom is None,
            r.bios is None,
    {
        GameboyBuilder { rom: None, bios: None }
    }

    pub fn load_rom(self, rom: Cartridge) -> (r: Self)
        ensures
            r.rom == Some(rom),
            r.bios == self.bios,
    {
        let mut builder = self;
        builder.rom = Some(rom);
        builder
    }

    pub fn load_bios(self, b: Vec<u8>) -> (r: Self)
        ensures
            r.bios == Some(b),
            r.rom == self.rom,
    {
        let mut builder = self;
        builder.bios = Some(b);
        builder
    }

    /// Builds the console around copies of the cartridge and the boot
    /// program. With a boot program the processor starts at address 0 and
    /// runs it; without one it starts in the state the boot program would
    /// have left, at address `0x0100`.
    pub fn build(&self) -> (r: Gameboy)
        requires
            self.ready(),
        ensures
            r.wf(),
            r.buttons_pressed == 0,
            r.cpu.bus.rom.equiv(self.rom->0),
            crate::bus::same_bytes(r.cpu.bus.bios, self.bios),
            r.cpu.bus.is_initial(),
            self.bios is Some ==> r.cpu.at_rest(),
            self.bios is None ==> r.cpu.booted(),
    {
        let cartridge = self.rom.as_ref().unwrap().clone();
        match &self.bios {
            Some(bios) => Gameboy {
                cpu: CPU::with_bios(Bus::with_bios(cartridge, bios.clone())),
                buttons_pressed: 0,
            },
            None => Gameboy { cpu: CPU::post_bootrom(Bus::new(cartridge)), buttons_pressed: 0 },
        }
    }
}

impl Gameboy {
    /// What holds of a valid value: every field is in the range that the operations keep it in.
    pub open spec fn wf(self) -> bool {
        self.cpu.wf()
    }

    /// Whether the console is in a state that its own operations can have
    /// left it in.
    pub fn is_valid(&self) -> (r: bool)
        ensures
            r == self.wf(),
    {
        self.cpu.is_valid()
    }

    /// Takes over the machine of `new_state`; the buttons held stay as they are.
    pub fn set_state(&mut self, new_state: Gameboy)
        ensures
            *final(self) == (Gameboy { cpu: new_state.cpu, ..*old(self) }),
    {
        self.cpu = new_state.cpu;
    }

    /// One step of the processor, with every tick of it passed on to all devices.
    pub fn tick(&mut self) -> (r: Result<(), CpuError>)
        requires
            old(self).wf(),
        ensures
            final(self).wf(),
            *final(self) == (Gameboy { cpu: old(self).cpu.step_spec(), ..*old(self) }),
            r == old(self).cpu.step_result(),
    {
        self.cpu.tick()
    }

    pub fn get_screen(&self) -> (r: &[u8; 23040])
        ensures
            *r == *self.cpu.bus.ppu.screen,
    {
        self.cpu.get_screen()
    }

    pub fn get_canvas(&self) -> (canvas: Box<[u32; 23040]>)
        ensures
            forall|i: int|
                0 <= i < 23040 ==> canvas[i] == crate::ppu::shade_colour(
                    self.cpu.bus.ppu.screen[i],
                ),
    {
        self.cpu.get_canvas()
    }

    pub fn get_audio_buffer(&self) -> (r: &[i16; 4096])
        ensures
            *r == *self.cpu.bus.apu.audio_buffer,
    {
        self.cpu.get_audio_buffer()
    }

    pub fn get_audio_buffer_status(&self) -> (r: bool)
        ensures
            r == self.cpu.bus.apu.audio_buffer_full,
    {
        self.cpu.get_audio_buffer_status()
    }

    pub fn set_audio_buffer_status(&mut self, status: bool)
        ensures
            *final(self) == (Gameboy {
                cpu: CPU {
                    bus: Bus {
                        apu: crate::apu::APU { audio_buffer_full: status, ..old(self).cpu.bus.apu },
                        ..old(self).cpu.bus
                    },
                    ..old(self).cpu
                },
                ..*old(self)
            }),
            old(self).wf() ==> final(self).wf(),
    {
        self.cpu.set_audio_buffer_status(status);
    }

    pub fn set_debug_options(&mut self, b: DebugOptions)
        ensures
            *final(self) == (Gameboy {
                cpu: CPU { debug_options: b, ..old(self).cpu },
                ..*old(self)
            }),
    {
        self.cpu.set_debug_options(b)
    }

    /// The bytes at the watched addresses, in the order of the watch list: a
    /// host that compares them before and after a step sees whether the
    /// step changed a watched byte.
    pub fn watched(&self) -> (r: Vec<u8>)
        requires
            self.wf(),
        ensures
            r@.len() == self.cpu.debug_options.watch_points@.len(),
            forall|i: int|
                0 <= i < r@.len() ==> r@[i] == self.cpu.bus.read_spec(
                    self.cpu.debug_options.watch_points@[i],
                ),
    {
        let mut bytes: Vec<u8> = Vec::new();
        let mut i: usize = 0;
        while i < self.cpu.debug_options.watch_points.len()
            invariant
                self.wf(),
                i <= self.cpu.debug_options.watch_points@.len(),
                bytes@.len() == i,
                forall|j: int|
                    0 <= j < i ==> bytes@[j] == self.cpu.bus.read_spec(
                        self.cpu.debug_options.watch_points@[j],
                    ),
            decreases self.cpu.debug_options.watch_points@.len() - i,
        {
            bytes.push(self.cpu.bus.read(self.cpu.debug_options.watch_points[i]));
            i += 1;
        }
        bytes
    }

    /// Asks the debugger to stop after the next instruction.
    pub fn debug_break(&mut self)
        ensures
            *final(self) == (Gameboy {
                cpu: CPU {
                    debug_options: DebugOptions { debug_step: true, ..old(self).cpu.debug_options },
                    ..old(self).cpu
                },
                ..*old(self)
            }),
    {
        self.cpu.debug_options.debug_step = true;
    }

    /// A snapshot of the machine.
    pub fn save(&self) -> (r: SaveState)
        ensures
            r.cpu.equiv(self.cpu),
            self.wf() ==> r.cpu.wf(),
    {
        SaveState::create(&self.cpu)
    }

    /// Puts the machine back into the state of a snapshot.
    pub fn load(&mut self, save: &SaveState)
        ensures
            final(self).cpu.equiv(save.cpu),
            final(self).buttons_pressed == old(self).buttons_pressed,
            save.cpu.wf() ==> final(self).wf(),
    {
        self.cpu = save.load();
    }

    /// The buttons of `button` are held down from now on.
    pub fn button_down(&mut self, button: u8)
        requires
            old(self).wf(),
        ensures
            final(self).wf(),
            final(self).buttons_pressed == old(self).buttons_pressed | button,
            final(self).cpu == (CPU {
                bus: Bus {
                    joypad: old(self).cpu.bus.joypad.update_spec(old(self).buttons_pressed | button),
                    ..old(self).cpu.bus
                },
                ..old(self).cpu
            }),
    {
        self.buttons_pressed = self.buttons_pressed | button;
        self.cpu.update_joypad_register(self.buttons_pressed)
    }

    /// The buttons of `button` are released.
    pub fn button_up(&mut self, button: u8)
        requires
            old(self).wf(),
        ensures
            final(self).wf(),
            final(self).buttons_pressed == old(self).buttons_pressed & !button,
            final(self).cpu == (CPU {
                bus: Bus {
                    joypad: old(self).cpu.bus.joypad.update_spec(
                        old(self).buttons_pressed & !button,
                    ),
                    ..old(self).cpu.bus
                },
                ..old(self).cpu
            }),
    {
        self.buttons_pressed = self.buttons_pressed & !button;
        self.cpu.update_joypad_register(self.buttons_pressed)
    }
}

} // verus!
