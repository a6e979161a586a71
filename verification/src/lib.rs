//! Cycle-stepped emulation core of an 8-bit handheld console: CPU, memory bus,
//! cartridge mapper, timer, picture unit and audio unit, each with a
//! mathematical model that its executable code is proved against.

pub mod utils;
pub mod cpu_recievable;
pub mod timer;
pub mod cartridge;
pub mod ppu;
pub mod ppu_frame;
pub mod apu;
pub mod gameboy;
pub mod bus;
pub mod instruction;
pub mod alu;
pub mod debugger;
pub mod cpu;
pub mod timing;
