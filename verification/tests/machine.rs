use emulator::alu::{
    add_offset, add_words, alu_add, alu_and, alu_cp, alu_dec, alu_inc, alu_or, alu_sub, alu_xor,
    reset_bit, rotate_accumulator, set_bit, shift, test_bit, Flags, Shift,
};
use emulator::apu::channel1::Channel1;
use emulator::apu::channel4::Channel4;
use emulator::apu::envelope::{Envelope, EnvelopeState};
use emulator::apu::pattern::{pattern_to_u8, u8_to_pattern, wave_level, Pattern};
use emulator::apu::sweep::Sweep;
use emulator::apu::APU;
use emulator::bus::{Bus, InterruptRegister, Joypad};
use emulator::cartridge::Cartridge;
use emulator::cpu::{CpuError, Flag, Rotate, CPU};
use emulator::cpu_recievable::{
    new_recievables, none_recivables, CpuRecievable, Interrupt, Recievables,
};
use emulator::debugger::DebugOptions;
use emulator::gameboy::{
    Gameboy, GameboyBuilder, BUT_A, BUT_B, BUT_DOWN, BUT_LEFT, BUT_RIGHT, BUT_SELECT, BUT_START,
    BUT_UP,
};
use emulator::instruction::{
    decode, decode_extended, operand_size, register_from_data, to_signed, Instruction, JmpFlag,
    Jump, Location, Offset, Register16Loc, RegisterLoc,
};
use emulator::ppu::{DMAManager, Mode, PixelData, PixelFifo, PixelSrc, Sprite, LY, PPU};
use emulator::timer::Timer;
use emulator::utils::{
    is_add_carry, is_add_carry16, is_add_half_carry, is_add_half_carry16, is_subtract_carry,
    is_subtract_carry16, is_subtract_half_carry, is_subtract_half_carry16,
};

fn cpu_with_program(program: Vec<u8>) -> CPU {
    CPU::new(Bus::new(Cartridge::test(program)))
}

const NO_FLAGS: Flags = Flags { zero: false, subtract: false, half_carry: false, carry: false };

#[test]
fn opcode_without_instruction_is_reported() {
    for opcode in [0xD3u8, 0xDB, 0xDD, 0xE3, 0xE4, 0xEB, 0xEC, 0xED, 0xF4, 0xFC, 0xFD, 0x08, 0x10, 0x27]
    {
        let mut cpu = cpu_with_program(vec![0x00, opcode, 0x00]);
        assert_eq!(cpu.tick(), Ok(()));
        assert_eq!(cpu.tick(), Err(CpuError::UnimplementedInstruction { pc: 1, opcode }));
        assert_eq!(cpu.pc, 2);
        assert_eq!(cpu.cycles, 8);
    }
}

#[test]
fn every_other_opcode_decodes() {
    let without = [0xD3u8, 0xDB, 0xDD, 0xE3, 0xE4, 0xEB, 0xEC, 0xED, 0xF4, 0xFC, 0xFD, 0x08, 0x10, 0x27, 0xCB];
    for opcode in 0..=255u8 {
        assert_eq!(decode(opcode, 0x1234, 0x5678).is_none(), without.contains(&opcode));
    }
}

#[test]
fn decoding_follows_the_bit_fields() {
    assert_eq!(decode(0x00, 0, 0), Some(Instruction::Nop));
    assert_eq!(decode(0x76, 0, 0), Some(Instruction::Halt));
    assert_eq!(
        decode(0x41, 0, 0),
        Some(Instruction::Load(
            Location::Register(RegisterLoc::B),
            Location::Register(RegisterLoc::C)
        ))
    );
    assert_eq!(
        decode(0x7E, 0, 0),
        Some(Instruction::Load(
            Location::Register(RegisterLoc::A),
            Location::Register(RegisterLoc::MemHL)
        ))
    );
    assert_eq!(decode(0x86, 0, 0), Some(Instruction::Add(RegisterLoc::MemHL)));
    assert_eq!(decode(0xBF, 0, 0), Some(Instruction::Cp(RegisterLoc::A)));
    assert_eq!(decode(0xFE, 0x12AB, 0), Some(Instruction::CpImm(0xAB)));
    assert_eq!(
        decode(0x30, 0x00FE, 0),
        Some(Instruction::Jmp(Jump::Relative(-2), Some(JmpFlag::NoCarry)))
    );
    assert_eq!(decode(0x18, 0x007F, 0), Some(Instruction::Jmp(Jump::Relative(127), None)));
    assert_eq!(decode(0xE9, 0, 0xBEEF), Some(Instruction::Jmp(Jump::Absolute(0xBEEF), None)));
    assert_eq!(
        decode(0x31, 0xFFFE, 0),
        Some(Instruction::Load(Location::SP, Location::Immediate16(0xFFFE)))
    );
    assert_eq!(
        decode(0x21, 0x8000, 0),
        Some(Instruction::Load(
            Location::Register16(Register16Loc::HL),
            Location::Immediate16(0x8000)
        ))
    );
    assert_eq!(
        decode(0x32, 0, 0),
        Some(Instruction::Load(
            Location::Indirect(Offset::HLDec),
            Location::Register(RegisterLoc::A)
        ))
    );
    assert_eq!(
        decode(0x2A, 0, 0),
        Some(Instruction::Load(
            Location::Register(RegisterLoc::A),
            Location::Indirect(Offset::HLInc)
        ))
    );
    assert_eq!(decode(0xF1, 0, 0), Some(Instruction::Pop(Register16Loc::AF)));
    assert_eq!(decode(0x39, 0, 0), Some(Instruction::AddHL16(Register16Loc::SP)));
    assert_eq!(decode(0xFF, 0, 0), Some(Instruction::Rst(0x38)));
    assert_eq!(decode(0xCD, 0x0150, 0), Some(Instruction::Call(None, 0x0150)));
    assert_eq!(decode(0xDC, 0x0150, 0), Some(Instruction::Call(Some(JmpFlag::Carry), 0x0150)));
    assert_eq!(decode(0xF8, 0x0080, 0), Some(Instruction::Load(
        Location::Register16(Register16Loc::HL),
        Location::SPOffset(-128)
    )));
    assert_eq!(decode(0x37, 0, 0), Some(Instruction::Scf));
    assert_eq!(decode(0xF3, 0, 0), Some(Instruction::DI));
    assert_eq!(decode(0xFB, 0, 0), Some(Instruction::EI));
    assert_eq!(decode(0xD9, 0, 0), Some(Instruction::Reti));
    assert_eq!(decode_extended(0x00), Instruction::Rlc(RegisterLoc::B));
    assert_eq!(decode_extended(0x3F), Instruction::Srl(RegisterLoc::A));
    assert_eq!(decode_extended(0x7E), Instruction::Bit(7, RegisterLoc::MemHL));
    assert_eq!(decode_extended(0x87), Instruction::Res(0, RegisterLoc::A));
    assert_eq!(decode_extended(0xFD), Instruction::SetBit(7, RegisterLoc::L));
    assert_eq!(register_from_data(0xFE), RegisterLoc::MemHL);
    assert_eq!(to_signed(0x80), -128);
    assert_eq!(to_signed(0x7F), 127);
    assert_eq!(operand_size(0x00), 0);
    assert_eq!(operand_size(0x3E), 1);
    assert_eq!(operand_size(0xCB), 1);
    assert_eq!(operand_size(0xC3), 2);
    assert_eq!(operand_size(0xEA), 2);
    assert_eq!(operand_size(0xE2), 0);
    assert_eq!(operand_size(0xD3), 0);
}

#[test]
fn reference_arithmetic_on_given_values() {
    let sum = alu_add(0x3A, 0xC6, false);
    assert_eq!(sum.value, 0x00);
    assert_eq!(sum.flags, Flags { zero: true, subtract: false, half_carry: true, carry: true });
    let sum = alu_add(0xE1, 0x0F, true);
    assert_eq!(sum.value, 0xF1);
    assert_eq!(sum.flags, Flags { zero: false, subtract: false, half_carry: true, carry: false });
    let difference = alu_sub(0x3E, 0x0F, false);
    assert_eq!(difference.value, 0x2F);
    assert_eq!(
        difference.flags,
        Flags { zero: false, subtract: true, half_carry: true, carry: false }
    );
    let difference = alu_sub(0x3B, 0x4F, true);
    assert_eq!(difference.value, 0xEB);
    assert_eq!(
        difference.flags,
        Flags { zero: false, subtract: true, half_carry: true, carry: true }
    );
    let compared = alu_cp(0x3C, 0x3C);
    assert_eq!(compared.value, 0x3C);
    assert_eq!(compared.flags, Flags { zero: true, subtract: true, half_carry: false, carry: false });
    assert_eq!(alu_and(0x5A, 0x3F).value, 0x1A);
    assert!(alu_and(0x5A, 0x3F).flags.half_carry);
    assert_eq!(alu_or(0x5A, 0x0F).value, 0x5F);
    assert_eq!(alu_xor(0xFF, 0x0F).value, 0xF0);
    assert!(alu_xor(0xFF, 0xFF).flags.zero);
    let carry = Flags { carry: true, ..NO_FLAGS };
    assert_eq!(alu_inc(0xFF, carry).value, 0);
    assert_eq!(alu_inc(0xFF, carry).flags, Flags { zero: true, subtract: false, half_carry: true, carry: true });
    assert_eq!(alu_dec(0x00, NO_FLAGS).value, 0xFF);
    assert_eq!(alu_dec(0x00, NO_FLAGS).flags, Flags { zero: false, subtract: true, half_carry: true, carry: false });
    assert_eq!(add_words(0x8A23, 0x0605, NO_FLAGS), (0x9028, Flags { half_carry: true, ..NO_FLAGS }));
    assert_eq!(add_words(0xFFFF, 0x0001, carry).0, 0);
    assert_eq!(add_offset(0xFFF8, 2), (0xFFFA, NO_FLAGS));
    assert_eq!(add_offset(0x0001, -2).0, 0xFFFF);
    assert_eq!(add_offset(0x0001, -2).1, NO_FLAGS);
    assert_eq!(add_offset(0x00FF, -1), (0x00FE, Flags { half_carry: true, carry: true, ..NO_FLAGS }));
}

#[test]
fn rotates_and_shifts_on_given_values() {
    assert_eq!(shift(Shift::Rlc, 0x85, false).value, 0x0B);
    assert!(shift(Shift::Rlc, 0x85, false).flags.carry);
    assert_eq!(shift(Shift::Rrc, 0x01, false).value, 0x80);
    assert!(shift(Shift::Rrc, 0x01, false).flags.carry);
    assert_eq!(shift(Shift::Rl, 0x80, false).value, 0x00);
    assert!(shift(Shift::Rl, 0x80, false).flags.zero);
    assert_eq!(shift(Shift::Rl, 0x11, true).value, 0x23);
    assert_eq!(shift(Shift::Rr, 0x01, false).value, 0x00);
    assert_eq!(shift(Shift::Rr, 0x8A, true).value, 0xC5);
    assert!(!shift(Shift::Rr, 0x8A, true).flags.carry);
    assert_eq!(shift(Shift::Sla, 0xFF, false).value, 0xFE);
    assert_eq!(shift(Shift::Sra, 0x8A, false).value, 0xC5);
    assert_eq!(shift(Shift::Swap, 0xF1, true).value, 0x1F);
    assert!(!shift(Shift::Swap, 0xF1, true).flags.carry);
    assert_eq!(shift(Shift::Srl, 0xFF, false).value, 0x7F);
    assert!(shift(Shift::Srl, 0xFF, false).flags.carry);
    let rotated = rotate_accumulator(Shift::Rl, 0x80, false);
    assert_eq!(rotated.value, 0);
    assert!(!rotated.flags.zero);
    assert!(rotated.flags.carry);
    assert!(test_bit(0x7F, 7, NO_FLAGS).zero);
    assert!(!test_bit(0x80, 7, NO_FLAGS).zero);
    assert!(test_bit(0x80, 7, NO_FLAGS).half_carry);
    assert_eq!(set_bit(0x00, 7), 0x80);
    assert_eq!(reset_bit(0xFF, 0), 0xFE);
    assert_eq!(Flags { zero: true, subtract: false, half_carry: true, carry: false }.to_byte(), 0xA0);
    assert_eq!(Flags::from_byte(0x5F), Flags { zero: false, subtract: true, half_carry: false, carry: true });
}

#[test]
fn carries_and_borrows() {
    assert!(is_add_half_carry(0x0F, 0x01));
    assert!(!is_add_half_carry(0xF0, 0x10));
    assert!(is_add_carry(0xFF, 0x01));
    assert!(!is_add_carry(0xFE, 0x01));
    assert!(is_add_half_carry16(0x0FFF, 0x0001));
    assert!(!is_add_half_carry16(0x00FF, 0x0001));
    assert!(is_add_carry16(0xFFFF, 0x0001));
    assert!(!is_add_carry16(0xFFFE, 0x0001));
    assert!(is_subtract_half_carry(0x10, 0x01));
    assert!(!is_subtract_half_carry(0x1F, 0x0F));
    assert!(is_subtract_carry(0x00, 0x01));
    assert!(!is_subtract_carry(0x01, 0x01));
    assert!(is_subtract_half_carry16(0x1000, 0x0001));
    assert!(!is_subtract_half_carry16(0x1FFF, 0x0FFF));
    assert!(is_subtract_carry16(0x0000, 0x0001));
    assert!(!is_subtract_carry16(0x0001, 0x0001));
}

#[test]
fn loads_between_registers_and_memory() {
    let mut cpu = cpu_with_program(vec![
        0x21, 0x00, 0xC0, // LD HL, 0xC000
        0x36, 0x5A, // LD (HL), 0x5A
        0x2A, // LD A, (HL+)
        0x47, // LD B, A
        0x70, // LD (HL), B
        0x3A, // LD A, (HL-)
        0xEA, 0x10, 0xC0, // LD (0xC010), A
        0x0E, 0x80, // LD C, 0x80
        0xE2, // LD (C), A
        0xF0, 0x80, // LD A, (0xFF80)
        0x31, 0xF0, 0xFF, // LD SP, 0xFFF0
        0xF8, 0x10, // LD HL, SP+0x10
        0xF9, // LD SP, HL
        0x01, 0x34, 0x12, // LD BC, 0x1234
        0x02, // LD (BC), A
    ]);
    cpu.tick().unwrap();
    assert_eq!(cpu.hl(), 0xC000);
    assert_eq!(cpu.cycles, 12);
    cpu.tick().unwrap();
    assert_eq!(cpu.bus.read(0xC000), 0x5A);
    assert_eq!(cpu.cycles, 24);
    cpu.tick().unwrap();
    assert_eq!(cpu.a(), 0x5A);
    assert_eq!(cpu.hl(), 0xC001);
    assert_eq!(cpu.cycles, 32);
    cpu.tick().unwrap();
    assert_eq!(cpu.b(), 0x5A);
    cpu.tick().unwrap();
    assert_eq!(cpu.bus.read(0xC001), 0x5A);
    cpu.tick().unwrap();
    assert_eq!(cpu.hl(), 0xC000);
    cpu.tick().unwrap();
    assert_eq!(cpu.bus.read(0xC010), 0x5A);
    cpu.tick().unwrap();
    cpu.tick().unwrap();
    assert_eq!(cpu.bus.read(0xFF80), 0x5A);
    cpu.set_a(0);
    cpu.tick().unwrap();
    assert_eq!(cpu.a(), 0x5A);
    cpu.tick().unwrap();
    assert_eq!(cpu.sp, 0xFFF0);
    let before = cpu.cycles;
    cpu.tick().unwrap();
    assert_eq!(cpu.hl(), 0x0000);
    assert_eq!(cpu.cycles, before + 12);
    assert!(cpu.get_flag(Flag::Carry));
    assert!(!cpu.get_flag(Flag::HalfCarry));
    assert!(!cpu.get_flag(Flag::Zero));
    let before = cpu.cycles;
    cpu.tick().unwrap();
    assert_eq!(cpu.sp, 0x0000);
    assert_eq!(cpu.cycles, before + 8);
    cpu.tick().unwrap();
    assert_eq!(cpu.bc(), 0x1234);
    cpu.tick().unwrap();
    assert_eq!(cpu.bus.read(0x1234), 0x49);
}

#[test]
fn words_step_and_jumps_are_relative_to_the_next_instruction() {
    let mut cpu = cpu_with_program(vec![
        0x03, // INC BC
        0x1B, // DEC DE
        0x18, 0x02, // JR +2
        0x00, 0x00, //
        0x20, 0xFE, // JR NZ, -2
        0x37, // SCF
        0x3F, // CCF
        0x07, // RLCA
    ]);
    cpu.set_bc(0xFFFF);
    cpu.tick().unwrap();
    assert_eq!(cpu.bc(), 0x0000);
    assert_eq!(cpu.cycles, 8);
    cpu.tick().unwrap();
    assert_eq!(cpu.de(), 0xFFFF);
    assert_eq!(cpu.f(), 0);
    cpu.tick().unwrap();
    assert_eq!(cpu.pc, 6);
    assert_eq!(cpu.cycles, 28);
    cpu.tick().unwrap();
    assert_eq!(cpu.pc, 6);
    assert_eq!(cpu.cycles, 40);
    cpu.set_flag(Flag::Zero, true);
    cpu.tick().unwrap();
    assert_eq!(cpu.pc, 8);
    assert_eq!(cpu.cycles, 48);
    cpu.set_flag(Flag::HalfCarry, true);
    cpu.tick().unwrap();
    assert_eq!(cpu.f(), 0x90);
    cpu.tick().unwrap();
    assert_eq!(cpu.f(), 0x80);
    cpu.set_a(0x80);
    cpu.tick().unwrap();
    assert_eq!(cpu.a(), 0x01);
    assert_eq!(cpu.f(), 0x10);
    cpu.rotate_register(RegisterLoc::A, Rotate::Right, false);
    assert_eq!(cpu.a(), 0x80);
    cpu.rotate_register(RegisterLoc::A, Rotate::Left, true);
    assert_eq!(cpu.a(), 0x01);
    assert!(cpu.get_flag(Flag::Carry));
}

#[test]
fn interrupts_are_served_after_the_instruction_behind_their_enabling() {
    let mut cpu = cpu_with_program(vec![0xFB, 0x00, 0x00, 0x00]);
    cpu.sp = 0xFFFE;
    cpu.bus.reg_ie.data = 0x05;
    cpu.bus.reg_if.data = 0x05;
    cpu.tick().unwrap();
    assert_eq!(cpu.ime, 0);
    assert_eq!(cpu.pc, 1);
    cpu.tick().unwrap();
    assert_eq!(cpu.pc, 2);
    assert_eq!(cpu.cycles, 8);
    cpu.tick().unwrap();
    assert_eq!(cpu.pc, 0x0040);
    assert_eq!(cpu.sp, 0xFFFC);
    assert_eq!(cpu.bus.stack_pop(0xFFFD), 0x00);
    assert_eq!(cpu.bus.stack_pop(0xFFFC), 0x02);
    assert_eq!(cpu.bus.reg_if.data & 0x1D, 0x04);
    assert_eq!(cpu.ime, 0);
    assert_eq!(cpu.cycles, 28);
    assert_eq!(cpu.pending_interrupt(), Some(Interrupt::Timer));
    cpu.tick().unwrap();
    assert_eq!(cpu.pc, 0x0041);
    assert_eq!(cpu.bus.reg_if.data & 0x1D, 0x04);
}

#[test]
fn return_from_interrupt_enables_interrupts() {
    let mut cpu = cpu_with_program(vec![0xD9, 0xF3, 0xFB, 0xF3, 0x00]);
    cpu.sp = 0xFFFC;
    cpu.bus.stack_push(0xFFFC, 0x01);
    cpu.bus.stack_push(0xFFFD, 0x00);
    cpu.tick().unwrap();
    assert_eq!(cpu.pc, 1);
    assert_eq!(cpu.sp, 0xFFFE);
    assert_eq!(cpu.ime, 1);
    assert_eq!(cpu.cycles, 16);
    cpu.tick().unwrap();
    assert_eq!(cpu.ime, 0);
    cpu.tick().unwrap();
    cpu.tick().unwrap();
    cpu.tick().unwrap();
    assert_eq!(cpu.ime, 0);
}

#[test]
fn halt_waits_for_an_enabled_request() {
    let mut cpu = cpu_with_program(vec![0x76, 0x3C]);
    cpu.tick().unwrap();
    assert!(cpu.halted);
    assert_eq!(cpu.cycles, 4);
    for _ in 0..3 {
        cpu.tick().unwrap();
    }
    assert!(cpu.halted);
    assert_eq!(cpu.pc, 1);
    assert_eq!(cpu.cycles, 16);
    cpu.bus.reg_if.data = 0x04;
    cpu.tick().unwrap();
    assert!(cpu.halted);
    cpu.bus.reg_ie.data = 0x04;
    cpu.tick().unwrap();
    assert!(!cpu.halted);
    assert_eq!(cpu.a(), 1);
    assert_eq!(cpu.pc, 2);
}

#[test]
fn timer_counts_at_the_chosen_rate() {
    let mut timer = Timer::new();
    timer.write(0xFF07, 0b101);
    timer.write(0xFF06, 0xAB);
    for _ in 0..15 {
        assert!(!timer.tick());
    }
    assert_eq!(timer.read(0xFF05), 0);
    assert!(!timer.tick());
    assert_eq!(timer.read(0xFF05), 1);
    timer.write(0xFF05, 0xFF);
    for _ in 0..15 {
        assert!(!timer.tick());
    }
    assert!(timer.tick());
    assert_eq!(timer.read(0xFF05), 0xAB);
    for _ in 0..(256 - 32) {
        timer.tick();
    }
    assert_eq!(timer.read(0xFF04), 1);
    timer.write(0xFF04, 0x77);
    assert_eq!(timer.read(0xFF04), 0);
    assert_eq!(timer.read(0xFF06), 0xAB);
    assert_eq!(timer.read(0xFF07), 0b101);
    let mut stopped = Timer::new();
    stopped.write(0xFF07, 0b001);
    for _ in 0..1024 {
        assert!(!stopped.tick());
    }
    assert_eq!(stopped.tima, 0);
    assert_eq!(stopped.div, 4);
    let mut slow = Timer::new();
    slow.write(0xFF07, 0b100);
    for _ in 0..1024 {
        slow.tick();
    }
    assert_eq!(slow.tima, 1);
}

#[test]
fn timer_overflow_requests_its_interrupt_on_the_bus() {
    let mut bus = Bus::new(Cartridge::test(vec![]));
    bus.write(0xFF07, 0b101);
    bus.write(0xFF05, 0xFF);
    for _ in 0..15 {
        bus.cpu_tick();
    }
    assert_eq!(bus.read(0xFF0F) & 0x04, 0);
    bus.cpu_tick();
    assert_eq!(bus.read(0xFF0F) & 0x04, 0x04);
    assert!(bus.reg_if.get_timer());
    assert!(bus.reg_if.has_interrupts());
    assert!(!bus.reg_if.get_vblank());
}

#[test]
fn vertical_blank_requests_its_interrupt_on_the_bus() {
    let mut bus = Bus::new(Cartridge::test(vec![]));
    for _ in 0..(144 * 228 - 1) {
        bus.cpu_tick();
    }
    assert_eq!(bus.read(0xFF0F) & 1, 0);
    assert_eq!(bus.read(0xFF44), 143);
    bus.cpu_tick();
    assert_eq!(bus.read(0xFF0F) & 1, 1);
    assert_eq!(bus.read(0xFF44), 144);
    assert_eq!(bus.read(0xFF41) & 3, 1);
}

#[test]
fn status_interrupt_is_requested_on_the_compared_line() {
    let mut ppu = PPU::new();
    ppu.write_reg(0xFF45, 2);
    ppu.registers[1] |= 0x04;
    let mut requests = 0;
    for _ in 0..(456 * 4) {
        let line = ppu.registers[LY];
        if ppu.tick().lcd_stat {
            requests += 1;
            assert_eq!(line, 2);
        } else {
            assert_eq!(ppu.read_reg(0xFF41) & 0x04, 0);
        }
    }
    assert_eq!(requests, 456);
    let mut bus = Bus::new(Cartridge::test(vec![]));
    bus.cpu_tick();
    assert!(bus.reg_if.get_lcdstat());
}

#[test]
fn copy_into_the_sprite_table_moves_160_bytes() {
    let mut bus = Bus::new(Cartridge::test(vec![]));
    for i in 0..160u16 {
        bus.write(0xC000 + i, i as u8);
    }
    bus.write(0xFF46, 0xC0);
    assert_eq!(bus.read(0xFF46), 0xC0);
    assert_eq!(bus.ppu.dma, DMAManager { start_location: 0xC0, progress: Some(0) });
    for _ in 0..80 {
        bus.cpu_tick();
    }
    assert_eq!(bus.ppu.oam_ram[0], Sprite { pos_y: 0, pos_x: 1, tile: 2, flags: 3 });
    assert_eq!(bus.ppu.oam_ram[19], Sprite { pos_y: 76, pos_x: 77, tile: 78, flags: 79 });
    assert_eq!(bus.ppu.oam_ram[20], Sprite::new());
    for _ in 0..80 {
        bus.cpu_tick();
    }
    assert_eq!(bus.ppu.oam_ram[39], Sprite { pos_y: 156, pos_x: 157, tile: 158, flags: 159 });
    assert_eq!(bus.ppu.dma.progress, None);
    bus.write(0xC000, 0xEE);
    bus.cpu_tick();
    assert_eq!(bus.ppu.dma.progress, None);
    assert_eq!(bus.ppu.oam_ram[0].pos_y, 0);
    let mut dma = DMAManager::new();
    assert_eq!(dma.next(), None);
    dma.start_transfer(0x12);
    assert_eq!(dma.next(), Some((0x1200, 0xFE00)));
    assert_eq!(dma.next(), Some((0x1201, 0xFE01)));
}

#[test]
fn sprite_table_is_closed_during_search_and_transfer() {
    let mut ppu = PPU::new();
    ppu.writeOAM(0xFE05, 0x42);
    assert_eq!(ppu.readOAM(0xFE05), 0x42);
    assert_eq!(ppu.oam_ram[1].pos_x, 0x42);
    ppu.set_mode(Mode::OAM);
    assert_eq!(ppu.readOAM(0xFE05), 0xFF);
    ppu.writeOAM(0xFE05, 0x11);
    ppu.set_mode(Mode::VRAM);
    assert_eq!(ppu.readOAM(0xFE05), 0xFF);
    ppu.writeOAM(0xFE05, 0x11);
    ppu.write(0x8123, 0x99);
    assert_eq!(ppu.read(0x8123), 0x99);
    ppu.set_mode(Mode::HBlank);
    assert_eq!(ppu.readOAM(0xFE05), 0x42);
    ppu.store_oam(7, 0x08);
    assert_eq!(ppu.readOAM(0xFE07), 0x08);
    assert_eq!(ppu.oam_ram[1].priority(), 1);
    assert!(!ppu.oam_ram[1].is_x_flipped());
    assert_eq!(ppu.oam_ram[1].palette(), PixelSrc::S1);
    ppu.store_oam(7, 0xF4);
    assert_eq!(ppu.oam_ram[1].priority(), 0);
    assert!(ppu.oam_ram[1].is_x_flipped());
    assert!(ppu.oam_ram[1].is_y_flipped());
    assert_eq!(ppu.oam_ram[1].palette(), PixelSrc::S2);
}

#[test]
fn picture_registers_keep_what_software_cannot_write() {
    let mut ppu = PPU::new();
    ppu.set_mode(Mode::VRAM);
    ppu.write_reg(0xFF41, 0xF8);
    assert_eq!(ppu.read_reg(0xFF41), 0xFB);
    assert_eq!(ppu.get_mode(), Mode::VRAM);
    ppu.set_mode(Mode::HBlank);
    ppu.registers[LY] = 77;
    ppu.write_reg(0xFF44, 3);
    assert_eq!(ppu.read_reg(0xFF44), 77);
    ppu.write_reg(0xFF42, 0x12);
    ppu.write_reg(0xFF4B, 0x34);
    assert_eq!(ppu.read_reg(0xFF42), 0x12);
    assert_eq!(ppu.read_reg(0xFF4B), 0x34);
    assert_eq!(ppu.get_effective_y(), 77 + 0x12);
    assert_eq!(ppu.tilemap_loc(0), 0x1800);
    assert_eq!(ppu.tilemap_loc(8), 0x1C00);
    assert_eq!(ppu.sprite_tile_loc(3), 48);
}

#[test]
fn sprites_are_laid_over_the_background() {
    let mut ppu = PPU::new();
    ppu.registers[7] = 0b00000000;
    ppu.registers[8] = 0b11100100;
    ppu.registers[9] = 0b01010101;
    for i in 0..16 {
        ppu.vram[16 + i] = 0xFF;
    }
    ppu.store_oam(0, 16);
    ppu.store_oam(1, 24);
    ppu.store_oam(2, 1);
    ppu.store_oam(3, 0x00);
    ppu.store_oam(4, 16);
    ppu.store_oam(5, 0);
    ppu.store_oam(8, 17);
    ppu.store_oam(9, 104);
    ppu.store_oam(10, 1);
    ppu.store_oam(11, 0x04);
    for _ in 0..456 {
        ppu.tick();
    }
    assert_eq!(ppu.registers[LY], 1);
    ppu.registers[LY] = 0;
    for _ in 0..456 {
        ppu.tick();
    }
    assert_eq!(ppu.active_sprites[0], Some(0));
    assert_eq!(ppu.active_sprites[1], None);
    for x in 0..15 {
        assert_eq!(ppu.screen[x], 3, "column {}", x);
    }
    for x in 15..160 {
        assert_eq!(ppu.screen[x], 0, "column {}", x);
    }
    for _ in 0..456 {
        ppu.tick();
    }
    assert_eq!(ppu.active_sprites[0], Some(0));
    assert_eq!(ppu.active_sprites[1], Some(2));
    for x in 0..15 {
        assert_eq!(ppu.screen[160 + x], 3, "column {}", x);
    }
    for x in 80..95 {
        assert_eq!(ppu.screen[160 + x], 1, "column {}", x);
    }
    assert_eq!(ppu.screen[160 + 79], 0);
    assert_eq!(ppu.screen[160 + 95], 0);
    let canvas = ppu.get_canvas();
    assert_eq!(canvas[0], 0xFF0F380F);
    assert_eq!(canvas[159], 0xFF0FBC9C);
    ppu.screen[1] = 1;
    ppu.screen[2] = 2;
    let canvas = ppu.get_canvas();
    assert_eq!(canvas[1], 0xFF0FAC8B);
    assert_eq!(canvas[2], 0xFF306230);
    assert_eq!(ppu.get_screen()[0], 3);
}

#[test]
fn window_switches_the_tile_map_and_empties_the_queue() {
    let mut ppu = PPU::new();
    ppu.registers[7] = 0b11100100;
    ppu.registers[0] = 0b0111_0000;
    ppu.registers[0xA] = 0;
    ppu.registers[0xB] = 80;
    for i in 0..16 {
        ppu.vram[16 + i] = if i % 2 == 0 { 0xFF } else { 0x00 };
        ppu.vram[32 + i] = if i % 2 == 0 { 0x00 } else { 0xFF };
    }
    for i in 0..(32 * 32) {
        ppu.vram[0x1800 + i] = 1;
        ppu.vram[0x1C00 + i] = 2;
    }
    let mut transfer = 0;
    for _ in 0..456 {
        ppu.tick();
    }
    for _ in 0..456 {
        if ppu.get_mode() == Mode::VRAM {
            transfer += 1;
        }
        ppu.tick();
    }
    assert_eq!(ppu.registers[LY], 2);
    for x in 0..80 {
        assert_eq!(ppu.screen[160 + x], 1, "column {}", x);
    }
    for x in 80..160 {
        assert_eq!(ppu.screen[160 + x], 2, "column {}", x);
    }
    assert!(transfer > 176);
    assert!(transfer < 376);
}

#[test]
fn pixel_queue_is_first_in_first_out() {
    let mut fifo = PixelFifo::new();
    for round in 0..5u8 {
        for i in 0..10u8 {
            fifo.push(PixelData { value: (round + i) % 4, src: PixelSrc::BG });
        }
        fifo.paint(0, PixelData { value: 0, src: PixelSrc::S1 });
        fifo.paint(1, PixelData { value: 3, src: PixelSrc::S1 });
        fifo.paint(12, PixelData { value: 3, src: PixelSrc::S1 });
        assert_eq!(fifo.len, 10);
        assert_eq!(fifo.pop(), PixelData { value: round % 4, src: PixelSrc::BG });
        assert_eq!(fifo.pop(), PixelData { value: 3, src: PixelSrc::S1 });
        for i in 2..10u8 {
            assert_eq!(fifo.pop(), PixelData { value: (round + i) % 4, src: PixelSrc::BG });
        }
        assert_eq!(fifo.len, 0);
    }
    fifo.push(PixelData { value: 1, src: PixelSrc::BG });
    fifo.clear();
    assert_eq!(fifo.len, 0);
}

#[test]
fn joypad_shows_the_selected_buttons() {
    let mut joypad = Joypad::new();
    joypad.update_joypad(BUT_A | BUT_DOWN);
    assert_eq!(joypad.pins & 0x0F, 0b0110);
    joypad.write(0b0001_0000);
    assert_eq!(joypad.pins, 0b0001_1110);
    joypad.write(0b0010_0000);
    assert_eq!(joypad.pins, 0b0010_0111);
    joypad.write(0b0011_0000);
    assert_eq!(joypad.pins, 0b0011_1111);
    joypad.write(0b0000_0000);
    joypad.update_joypad(BUT_START | BUT_SELECT | BUT_B | BUT_UP | BUT_LEFT | BUT_RIGHT);
    assert_eq!(joypad.pins, 0b0000_0000);
    joypad.update_joypad(0);
    assert_eq!(joypad.pins, 0b0000_1111);
    joypad.set_action(true);
    joypad.set_direction(true);
    assert_eq!(joypad.pins, 0b0011_1111);
    joypad.set_down_start(true);
    joypad.set_up_select(true);
    joypad.set_left_b(true);
    joypad.set_right_a(true);
    assert_eq!(joypad.pins, 0b0011_0000);
}

#[test]
fn buttons_reach_the_joypad_register() {
    let mut cart = vec![0u8; 0x150];
    cart[0x100] = 0x00;
    let mut gameboy = GameboyBuilder::new().load_rom(Cartridge::from_data(cart).unwrap()).build();
    assert_eq!(gameboy.cpu.pc, 0x0100);
    assert_eq!(gameboy.cpu.sp, 0xFFFE);
    assert_eq!(gameboy.cpu.af(), 0x01B0);
    assert_eq!(gameboy.cpu.bc(), 0x0013);
    assert_eq!(gameboy.cpu.de(), 0x00D8);
    assert_eq!(gameboy.cpu.hl(), 0x014D);
    gameboy.button_down(BUT_RIGHT);
    gameboy.button_down(BUT_A);
    assert_eq!(gameboy.buttons_pressed, BUT_RIGHT | BUT_A);
    assert_eq!(gameboy.cpu.bus.read(0xFF00), 0b0000_1110);
    gameboy.button_up(BUT_RIGHT);
    gameboy.button_up(BUT_A);
    assert_eq!(gameboy.buttons_pressed, 0);
    assert_eq!(gameboy.cpu.bus.read(0xFF00), 0b0000_1111);
    assert_eq!(gameboy.tick(), Ok(()));
    assert_eq!(gameboy.cpu.pc, 0x0101);
    assert_eq!(gameboy.get_screen().len(), 160 * 144);
    assert_eq!(gameboy.get_canvas()[0], 0xFF0FBC9C);
    assert_eq!(gameboy.get_audio_buffer().len(), 4096);
    assert!(!gameboy.get_audio_buffer_status());
    gameboy.set_audio_buffer_status(true);
    assert!(gameboy.get_audio_buffer_status());
    gameboy.debug_break();
    assert!(gameboy.cpu.debug_options.debug_step);
    gameboy.cpu.debug_options.watch_points = vec![0xFF00, 0x0100, 0xC000];
    assert_eq!(gameboy.watched(), vec![0x0F, 0x00, 0x00]);
    let mut options = DebugOptions::default();
    assert!(options.debug_print);
    assert!(!options.debug_step);
    options.break_points.push(0x0150);
    gameboy.set_debug_options(options);
    assert_eq!(gameboy.cpu.debug_options.break_points, vec![0x0150]);
}

#[test]
fn boot_program_shadows_the_image_until_switched_off() {
    let mut image = vec![0x11u8; 0x200];
    image[0x147] = 0;
    image[0x148] = 0;
    let builder = GameboyBuilder::new()
        .load_rom(Cartridge::from_data(image).unwrap())
        .load_bios(vec![0xAAu8; 0x100]);
    let mut gameboy = builder.build();
    assert_eq!(gameboy.cpu.pc, 0);
    assert_eq!(gameboy.cpu.bus.read(0x0000), 0xAA);
    assert_eq!(gameboy.cpu.bus.read(0x00FF), 0xAA);
    assert_eq!(gameboy.cpu.bus.read(0x0100), 0x11);
    gameboy.cpu.bus.write(0x0000, 0x55);
    assert_eq!(gameboy.cpu.bus.read(0x0000), 0xAA);
    gameboy.cpu.bus.write(0xFF50, 0x01);
    assert_eq!(gameboy.cpu.bus.read(0x0000), 0x11);
    assert_eq!(gameboy.cpu.bus.read(0x00FF), 0x11);
    gameboy.cpu.bus.write(0xFF50, 0x00);
    assert_eq!(gameboy.cpu.bus.read(0x0000), 0x11);
    let short = Bus::with_bios(Cartridge::test(vec![0x22u8; 0x100]), vec![0xBB; 4]);
    assert_eq!(short.read(3), 0xBB);
    assert_eq!(short.read(4), 0x22);
}

#[test]
fn every_address_has_one_owner() {
    let mut bus = Bus::new(Cartridge::test(vec![0x31u8; 0x8000]));
    assert_eq!(bus.read(0x7FFF), 0x31);
    bus.write(0x8000, 1);
    assert_eq!(bus.ppu.vram[0], 1);
    assert_eq!(bus.read(0x8000), 1);
    assert_eq!(bus.read(0xA000), 0x49);
    bus.write(0xFE00, 2);
    assert_eq!(bus.ppu.oam_ram[0].pos_y, 2);
    bus.write(0xFEA0, 3);
    assert_eq!(bus.read(0xFEA0), 0x00);
    assert_eq!(bus.read(0xFEFF), 0x00);
    assert_eq!(bus.read(0xFF00), 0x0F);
    bus.write(0xFF06, 4);
    assert_eq!(bus.timer.tma, 4);
    bus.write(0xFF0F, 5);
    assert_eq!(bus.reg_if.data, 5);
    bus.write(0xFF30, 6);
    assert_eq!(bus.apu.channel3.wave_ram[0], 6);
    assert_eq!(bus.read(0xFF30), 6);
    bus.write(0xFF47, 7);
    assert_eq!(bus.ppu.registers[7], 7);
    bus.write(0xFF4F, 8);
    assert_eq!(bus.read(0xFF4F), 0);
    bus.write(0xFF01, 9);
    assert_eq!(bus.read(0xFF01), 0);
    bus.write(0xFF80, 10);
    assert_eq!(bus.ram[0xFF80], 10);
    bus.write(0xFFFE, 11);
    assert_eq!(bus.read(0xFFFE), 11);
    bus.write(0xFFFF, 0x1F);
    assert_eq!(bus.reg_ie.data, 0x1F);
    assert_eq!(bus.read(0xFFFF), 0x1F);
    let mut register = InterruptRegister { data: 0 };
    register.request(Interrupt::Joypad);
    assert!(register.get_joypad());
    register.request(Interrupt::Serial);
    assert!(register.get_serial());
    register.request(Interrupt::LCDStat);
    assert!(register.get_lcdstat());
    assert_eq!(register.data, 0x1A);
    register.acknowledge(Interrupt::Serial);
    assert_eq!(register.data, 0x12);
    assert_eq!(Interrupt::Joypad.handler(), 0x60);
    assert_eq!(Interrupt::VBlank.handler(), 0x40);
    assert_eq!(Interrupt::Timer.bit(), 0x04);
}

#[test]
fn sound_registers_read_back() {
    let mut apu = APU::new();
    apu.write(0xFF24, 0xFF);
    assert_eq!(apu.read(0xFF24), 0x07);
    apu.write(0xFF30, 0xAB);
    assert_eq!(apu.read(0xFF30), 0xAB);
    apu.write(0xFF26, 0xFF);
    assert_eq!(apu.read(0xFF26), 0x80);
    apu.write(0xFF24, 0xAD);
    assert_eq!(apu.read(0xFF24), 0x8D);
    apu.write(0xFF24, 0xA5);
    assert_eq!(apu.read(0xFF24), 0x85);
    assert!(apu.left_terminal_vin);
    assert_eq!(apu.left_terminal_volume, 2);
    assert!(!apu.right_terminal_vin);
    assert_eq!(apu.right_terminal_volume, 5);
    apu.write(0xFF25, 0x3C);
    assert_eq!(apu.read(0xFF25), 0x3C);
    apu.write(0xFF12, 0xF3);
    apu.write(0xFF14, 0x80);
    apu.write(0xFF1A, 0x80);
    apu.write(0xFF1E, 0x80);
    apu.write(0xFF21, 0xF3);
    apu.write(0xFF23, 0x80);
    assert_eq!(apu.read(0xFF26), 0x8D);
    assert_eq!(apu.read(0xFF15), 0xFF);
    assert_eq!(apu.read(0xFF1F), 0xFF);
    apu.write(0xFF1F, 0x12);
    apu.write(0xFF15, 0x12);
    assert_eq!(apu.read(0xFF1F), 0xFF);
    assert_eq!(apu.read(0xFF3F), 0x00);
}

#[test]
fn mixed_samples_fill_the_buffer_and_mark_it_full() {
    let mut apu = APU::new();
    apu.write(0xFF26, 0x80);
    apu.write(0xFF25, 0x88);
    for _ in 0..94 {
        apu.tick();
    }
    assert_eq!(apu.audio_buffer_position, 0);
    apu.tick();
    assert_eq!(apu.audio_buffer_position, 2);
    assert_eq!(apu.get_audio_buffer()[0], -15);
    assert_eq!(apu.get_audio_buffer()[1], -15);
    for _ in 0..(95 * 2046) {
        apu.tick();
    }
    assert_eq!(apu.audio_buffer_position, 4094);
    assert!(!apu.get_audio_buffer_status());
    for _ in 0..95 {
        apu.tick();
    }
    assert_eq!(apu.audio_buffer_position, 0);
    assert!(apu.get_audio_buffer_status());
    apu.set_audio_buffer_status(false);
    assert!(!apu.get_audio_buffer_status());
    assert_eq!(apu.frame_sequencer, ((95 * 2048) / 8192) as u8 % 8);
}

#[test]
fn envelope_sweep_and_noise_step() {
    let mut envelope = Envelope::new();
    envelope.write(0x5A);
    assert_eq!(envelope, Envelope { initial_volume: 5, direction: 1, period: 2 });
    assert_eq!(envelope.read(), 0x5A);
    let start = EnvelopeState { volume: 5, counter: 0, running: true };
    let first = envelope.step(start, true);
    assert_eq!(first, EnvelopeState { volume: 6, counter: 2, running: true });
    let second = envelope.step(first, false);
    assert_eq!(second, EnvelopeState { volume: 6, counter: 1, running: true });
    let top = envelope.step(EnvelopeState { volume: 14, counter: 0, running: true }, true);
    assert_eq!(top, EnvelopeState { volume: 15, counter: 2, running: false });
    let frozen = envelope.step(EnvelopeState { volume: 15, counter: 0, running: false }, true);
    assert_eq!(frozen, EnvelopeState { volume: 15, counter: 2, running: false });
    envelope.write(0x50);
    let none = envelope.step(EnvelopeState { volume: 5, counter: 0, running: true }, true);
    assert_eq!(none, EnvelopeState { volume: 5, counter: 8, running: true });
    let free = envelope.step(EnvelopeState { volume: 5, counter: 0, running: true }, false);
    assert_eq!(free, EnvelopeState { volume: 4, counter: 8, running: true });

    let mut sweep = Sweep::new();
    sweep.write(0x9B);
    assert_eq!(sweep, Sweep { period: 1, direction: 1, shift: 3 });
    assert_eq!(sweep.read(), 0x1B);

    let mut channel = Channel1::new();
    channel.write(0xFF10, 0x11);
    channel.write(0xFF12, 0xF0);
    channel.write(0xFF13, 0x00);
    channel.write(0xFF14, 0x84);
    assert!(channel.enabled);
    assert_eq!(channel.sweep_shadow, 0x400);
    assert_eq!(channel.frequency_count, (2048 - 0x400) * 4);
    channel.sweep_step();
    assert_eq!(channel.frequency_load, 0x400);
    channel.sweep_step();
    assert_eq!(channel.frequency_load, 0x600);
    assert_eq!(channel.sweep_shadow, 0x600);
    assert!(!channel.enabled);
    let mut high = Channel1::new();
    high.write(0xFF10, 0x11);
    high.write(0xFF13, 0xFF);
    high.write(0xFF14, 0x87);
    assert!(!high.enabled);
    assert!(high.status);

    let mut noise = Channel4::new();
    noise.write(0xFF21, 0xF0);
    noise.write(0xFF22, 0x21);
    noise.write(0xFF23, 0x80);
    assert_eq!(noise.lfsr, 0x7FFF);
    assert_eq!(noise.frequency_count, 64);
    assert_eq!(noise.volume, 15);
    for _ in 0..64 {
        noise.tick();
    }
    assert_eq!(noise.lfsr, 0x7FFF);
    noise.tick();
    assert_eq!(noise.lfsr, 0x3FFF);
    assert_eq!(noise.output_volume, 0);
    assert_eq!(noise.waveform_output(), 0);
    assert_eq!(noise.dac_output(), -15);
    noise.lfsr = 0x0002;
    assert_eq!(noise.volume_output(), 15);
    assert_eq!(noise.dac_output(), 15);
    noise.write(0xFF22, 0xF7);
    noise.frequency_count = 0;
    noise.tick();
    assert_eq!(noise.frequency_count, 112 * 32768);
    assert_eq!(u8_to_pattern(4), None);
    assert_eq!(u8_to_pattern(2), Some(Pattern::Half));
    assert_eq!(pattern_to_u8(Pattern::Quarter), 1);
    let levels: Vec<u8> = (0..8).map(|i| wave_level(Pattern::Half, i)).collect();
    assert_eq!(levels, vec![1, 0, 0, 0, 0, 1, 1, 1]);
    let levels: Vec<u8> = (0..8).map(|i| wave_level(Pattern::ThreeQuarters, i)).collect();
    assert_eq!(levels, vec![0, 1, 1, 1, 1, 1, 1, 0]);
}

#[test]
fn events_are_received_in_the_order_sent() {
    assert!(none_recivables().is_none());
    let mut queue = new_recievables();
    assert_eq!(queue.recieve().is_none(), true);
    queue.send(CpuRecievable::SendInterrupt(Interrupt::Timer));
    queue.send(CpuRecievable::Delay(1, Box::new(CpuRecievable::EnableInterrupts)));
    queue.send(CpuRecievable::EnableInterrupts);
    let copy = queue.serialized_data();
    assert_eq!(copy.len(), 3);
    assert!(matches!(copy[0], CpuRecievable::SendInterrupt(Interrupt::Timer)));
    assert!(matches!(queue.recieve(), Some(CpuRecievable::SendInterrupt(Interrupt::Timer))));
    match queue.recieve() {
        Some(CpuRecievable::Delay(1, inner)) => {
            assert!(matches!(*inner, CpuRecievable::EnableInterrupts))
        }
        _ => panic!("the delayed event comes second"),
    }
    assert!(matches!(queue.recieve(), Some(CpuRecievable::EnableInterrupts)));
    assert!(queue.recieve().is_none());
    let fresh = Recievables::new();
    assert_eq!(fresh.serialized_data().len(), 0);
}

#[test]
fn snapshot_brings_the_machine_back() {
    let mut gameboy: Gameboy = GameboyBuilder::new()
        .load_rom(Cartridge::test(vec![0x3C, 0x3C, 0x21, 0x00, 0xC0, 0x77, 0x3C]))
        .build();
    gameboy.cpu.pc = 0;
    gameboy.cpu.set_a(0);
    gameboy.tick().unwrap();
    let saved = gameboy.save();
    for _ in 0..4 {
        gameboy.tick().unwrap();
    }
    assert_eq!(gameboy.cpu.a(), 3);
    assert_eq!(gameboy.cpu.bus.read(0xC000), 2);
    gameboy.load(&saved);
    assert_eq!(gameboy.cpu.a(), 1);
    assert_eq!(gameboy.cpu.pc, 1);
    assert_eq!(gameboy.cpu.cycles, 4);
    assert_eq!(gameboy.cpu.bus.read(0xC000), 0);
    for _ in 0..4 {
        gameboy.tick().unwrap();
    }
    assert_eq!(gameboy.cpu.a(), 3);
    assert_eq!(gameboy.cpu.bus.read(0xC000), 2);
    let mut other = GameboyBuilder::new().load_rom(Cartridge::test(vec![])).build();
    other.button_down(BUT_B);
    other.set_state(gameboy);
    assert_eq!(other.cpu.a(), 3);
    assert_eq!(other.buttons_pressed, BUT_B);
}
