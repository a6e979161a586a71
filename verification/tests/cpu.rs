use emulator::bus::Bus;
use emulator::cartridge::Cartridge;
use emulator::cpu::{Flag, CPU};
use emulator::instruction::{Register16Loc, RegisterLoc};

fn create_test_cpu(instruction_set: Vec<u8>) -> CPU {
    CPU::new(Bus::new(Cartridge::test(instruction_set)))
}

#[test]
fn test_getter_setter_register() {
    let mut test_cpu = create_test_cpu(vec![]);

    test_cpu.set_register16(Register16Loc::BC, 0x0B0C);
    test_cpu.set_register16(Register16Loc::DE, 0x0D0E);
    test_cpu.set_register16(Register16Loc::HL, 0x080C);
    test_cpu.set_register16(Register16Loc::AF, 0x0A00);

    assert_eq!(test_cpu.get_register(RegisterLoc::B), 0x0B);
    assert_eq!(test_cpu.get_register(RegisterLoc::C), 0x0C);
    assert_eq!(test_cpu.get_register(RegisterLoc::D), 0x0D);
    assert_eq!(test_cpu.get_register(RegisterLoc::E), 0x0E);
    assert_eq!(test_cpu.get_register(RegisterLoc::H), 0x08);
    assert_eq!(test_cpu.get_register(RegisterLoc::L), 0x0C);
    assert_eq!(test_cpu.get_register(RegisterLoc::A), 0x0A);
    assert_eq!(test_cpu.get_flag(Flag::Zero), false);
    assert_eq!(test_cpu.get_flag(Flag::AddSub), false);
    assert_eq!(test_cpu.get_flag(Flag::Carry), false);
    assert_eq!(test_cpu.get_flag(Flag::HalfCarry), false);
}

#[test]
fn test_push() {
    let rom_data = vec![0xC5,0xD5,0xE5,0xF5];
    let mut test_cpu = create_test_cpu(rom_data);

    test_cpu.set_register16(Register16Loc::BC, 0x0B0C);
    test_cpu.set_register16(Register16Loc::DE, 0x0D0E);
    test_cpu.set_register16(Register16Loc::HL, 0x080C);
    test_cpu.set_register16(Register16Loc::AF, 0x0A00);
    test_cpu.sp = 0xFFFE;

    test_cpu.tick().unwrap();
    test_cpu.tick().unwrap();
    test_cpu.tick().unwrap();
    test_cpu.tick().unwrap();

    assert_eq!(test_cpu.bus.stack_pop(0xFFFD), 0x0B);
    assert_eq!(test_cpu.bus.stack_pop(0xFFFC), 0x0C);

    assert_eq!(test_cpu.bus.stack_pop(0xFFFB), 0x0D);
    assert_eq!(test_cpu.bus.stack_pop(0xFFFA), 0x0E);

    assert_eq!(test_cpu.bus.stack_pop(0xFFF9), 0x08);
    assert_eq!(test_cpu.bus.stack_pop(0xFFF8), 0x0C);

    assert_eq!(test_cpu.bus.stack_pop(0xFFF7), 0x0A);
    assert_eq!(test_cpu.bus.stack_pop(0xFFF6), 0x00);
    assert_eq!(test_cpu.sp, 0xFFF6);
    assert_eq!(test_cpu.cycles, 16*4);

}

#[test]
fn test_pop() {
    let rom_data = vec![0xC1, 0xD1, 0xE1, 0xF1];
    let mut test_cpu = create_test_cpu(rom_data);

    test_cpu.set_register16(Register16Loc::BC, 0xFFFF);
    test_cpu.set_register16(Register16Loc::DE, 0xFFFF);
    test_cpu.set_register16(Register16Loc::HL, 0xFFFF);
    test_cpu.set_register16(Register16Loc::AF, 0xFFFF);
    test_cpu.sp = 0xFFF6;

    test_cpu.tick().unwrap();
    test_cpu.tick().unwrap();
    test_cpu.tick().unwrap();
    test_cpu.tick().unwrap();

    assert_eq!(test_cpu.sp, 0xFFFE);
    assert_eq!(test_cpu.get_register16(Register16Loc::BC), 0x0000);
    assert_eq!(test_cpu.get_register16(Register16Loc::DE), 0x0000);
    assert_eq!(test_cpu.get_register16(Register16Loc::HL), 0x0000);
    assert_eq!(test_cpu.get_register16(Register16Loc::AF), 0x0000);
    assert_eq!(test_cpu.cycles, 12*4);
}

#[test]
fn test_ret() {
   let rom_data = vec![0xC9];
   let mut test_cpu = create_test_cpu(rom_data);

   test_cpu.sp = 0xFFFC;

   test_cpu.tick().unwrap();

   assert_eq!(test_cpu.sp, 0xFFFE);
   assert_eq!(test_cpu.pc, 0x0000);
   assert_eq!(test_cpu.cycles, 16);

}

#[test]
fn test_ret_z() {
    let rom_data = vec![0xC8, 0xC8];
    let mut test_cpu = create_test_cpu(rom_data);

    test_cpu.set_flag(Flag::Zero, false);
    test_cpu.sp = 0xFFFC;

    test_cpu.tick().unwrap();
    assert_eq!(test_cpu.sp, 0xFFFC);
    assert_eq!(test_cpu.cycles, 8);

    test_cpu.set_flag(Flag::Zero, true);

    test_cpu.tick().unwrap();
    assert_eq!(test_cpu.sp, 0xFFFE);
    assert_eq!(test_cpu.pc, 0x0000);
    assert_eq!(test_cpu.cycles, 28);
}

#[test]
fn test_ret_nz() {
    let rom_data = vec![0xC0, 0xC0];
    let mut test_cpu = create_test_cpu(rom_data);

    test_cpu.set_flag(Flag::Zero, true);
    test_cpu.sp = 0xFFFC;

    test_cpu.tick().unwrap();
    assert_eq!(test_cpu.sp, 0xFFFC);
    assert_eq!(test_cpu.cycles, 8);

    test_cpu.set_flag(Flag::Zero, false);

    test_cpu.tick().unwrap();
    assert_eq!(test_cpu.sp, 0xFFFE);
    assert_eq!(test_cpu.pc, 0x0000);
    assert_eq!(test_cpu.cycles, 28);


}

#[test]
fn test_ret_c() {
    let rom_data = vec![0xD8, 0xD8];
    let mut test_cpu = create_test_cpu(rom_data);

    test_cpu.set_flag(Flag::Carry, false);
    test_cpu.sp = 0xFFFC;

    test_cpu.tick().unwrap();
    assert_eq!(test_cpu.sp, 0xFFFC);
    assert_eq!(test_cpu.cycles, 8);

    test_cpu.set_flag(Flag::Carry, true);

    test_cpu.tick().unwrap();
    assert_eq!(test_cpu.sp, 0xFFFE);
    assert_eq!(test_cpu.pc, 0x0000);
    assert_eq!(test_cpu.cycles, 28);
}

#[test]
fn test_ret_nc() {
    let rom_data = vec![0xD0, 0xD0];
    let mut test_cpu = create_test_cpu(rom_data);

    test_cpu.set_flag(Flag::Carry, true);
    test_cpu.sp = 0xFFFC;

    test_cpu.tick().unwrap();
    assert_eq!(test_cpu.sp, 0xFFFC);
    assert_eq!(test_cpu.cycles, 8);

    test_cpu.set_flag(Flag::Carry, false);

    test_cpu.tick().unwrap();
    assert_eq!(test_cpu.sp, 0xFFFE);
    assert_eq!(test_cpu.pc, 0x0000);
    assert_eq!(test_cpu.cycles, 28);
}

#[test]
fn test_reti() {
    // unimplemented!();
}

#[test]
fn test_add() {
    let rom_data = vec![0x80,0x80,0x80];
    let mut test_cpu = create_test_cpu(rom_data);

    test_cpu.set_register(RegisterLoc::A, 0x00);
    test_cpu.set_register(RegisterLoc::B, 0x0F);
    test_cpu.tick().unwrap();

    assert_eq!(test_cpu.get_register(RegisterLoc::A), 0x0F);
    assert_eq!(test_cpu.get_flag(Flag::Zero), false);
    assert_eq!(test_cpu.get_flag(Flag::AddSub), false);
    assert_eq!(test_cpu.get_flag(Flag::HalfCarry), false);
    assert_eq!(test_cpu.get_flag(Flag::Carry), false);

    test_cpu.set_register(RegisterLoc::B, 0xF0);
    test_cpu.tick().unwrap();

    assert_eq!(test_cpu.get_register(RegisterLoc::A), 0xFF);
    assert_eq!(test_cpu.get_flag(Flag::Zero), false);
    assert_eq!(test_cpu.get_flag(Flag::AddSub), false);
    assert_eq!(test_cpu.get_flag(Flag::HalfCarry), false);
    assert_eq!(test_cpu.get_flag(Flag::Carry), false);

    test_cpu.set_register(RegisterLoc::B, 0x01);
    test_cpu.tick().unwrap();

    assert_eq!(test_cpu.get_register(RegisterLoc::A), 0x00);
    assert_eq!(test_cpu.get_flag(Flag::Zero), true);
    assert_eq!(test_cpu.get_flag(Flag::AddSub), false);
    assert_eq!(test_cpu.get_flag(Flag::HalfCarry), true);
    assert_eq!(test_cpu.get_flag(Flag::Carry), true);
}

#[test]
fn test_addimm() {
    let rom_data = vec![0xC6,0x0F,0xC6,0xF0,0xC6,0x01];
    let mut test_cpu = create_test_cpu(rom_data);

    test_cpu.set_register(RegisterLoc::A, 0x00);
    test_cpu.tick().unwrap();

    assert_eq!(test_cpu.cycles, 8);
    assert_eq!(test_cpu.get_register(RegisterLoc::A), 0x0F);
    assert_eq!(test_cpu.get_flag(Flag::Zero), false);
    assert_eq!(test_cpu.get_flag(Flag::AddSub), false);
    assert_eq!(test_cpu.get_flag(Flag::HalfCarry), false);
    assert_eq!(test_cpu.get_flag(Flag::Carry), false);

    test_cpu.tick().unwrap();
    assert_eq!(test_cpu.cycles, 16);
    assert_eq!(test_cpu.get_register(RegisterLoc::A), 0xFF);
    assert_eq!(test_cpu.get_flag(Flag::Zero), false);
    assert_eq!(test_cpu.get_flag(Flag::AddSub), false);
    assert_eq!(test_cpu.get_flag(Flag::HalfCarry), false);
    assert_eq!(test_cpu.get_flag(Flag::Carry), false);

    test_cpu.tick().unwrap();
    assert_eq!(test_cpu.cycles, 24);
    assert_eq!(test_cpu.get_register(RegisterLoc::A), 0x00);
    assert_eq!(test_cpu.get_flag(Flag::Zero), true);
    assert_eq!(test_cpu.get_flag(Flag::AddSub), false);
    assert_eq!(test_cpu.get_flag(Flag::HalfCarry), true);
    assert_eq!(test_cpu.get_flag(Flag::Carry), true);
}

#[test]
fn test_addsp() {
    let rom_data = vec![0xE8,0x02,0xE8,0x06,0xE8,0x0F];
    let mut test_cpu = create_test_cpu(rom_data);

    test_cpu.set_register16(Register16Loc::SP, 0xFFF8);
    test_cpu.tick().unwrap();

    assert_eq!(test_cpu.cycles, 16);
    assert_eq!(test_cpu.get_register16(Register16Loc::SP), 0xFFFA);
    assert_eq!(test_cpu.get_flag(Flag::Zero), false);
    assert_eq!(test_cpu.get_flag(Flag::AddSub), false);
    assert_eq!(test_cpu.get_flag(Flag::HalfCarry), false);
    assert_eq!(test_cpu.get_flag(Flag::Carry), false);

    test_cpu.tick().unwrap();
    assert_eq!(test_cpu.cycles, 32);
    assert_eq!(test_cpu.get_register16(Register16Loc::SP), 0x00);
    assert_eq!(test_cpu.get_flag(Flag::Zero), false);
    assert_eq!(test_cpu.get_flag(Flag::AddSub), false);
    assert_eq!(test_cpu.get_flag(Flag::HalfCarry), true);
    assert_eq!(test_cpu.get_flag(Flag::Carry), true);

    test_cpu.tick().unwrap();
    assert_eq!(test_cpu.cycles, 48);
    assert_eq!(test_cpu.get_register16(Register16Loc::SP), 0x0F);
    assert_eq!(test_cpu.get_flag(Flag::Zero), false);
    assert_eq!(test_cpu.get_flag(Flag::AddSub), false);
    assert_eq!(test_cpu.get_flag(Flag::HalfCarry), false);
    assert_eq!(test_cpu.get_flag(Flag::Carry), false);
}

#[test]
fn test_adc() {
    let rom_data = vec![0x88,0x88,0x88, 0x88];
    let mut test_cpu = create_test_cpu(rom_data);

    test_cpu.set_register(RegisterLoc::A, 0x00);
    test_cpu.set_register(RegisterLoc::B, 0x0F);
    test_cpu.set_flag(Flag::Carry, false);
    test_cpu.tick().unwrap();

    // Carry is zero. Result should be 0x0F
    assert_eq!(test_cpu.get_register(RegisterLoc::A), 0x0F);
    assert_eq!(test_cpu.get_flag(Flag::Zero), false);
    assert_eq!(test_cpu.get_flag(Flag::AddSub), false);
    assert_eq!(test_cpu.get_flag(Flag::HalfCarry), false);
    assert_eq!(test_cpu.get_flag(Flag::Carry), false);

    test_cpu.set_register(RegisterLoc::B, 0xF0);
    test_cpu.tick().unwrap();

    // Carry is zero. Result should be 0xFF
    assert_eq!(test_cpu.get_register(RegisterLoc::A), 0xFF);
    assert_eq!(test_cpu.get_flag(Flag::Zero), false);
    assert_eq!(test_cpu.get_flag(Flag::AddSub), false);
    assert_eq!(test_cpu.get_flag(Flag::HalfCarry), false);
    assert_eq!(test_cpu.get_flag(Flag::Carry), false);

    test_cpu.set_register(RegisterLoc::B, 0x01);
    test_cpu.tick().unwrap();

    // Carry is 0. Result should be 0x00
    assert_eq!(test_cpu.get_register(RegisterLoc::A), 0x00);
    assert_eq!(test_cpu.get_flag(Flag::Zero), true);
    assert_eq!(test_cpu.get_flag(Flag::AddSub), false);
    assert_eq!(test_cpu.get_flag(Flag::HalfCarry), true);
    assert_eq!(test_cpu.get_flag(Flag::Carry), true);

    test_cpu.set_register(RegisterLoc::B, 0x01);
    test_cpu.tick().unwrap();

    // Carry is 1. Result should be 0x02
    assert_eq!(test_cpu.get_register(RegisterLoc::A), 0x02);
    assert_eq!(test_cpu.get_flag(Flag::Zero), false);
    assert_eq!(test_cpu.get_flag(Flag::AddSub), false);
    assert_eq!(test_cpu.get_flag(Flag::HalfCarry), false);
    assert_eq!(test_cpu.get_flag(Flag::Carry), false);
}

#[test]
fn test_adcimm() {
    let rom_data = vec![0xCE,0x0F,0xCE,0xF0,0xCE,0x01,0xCE,0x01];
    let mut test_cpu = create_test_cpu(rom_data);

    test_cpu.set_register(RegisterLoc::A, 0x00);
    test_cpu.tick().unwrap();

    assert_eq!(test_cpu.cycles, 8);
    assert_eq!(test_cpu.get_register(RegisterLoc::A), 0x0F);
    assert_eq!(test_cpu.get_flag(Flag::Zero), false);
    assert_eq!(test_cpu.get_flag(Flag::AddSub), false);
    assert_eq!(test_cpu.get_flag(Flag::HalfCarry), false);
    assert_eq!(test_cpu.get_flag(Flag::Carry), false);

    test_cpu.tick().unwrap();
    assert_eq!(test_cpu.cycles, 16);
    assert_eq!(test_cpu.get_register(RegisterLoc::A), 0xFF);
    assert_eq!(test_cpu.get_flag(Flag::Zero), false);
    assert_eq!(test_cpu.get_flag(Flag::AddSub), false);
    assert_eq!(test_cpu.get_flag(Flag::HalfCarry), false);
    assert_eq!(test_cpu.get_flag(Flag::Carry), false);
    test_cpu.tick().unwrap();
    assert_eq!(test_cpu.cycles, 24);
    assert_eq!(test_cpu.get_register(RegisterLoc::A), 0x00);
    assert_eq!(test_cpu.get_flag(Flag::Zero), true);
    assert_eq!(test_cpu.get_flag(Flag::AddSub), false);
    assert_eq!(test_cpu.get_flag(Flag::HalfCarry), true);
    assert_eq!(test_cpu.get_flag(Flag::Carry), true);

    test_cpu.tick().unwrap();
    assert_eq!(test_cpu.cycles, 32);
    assert_eq!(test_cpu.get_register(RegisterLoc::A), 0x02);
    assert_eq!(test_cpu.get_flag(Flag::Zero), false);
    assert_eq!(test_cpu.get_flag(Flag::AddSub), false);
    assert_eq!(test_cpu.get_flag(Flag::HalfCarry), false);
    assert_eq!(test_cpu.get_flag(Flag::Carry), false);
}

#[test]
fn test_addhl16() {
    let rom_data = vec![0x09,0x29];
    let mut test_cpu = create_test_cpu(rom_data);

    test_cpu.set_register16(Register16Loc::HL, 0x8A23);
    test_cpu.set_register16(Register16Loc::BC, 0x0605);
    test_cpu.tick().unwrap();

    assert_eq!(test_cpu.cycles, 8);
    assert_eq!(test_cpu.get_register16(Register16Loc::HL), 0x9028);
    assert_eq!(test_cpu.get_flag(Flag::AddSub), false);
    assert_eq!(test_cpu.get_flag(Flag::HalfCarry), true);
    assert_eq!(test_cpu.get_flag(Flag::Carry), false);

    test_cpu.set_register16(Register16Loc::HL, 0x8A23);
    test_cpu.tick().unwrap();

    assert_eq!(test_cpu.cycles, 16);
    assert_eq!(test_cpu.get_register16(Register16Loc::HL), 0x1446);
    assert_eq!(test_cpu.get_flag(Flag::AddSub), false);
    assert_eq!(test_cpu.get_flag(Flag::HalfCarry), true);
    assert_eq!(test_cpu.get_flag(Flag::Carry), true);
}

#[test]
fn test_sub() {
    let rom_data = vec![0x90,0x90,0x90];
    let mut test_cpu = create_test_cpu(rom_data);

    test_cpu.set_register(RegisterLoc::A, 0x10);
    test_cpu.set_register(RegisterLoc::B, 0x01);
    test_cpu.tick().unwrap();

    assert_eq!(test_cpu.get_register(RegisterLoc::A), 0x0F);
    assert_eq!(test_cpu.get_flag(Flag::Zero), false);
    assert_eq!(test_cpu.get_flag(Flag::AddSub), true);
    assert_eq!(test_cpu.get_flag(Flag::HalfCarry), true);
    assert_eq!(test_cpu.get_flag(Flag::Carry), false);

    test_cpu.set_register(RegisterLoc::B, 0x0F);
    test_cpu.tick().unwrap();

    assert_eq!(test_cpu.get_register(RegisterLoc::A), 0x00);
    assert_eq!(test_cpu.get_flag(Flag::Zero), true);
    assert_eq!(test_cpu.get_flag(Flag::AddSub), true);
    assert_eq!(test_cpu.get_flag(Flag::HalfCarry), false);
    assert_eq!(test_cpu.get_flag(Flag::Carry), false);

    test_cpu.set_register(RegisterLoc::B, 0x01);
    test_cpu.tick().unwrap();

    assert_eq!(test_cpu.get_register(RegisterLoc::A), 0xFF);
    assert_eq!(test_cpu.get_flag(Flag::Zero), false);
    assert_eq!(test_cpu.get_flag(Flag::AddSub), true);
    assert_eq!(test_cpu.get_flag(Flag::HalfCarry), true);
    assert_eq!(test_cpu.get_flag(Flag::Carry), true);
}

#[test]
fn test_subimm() {
    let rom_data = vec![0xD6,0x01,0xD6,0x0F,0xD6,0x01];
    let mut test_cpu = create_test_cpu(rom_data);

    test_cpu.set_register(RegisterLoc::A, 0x10);
    test_cpu.tick().unwrap();

    assert_eq!(test_cpu.cycles, 8);
    assert_eq!(test_cpu.get_register(RegisterLoc::A), 0x0F);
    assert_eq!(test_cpu.get_flag(Flag::Zero), false);
    assert_eq!(test_cpu.get_flag(Flag::AddSub), true);
    assert_eq!(test_cpu.get_flag(Flag::HalfCarry), true);
    assert_eq!(test_cpu.get_flag(Flag::Carry), false);

    test_cpu.set_register(RegisterLoc::B, 0x0F);
    test_cpu.tick().unwrap();

    assert_eq!(test_cpu.cycles, 16);
    assert_eq!(test_cpu.get_register(RegisterLoc::A), 0x00);
    assert_eq!(test_cpu.get_flag(Flag::Zero), true);
    assert_eq!(test_cpu.get_flag(Flag::AddSub), true);
    assert_eq!(test_cpu.get_flag(Flag::HalfCarry), false);
    assert_eq!(test_cpu.get_flag(Flag::Carry), false);

    test_cpu.set_register(RegisterLoc::B, 0x01);
    test_cpu.tick().unwrap();

    assert_eq!(test_cpu.cycles, 24);
    assert_eq!(test_cpu.get_register(RegisterLoc::A), 0xFF);
    assert_eq!(test_cpu.get_flag(Flag::Zero), false);
    assert_eq!(test_cpu.get_flag(Flag::AddSub), true);
    assert_eq!(test_cpu.get_flag(Flag::HalfCarry), true);
    assert_eq!(test_cpu.get_flag(Flag::Carry), true);
}

#[test]
fn test_sbc() {
    let rom_data = vec![0x98,0x98,0x98,0x98];
    let mut test_cpu = create_test_cpu(rom_data);

    test_cpu.set_register(RegisterLoc::A, 0x10);
    test_cpu.set_register(RegisterLoc::B, 0x01);
    test_cpu.set_flag(Flag::Carry, false);
    test_cpu.tick().unwrap();

    // Carry is 0. Result should be 0x0F
    assert_eq!(test_cpu.get_register(RegisterLoc::A), 0x0F);
    assert_eq!(test_cpu.get_flag(Flag::Zero), false);
    assert_eq!(test_cpu.get_flag(Flag::AddSub), true);
    assert_eq!(test_cpu.get_flag(Flag::HalfCarry), true);
    assert_eq!(test_cpu.get_flag(Flag::Carry), false);

    test_cpu.set_register(RegisterLoc::B, 0x0F);
    test_cpu.tick().unwrap();

    // Carry is 0. Result should be 0x00
    assert_eq!(test_cpu.get_register(RegisterLoc::A), 0x00);
    assert_eq!(test_cpu.get_flag(Flag::Zero), true);
    assert_eq!(test_cpu.get_flag(Flag::AddSub), true);
    assert_eq!(test_cpu.get_flag(Flag::HalfCarry), false);
    assert_eq!(test_cpu.get_flag(Flag::Carry), false);

    test_cpu.set_register(RegisterLoc::B, 0x01);
    test_cpu.tick().unwrap();

    // Carry is 0. Result should be 0xFF
    assert_eq!(test_cpu.get_register(RegisterLoc::A), 0xFF);
    assert_eq!(test_cpu.get_flag(Flag::Zero), false);
    assert_eq!(test_cpu.get_flag(Flag::AddSub), true);
    assert_eq!(test_cpu.get_flag(Flag::HalfCarry), true);
    assert_eq!(test_cpu.get_flag(Flag::Carry), true);

    test_cpu.set_register(RegisterLoc::B, 0x01);
    test_cpu.tick().unwrap();

    // Carry is 1. Result should be 0xFD
    assert_eq!(test_cpu.get_register(RegisterLoc::A), 0xFD);
    assert_eq!(test_cpu.get_flag(Flag::Zero), false);
    assert_eq!(test_cpu.get_flag(Flag::AddSub), true);
    assert_eq!(test_cpu.get_flag(Flag::HalfCarry), false);
    assert_eq!(test_cpu.get_flag(Flag::Carry), false);
}

#[test]
fn test_sbcimm() {
    let rom_data = vec![0xDE,0x01,0xDE,0x0F,0xDE,0x01,0xDE,0x01];
    let mut test_cpu = create_test_cpu(rom_data);

    test_cpu.set_register(RegisterLoc::A, 0x10);
    test_cpu.set_flag(Flag::Carry, false);
    test_cpu.tick().unwrap();

    // Carry is 0. Result should be 0x0F
    assert_eq!(test_cpu.cycles, 8);
    assert_eq!(test_cpu.get_register(RegisterLoc::A), 0x0F);
    assert_eq!(test_cpu.get_flag(Flag::Zero), false);
    assert_eq!(test_cpu.get_flag(Flag::AddSub), true);
    assert_eq!(test_cpu.get_flag(Flag::HalfCarry), true);
    assert_eq!(test_cpu.get_flag(Flag::Carry), false);

    test_cpu.tick().unwrap();

    // Carry is 0. Result should be 0x00
    assert_eq!(test_cpu.cycles, 16);
    assert_eq!(test_cpu.get_register(RegisterLoc::A), 0x00);
    assert_eq!(test_cpu.get_flag(Flag::Zero), true);
    assert_eq!(test_cpu.get_flag(Flag::AddSub), true);
    assert_eq!(test_cpu.get_flag(Flag::HalfCarry), false);
    assert_eq!(test_cpu.get_flag(Flag::Carry), false);

    test_cpu.tick().unwrap();

    // Carry is 0. Result should be 0xFF
    assert_eq!(test_cpu.cycles, 24);
    assert_eq!(test_cpu.get_register(RegisterLoc::A), 0xFF);
    assert_eq!(test_cpu.get_flag(Flag::Zero), false);
    assert_eq!(test_cpu.get_flag(Flag::AddSub), true);
    assert_eq!(test_cpu.get_flag(Flag::HalfCarry), true);
    assert_eq!(test_cpu.get_flag(Flag::Carry), true);

    test_cpu.tick().unwrap();

    // Carry is 1. Result should be 0xFD
    assert_eq!(test_cpu.cycles, 32);
    assert_eq!(test_cpu.get_register(RegisterLoc::A), 0xFD);
    assert_eq!(test_cpu.get_flag(Flag::Zero), false);
    assert_eq!(test_cpu.get_flag(Flag::AddSub), true);
    assert_eq!(test_cpu.get_flag(Flag::HalfCarry), false);
    assert_eq!(test_cpu.get_flag(Flag::Carry), false);
}

#[test]
fn test_and() {
    let rom_data = vec![0xA0];
    let mut test_cpu = create_test_cpu(rom_data);

    test_cpu.set_register(RegisterLoc::A, 0x5A);
    test_cpu.set_register(RegisterLoc::B, 0x3F);
    test_cpu.tick().unwrap();

    assert_eq!(test_cpu.cycles, 4);
    assert_eq!(test_cpu.get_register(RegisterLoc::A), 0x1A);
    assert_eq!(test_cpu.get_flag(Flag::Zero), false);
    assert_eq!(test_cpu.get_flag(Flag::AddSub), false);
    assert_eq!(test_cpu.get_flag(Flag::HalfCarry), true);
    assert_eq!(test_cpu.get_flag(Flag::Carry), false);
}

#[test]
fn test_andimm() {
    let rom_data = vec![0xE6, 0x3F];
    let mut test_cpu = create_test_cpu(rom_data);

    test_cpu.set_register(RegisterLoc::A, 0x5A);
    test_cpu.tick().unwrap();

    assert_eq!(test_cpu.cycles, 8);
    assert_eq!(test_cpu.get_register(RegisterLoc::A), 0x1A);
    assert_eq!(test_cpu.get_flag(Flag::Zero), false);
    assert_eq!(test_cpu.get_flag(Flag::AddSub), false);
    assert_eq!(test_cpu.get_flag(Flag::HalfCarry), true);
    assert_eq!(test_cpu.get_flag(Flag::Carry), false);
}

#[test]
fn test_or() {
    let rom_data = vec![0xB0];
    let mut test_cpu = create_test_cpu(rom_data);

    test_cpu.set_register(RegisterLoc::A, 0x5A);
    test_cpu.set_register(RegisterLoc::B, 0x13);
    test_cpu.tick().unwrap();

    assert_eq!(test_cpu.cycles, 4);
    assert_eq!(test_cpu.get_register(RegisterLoc::A), 0x5B);
    assert_eq!(test_cpu.get_flag(Flag::Zero), false);

}

#[test]
fn test_orimm() {
    let rom_data = vec![0xF6,0x13];
    let mut test_cpu = create_test_cpu(rom_data);

    test_cpu.set_register(RegisterLoc::A, 0x5A);
    test_cpu.tick().unwrap();

    assert_eq!(test_cpu.cycles, 8);
    assert_eq!(test_cpu.get_register(RegisterLoc::A), 0x5B);
    assert_eq!(test_cpu.get_flag(Flag::Zero), false);
}

#[test]
fn test_xor() {
    let rom_data = vec![0xA8,0xA8];
    let mut test_cpu = create_test_cpu(rom_data);

    test_cpu.set_register(RegisterLoc::A, 0xFF);
    test_cpu.set_register(RegisterLoc::B, 0xFF);
    test_cpu.tick().unwrap();

    assert_eq!(test_cpu.cycles, 4);
    assert_eq!(test_cpu.get_register(RegisterLoc::A), 0x00);
    assert_eq!(test_cpu.get_flag(Flag::Zero), true);

    test_cpu.set_register(RegisterLoc::A, 0xFF);
    test_cpu.set_register(RegisterLoc::B, 0x13);
    test_cpu.tick().unwrap();

    assert_eq!(test_cpu.cycles, 8);
    assert_eq!(test_cpu.get_register(RegisterLoc::A), 0xEC);
    assert_eq!(test_cpu.get_flag(Flag::Zero), false);
}

#[test]
fn test_xorimm() {
    let rom_data = vec![0xEE,0xFF,0xEE,0x13];
    let mut test_cpu = create_test_cpu(rom_data);

    test_cpu.set_register(RegisterLoc::A, 0xFF);
    test_cpu.tick().unwrap();

    assert_eq!(test_cpu.cycles, 8);
    assert_eq!(test_cpu.get_register(RegisterLoc::A), 0x00);
    assert_eq!(test_cpu.get_flag(Flag::Zero), true);

    test_cpu.set_register(RegisterLoc::A, 0xFF);
    test_cpu.tick().unwrap();

    assert_eq!(test_cpu.cycles, 16);
    assert_eq!(test_cpu.get_register(RegisterLoc::A), 0xEC);
    assert_eq!(test_cpu.get_flag(Flag::Zero), false);
}

#[test]
fn test_cp() {
    let rom_data = vec![0xB8,0xB8,0xB8];
    let mut test_cpu = create_test_cpu(rom_data);

    test_cpu.set_register(RegisterLoc::A, 0x10);
    test_cpu.set_register(RegisterLoc::B, 0x01);
    test_cpu.set_flag(Flag::Carry, false);
    test_cpu.tick().unwrap();

    assert_eq!(test_cpu.get_flag(Flag::Zero), false);
    assert_eq!(test_cpu.get_flag(Flag::AddSub), true);
    assert_eq!(test_cpu.get_flag(Flag::HalfCarry), true);
    assert_eq!(test_cpu.get_flag(Flag::Carry), false);

    test_cpu.set_register(RegisterLoc::B, 0x10);
    test_cpu.tick().unwrap();

    assert_eq!(test_cpu.get_flag(Flag::Zero), true);
    assert_eq!(test_cpu.get_flag(Flag::AddSub), true);
    assert_eq!(test_cpu.get_flag(Flag::HalfCarry), false);
    assert_eq!(test_cpu.get_flag(Flag::Carry), false);

    test_cpu.set_register(RegisterLoc::B, 0x11);
    test_cpu.tick().unwrap();

    assert_eq!(test_cpu.get_flag(Flag::Zero), false);
    assert_eq!(test_cpu.get_flag(Flag::AddSub), true);
    assert_eq!(test_cpu.get_flag(Flag::HalfCarry), true);
    assert_eq!(test_cpu.get_flag(Flag::Carry), true);
}

#[test]
fn test_cpimm() {
    let rom_data = vec![0xFE,0x01,0xFE,0x10,0xFE,0x11];
    let mut test_cpu = create_test_cpu(rom_data);

    test_cpu.set_register(RegisterLoc::A, 0x10);
    test_cpu.set_flag(Flag::Carry, false);
    test_cpu.tick().unwrap();

    assert_eq!(test_cpu.cycles, 8);
    assert_eq!(test_cpu.get_flag(Flag::Zero), false);
    assert_eq!(test_cpu.get_flag(Flag::AddSub), true);
    assert_eq!(test_cpu.get_flag(Flag::HalfCarry), true);
    assert_eq!(test_cpu.get_flag(Flag::Carry), false);

    test_cpu.tick().unwrap();

    assert_eq!(test_cpu.cycles, 16);
    assert_eq!(test_cpu.get_flag(Flag::Zero), true);
    assert_eq!(test_cpu.get_flag(Flag::AddSub), true);
    assert_eq!(test_cpu.get_flag(Flag::HalfCarry), false);
    assert_eq!(test_cpu.get_flag(Flag::Carry), false);

    test_cpu.tick().unwrap();

    assert_eq!(test_cpu.cycles, 24);
    assert_eq!(test_cpu.get_flag(Flag::Zero), false);
    assert_eq!(test_cpu.get_flag(Flag::AddSub), true);
    assert_eq!(test_cpu.get_flag(Flag::HalfCarry), true);
    assert_eq!(test_cpu.get_flag(Flag::Carry), true);
}

#[test]
fn test_inc() {
    let rom_data = vec![0x04,0x0C,0x14];
    let mut test_cpu = create_test_cpu(rom_data);

    test_cpu.set_register(RegisterLoc::B, 0x0E);
    test_cpu.tick().unwrap();

    assert_eq!(test_cpu.get_register(RegisterLoc::B), 0x0F);
    assert_eq!(test_cpu.get_flag(Flag::Zero), false);
    assert_eq!(test_cpu.get_flag(Flag::AddSub), false);
    assert_eq!(test_cpu.get_flag(Flag::HalfCarry), false);

    test_cpu.set_register(RegisterLoc::C, 0x0F);
    test_cpu.tick().unwrap();

    assert_eq!(test_cpu.get_register(RegisterLoc::C), 0x10);
    assert_eq!(test_cpu.get_flag(Flag::Zero), false);
    assert_eq!(test_cpu.get_flag(Flag::AddSub), false);
    assert_eq!(test_cpu.get_flag(Flag::HalfCarry), true);

    test_cpu.set_register(RegisterLoc::D, 0xFF);
    test_cpu.tick().unwrap();

    assert_eq!(test_cpu.get_register(RegisterLoc::D), 0x00);
    assert_eq!(test_cpu.get_flag(Flag::Zero), true);
    assert_eq!(test_cpu.get_flag(Flag::AddSub), false);
    assert_eq!(test_cpu.get_flag(Flag::HalfCarry), true);
}

#[test]
fn test_dec() {
    let rom_data = vec![0x05,0x0D,0x15];
    let mut test_cpu = create_test_cpu(rom_data);

    test_cpu.set_register(RegisterLoc::B, 0x0F);
    test_cpu.tick().unwrap();

    assert_eq!(test_cpu.get_register(RegisterLoc::B), 0x0E);
    assert_eq!(test_cpu.get_flag(Flag::Zero), false);
    assert_eq!(test_cpu.get_flag(Flag::AddSub), true);
    assert_eq!(test_cpu.get_flag(Flag::HalfCarry), false);

    test_cpu.set_register(RegisterLoc::C, 0x10);
    test_cpu.tick().unwrap();

    assert_eq!(test_cpu.get_register(RegisterLoc::C), 0x0F);
    assert_eq!(test_cpu.get_flag(Flag::Zero), false);
    assert_eq!(test_cpu.get_flag(Flag::AddSub), true);
    assert_eq!(test_cpu.get_flag(Flag::HalfCarry), true);

    test_cpu.set_register(RegisterLoc::D, 0x01);
    test_cpu.tick().unwrap();

    assert_eq!(test_cpu.get_register(RegisterLoc::D), 0x00);
    assert_eq!(test_cpu.get_flag(Flag::Zero), true);
    assert_eq!(test_cpu.get_flag(Flag::AddSub), true);
    assert_eq!(test_cpu.get_flag(Flag::HalfCarry), false);
}

#[test]
fn test_call() {
    // XOR A
    // CALL 0x0005
    // XOR C
    // XOR B
    // RET
    // This should execute XOR A, then XOR B, then XOR C in that order
   let rom_data = vec![0xAF, 0xCD, 0x05, 0x00, 0xA9,  0xA8, 0xC9];
   let mut test_cpu = create_test_cpu(rom_data);
   test_cpu.sp = 0xFFFE;
   test_cpu.tick().unwrap();
   assert_eq!(test_cpu.cycles, 4);
   test_cpu.tick().unwrap();
   assert_eq!(test_cpu.sp, 0xFFFC);
   assert_eq!(test_cpu.cycles, 28);
   test_cpu.tick().unwrap();
   assert_eq!(test_cpu.cycles, 32);
   test_cpu.tick().unwrap();
   assert_eq!(test_cpu.sp, 0xFFFE);
   assert_eq!(test_cpu.pc, 0x0004);
   assert_eq!(test_cpu.cycles, 48);
   test_cpu.tick().unwrap();
   assert_eq!(test_cpu.cycles, 52);
}

#[test]
fn test_call_cc() {
    // XOR A
    // CALL Z, 0x0005
    // XOR C
    // XOR B
    // RET
    // This should execute XOR A, then XOR B, then XOR C in that order
   let rom_data = vec![0xAF, 0xCC, 0x05, 0x00, 0xA9,  0xA8, 0xC9];
   let mut test_cpu = create_test_cpu(rom_data);
   test_cpu.sp = 0xFFFE;
   test_cpu.tick().unwrap();
   assert_eq!(test_cpu.cycles, 4);
   test_cpu.tick().unwrap();
   assert_eq!(test_cpu.sp, 0xFFFC);
   assert_eq!(test_cpu.cycles, 28);
   test_cpu.tick().unwrap();
   assert_eq!(test_cpu.cycles, 32);
   test_cpu.tick().unwrap();
   assert_eq!(test_cpu.sp, 0xFFFE);
   assert_eq!(test_cpu.pc, 0x0004);
   assert_eq!(test_cpu.cycles, 48);
   test_cpu.tick().unwrap();
   assert_eq!(test_cpu.cycles, 52);

    // XOR A
    // CALL NZ, 0x0005
    // XOR C
    // XOR B
    // RET
    // This should execute XOR A, then XOR C in that order
   let rom_data = vec![0xAF, 0xC4, 0x05, 0x00, 0xA9,  0xA8, 0xC9];
   let mut test_cpu = create_test_cpu(rom_data);
   test_cpu.sp = 0xFFFE;
   test_cpu.tick().unwrap();
   assert_eq!(test_cpu.cycles, 4);
   test_cpu.tick().unwrap();
   assert_eq!(test_cpu.sp, 0xFFFE);
   assert_eq!(test_cpu.cycles, 16);
   test_cpu.tick().unwrap();
   assert_eq!(test_cpu.cycles, 20);
}

#[test]
fn test_rst() {
    /*
    * XOR A
    * RST 0x08
    * XOR C
    * NOP * 5 ~ for padding
    * XOR B
    * RET
    * This hould execute XOR A, then XOR B, then XOR C in that exact order
    */
    let rom_data = vec![0xAF, 0xCF, 0xA9, 0x00, 0x00,  0x00, 0x00, 0x00, 0xA8, 0xC9];
    let mut test_cpu = create_test_cpu(rom_data);
    test_cpu.sp = 0xFFFE;

    test_cpu.tick().unwrap();
    assert_eq!(test_cpu.cycles, 4);

    test_cpu.tick().unwrap();
    assert_eq!(test_cpu.sp, 0xFFFC);
    assert_eq!(test_cpu.cycles, 20);

    test_cpu.tick().unwrap();
    assert_eq!(test_cpu.cycles, 24);

    test_cpu.tick().unwrap();
    assert_eq!(test_cpu.sp, 0xFFFE);
    assert_eq!(test_cpu.pc, 0x0002);
    assert_eq!(test_cpu.cycles, 40);

    test_cpu.tick().unwrap();
    assert_eq!(test_cpu.cycles, 44);
}

#[test]
fn test_rl() {
    /*
     * LD A, 0b10000001
     * RL A ; A should be 0b00000010 after
     * RL A ; A should be 0b00000101
     */
    let rom_data = vec![0x3E, 0x81, 0xCB, 0x17, 0xCB, 0x17];
    let mut test_cpu = create_test_cpu(rom_data);

    test_cpu.tick().unwrap();
    assert_eq!(test_cpu.cycles, 8);
    test_cpu.tick().unwrap();
    assert_eq!(test_cpu.cycles, 16);
    assert_eq!(test_cpu.a(), 0b00000010);
    assert!(test_cpu.get_flag(Flag::Carry));
    assert!(!test_cpu.get_flag(Flag::Zero));
    test_cpu.tick().unwrap();
    assert_eq!(test_cpu.cycles, 24);
    assert_eq!(test_cpu.a(), 0b00000101);
    assert!(!test_cpu.get_flag(Flag::Carry));
    assert!(!test_cpu.get_flag(Flag::Zero));
}

#[test]
fn test_rrc() {
    /*
     * LD A, 0b10000001
     * RRC A ; A should be 0b11000000 after
     * RRCA  ; A should be 0b01100000
     */
    let rom_data = vec![0x3E, 0x81, 0xCB, 0x0F, 0x0F];
    let mut test_cpu = create_test_cpu(rom_data);

    test_cpu.tick().unwrap();
    assert_eq!(test_cpu.cycles, 8);
    test_cpu.tick().unwrap();
    assert_eq!(test_cpu.cycles, 16);
    assert_eq!(test_cpu.a(), 0b11000000);
    assert!(test_cpu.get_flag(Flag::Carry));
    assert!(!test_cpu.get_flag(Flag::Zero));
    test_cpu.tick().unwrap();
    assert_eq!(test_cpu.cycles, 20);
    assert_eq!(test_cpu.a(), 0b01100000);
    assert!(!test_cpu.get_flag(Flag::Carry));
    assert!(!test_cpu.get_flag(Flag::Zero));
}

#[test]
fn test_cpl() {
    let rom_data = vec![0x2F];
    let mut test_cpu = create_test_cpu(rom_data);
    test_cpu.set_register(RegisterLoc::A, 0x35);

    test_cpu.tick().unwrap();
    assert_eq!(test_cpu.cycles, 4);
    assert_eq!(test_cpu.a(), 0xCA);
    assert_eq!(test_cpu.get_flag(Flag::HalfCarry), true);
    assert_eq!(test_cpu.get_flag(Flag::AddSub), true);
}

#[test]
fn test_ccf() {
    let rom_data = vec![0x3F,0x3F];
    let mut test_cpu = create_test_cpu(rom_data);
    test_cpu.set_flag(Flag::Carry, true);

    test_cpu.tick().unwrap();
    assert_eq!(test_cpu.cycles, 4);
    assert_eq!(test_cpu.get_flag(Flag::Carry), false);

    test_cpu.tick().unwrap();
    assert_eq!(test_cpu.cycles, 8);
    assert_eq!(test_cpu.get_flag(Flag::Carry), true);
}

#[test]
fn test_jmp_absolute() {
    /*
     * JP HL
     * JP 0x0002
     */
    let rom_data = vec![0xE9, 0, 0, 0xC3,0x02,0x00];
    let mut test_cpu = create_test_cpu(rom_data);
    test_cpu.set_hl(0x0003);

    test_cpu.tick().unwrap();
    assert_eq!(test_cpu.cycles, 4);
    assert_eq!(test_cpu.pc, 0x0003);

    test_cpu.tick().unwrap();
    assert_eq!(test_cpu.cycles, 20);
    assert_eq!(test_cpu.pc, 0x0002);
}

#[test]
fn test_jmp_absolute_cc() {
    /*
     * CCs will pass
     * JP NZ, 0x0012
     * JP NC, 0x0003
     * JP Z, 0x0015
     * JP C, 0x0006
     *
     * CCs will fail i.e. no jump will be taken
     * JP NZ, 0x0000
     * JP NC, 0x0000
     * JP Z, 0x0000
     * JP C, 0x0000
    */
    let rom_data = vec![0xC2, 0x12, 0x00, 0xCA, 0x15, 0x00, 0xC2, 0x00, 0x00, 0xD2, 0x00, 0x00,
    0xCA, 0x00, 0x00, 0xDA, 0x00, 0x00, 0xD2, 0x03, 0x00, 0xDA, 0x06, 0x00];
    let mut test_cpu = create_test_cpu(rom_data);
    test_cpu.set_flag(Flag::Zero, false);
    test_cpu.set_flag(Flag::Carry, false);

    test_cpu.tick().unwrap();
    assert_eq!(test_cpu.cycles, 16);
    assert_eq!(test_cpu.pc, 0x0012);

    test_cpu.tick().unwrap();
    assert_eq!(test_cpu.cycles, 32);
    assert_eq!(test_cpu.pc, 0x0003);

    test_cpu.set_flag(Flag::Zero, true);
    test_cpu.set_flag(Flag::Carry, true);

    test_cpu.tick().unwrap();
    assert_eq!(test_cpu.cycles, 48);
    assert_eq!(test_cpu.pc, 0x0015);

    test_cpu.tick().unwrap();
    assert_eq!(test_cpu.cycles, 64);
    assert_eq!(test_cpu.pc, 0x0006);


    test_cpu.tick().unwrap();
    assert_eq!(test_cpu.cycles, 76);
    assert_eq!(test_cpu.pc, 0x0009);

    test_cpu.tick().unwrap();
    assert_eq!(test_cpu.cycles, 88);
    assert_eq!(test_cpu.pc, 0x000C);

    test_cpu.set_flag(Flag::Zero, false);
    test_cpu.set_flag(Flag::Carry, false);

    test_cpu.tick().unwrap();
    assert_eq!(test_cpu.cycles, 100);
    assert_eq!(test_cpu.pc, 0x000F);

    test_cpu.tick().unwrap();
    assert_eq!(test_cpu.cycles, 112);
    assert_eq!(test_cpu.pc, 0x0012);
}
