use emulator::apu::channel1::Channel1;
use emulator::apu::channel3::Channel3;
use emulator::apu::{ChannelBit, APU};
use emulator::bus::Bus;
use emulator::cartridge::{Cartridge, CartridgeError, Mapper};
use emulator::cpu::{Flag, CPU};
use emulator::instruction::{Register16Loc, RegisterLoc};
use emulator::ppu::{Mode, LY, PPU};

fn cpu_with_program(program: Vec<u8>) -> CPU {
    CPU::new(Bus::new(Cartridge::test(program)))
}

fn banked_image() -> Vec<u8> {
    let mut data = vec![0u8; 4 * 0x4000];
    for bank in 0..4 {
        for i in 0..0x4000 {
            data[bank * 0x4000 + i] = (bank as u8) * 0x10 + (i % 7) as u8;
        }
    }
    data[0x147] = 1;
    data[0x148] = 1;
    data[0x149] = 3;
    data
}

#[test]
fn push_then_pop_gives_the_pairs_back() {
    let mut cpu = cpu_with_program(vec![0xC5, 0xD5, 0xE5, 0xF5, 0xF1, 0xE1, 0xD1, 0xC1]);
    cpu.set_register16(Register16Loc::BC, 0x0B0C);
    cpu.set_register16(Register16Loc::DE, 0x0D0E);
    cpu.set_register16(Register16Loc::HL, 0x080C);
    cpu.set_register16(Register16Loc::AF, 0x0A00);
    cpu.sp = 0xFFFE;
    for _ in 0..4 {
        cpu.tick().unwrap();
    }
    assert_eq!(cpu.sp, 0xFFF6);
    cpu.set_register16(Register16Loc::BC, 0xFFFF);
    cpu.set_register16(Register16Loc::DE, 0xFFFF);
    cpu.set_register16(Register16Loc::HL, 0xFFFF);
    cpu.set_register16(Register16Loc::AF, 0xFFF0);
    for _ in 0..4 {
        cpu.tick().unwrap();
    }
    assert_eq!(cpu.get_register16(Register16Loc::BC), 0x0B0C);
    assert_eq!(cpu.get_register16(Register16Loc::DE), 0x0D0E);
    assert_eq!(cpu.get_register16(Register16Loc::HL), 0x080C);
    assert_eq!(cpu.get_register16(Register16Loc::AF), 0x0A00);
    assert_eq!(cpu.sp, 0xFFFE);
}

#[test]
fn push_wraps_around_the_address_space() {
    let mut cpu = cpu_with_program(vec![0xC5, 0xD1]);
    cpu.set_register16(Register16Loc::BC, 0x1234);
    cpu.sp = 0x0001;
    cpu.tick().unwrap();
    assert_eq!(cpu.sp, 0xFFFF);
    assert_eq!(cpu.bus.stack_pop(0x0000), 0x12);
    assert_eq!(cpu.bus.stack_pop(0xFFFF), 0x34);
    cpu.tick().unwrap();
    assert_eq!(cpu.get_register16(Register16Loc::DE), 0x1234);
    assert_eq!(cpu.sp, 0x0001);
}

#[test]
fn pairs_and_halves_hold_the_same_bits() {
    let mut cpu = cpu_with_program(vec![]);
    cpu.set_register16(Register16Loc::BC, 0xA55A);
    assert_eq!(cpu.b(), 0xA5);
    assert_eq!(cpu.c(), 0x5A);
    assert_eq!(cpu.get_register16(Register16Loc::BC), 0xA55A);
    cpu.set_register(RegisterLoc::D, 0x12);
    cpu.set_register(RegisterLoc::E, 0xEF);
    assert_eq!(cpu.de(), 0x12EF);
    cpu.set_hl(0xFFFF);
    assert_eq!(cpu.h(), 0xFF);
    assert_eq!(cpu.l(), 0xFF);
    assert_eq!(cpu.hl(), 0xFFFF);
    cpu.set_register16(Register16Loc::SP, 0xBEEF);
    assert_eq!(cpu.get_register16(Register16Loc::SP), 0xBEEF);
}

#[test]
fn low_nibble_of_the_flag_register_stays_zero() {
    let mut cpu = cpu_with_program(vec![]);
    cpu.set_af(0x12FF);
    assert_eq!(cpu.a(), 0x12);
    assert_eq!(cpu.f(), 0xF0);
    assert_eq!(cpu.af(), 0x12F0);
    cpu.set_f(0x0F);
    assert_eq!(cpu.f(), 0x00);
    cpu.set_flag(Flag::Carry, true);
    assert_eq!(cpu.f(), 0x10);
    cpu.set_flag(Flag::Zero, true);
    assert_eq!(cpu.f(), 0x90);
    cpu.set_flag(Flag::Carry, false);
    assert_eq!(cpu.f(), 0x80);
}

#[test]
fn bank_zero_shows_bank_one() {
    let mut with_zero = Cartridge::from_data(banked_image()).unwrap();
    let mut with_one = Cartridge::from_data(banked_image()).unwrap();
    with_zero.write(0x2000, 0x00);
    with_one.write(0x2000, 0x01);
    for loc in 0x4000..=0x7FFFu16 {
        assert_eq!(with_zero.read(loc), with_one.read(loc));
    }
    assert_eq!(with_zero.read(0x4000), 0x10);
    assert_eq!(with_zero.read(0x4003), 0x10 + ((0x4003 - 0x4000) % 7) as u8);
    with_zero.write(0x3FFF, 0xE0);
    assert_eq!(with_zero.read(0x4000), 0x10);
}

#[test]
fn bank_registers_select_what_the_window_shows() {
    let mut cartridge = Cartridge::from_data(banked_image()).unwrap();
    assert_eq!(
        cartridge.mapper,
        Mapper::MBC1 { ram_enabled: false, bank_low: 1, bank_high: 0, simple: true }
    );
    assert_eq!(cartridge.rom_banks, 4);
    assert_eq!(cartridge.ram_banks, 4);
    assert_eq!(cartridge.read(0x0005), 5);
    assert_eq!(cartridge.read(0x4000), 0x10);
    cartridge.write(0x2000, 2);
    assert_eq!(cartridge.read(0x4000), 0x20);
    cartridge.write(0x2000, 3);
    assert_eq!(cartridge.read(0x4001), 0x31);
    cartridge.write(0x2000, 4);
    assert_eq!(cartridge.read(0x4000), 0x49);
    cartridge.write(0x2100, 1);
    cartridge.write(0x6000, 1);
    cartridge.write(0x4000, 1);
    assert_eq!(cartridge.read(0x4000), 0x49);
    assert_eq!(cartridge.read(0x0000), 0x49);
    cartridge.write(0x4000, 0);
    assert_eq!(cartridge.read(0x4000), 0x10);
    assert_eq!(cartridge.read(0x0001), 1);
}

#[test]
fn cartridge_ram_answers_when_enabled() {
    let mut cartridge = Cartridge::from_data(banked_image()).unwrap();
    cartridge.write(0xA010, 0x77);
    assert_eq!(cartridge.read(0xA010), 0x49);
    cartridge.write(0x0000, 0x0A);
    assert_eq!(cartridge.read(0xA010), 0x00);
    cartridge.write(0xA010, 0x77);
    assert_eq!(cartridge.read(0xA010), 0x77);
    cartridge.write(0x4000, 2);
    assert_eq!(cartridge.read(0xA010), 0x00);
    cartridge.write(0xA010, 0x55);
    cartridge.write(0x4000, 0);
    assert_eq!(cartridge.read(0xA010), 0x77);
    cartridge.write(0x0000, 0x00);
    assert_eq!(cartridge.read(0xA010), 0x49);
    let image = banked_image();
    assert_eq!(cartridge.rom, image);
}

#[test]
fn images_are_rejected_for_their_header() {
    assert_eq!(Cartridge::from_data(vec![0u8; 0x14F]).err(), Some(CartridgeError::MalformedImage));
    assert_eq!(Cartridge::from_data(Vec::new()).err(), Some(CartridgeError::MalformedImage));
    let mut unknown = vec![0u8; 0x150];
    unknown[0x147] = 0x13;
    assert_eq!(
        Cartridge::from_data(unknown).err(),
        Some(CartridgeError::UnimplementedMapper(0x13))
    );
    let mut oversized = vec![0u8; 0x150];
    oversized[0x148] = 9;
    assert_eq!(Cartridge::from_data(oversized).err(), Some(CartridgeError::MalformedImage));
    let mut plain = vec![0u8; 0x150];
    plain[0x148] = 8;
    plain[0x149] = 4;
    let cartridge = Cartridge::from_data(plain).unwrap();
    assert_eq!(cartridge.mapper, Mapper::ROM);
    assert_eq!(cartridge.rom_banks, 512);
    assert_eq!(cartridge.ram_banks, 16);
    let mut small = vec![0u8; 0x150];
    small[0x149] = 5;
    let cartridge = Cartridge::from_data(small).unwrap();
    assert_eq!(cartridge.rom_banks, 2);
    assert_eq!(cartridge.ram_banks, 8);
    assert_eq!(cartridge.is_bootrom(), false);
}

#[test]
fn one_frame_of_modes() {
    let mut ppu = PPU::new();
    let mut vblank_requests = 0;
    for _ in 0..456 {
        assert_eq!(ppu.get_mode(), Mode::HBlank);
        if ppu.tick().vblank {
            vblank_requests += 1;
        }
    }
    assert_eq!(vblank_requests, 0);
    for line in 1..144u8 {
        assert_eq!(ppu.registers[LY], line);
        for _ in 0..80 {
            assert_eq!(ppu.get_mode(), Mode::OAM);
            assert!(!ppu.tick().vblank);
        }
        for _ in 0..176 {
            assert_eq!(ppu.get_mode(), Mode::VRAM);
            assert!(!ppu.tick().vblank);
        }
        for tick in 0..200 {
            assert_eq!(ppu.get_mode(), Mode::HBlank);
            assert_eq!(ppu.registers[LY], line);
            let requests = ppu.tick();
            assert_eq!(requests.vblank, line == 143 && tick == 199);
            if requests.vblank {
                vblank_requests += 1;
            }
        }
    }
    assert_eq!(vblank_requests, 1);
    for line in 144..154u8 {
        for _ in 0..456 {
            assert_eq!(ppu.get_mode(), Mode::VBlank);
            assert_eq!(ppu.registers[LY], line);
            assert!(!ppu.tick().vblank);
        }
    }
    assert_eq!(ppu.get_mode(), Mode::OAM);
    assert_eq!(ppu.registers[LY], 0);
    assert_eq!(ppu.tick, 0);
}

#[test]
fn length_counter_at_one_silences_at_the_next_length_clock() {
    let mut apu = APU::new();
    apu.write(0xFF26, 0x80);
    apu.write(0xFF17, 0xF0);
    apu.write(0xFF16, 0x3F);
    apu.write(0xFF19, 0xC0);
    assert_eq!(apu.channel2.length_counter, 1);
    assert_eq!(apu.read(0xFF26), 0x82);
    for _ in 0..8191 {
        apu.tick();
        assert!(apu.channel2.status);
        assert!(apu.channel2.enabled);
    }
    apu.tick();
    assert!(!apu.channel2.status);
    assert!(!apu.channel2.enabled);
    assert_eq!(apu.channel2.length_counter, 0);
    assert_eq!(apu.read(0xFF26), 0x80);
}

#[test]
fn length_counter_above_one_keeps_the_channel_on() {
    let mut channel = Channel1::new();
    channel.write(0xFF12, 0xF0);
    channel.write(0xFF11, 0x3E);
    channel.write(0xFF14, 0xC0);
    assert_eq!(channel.length_counter, 2);
    channel.length_step();
    assert!(channel.status);
    assert_eq!(channel.length_counter, 1);
    channel.length_step();
    assert!(!channel.status);
    let mut free = Channel1::new();
    free.write(0xFF11, 0x3F);
    free.write(0xFF14, 0x80);
    free.length_step();
    assert!(free.status);
    assert_eq!(free.length_counter, 1);
}

#[test]
fn channel_with_converter_off_adds_nothing() {
    let mut apu = APU::new();
    apu.write(0xFF26, 0x80);
    apu.write(0xFF25, 0x77);
    apu.channel1.enabled = true;
    apu.channel1.volume = 15;
    apu.channel1.sequence_pointer = 7;
    apu.channel2.enabled = true;
    apu.channel2.volume = 9;
    apu.channel3.enabled = true;
    apu.channel3.sample_byte = 11;
    assert_eq!(apu.channel1.dac_output(), 0);
    assert_eq!(apu.channel2.dac_output(), 0);
    assert_eq!(apu.channel3.dac_output(), 0);
    assert_eq!(apu.left_output(), 0);
    assert_eq!(apu.right_output(), 0);
    apu.channel1.dac_enabled = true;
    assert_eq!(apu.channel1.dac_output(), 15);
    assert_eq!(apu.left_output(), 15);
    apu.channel1.volume = 0;
    assert_eq!(apu.channel1.dac_output(), -15);
    apu.write(0xFF25, 0xFF);
    assert_eq!(apu.channel4.dac_output(), -15);
    assert_eq!(apu.left_output(), -30);
    apu.channel4.dac_enabled = false;
    assert_eq!(apu.right_output(), -15);
    assert!(ChannelBit::Channel4Left.is_selected(0x80));
    assert!(!ChannelBit::Channel4Left.is_selected(0x7F));
    assert_eq!(ChannelBit::Channel1Right.mask(), 1);
    let mut wave = Channel3::new();
    wave.dac_enabled = true;
    wave.enabled = true;
    wave.sample_byte = 12;
    wave.volume = 1;
    assert_eq!(wave.dac_output(), -3);
}

#[test]
fn echo_is_work_ram() {
    let mut bus = Bus::new(Cartridge::test(vec![]));
    for loc in 0xC000..=0xCFFFu16 {
        bus.write(loc, (loc % 251) as u8);
    }
    for loc in 0xC000..=0xCFFFu16 {
        assert_eq!(bus.read(loc + 0x2000), (loc % 251) as u8);
    }
    for loc in 0xE000..=0xEFFFu16 {
        bus.write(loc, (loc % 13) as u8);
    }
    for loc in 0xE000..=0xEFFFu16 {
        assert_eq!(bus.read(loc - 0x2000), (loc % 13) as u8);
    }
    bus.write(0xDDFF, 0x5A);
    assert_eq!(bus.read(0xFDFF), 0x5A);
    bus.write(0xFDFF, 0xA5);
    assert_eq!(bus.read(0xDDFF), 0xA5);
}
