use emulator::apu::channel1::Channel1;
use emulator::apu::channel2::Channel2;
use emulator::apu::channel3::Channel3;
use emulator::apu::channel4::Channel4;
use emulator::apu::pattern::pattern_to_u8;

fn create_test_channel1() -> Channel1 {
    Channel1::new()
}

fn create_test_channel2() -> Channel2 {
    Channel2::new()
}

fn create_test_channel3() -> Channel3 {
    Channel3::new()
}

fn create_test_channel4() -> Channel4 {
    Channel4::new()
}

#[test]
#[allow(non_snake_case)]
fn test_NR10_read_write() {
    let mut ch1 = create_test_channel1();
    ch1.write(0xFF10, 0xFF);

    assert_eq!(ch1.sweep.period, 7);
    assert_eq!(ch1.sweep.direction, 1);
    assert_eq!(ch1.sweep.shift, 7);

    assert_eq!(ch1.read(0xFF10), 0x7F);
}

#[test]
#[allow(non_snake_case)]
fn test_NR11_read_write() {
    let mut ch1 = create_test_channel1();
    ch1.write(0xFF11, 0xFF);

    let pattern_bits = pattern_to_u8(ch1.wave_pattern);
    assert_eq!(pattern_bits, 3);
    assert_eq!(ch1.length_counter, 1);

    assert_eq!(ch1.read(0xFF11), 0xC0);
}

#[test]
#[allow(non_snake_case)]
fn test_NR12_read_write() {
    let mut ch1 = create_test_channel1();
    ch1.write(0xFF12, 0xFF);

    assert_eq!(ch1.envelope.initial_volume, 15);
    assert_eq!(ch1.envelope.direction, 1);
    assert_eq!(ch1.envelope.period, 7);
    assert_eq!(ch1.read(0xFF12), 0xFF);
}

#[test]
#[allow(non_snake_case)]
fn test_NR13_read_write() {
    let mut ch1 = create_test_channel1();
    ch1.write(0xFF13, 0xFF);

    assert_eq!(ch1.frequency_load, 255);
    assert_eq!(ch1.read(0xFF13), 0xFF);
}

#[test]
#[allow(non_snake_case)]
fn test_NR14_read_write() {
    let mut ch1 = create_test_channel1();
    ch1.write(0xFF14, 0xFF);

    assert_eq!(ch1.status, true);
    assert_eq!(ch1.counter_selection, true);
    assert_eq!(ch1.frequency_load, 1792);
    assert_eq!(ch1.read(0xFF14), 0x40);
}

#[test]
#[allow(non_snake_case)]
fn test_NR21_read_write() {
    let mut ch2 = create_test_channel2();
    ch2.write(0xFF16, 0xFF);

    let pattern_bits = pattern_to_u8(ch2.wave_pattern);
    assert_eq!(pattern_bits, 3);
    assert_eq!(ch2.length_counter, 1);

    assert_eq!(ch2.read(0xFF16), 0xFF);
}

#[test]
#[allow(non_snake_case)]
fn test_NR22_read_write() {
    let mut ch2 = create_test_channel2();
    ch2.write(0xFF17, 0xFF);

    assert_eq!(ch2.envelope.initial_volume, 15);
    assert_eq!(ch2.envelope.direction, 1);
    assert_eq!(ch2.envelope.period, 7);
    assert_eq!(ch2.read(0xFF17), 0xFF);
}

#[test]
#[allow(non_snake_case)]
fn test_NR23_read_write() {
    let mut ch2 = create_test_channel2();
    ch2.write(0xFF18, 0xFF);

    assert_eq!(ch2.frequency_load, 255);
    assert_eq!(ch2.read(0xFF18), 0xFF);
}

#[test]
#[allow(non_snake_case)]
fn test_NR24_read_write() {
    let mut ch2 = create_test_channel2();
    ch2.write(0xFF19, 0xFF);

    assert_eq!(ch2.status, true);
    assert_eq!(ch2.counter_selection, true);
    assert_eq!(ch2.frequency_load, 1792);
    assert_eq!(ch2.read(0xFF19), 0xff);
}

#[test]
#[allow(non_snake_case)]
fn test_NR30_read_write() {
    let mut ch3 = create_test_channel3();
    ch3.write(0xFF1A, 0xFF);

    assert_eq!(ch3.dac_enabled, true);

    assert_eq!(ch3.read(0xFF1A), 0xFF);
}

#[test]
#[allow(non_snake_case)]
fn test_NR31_read_write() {
    let mut ch3 = create_test_channel3();
    ch3.write(0xFF1B, 0xFF);

    assert_eq!(ch3.length_counter, 1);

    assert_eq!(ch3.read(0xFF1B), 0xFF);
}

#[test]
#[allow(non_snake_case)]
fn test_NR32_read_write() {
    let mut ch3 = create_test_channel3();
    ch3.write(0xFF1C, 0xFF);

    assert_eq!(ch3.volume, 3);
    assert_eq!(ch3.read(0xFF1C), 0xFF);
}

#[test]
#[allow(non_snake_case)]
fn test_NR33_read_write() {
    let mut ch3 = create_test_channel3();
    ch3.write(0xFF1D, 0xFF);

    assert_eq!(ch3.frequency_load, 255);
    assert_eq!(ch3.read(0xFF1D), 0xFF);
}

#[test]
#[allow(non_snake_case)]
fn test_NR34_read_write() {
    let mut ch3 = create_test_channel3();
    ch3.write(0xFF1E, 0xFF);

    assert_eq!(ch3.status, true);
    assert_eq!(ch3.counter_selection, true);
    assert_eq!(ch3.frequency_load, 1792);
    assert_eq!(ch3.read(0xFF1E), 0xFF);
}

#[test]
#[allow(non_snake_case)]
fn test_NR41_read_write() {
    let mut ch4 = create_test_channel4();
    ch4.write(0xFF20, 0xFF);

    assert_eq!(ch4.length_counter, 0x3F);
    assert_eq!(ch4.read(0xFF20), 0x3F);
}

#[test]
#[allow(non_snake_case)]
fn test_NR42_read_write() {
    let mut ch4 = create_test_channel4();
    ch4.write(0xFF21, 0xFF);

    assert_eq!(ch4.envelope.initial_volume, 15);
    assert_eq!(ch4.envelope.direction, 1);
    assert_eq!(ch4.envelope.period, 7);
    assert_eq!(ch4.read(0xFF21), 0xFF);
}

#[test]
#[allow(non_snake_case)]
fn test_NR43_read_write() {
    let mut ch4 = create_test_channel4();
    ch4.write(0xFF22, 0xFF);

    assert_eq!(ch4.shift_clock_frequency, 15);
    assert_eq!(ch4.counter_step, 1);
    assert_eq!(ch4.dividing_ratio, 7);
    assert_eq!(ch4.read(0xFF22), 0xFF);
}

#[test]
#[allow(non_snake_case)]
fn test_NR44_read_write() {
    let mut ch4 = create_test_channel4();
    ch4.write(0xFF23, 0xFF);

    assert_eq!(ch4.status, true);
    assert_eq!(ch4.counter_selection, true);
    assert_eq!(ch4.read(0xFF23), 0x40);
}
