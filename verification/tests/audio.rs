use gameboy_emulator::apu::{divisor, duty_bit, Apu, Nr10, Nr11, Nr12, Nr14, Nr30, Nr32, Nr43, Nr52};

#[test]
fn duty_waveforms() {
    let patterns: Vec<Vec<u8>> = (0..4).map(|d| (0..8).map(|s| duty_bit(d, s)).collect()).collect();
    assert_eq!(patterns[0], vec![0, 0, 0, 0, 0, 0, 0, 1]);
    assert_eq!(patterns[1], vec![1, 0, 0, 0, 0, 0, 0, 1]);
    assert_eq!(patterns[2], vec![1, 0, 0, 0, 0, 1, 1, 1]);
    assert_eq!(patterns[3], vec![0, 1, 1, 1, 1, 1, 1, 0]);
}

#[test]
fn noise_divisors() {
    assert_eq!(divisor(0), 8);
    assert_eq!(divisor(1), 16);
    assert_eq!(divisor(7), 112);
}

#[test]
fn register_codecs_round_trip() {
    assert_eq!(Nr10::from_state(3, true, 5), 0x3D);
    assert_eq!(Nr10::to_state(0x3D), (3, true, 5));
    assert_eq!(Nr11::from_state(2, 0x15), 0x95);
    assert_eq!(Nr11::to_state(0x95), (2, 0x15));
    assert_eq!(Nr12::from_state(0xF, false, 3), 0xF3);
    assert_eq!(Nr12::to_state(0xF3), (0xF, false, 3));
    assert_eq!(Nr14::from_state(true), 0xFF);
    assert_eq!(Nr14::from_state(false), 0xBF);
    assert_eq!(Nr14::to_state(0xC5), (true, true, 5));
    assert_eq!(Nr30::from_state(false), 0x7F);
    assert!(Nr30::to_state(0x80));
    assert_eq!(Nr32::from_state(2), 0xDF);
    assert_eq!(Nr32::to_state(0x40), 2);
    assert_eq!(Nr43::from_state(0xA, true, 3), 0xAB);
    assert_eq!(Nr43::to_state(0xAB), (0xA, true, 3));
    assert_eq!(Nr52::from_state(true, true, false, true, false), 0x85);
    assert_eq!(Nr52::to_state(0x85), (true, true, false, true, false));
}

#[test]
fn apu_starts_off_and_ignores_writes() {
    let mut apu = Apu::new();
    assert_eq!(apu.read(0xFF26), 0x00);
    apu.write(0xFF12, 0xF3);
    assert_eq!(apu.read(0xFF12), 0x00);
    apu.write(0xFF24, 0x77);
    assert_eq!(apu.read(0xFF24), 0x00);
    apu.write(0xFF30, 0x12);
    assert_eq!(apu.read(0xFF30), 0x12);
    apu.write(0xFF11, 0xC0);
    assert_eq!(apu.read(0xFF11), 0x3F);
    assert_eq!(apu.ch1.length.counter, 0);
    assert_eq!(apu.ch3.enabled, false);
}

#[test]
fn apu_unused_registers_read_ff() {
    let apu = Apu::new();
    assert_eq!(apu.read(0xFF13), 0xFF);
    assert_eq!(apu.read(0xFF27), 0xFF);
    assert_eq!(apu.read(0xFF2F), 0xFF);
    assert_eq!(apu.read(0xFF40), 0x00);
}

#[test]
fn apu_trigger_enables_a_channel() {
    let mut apu = Apu::new();
    apu.write(0xFF26, 0x80);
    assert_eq!(apu.read(0xFF26), 0x80);
    apu.write(0xFF12, 0xF3);
    assert_eq!(apu.read(0xFF12), 0xF3);
    apu.write(0xFF11, 0x80);
    assert_eq!(apu.read(0xFF11), 0xBF);
    apu.write(0xFF14, 0x80);
    assert_eq!(apu.read(0xFF26), 0x81);
    assert_eq!(apu.channel_amplitudes(), [15, 0, 0, 0]);
    apu.write(0xFF24, 0x77);
    apu.write(0xFF26, 0x00);
    assert_eq!(apu.read(0xFF26), 0x00);
    assert_eq!(apu.read(0xFF24), 0x00);
    assert_eq!(apu.channel_amplitudes(), [0, 0, 0, 0]);
}

#[test]
fn apu_trigger_without_dac_stays_off() {
    let mut apu = Apu::new();
    apu.write(0xFF26, 0x80);
    apu.write(0xFF17, 0x00);
    apu.write(0xFF19, 0x80);
    assert_eq!(apu.read(0xFF26), 0x80);
}

#[test]
fn apu_length_timer_silences_the_channel() {
    let mut apu = Apu::new();
    apu.write(0xFF26, 0x80);
    apu.write(0xFF17, 0xF0);
    apu.write(0xFF16, 0x3F);
    apu.write(0xFF19, 0xC0);
    assert_eq!(apu.read(0xFF26), 0x82);
    for _ in 0..(8192 * 2) {
        apu.step();
    }
    assert_eq!(apu.read(0xFF26), 0x80);
}

#[test]
fn apu_wave_channel_output() {
    let mut apu = Apu::new();
    apu.write(0xFF26, 0x80);
    apu.write(0xFF30, 0xA5);
    apu.write(0xFF1A, 0x80);
    apu.write(0xFF1C, 0x20);
    assert_eq!(apu.read(0xFF1C), 0xBF);
    apu.write(0xFF1E, 0x80);
    assert_eq!(apu.read(0xFF26), 0x84);
    assert_eq!(apu.channel_amplitudes()[2], 0x0A);
}
