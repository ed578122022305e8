use gameboy_emulator::registers::{make_pair, split_pair, Flag, FlagsRegister, Registers};

#[test]
fn flags_register_byte_layout() {
    let f = FlagsRegister { zero: true, subtract: false, half_carry: true, carry: false };
    assert_eq!(f.to_byte(), 0xA0);
    let byte: u8 = f.into();
    assert_eq!(byte, 0xA0);
    assert_eq!(FlagsRegister::new().to_byte(), 0xB0);
}

#[test]
fn flags_register_from_byte_drops_low_nibble() {
    let f = FlagsRegister::from_byte(0x5F);
    assert_eq!(f, FlagsRegister { zero: false, subtract: true, half_carry: false, carry: true });
    assert_eq!(f.to_byte(), 0x50);
    let g: FlagsRegister = 0xF0u8.into();
    assert_eq!(g.to_byte(), 0xF0);
}

#[test]
fn flags_round_trip_for_every_upper_nibble() {
    for hi in 0u8..16 {
        let b = hi << 4;
        assert_eq!(FlagsRegister::from_byte(b).to_byte(), b);
    }
}

#[test]
fn set_and_get_each_flag() {
    let mut f = FlagsRegister::from_byte(0);
    for flag in [Flag::Z, Flag::N, Flag::H, Flag::C] {
        assert!(!f.get_flag(flag));
        f.set_flag(flag, true);
        assert!(f.get_flag(flag));
    }
    assert_eq!(f.to_byte(), 0xF0);
    f.set_flag(Flag::N, false);
    assert_eq!(f.to_byte(), 0xB0);
}

#[test]
fn pairs_split_and_join() {
    assert_eq!(make_pair(0x12, 0x34), 0x1234);
    assert_eq!(split_pair(0xBEEF), (0xBE, 0xEF));
    for v in [0u16, 1, 0x00FF, 0xFF00, 0xFFFF, 0x8001] {
        let (h, l) = split_pair(v);
        assert_eq!(make_pair(h, l), v);
    }
}

#[test]
fn registers_after_boot() {
    let r = Registers::new();
    assert_eq!(r.get_af(), 0x01B0);
    assert_eq!(r.get_bc(), 0x0013);
    assert_eq!(r.get_de(), 0x00D8);
    assert_eq!(r.get_hl(), 0x014D);
}

#[test]
fn register_pairs_write_then_read() {
    let mut r = Registers::new();
    r.set_bc(0x1234);
    r.set_de(0x5678);
    r.set_hl(0x9ABC);
    assert_eq!((r.b, r.c, r.d, r.e, r.h, r.l), (0x12, 0x34, 0x56, 0x78, 0x9A, 0xBC));
    assert_eq!(r.get_bc(), 0x1234);
    assert_eq!(r.get_de(), 0x5678);
    assert_eq!(r.get_hl(), 0x9ABC);
    r.set_af(0x12FF);
    assert_eq!(r.a, 0x12);
    assert_eq!(r.get_af(), 0x12F0);
}
