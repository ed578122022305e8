use gameboy_emulator::interrupts::Interrupt;
use gameboy_emulator::interrupts::InterruptFlags;

#[test]
fn interrupts_test_byte_from_interrupt() {
    let interrupt = Interrupt::VBLANK;
    let byte: u8 = interrupt.into();
    assert_eq!(byte, 0b0000_0001);

    let interrupt = Interrupt::LCDSTAT;
    let byte: u8 = interrupt.into();
    assert_eq!(byte, 0b0000_0010);

    let interrupt = Interrupt::TIMER;
    let byte: u8 = interrupt.into();
    assert_eq!(byte, 0b0000_0100);

    let interrupt = Interrupt::SERIAL;
    let byte: u8 = interrupt.into();
    assert_eq!(byte, 0b0000_1000);

    let interrupt = Interrupt::JOYPAD;
    let byte: u8 = interrupt.into();
    assert_eq!(byte, 0b0001_0000);
}

#[test]
fn interupts_test_byte_from_interrupt() {
    let interrupt = Interrupt::VBLANK;
    let byte: u8 = interrupt.into();
    assert_eq!(byte, 0b0000_0001);

    let interrupt = Interrupt::LCDSTAT;
    let byte: u8 = interrupt.into();
    assert_eq!(byte, 0b0000_0010);

    let interrupt = Interrupt::TIMER;
    let byte: u8 = interrupt.into();
    assert_eq!(byte, 0b0000_0100);

    let interrupt = Interrupt::SERIAL;
    let byte: u8 = interrupt.into();
    assert_eq!(byte, 0b0000_1000);

    let interrupt = Interrupt::JOYPAD;
    let byte: u8 = interrupt.into();
    assert_eq!(byte, 0b0001_0000);
}

#[test]
fn interrupt_flags_round_trip_through_byte() {
    for b in 0u8..=0x1F {
        let flags = InterruptFlags::from_byte(b);
        assert_eq!(flags.to_byte(), b);
    }
}

#[test]
fn interrupt_flags_ignore_high_bits() {
    let flags = InterruptFlags::from_byte(0xE5);
    assert!(flags.vblank);
    assert!(!flags.lcd_stat);
    assert!(flags.timer);
    assert!(!flags.serial);
    assert!(!flags.joypad);
    assert_eq!(flags.to_byte(), 0x05);
    let byte: u8 = flags.into();
    assert_eq!(byte, 0x05);
}

#[test]
fn interrupt_flags_new_is_empty() {
    assert_eq!(InterruptFlags::new().to_byte(), 0);
    let from: InterruptFlags = 0x12u8.into();
    assert!(from.lcd_stat && from.joypad && !from.vblank);
}

#[test]
fn interrupt_mask_matches_conversion() {
    for i in [Interrupt::VBLANK, Interrupt::LCDSTAT, Interrupt::TIMER, Interrupt::SERIAL, Interrupt::JOYPAD] {
        let byte: u8 = i.into();
        assert_eq!(i.mask(), byte);
    }
}
