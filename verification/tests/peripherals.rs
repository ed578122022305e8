use gameboy_emulator::dma::Dma;
use gameboy_emulator::joypad::{Button, Joypad};
use gameboy_emulator::timer::Timer;

#[test]
fn timer_div_follows_the_internal_counter() {
    let mut t = Timer::new();
    for _ in 0..255 {
        assert!(!t.tick());
    }
    assert_eq!(t.div, 0);
    t.tick();
    assert_eq!(t.internal_div_counter, 256);
    assert_eq!(t.div, 1);
    t.reset_div();
    assert_eq!(t.div, 0);
    assert_eq!(t.internal_div_counter, 0);
}

#[test]
fn timer_disabled_does_not_count() {
    let mut t = Timer::new();
    for _ in 0..10 {
        t.cycle(200);
    }
    assert_eq!(t.tima, 0);
}

#[test]
fn timer_fastest_frequency_counts_every_sixteen_cycles() {
    let mut t = Timer::new();
    t.set_tac(0x05);
    assert!(t.enabled);
    assert_eq!(t.get_tima_bit_position(), 3);
    t.cycle(16);
    assert_eq!(t.tima, 1);
    t.cycle(32);
    assert_eq!(t.tima, 3);
}

#[test]
fn timer_bit_positions() {
    let mut t = Timer::new();
    for (tac, bit) in [(0u8, 9u16), (1, 3), (2, 5), (3, 7)] {
        t.tac = tac;
        assert_eq!(t.get_tima_bit_position(), bit);
    }
}

#[test]
fn timer_overflow_reloads_tma_after_four_cycles() {
    let mut t = Timer::new();
    t.write_tma(0xAB);
    t.tima = 0xFF;
    assert!(t.increment_tima());
    assert_eq!(t.tima, 0);
    assert_eq!(t.tima_reload_cycles, 4);
    assert!(!t.tick());
    assert!(!t.tick());
    assert!(!t.tick());
    assert_eq!(t.tima, 0);
    assert!(!t.tick());
    assert_eq!(t.tima, 0xAB);
    assert!(t.tima_just_reloaded);
}

#[test]
fn timer_interrupt_on_overflow_while_counting() {
    let mut t = Timer::new();
    t.set_tac(0x05);
    t.tima = 0xFF;
    let interrupt = t.cycle(16);
    assert!(interrupt);
    assert_eq!(t.tima, 0);
}

#[test]
fn timer_write_tima_ignored_on_the_reload_cycle() {
    let mut t = Timer::new();
    t.write_tma(0x10);
    t.tima = 0xFF;
    t.increment_tima();
    t.tick();
    t.tick();
    assert_eq!(t.tima_reload_cycles, 2);
    t.write_tima(0x55);
    assert_eq!(t.tima, 0);
}

#[test]
fn timer_disabling_with_the_bit_set_counts_once() {
    let mut t = Timer::new();
    t.set_tac(0x05);
    t.cycle(8);
    assert_eq!(t.tima, 0);
    t.set_tac(0x00);
    assert_eq!(t.tima, 1);
}

#[test]
fn joypad_reads_the_selected_group() {
    let mut j = Joypad::new();
    assert_eq!(j.to_byte(), 0xFF);
    j.button_pressed(Button::A);
    j.button_pressed(Button::Down);
    j.set_selection(0x10);
    assert_eq!(j.to_byte(), 0xEE);
    j.set_selection(0x20);
    assert_eq!(j.to_byte(), 0xD7);
    j.set_selection(0x30);
    assert_eq!(j.to_byte(), 0xCE);
    assert!(j.is_pressed(Button::A));
    assert!(j.is_pressed(Button::Down));
    assert!(!j.is_pressed(Button::B));
    j.button_released(Button::A);
    assert!(!j.is_pressed(Button::A));
    let byte: u8 = j.into();
    assert_eq!(byte, 0xCF);
}

#[test]
fn joypad_flags_of_buttons() {
    assert_eq!(Joypad::flag_of(Button::Start), 8);
    assert_eq!(Joypad::flag_of(Button::Select), 4);
    assert_eq!(Joypad::flag_of(Button::B), 2);
    assert_eq!(Joypad::flag_of(Button::A), 1);
    assert_eq!(Joypad::flag_of(Button::Down), 8);
    assert_eq!(Joypad::flag_of(Button::Up), 4);
    assert_eq!(Joypad::flag_of(Button::Left), 2);
    assert_eq!(Joypad::flag_of(Button::Right), 1);
}

#[test]
fn joypad_from_byte_keeps_selection_only() {
    let j = Joypad::from_byte(0x20);
    assert!(!j.select_buttons);
    assert!(j.select_dpad);
    assert_eq!(j.to_byte(), 0xDF);
}

#[test]
fn dma_copies_after_two_ticks_of_delay() {
    let mut d = Dma::new();
    assert!(!d.is_transferring());
    d.dma_start(0xC1);
    assert!(d.is_transferring());
    assert_eq!(d.dma_tick(), None);
    assert_eq!(d.dma_tick(), None);
    assert_eq!(d.dma_tick(), Some((0xC100, 0x00)));
    assert_eq!(d.dma_tick(), Some((0xC101, 0x01)));
    let mut last = None;
    for _ in 0..158 {
        last = d.dma_tick();
    }
    assert_eq!(last, Some((0xC19F, 0x9F)));
    assert!(!d.is_transferring());
    assert_eq!(d.dma_tick(), None);
}
