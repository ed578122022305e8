use gameboy_emulator::interrupts::Interrupt;
use gameboy_emulator::lcd::{default_colour, DARKEST_GREEN, DARK_GREEN, LCD, LIGHTEST_GREEN, LIGHT_GREEN};
use gameboy_emulator::ppu::Ppu;
use gameboy_emulator::tiles::{OAMFlags, OamEntry, OamFlag, TileData};

#[test]
fn shades_map_to_greens() {
    assert_eq!(default_colour(0), LIGHTEST_GREEN);
    assert_eq!(default_colour(1), LIGHT_GREEN);
    assert_eq!(default_colour(2), DARK_GREEN);
    assert_eq!(default_colour(3), DARKEST_GREEN);
}

#[test]
fn palette_write_recomputes_colours() {
    let mut lcd = LCD::new();
    assert_eq!(lcd.read(0xFF47), 0xFC);
    lcd.write(0xFF47, 0x1B);
    assert_eq!(lcd.read(0xFF47), 0x1B);
    assert_eq!(lcd.get_bg_colour(0), DARKEST_GREEN);
    assert_eq!(lcd.get_bg_colour(1), DARK_GREEN);
    assert_eq!(lcd.get_bg_colour(2), LIGHT_GREEN);
    assert_eq!(lcd.get_bg_colour(3), LIGHTEST_GREEN);
    lcd.write(0xFF49, 0xE4);
    assert_eq!(lcd.read(0xFF49), 0xE4);
    assert_eq!(lcd.read(0xFF48), 0xFF);
    assert_eq!(lcd.get_sprite_colour(1, 2), DARK_GREEN);
    lcd.write(0xFF4A, 40);
    lcd.write(0xFF4B, 87);
    assert_eq!((lcd.read(0xFF4A), lcd.read(0xFF4B)), (40, 87));
}

#[test]
fn tile_pixels_combine_two_bit_planes() {
    let tile = TileData::new(&[0x3C, 0x7E, 0x42, 0x42, 0, 0, 0, 0, 0, 0, 0, 0, 0, 0, 0xFF, 0x00], 8);
    let row0: Vec<u8> = (0..8).map(|c| tile.get_pixel(0, c)).collect();
    assert_eq!(row0, vec![0, 2, 3, 3, 3, 3, 2, 0]);
    let row1: Vec<u8> = (0..8).map(|c| tile.get_pixel(1, c)).collect();
    assert_eq!(row1, vec![0, 3, 0, 0, 0, 0, 3, 0]);
    assert_eq!(tile.get_pixel(7, 4), 1);
}

#[test]
fn oam_flags_decode_the_attribute_byte() {
    let flags = OAMFlags::from_byte(0xF0);
    assert!(flags.get_flag(OamFlag::PRIORITY));
    assert!(flags.get_flag(OamFlag::Y_FLIP));
    assert!(flags.get_flag(OamFlag::X_FLIP));
    assert!(flags.get_flag(OamFlag::DMG_PALETTE));
    assert!(!flags.get_flag(OamFlag::BANK));
    let mut none = OAMFlags::new();
    assert!(!none.get_flag(OamFlag::X_FLIP));
    none.set_flag(OamFlag::X_FLIP, true);
    assert!(none.get_flag(OamFlag::X_FLIP));
    let entry = OamEntry::new();
    assert_eq!((entry.y, entry.x, entry.tile_number), (0, 0, 0));
}

#[test]
fn ppu_power_on_registers() {
    let ppu = Ppu::new();
    assert_eq!(ppu.read(0xFF40), 0x91);
    assert_eq!(ppu.read(0xFF41), 0x85);
    assert_eq!(ppu.read(0xFF44), 0);
    assert_eq!(ppu.read(0xFF47), 0xFC);
    assert!(ppu.lcd_ppu_enabled());
    assert_eq!(ppu.framebuffer.len(), 160 * 144);
}

#[test]
fn ppu_ly_is_read_only_and_stat_keeps_low_bits() {
    let mut ppu = Ppu::new();
    ppu.write(0xFF44, 99);
    assert_eq!(ppu.read(0xFF44), 0);
    ppu.write(0xFF41, 0xFF);
    assert_eq!(ppu.read(0xFF41), 0xFD);
    ppu.write(0xFF45, 7);
    assert_eq!(ppu.read(0xFF45), 7);
}

#[test]
fn ppu_modes_follow_the_line_timing() {
    let mut ppu = Ppu::new();
    let mut elapsed = 0u32;
    while ppu.mode == 2 {
        ppu.tick(4);
        elapsed += 4;
    }
    assert_eq!(elapsed, 80);
    assert_eq!(ppu.mode, 3);
    while ppu.mode == 3 {
        ppu.tick(4);
        elapsed += 4;
    }
    assert_eq!(elapsed, 252);
    assert_eq!(ppu.mode, 0);
    while ppu.mode == 0 {
        ppu.tick(4);
        elapsed += 4;
    }
    assert_eq!(elapsed, 456);
    assert_eq!(ppu.mode, 2);
    assert_eq!(ppu.ly, 1);
}

#[test]
fn ppu_requests_vblank_once_per_frame() {
    let mut ppu = Ppu::new();
    let mut elapsed = 0u32;
    let mut vblank_at = Vec::new();
    while elapsed < 2 * 70224 {
        let interrupts = ppu.tick(4);
        elapsed += 4;
        if interrupts.contains(&Interrupt::VBLANK) {
            vblank_at.push(elapsed);
        }
    }
    // A frame is 153 lines of 456 clocks.
    assert_eq!(vblank_at, vec![145 * 456, 145 * 456 + 153 * 456]);
    assert_eq!(ppu.current_frame, 2);
}

#[test]
fn ppu_lcd_off_resets_the_line() {
    let mut ppu = Ppu::new();
    for _ in 0..200 {
        ppu.tick(4);
    }
    assert_eq!(ppu.ly, 1);
    ppu.write(0xFF40, 0x11);
    assert!(!ppu.lcd_ppu_enabled());
    let interrupts = ppu.tick(4);
    assert!(interrupts.is_empty());
    assert_eq!(ppu.ly, 0);
    assert_eq!(ppu.line_ticks, 0);
    assert_eq!(ppu.read(0xFF41) & 0x03, 0);
}

#[test]
fn ppu_draws_the_background_line() {
    let mut ppu = Ppu::new();
    ppu.vram_write(0x8000, 0xFF);
    ppu.vram_write(0x8001, 0x00);
    assert_eq!(ppu.vram_read(0x8000), 0xFF);
    let tile = ppu.get_tile_data(0);
    assert_eq!(tile.get_pixel(0, 3), 1);
    let mut elapsed = 0u32;
    while elapsed < 456 {
        ppu.tick(4);
        elapsed += 4;
    }
    for x in 0..160 {
        assert_eq!(ppu.framebuffer[x], LIGHT_GREEN);
    }
    assert_eq!(ppu.framebuffer[160], LIGHTEST_GREEN);
}

#[test]
fn ppu_oam_writes_are_ignored_while_scanning() {
    let mut ppu = Ppu::new();
    assert_eq!(ppu.mode, 2);
    ppu.oam_write(0x10, 0x42);
    assert_eq!(ppu.oam_read(0x10), 0);
    ppu.oam_dma_write(0x10, 0x42);
    assert_eq!(ppu.oam_read(0x10), 0x42);
}
