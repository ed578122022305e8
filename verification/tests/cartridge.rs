use gameboy_emulator::mbc::{
    get_ram_banks, get_ram_size_in_bytes, get_rom_banks, get_rom_size_in_bytes, get_value_from_bank, sram_save_path,
    MBCType, SRAM,
};
use gameboy_emulator::mbc3::{rtc_save_path, RtcData};
use gameboy_emulator::mbc_factory::{create_mbc, Cartridge};
use gameboy_emulator::rom::{parse_licensee_code, ROM};

/// An image of `banks` 16 KiB banks whose first byte in each bank is the bank number.
fn banked_image(cartridge_type: u8, rom_size: u8, ram_size: u8, banks: usize) -> Vec<u8> {
    let mut bytes = vec![0u8; banks * 0x4000];
    for b in 0..banks {
        bytes[b * 0x4000] = b as u8;
        bytes[b * 0x4000 + 1] = 0xA0 | b as u8;
    }
    bytes[0x134] = b'C';
    bytes[0x147] = cartridge_type;
    bytes[0x148] = rom_size;
    bytes[0x149] = ram_size;
    bytes
}

fn cartridge(cartridge_type: u8, rom_size: u8, ram_size: u8, banks: usize) -> Cartridge {
    let rom = ROM::new("games/cart.gb".to_string(), banked_image(cartridge_type, rom_size, ram_size, banks));
    create_mbc(&rom, None, None)
}

#[test]
fn header_size_tables() {
    assert_eq!(get_rom_size_in_bytes(0x00), 0x8000);
    assert_eq!(get_rom_size_in_bytes(0x05), 0x100000);
    assert_eq!(get_rom_banks(0x00), 2);
    assert_eq!(get_rom_banks(0x03), 16);
    assert_eq!(get_ram_size_in_bytes(0x00), 0);
    assert_eq!(get_ram_size_in_bytes(0x02), 0x2000);
    assert_eq!(get_ram_size_in_bytes(0x03), 0x8000);
    assert_eq!(get_ram_banks(0x03), 4);
    assert_eq!(get_ram_banks(0x00), 0);
}

#[test]
fn controller_kinds_from_the_header() {
    assert_eq!(MBCType::from_byte(0x00), MBCType::RomOnly);
    assert_eq!(MBCType::from_byte(0x03), MBCType::MBC1);
    assert_eq!(MBCType::from_byte(0x06), MBCType::MBC2);
    assert_eq!(MBCType::from_byte(0x13), MBCType::MBC3);
    assert_eq!(MBCType::from_byte(0x1B), MBCType::MBC5);
    assert_eq!(MBCType::try_from_byte(0x20), None);
    assert_eq!(MBCType::try_from_byte(0x10), Some(MBCType::MBC3));
}

#[test]
fn bank_reads_outside_the_data_give_ff() {
    let data = vec![vec![1u8, 2, 3], vec![4u8]];
    assert_eq!(get_value_from_bank(0, 2, &data), 3);
    assert_eq!(get_value_from_bank(1, 0, &data), 4);
    assert_eq!(get_value_from_bank(1, 1, &data), 0xFF);
    assert_eq!(get_value_from_bank(2, 0, &data), 0xFF);
}

#[test]
fn save_paths_replace_the_extension() {
    assert_eq!(sram_save_path("games/tetris.gb"), "games/tetris.sav");
    assert_eq!(rtc_save_path("games/pokemon.gbc"), "games/pokemon.rtc");
}

#[test]
fn sram_keeps_a_matching_save_and_tracks_changes() {
    let mut sram = SRAM::new(4, "x.sav".to_string(), Some(vec![9, 8, 7, 6]));
    assert_eq!(sram.read(2), 7);
    assert!(sram.save().is_none());
    sram.write(1, 0x55);
    assert_eq!(sram.read(1), 0x55);
    let file = sram.save().unwrap();
    assert_eq!(file.path, "x.sav");
    assert_eq!(file.data, vec![9, 0x55, 7, 6]);
    assert!(sram.save().is_none());
    let fresh = SRAM::new(4, "y.sav".to_string(), Some(vec![1, 2]));
    assert_eq!(fresh.read(0), 0);
}

#[test]
fn licensee_code_is_read_as_hex() {
    assert_eq!(parse_licensee_code(b'0', b'1'), 0x01);
    assert_eq!(parse_licensee_code(b'A', b'4'), 0xA4);
    assert_eq!(parse_licensee_code(b'+', b'9'), 9);
    assert_eq!(parse_licensee_code(b'x', b'1'), 0);
}

#[test]
fn header_checksum_over_the_header_bytes() {
    let mut bytes = banked_image(0, 0, 0, 2);
    let rom = ROM::new("a.gb".to_string(), bytes.clone());
    let sum = rom.calculate_header_checksum();
    let mut expected: u8 = 0;
    for b in &bytes[0x134..0x14D] {
        expected = expected.wrapping_sub(*b).wrapping_sub(1);
    }
    assert_eq!(sum, expected);
    assert!(!rom.header_checksum_valid() || sum == 0);
    assert!(rom.validate_header_checksum().is_err() == (sum != 0));
    bytes[0x14D] = sum;
    let good = ROM::new("a.gb".to_string(), bytes);
    assert!(good.header_checksum_valid());
    assert_eq!(good.validate_header_checksum().unwrap(), "Header checksum [OK]");
}

#[test]
fn try_new_refuses_short_images() {
    assert!(ROM::try_new("s.gb".to_string(), vec![0u8; 0x100]).is_none());
    let mut bytes = vec![0u8; 0x150];
    bytes[0x134] = 0xFF;
    assert!(ROM::try_new("s.gb".to_string(), bytes).is_none());
    assert!(ROM::try_new("s.gb".to_string(), vec![0u8; 0x150]).is_some());
}

#[test]
fn rom_only_reads_both_banks_and_ignores_writes() {
    let mut c = cartridge(0x00, 0x00, 0x00, 2);
    assert_eq!(c.read_byte(0x0000), 0);
    assert_eq!(c.read_byte(0x4000), 1);
    c.write_byte(0x2000, 5);
    assert_eq!(c.read_byte(0x4000), 1);
    assert_eq!(c.get_rom_bank(), 0);
    assert!(!c.dirty_sram());
    assert!(c.save_ram().is_none());
}

#[test]
fn mbc1_selects_banks_and_maps_zero_to_one() {
    let mut c = cartridge(0x01, 0x02, 0x00, 8);
    c.write_byte(0x2000, 0x05);
    assert_eq!(c.read_byte(0x4000), 5);
    assert_eq!(c.get_rom_bank(), 5);
    c.write_byte(0x2000, 0x00);
    assert_eq!(c.read_byte(0x4000), 1);
    c.write_byte(0x2000, 0x0F);
    assert_eq!(c.read_byte(0x4000), 7);
}

#[test]
fn mbc1_ram_needs_enabling_and_battery_save() {
    let mut c = cartridge(0x03, 0x00, 0x02, 2);
    assert_eq!(c.read_byte(0xA000), 0xFF);
    c.write_byte(0xA000, 0x12);
    assert!(!c.dirty_sram());
    c.write_byte(0x0000, 0x0A);
    c.write_byte(0xA000, 0x12);
    assert_eq!(c.read_byte(0xA000), 0x12);
    assert!(c.dirty_sram());
    let saved = c.save_ram().unwrap();
    assert_eq!(saved.path, "games/cart.sav");
    assert_eq!(saved.data.len(), 0x2000);
    assert_eq!(saved.data[0], 0x12);
    assert!(!c.dirty_sram());
    c.write_byte(0x0000, 0x00);
    assert_eq!(c.read_byte(0xA000), 0xFF);
}

#[test]
fn mbc1_loads_saved_ram() {
    let rom = ROM::new("games/cart.gb".to_string(), banked_image(0x03, 0x00, 0x02, 2));
    let mut saved = vec![0u8; 0x2000];
    saved[5] = 0x77;
    let mut c = create_mbc(&rom, Some(saved), None);
    c.write_byte(0x0000, 0x0A);
    assert_eq!(c.read_byte(0xA005), 0x77);
}

#[test]
fn mbc2_ram_is_four_bits_wide() {
    let mut c = cartridge(0x06, 0x01, 0x00, 4);
    c.write_byte(0x0000, 0x0A);
    c.write_byte(0xA010, 0xAB);
    assert_eq!(c.read_byte(0xA010), 0x0B);
    assert_eq!(c.read_byte(0xA210), 0x0B);
    c.write_byte(0x0100, 0x03);
    assert_eq!(c.read_byte(0x4000), 3);
}

#[test]
fn mbc3_banks_and_ram() {
    let mut c = cartridge(0x10, 0x02, 0x02, 8);
    c.write_byte(0x2000, 0x06);
    assert_eq!(c.read_byte(0x4000), 6);
    c.write_byte(0x2000, 0x00);
    assert_eq!(c.read_byte(0x4000), 1);
    c.write_byte(0x0000, 0x0A);
    c.write_byte(0x4000, 0x00);
    c.write_byte(0xA001, 0x42);
    assert_eq!(c.read_byte(0xA001), 0x42);
    assert!(c.dirty_sram());
}

#[test]
fn mbc3_clock_registers_through_the_ram_window() {
    let mut c = cartridge(0x10, 0x02, 0x02, 8);
    c.write_byte(0x0000, 0x0A);
    c.write_byte(0x4000, 0x08);
    assert!(c.can_read(0xA000));
    assert_eq!(c.read_byte(0xA000), 0);
    // Halt the clock (day high register), then set the seconds: a halted clock shows writes at once.
    c.write_byte(0x4000, 0x0C);
    c.write_byte(0xA000, 0x40);
    assert_eq!(c.read_byte(0xA000), 0x40);
    c.write_byte(0x4000, 0x08);
    c.write_byte(0xA000, 30);
    assert_eq!(c.read_byte(0xA000), 30);
    c.write_byte(0x6000, 0x01);
    c.write_byte(0x6000, 0x00);
    assert_eq!(c.read_byte(0xA000), 30);
    c.write_byte(0x4000, 0x00);
    c.write_byte(0xA000, 0x11);
    assert_eq!(c.read_byte(0xA000), 0x11);
    c.write_byte(0x4000, 0x0A);
    assert_eq!(c.read_byte(0xA000), 0);
}

#[test]
fn rtc_registers_roll_over() {
    let mut rtc = RtcData::new("c.rtc".to_string(), Some(vec![59, 59, 23, 0xFF, 0x01]));
    rtc.advance(1);
    assert_eq!(rtc.registers, vec![0, 0, 0, 0, 0x80]);
    rtc.advance(3661);
    assert_eq!(rtc.registers, vec![1, 1, 1, 0, 0x80]);
    rtc.advance(86400 * 300);
    assert_eq!(rtc.registers, vec![1, 1, 1, 44, 0x81]);
}

#[test]
fn rtc_halted_clock_shows_written_values() {
    let mut rtc = RtcData::new("c.rtc".to_string(), Some(vec![0, 0, 0, 0, 0x40]));
    assert_eq!(rtc.read_latched(4), 0x40);
    rtc.write_register(0, 0xFF);
    rtc.write_register(2, 0xFF);
    assert_eq!(rtc.registers[0], 0x3F);
    assert_eq!(rtc.registers[2], 0x1F);
    assert_eq!(rtc.read_latched(0), 0x3F);
    rtc.update_latch_state(1);
    rtc.update_latch_state(0);
    assert_eq!(rtc.read_latched(0), 0x3F);
    assert_eq!(rtc.read_latched(2), 0x1F);
    let file = rtc.save().unwrap();
    assert_eq!(file.path, "c.rtc");
    assert_eq!(file.data, vec![0x3F, 0, 0x1F, 0, 0x40]);
    assert!(rtc.save().is_none());
    assert!(!rtc.load(vec![1, 2, 3]));
    assert!(rtc.load(vec![1, 2, 3, 4, 0x40]));
    assert_eq!(rtc.read_latched(3), 4);
}

#[test]
fn mbc5_uses_nine_bank_bits() {
    let mut c = cartridge(0x19, 0x02, 0x00, 8);
    c.write_byte(0x2000, 0x00);
    assert_eq!(c.read_byte(0x4000), 0);
    c.write_byte(0x2000, 0x03);
    assert_eq!(c.read_byte(0x4001), 0xA3);
    assert_eq!(c.get_rom_bank(), 3);
}

#[test]
fn header_description_lines() {
    let mut bytes = banked_image(0x01, 0x00, 0x00, 2);
    for (i, b) in b"TETRIS\0\0\0\0\0\0\0\0\0".iter().enumerate() {
        bytes[0x134 + i] = *b;
    }
    bytes[0x144] = b'0';
    bytes[0x145] = b'1';
    bytes[0x14B] = 0x33;
    bytes[0x14C] = 1;
    bytes[0x14E] = 0x12;
    bytes[0x14F] = 0x34;
    let mut checked = bytes.clone();
    let sum = ROM::new("t.gb".to_string(), bytes.clone()).calculate_header_checksum();
    checked[0x14D] = sum;
    let rom = ROM::new("t.gb".to_string(), checked);
    let text = rom.describe();
    let lines: Vec<&str> = text.lines().collect();
    assert_eq!(lines[0], "");
    assert_eq!(lines[1], "Title: [TETRIS\0\0\0\0\0\0\0\0\0]");
    assert_eq!(lines[2], "CGB Flag: [0 - No CGB support]");
    assert_eq!(lines[3], "SGB Flag: [00 - No SGB support]");
    assert_eq!(lines[4], "Cartridge type: [1 - MBC1]");
    assert_eq!(lines[5], "ROM size: [0 - 32k]");
    assert_eq!(lines[6], "Save RAM size: [0 - 0k]");
    assert_eq!(lines[7], "Destination code: [00 - Japan]");
    assert_eq!(lines[8], "Licensee Code: [1 - nintendo]");
    assert_eq!(lines[9], "Mask ROM Version: [1]");
    assert_eq!(lines[10], format!("Header Checksum: [{}]", sum));
    assert_eq!(lines[11], "Header checksum [OK]");
    assert_eq!(lines[12], "Global Checksum: [13330]");
    assert_eq!(lines.len(), 13);
    let other = ROM::new("t.gb".to_string(), bytes);
    assert!(other.describe().contains("Header checksum [FAIL]") == (sum != 0));
}

#[test]
fn cartridge_reports_ram_enable_and_bank() {
    let mut c = cartridge(0x03, 0x00, 0x03, 2);
    assert!(!c.is_ram_enabled());
    c.write_byte(0x0000, 0x0A);
    assert!(c.is_ram_enabled());
    assert_eq!(c.get_ram_bank(), 0);
    c.write_byte(0x6000, 0x01);
    c.write_byte(0x4000, 0x02);
    assert_eq!(c.get_ram_bank(), 2);
    let mut m3 = cartridge(0x10, 0x02, 0x02, 8);
    m3.write_byte(0x4000, 0x09);
    assert_eq!(m3.get_ram_bank(), 0xFF);
    assert!(!m3.is_ram_enabled());
    let r = cartridge(0x00, 0x00, 0x00, 2);
    assert_eq!(r.get_ram_bank(), 1);
    assert!(!r.is_ram_enabled());
}
