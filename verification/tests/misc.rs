use gameboy_emulator::config::LoggingLevel;
use gameboy_emulator::io::IO;
use gameboy_emulator::mmu::Mmu;
use gameboy_emulator::pixel_fifo::{Pixel, PixelFifo};
use gameboy_emulator::rom_debug::{DebugVerdict, RomDebug};

#[test]
fn rom_debug_verdicts() {
    let mut d = RomDebug::new();
    assert_eq!(d.verdict(), DebugVerdict::Empty);
    d.add_string("cpu_instrs\n\n01:ok ");
    assert_eq!(d.verdict(), DebugVerdict::Other);
    d.add_string("Fai");
    assert_eq!(d.verdict(), DebugVerdict::Other);
    d.add_char('l');
    d.add_string("ed 1 tests");
    assert_eq!(d.verdict(), DebugVerdict::Failed);
    d.add_string("\nPassed");
    assert_eq!(d.verdict(), DebugVerdict::Passed);
}

#[test]
fn rom_debug_pattern_at_the_end() {
    let mut d = RomDebug::new();
    d.add_string("Passed");
    assert_eq!(d.verdict(), DebugVerdict::Passed);
    let mut e = RomDebug::new();
    e.add_string("Passe");
    assert_eq!(e.verdict(), DebugVerdict::Other);
}

#[test]
fn io_registers_route_to_their_devices() {
    let mut io = IO::new();
    assert_eq!(io.read(0xFF40), 0x91);
    assert_eq!(io.read(0xFF00), 0xFF);
    io.write(0xFF00, 0x10);
    assert_eq!(io.read(0xFF00), 0xEF);
    io.write(0xFF06, 0x42);
    assert_eq!(io.read(0xFF06), 0x42);
    io.write(0xFF07, 0x05);
    assert_eq!(io.read(0xFF07) & 0x07, 0x05);
    io.write(0xFF26, 0x80);
    assert_eq!(io.read(0xFF26) & 0x80, 0x80);
    io.write(0xFF01, 0x41);
    assert_eq!(io.read(0xFF01), 0x41);
}

#[test]
fn io_div_write_resets_the_divider() {
    let mut io = IO::new();
    io.timer.cycle(255);
    io.timer.cycle(10);
    assert_eq!(io.read(0xFF04), 1);
    io.write(0xFF04, 0x99);
    assert_eq!(io.read(0xFF04), 0);
}

#[test]
fn unused_pieces_construct() {
    let _ = Mmu::new();
    let fifo = PixelFifo::new();
    assert!(fifo.pixel_fifo.is_empty());
    let p = Pixel::new();
    assert_eq!(p.colour, 0);
    assert_ne!(LoggingLevel::ERROR, LoggingLevel::DEBUG);
}
