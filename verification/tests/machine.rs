use gameboy_emulator::cpu::CPU;
use gameboy_emulator::emulator::{Emulator, Fault};
use gameboy_emulator::interrupts::Interrupt;
use gameboy_emulator::joypad::Button;
use gameboy_emulator::memory_bus::MemoryBus;
use gameboy_emulator::rom::ROM;

/// A 32 KiB cartridge image of the given type, with `program` at 0x0100.
fn image_of_type(cartridge_type: u8, program: &[u8]) -> Vec<u8> {
    let mut bytes = vec![0u8; 0x8000];
    for (i, b) in b"TESTROM".iter().enumerate() {
        bytes[0x134 + i] = *b;
    }
    bytes[0x147] = cartridge_type;
    bytes[0x148] = 0x00;
    bytes[0x149] = 0x00;
    for (i, b) in program.iter().enumerate() {
        bytes[0x100 + i] = *b;
    }
    bytes
}

fn rom_with(program: &[u8]) -> ROM {
    ROM::new("test.gb".to_string(), image_of_type(0x00, program))
}

fn run(cpu: &mut CPU, bus: &mut MemoryBus, steps: usize) {
    for _ in 0..steps {
        assert!(cpu.step_ok(bus));
        cpu.cycle(bus);
    }
}

#[test]
fn rom_header_is_decoded() {
    let rom = rom_with(&[]);
    assert_eq!(rom.title, "TESTROM\0\0\0\0\0\0\0\0");
    assert_eq!(rom.cartridge_type, 0);
    assert_eq!(rom.rom.len(), 0x8000);
    let banks = rom.load_rom_to_banks();
    assert_eq!(banks.data.len(), 2);
    assert_eq!(banks.data[0].len(), 0x4000);
}

#[test]
fn bus_reads_back_what_was_written_to_ram() {
    let rom = rom_with(&[]);
    let mut bus = MemoryBus::new(None, &rom, None, None);
    for (address, value) in [(0xC000u16, 0x11u8), (0xCFFF, 0x22), (0xD123, 0x33), (0xE005, 0x44), (0xFF80, 0x55), (0xFFFE, 0x66), (0xFFFF, 0x1F)] {
        assert!(bus.can_write(address));
        bus.write_byte(address, value);
        assert_eq!(bus.read_byte(address), value);
    }
    assert_eq!(bus.read_byte(0xC000), 0x11);
}

#[test]
fn bus_short_round_trip_is_little_endian() {
    let rom = rom_with(&[]);
    let mut bus = MemoryBus::new(None, &rom, None, None);
    bus.write_short(0xC010, 0xBEEF);
    assert_eq!(bus.read_byte(0xC010), 0xEF);
    assert_eq!(bus.read_byte(0xC011), 0xBE);
    assert_eq!(bus.read_short(0xC010), 0xBEEF);
}

#[test]
fn bus_reads_the_cartridge_rom() {
    let rom = rom_with(&[0xAB, 0xCD]);
    let bus = MemoryBus::new(None, &rom, None, None);
    assert_eq!(bus.read_byte(0x0100), 0xAB);
    assert_eq!(bus.read_byte(0x0101), 0xCD);
    assert_eq!(bus.read_byte(0x0134), b'T');
}

#[test]
fn boot_rom_overlays_until_disabled() {
    let rom = rom_with(&[]);
    let boot = vec![0x31u8; 0x100];
    let mut bus = MemoryBus::new(Some(boot), &rom, None, None);
    assert_eq!(bus.read_byte(0x0000), 0x31);
    bus.write_byte(0xFF50, 0x01);
    assert_eq!(bus.read_byte(0x0000), 0x00);
}

#[test]
fn interrupt_flags_register() {
    let rom = rom_with(&[]);
    let mut bus = MemoryBus::new(None, &rom, None, None);
    assert_eq!(bus.read_byte(0xFF0F), 0);
    bus.trigger_interrupt(Interrupt::TIMER);
    bus.trigger_interrupt(Interrupt::VBLANK);
    assert_eq!(bus.read_byte(0xFF0F), 0x05);
    bus.write_byte(0xFF0F, 0x00);
    assert_eq!(bus.interrupt_flags, 0);
}

#[test]
fn unusable_area_reads_ff_and_ignores_writes() {
    let rom = rom_with(&[]);
    let mut bus = MemoryBus::new(None, &rom, None, None);
    bus.write_byte(0xFEA5, 0x12);
    assert_eq!(bus.read_byte(0xFEA5), 0xFF);
}

#[test]
fn oam_dma_copies_a_page() {
    let rom = rom_with(&[]);
    let mut bus = MemoryBus::new(None, &rom, None, None);
    for i in 0..0xA0u16 {
        bus.write_byte(0xC100 + i, i as u8 ^ 0x5A);
    }
    bus.write_byte(0xFF46, 0xC1);
    assert_eq!(bus.read_byte(0xFE00), 0xFF);
    for _ in 0..20 {
        assert!(bus.dma_can_read(9));
        bus.cycle(9);
    }
    for i in 0..0xA0u16 {
        assert_eq!(bus.read_byte(0xFE00 + i), i as u8 ^ 0x5A);
    }
}

#[test]
fn cpu_runs_loads_arithmetic_and_stack() {
    // LD A,0x12; LD (0xC000),A; LD B,0x34; ADD A,B; DAA; PUSH BC; POP DE; JR -2
    let program = [0x3E, 0x12, 0xEA, 0x00, 0xC0, 0x06, 0x34, 0x80, 0x27, 0xC5, 0xD1, 0x18, 0xFE];
    let rom = rom_with(&program);
    let mut bus = MemoryBus::new(None, &rom, None, None);
    let mut cpu = CPU::new();
    run(&mut cpu, &mut bus, 7);
    assert_eq!(bus.read_byte(0xC000), 0x12);
    assert_eq!(cpu.registers.a, 0x46);
    assert_eq!(cpu.registers.d, 0x34);
    assert_eq!(cpu.registers.e, 0x13);
    assert_eq!(cpu.sp, 0xFFFE);
    assert_eq!(cpu.pc, 0x010B);
    run(&mut cpu, &mut bus, 3);
    assert_eq!(cpu.pc, 0x010B);
}

#[test]
fn cpu_instruction_cycle_counts() {
    // NOP; LD BC,0x1234; JP 0x0108; (pad) ; CALL 0x010C; RET target: INC A ...
    let program = [0x00, 0x01, 0x34, 0x12, 0xC3, 0x08, 0x01, 0x00, 0xCD, 0x0C, 0x01, 0x00, 0xC9];
    let rom = rom_with(&program);
    let mut bus = MemoryBus::new(None, &rom, None, None);
    let mut cpu = CPU::new();
    assert_eq!(cpu.cycle(&mut bus), 4);
    assert_eq!(cpu.cycle(&mut bus), 12);
    assert_eq!(cpu.registers.get_bc(), 0x1234);
    assert_eq!(cpu.cycle(&mut bus), 16);
    assert_eq!(cpu.pc, 0x0108);
    assert_eq!(cpu.cycle(&mut bus), 24);
    assert_eq!(cpu.pc, 0x010C);
    assert_eq!(cpu.sp, 0xFFFC);
    assert_eq!(bus.read_short(0xFFFC), 0x010B);
    assert_eq!(cpu.cycle(&mut bus), 16);
    assert_eq!(cpu.pc, 0x010B);
    assert_eq!(cpu.sp, 0xFFFE);
}

#[test]
fn cpu_push_writes_high_byte_first_below_sp() {
    let rom = rom_with(&[]);
    let mut bus = MemoryBus::new(None, &rom, None, None);
    let mut cpu = CPU::new();
    cpu.sp = 0xD000;
    cpu.op_push_stack(&mut bus, 0xABCD);
    assert_eq!(cpu.sp, 0xCFFE);
    assert_eq!(bus.read_byte(0xCFFF), 0xAB);
    assert_eq!(bus.read_byte(0xCFFE), 0xCD);
}

#[test]
fn cpu_cb_and_indirect_load_cycles() {
    // LD HL,0xC000; LD D,(HL); RLC B; BIT 0,(HL); SET 1,(HL)
    let program = [0x21, 0x00, 0xC0, 0x56, 0xCB, 0x00, 0xCB, 0x46, 0xCB, 0xCE];
    let rom = rom_with(&program);
    let mut bus = MemoryBus::new(None, &rom, None, None);
    let mut cpu = CPU::new();
    assert_eq!(cpu.cycle(&mut bus), 12);
    assert_eq!(cpu.cycle(&mut bus), 8);
    assert_eq!(cpu.cycle(&mut bus), 8);
    assert_eq!(cpu.cycle(&mut bus), 12);
    assert_eq!(cpu.cycle(&mut bus), 16);
    assert_eq!(bus.read_byte(0xC000), 0x02);
}

#[test]
fn cpu_cb_prefix_and_flags() {
    // LD A,0x85; RLCA; LD B,0x80; BIT 7,B; SWAP B; SCF; CCF
    let program = [0x3E, 0x85, 0x07, 0x06, 0x80, 0xCB, 0x78, 0xCB, 0x30, 0x37, 0x3F];
    let rom = rom_with(&program);
    let mut bus = MemoryBus::new(None, &rom, None, None);
    let mut cpu = CPU::new();
    run(&mut cpu, &mut bus, 2);
    assert_eq!(cpu.registers.a, 0x0B);
    assert!(cpu.registers.f.carry);
    assert!(!cpu.registers.f.zero);
    run(&mut cpu, &mut bus, 2);
    assert!(!cpu.registers.f.zero);
    assert!(cpu.registers.f.half_carry);
    run(&mut cpu, &mut bus, 1);
    assert_eq!(cpu.registers.b, 0x08);
    run(&mut cpu, &mut bus, 2);
    assert!(!cpu.registers.f.carry);
}

#[test]
fn interrupt_is_serviced_when_enabled() {
    // EI; NOP; NOP
    let program = [0xFB, 0x00, 0x00];
    let rom = rom_with(&program);
    let mut bus = MemoryBus::new(None, &rom, None, None);
    let mut cpu = CPU::new();
    bus.write_byte(0xFFFF, 0x04);
    bus.trigger_interrupt(Interrupt::TIMER);
    run(&mut cpu, &mut bus, 1);
    assert!(bus.enabling_ime);
    assert!(cpu.interrupt_check_ok(&bus));
    cpu.check_interrupts(&mut bus);
    assert_eq!(cpu.pc, 0x0050);
    assert_eq!(cpu.sp, 0xFFFC);
    assert_eq!(bus.read_short(0xFFFC), 0x0101);
    assert_eq!(bus.interrupt_flags & 0x04, 0);
    assert!(!bus.interrupt_master_enable);
}

#[test]
fn halt_waits_for_a_request() {
    // HALT; NOP
    let rom = rom_with(&[0x76, 0x00]);
    let mut bus = MemoryBus::new(None, &rom, None, None);
    let mut cpu = CPU::new();
    run(&mut cpu, &mut bus, 1);
    assert!(cpu.halted);
    assert_eq!(cpu.cycle(&mut bus), 4);
    assert!(cpu.halted);
    bus.trigger_interrupt(Interrupt::SERIAL);
    cpu.cycle(&mut bus);
    assert!(!cpu.halted);
}

#[test]
fn emulator_reaches_a_new_frame() {
    let rom = rom_with(&[0x18, 0xFE]);
    let mut emulator = Emulator::new(None, &rom, None, None);
    assert_eq!(emulator.cpu.pc, 0x0100);
    let mut frames = 0;
    for _ in 0..20000 {
        if emulator.cycle().unwrap() {
            frames += 1;
        }
    }
    assert!(frames >= 1);
    assert!(emulator.can_stop());
    assert!(emulator.save_ram().is_none());
    assert!(emulator.save_rtc().is_none());
}

#[test]
fn emulator_starts_in_the_boot_rom() {
    let rom = rom_with(&[]);
    let emulator = Emulator::new(Some(vec![0u8; 0x100]), &rom, None, None);
    assert_eq!(emulator.cpu.pc, 0x0000);
    assert!(emulator.memory_bus.boot_rom_enabled);
}

#[test]
fn emulator_buttons_raise_the_joypad_interrupt() {
    let rom = rom_with(&[0x18, 0xFE]);
    let mut emulator = Emulator::new(None, &rom, None, None);
    emulator.process_buttons(&vec![]);
    assert_eq!(emulator.memory_bus.interrupt_flags & 0x10, 0);
    emulator.process_buttons(&vec![Button::Start, Button::Left]);
    assert_eq!(emulator.memory_bus.interrupt_flags & 0x10, 0x10);
    assert_eq!(emulator.memory_bus.dmg_io.joypad.buttons, 0x07);
    assert_eq!(emulator.memory_bus.dmg_io.joypad.dpad, 0x0D);
    emulator.process_buttons(&vec![]);
    assert_eq!(emulator.memory_bus.dmg_io.joypad.buttons, 0x0F);
}

#[test]
fn emulator_reports_an_instruction_fault() {
    // MBC1 whose header claims four banks while the image holds two:
    // LD A,3; LD (0x2000),A; LD A,(0x4000) reads a bank the image lacks
    let mut bytes = image_of_type(0x01, &[0x3E, 0x03, 0xEA, 0x00, 0x20, 0xFA, 0x00, 0x40]);
    bytes[0x148] = 0x01;
    let rom = ROM::new("mbc1.gb".to_string(), bytes);
    let mut emulator = Emulator::new(None, &rom, None, None);
    assert_eq!(emulator.cycle(), Ok(false));
    assert_eq!(emulator.cycle(), Ok(false));
    assert_eq!(emulator.cpu.pc, 0x0105);
    let r = emulator.cycle();
    assert_eq!(r, Err(Fault::Instruction));
}

#[test]
fn emulator_reports_a_dma_source_fault() {
    // MBC1 whose header claims four banks while the image holds two: select bank 3, then
    // start an OAM DMA from page 0x40, which reads the missing bank.
    let program = [0x3E, 0x03, 0xEA, 0x00, 0x20, 0x3E, 0x40, 0xE0, 0x46];
    let mut bytes = image_of_type(0x01, &program);
    bytes[0x148] = 0x01;
    let rom = ROM::new("dma.gb".to_string(), bytes);
    let mut emulator = Emulator::new(None, &rom, None, None);
    assert_eq!(emulator.cycle(), Ok(false));
    assert_eq!(emulator.cycle(), Ok(false));
    assert_eq!(emulator.cycle(), Ok(false));
    assert_eq!(emulator.cycle(), Err(Fault::DmaSource));
}

#[test]
fn emulator_reports_an_interrupt_push_fault() {
    // MBC1 with 2 KiB of RAM: enable it, put SP past its end, request and enable the timer
    // interrupt, then EI: the push of PC has nowhere to go.
    let program = [
        0x3E, 0x0A, 0xEA, 0x00, 0x00, // LD A,0x0A; LD (0x0000),A
        0x31, 0x02, 0xA8, // LD SP,0xA802
        0x3E, 0x04, 0xE0, 0xFF, 0xE0, 0x0F, // LD A,4; LDH (0xFF),A; LDH (0x0F),A
        0xFB, 0x00, // EI; NOP
    ];
    let mut bytes = image_of_type(0x02, &program);
    bytes[0x149] = 0x01;
    let rom = ROM::new("push.gb".to_string(), bytes);
    let mut emulator = Emulator::new(None, &rom, None, None);
    for _ in 0..6 {
        assert_eq!(emulator.cycle(), Ok(false));
    }
    assert_eq!(emulator.cycle(), Err(Fault::InterruptPush));
}

#[test]
fn timer_counts_every_clock_of_an_instruction() {
    // NOPs everywhere: each takes 4 clocks; at 262144 Hz TIMA counts every 16 clocks.
    let rom = rom_with(&[]);
    let mut emulator = Emulator::new(None, &rom, None, None);
    emulator.memory_bus.write_byte(0xFF07, 0x05);
    for _ in 0..8 {
        assert_eq!(emulator.cycle(), Ok(false));
    }
    assert_eq!(emulator.memory_bus.read_byte(0xFF05), 2);
    assert_eq!(emulator.memory_bus.dmg_io.timer.internal_div_counter, 32);
}
