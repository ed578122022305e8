pub mod interrupts;
pub mod timer;
pub mod dma;
pub mod joypad;
pub mod lcd;
pub mod rom;
pub mod mbc;
pub mod mbc0;
pub mod mbc1;
pub mod mbc2;
pub mod mbc3;
pub mod mbc5;
pub mod mbc_factory;
pub mod registers;
pub mod alu;
pub mod tiles;
pub mod ppu;
pub mod apu;
pub mod io;
pub mod memory_bus;
pub mod cpu;
pub mod emulator;
pub mod rom_debug;
pub mod mmu;
pub mod pixel_fifo;
pub mod config;
pub mod rom_text;
