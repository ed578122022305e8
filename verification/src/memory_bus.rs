use vstd::prelude::*;

use crate::dma::Dma;
use crate::interrupts::{Interrupt, flags_byte, flags_of_byte, with_flag, InterruptFlags};
use crate::io::IO;
use crate::mbc::{MBC, bank_value, banks_view, zeroed};
use crate::mbc_factory::{Cartridge, create_mbc};
use crate::ppu::Ppu;
use crate::rom::{ROM, ROMBanks, banks_of};

verus! {

pub const BOOT_ROM_END: u16 = 0x00FF;
pub const BOOT_ROM_SIZE: usize = 0x100;
pub const ROM_BANK_0_END: u16 = 0x3FFF;
pub const ROM_BANK_SIZE: usize = 0x4000;
pub const ROM_BANK_N_END: u16 = 0x7FFF;
pub const VRAM_START: u16 = 0x8000;
pub const VRAM_END: u16 = 0x9FFF;
pub const EXTERNAL_RAM_END: u16 = 0xBFFF;
pub const WRAM_0_START: u16 = 0xC000;
pub const WRAM_0_END: u16 = 0xCFFF;
pub const WRAM_0_SIZE: usize = 0x2000;
pub const WRAM_1_START: u16 = 0xD000;
pub const WRAM_1_END: u16 = 0xDFFF;
pub const WRAM_1_SIZE: usize = 0x1000;
pub const ECHO_RAM_START: u16 = 0xE000;
pub const ECHO_RAM_END: u16 = 0xFDFF;
pub const ECHO_RAM_SIZE: usize = 0x1E00;
pub const OAM_START: u16 = 0xFE00;
pub const OAM_END: u16 = 0xFE9F;
pub const UNUSED_END: u16 = 0xFEFF;
pub const IO_REGISTERS_END: u16 = 0xFF7F;
pub const HRAM_START: u16 = 0xFF80;
pub const HRAM_END: u16 = 0xFFFE;
pub const HRAM_SIZE: usize = 0x7F;
pub const INTERRUPT_ENABLE_REGISTER: u16 = 0xFFFF;
pub const ROM_BANK_SELECT_START: u16 = 0x2000;
pub const IF_REGISTER: u16 = 0xFF0F;
pub const BOOT_ROM_DISABLE: u16 = 0xFF50;
pub const DMA_TRANSFER: u16 = 0xFF46;

/// The IF byte with the request bit of `interrupt` set (the three unused bits are dropped).
pub open spec fn raised(flags: u8, interrupt: Interrupt) -> u8 {
    flags_byte(with_flag(flags_of_byte(flags), interrupt, true))
}

/// A 16 KiB window onto `banks[index]`, padded with zeros; `old` when there is no such bank.
pub open spec fn refreshed(old: Seq<u8>, banks: Seq<Seq<u8>>, index: int) -> Seq<u8> {
    if 0 <= index < banks.len() {
        Seq::new(0x4000, |i: int| if i < banks[index].len() { banks[index][i] } else { 0u8 })
    } else {
        old
    }
}

/// The interrupt that a write to an I/O register requests: a TIMA overflow on a TAC write.
pub open spec fn io_write_interrupt(io: &IO, address: u16, value: u8) -> Option<Interrupt> {
    if address == 0xFF07 && io.timer.tac_written(value).1 {
        Some(Interrupt::TIMER)
    } else {
        None
    }
}

/// The 64 KiB address space of the DMG: cartridge, video and work memory, I/O, the interrupt
/// registers and the boot ROM overlay.
pub struct MemoryBus {
    pub boot_rom: Vec<u8>,
    pub rom_banks: ROMBanks,
    pub rom_bank_0: Vec<u8>,
    pub rom_bank_n: Vec<u8>,
    pub wram_0: Vec<u8>,
    pub wram_1: Vec<u8>,
    pub echo_ram: Vec<u8>,
    pub hram: Vec<u8>,
    pub dmg_io: IO,
    pub dma: Dma,
    pub boot_rom_enabled: bool,
    pub interrupt_master_enable: bool,
    pub enabling_ime: bool,
    pub interrupt_enable_register: u8,
    pub interrupt_flags: u8,
    pub mbc: Cartridge,
}

impl MemoryBus {
    pub open spec fn wf(&self) -> bool {
        &&& self.rom_bank_0@.len() == 0x4000
        &&& self.rom_bank_n@.len() == 0x4000
        &&& self.wram_0@.len() == 0x2000
        &&& self.wram_1@.len() == 0x1000
        &&& self.echo_ram@.len() == 0x1E00
        &&& self.hram@.len() == 0x7F
        &&& self.dmg_io.wf()
        &&& self.dma.wf()
        &&& self.mbc.wf()
    }

    /// Whether an address falls in the boot ROM overlay.
    pub open spec fn in_boot_rom(&self, address: u16) -> bool {
        self.boot_rom_enabled && address <= 0xFF
    }

    /// Whether an address goes to the cartridge.
    pub open spec fn to_cartridge(&self, address: u16) -> bool {
        !self.in_boot_rom(address) && (address <= 0x7FFF || 0xA000 <= address <= 0xBFFF)
    }

    /// Whether reading `address` completes.
    pub open spec fn read_ok(&self, address: u16) -> bool {
        if self.in_boot_rom(address) {
            address < self.boot_rom@.len()
        } else if self.to_cartridge(address) {
            self.mbc.read_ok(address)
        } else {
            true
        }
    }

    /// Whether writing `address` completes.
    pub open spec fn write_ok(&self, address: u16) -> bool {
        if self.in_boot_rom(address) {
            address < self.boot_rom@.len()
        } else if self.to_cartridge(address) {
            self.mbc.write_ok(address)
        } else {
            true
        }
    }

    /// The byte read at `address` when the DMA activity is `dma_active` and OAM holds `oam`.
    pub open spec fn read_at(&self, address: u16, dma_active: bool, oam: Seq<u8>) -> u8 {
        if address <= 0x7FFF {
            if self.in_boot_rom(address) {
                self.boot_rom@[address as int]
            } else {
                self.mbc.read_value(address)
            }
        } else if address <= 0x9FFF {
            self.dmg_io.ppu.vram_at(address as int)
        } else if address <= 0xBFFF {
            self.mbc.read_value(address)
        } else if address <= 0xCFFF {
            self.wram_0@[address - 0xC000]
        } else if address <= 0xDFFF {
            self.wram_1@[address - 0xD000]
        } else if address <= 0xFDFF {
            self.echo_ram@[address - 0xE000]
        } else if address <= 0xFE9F {
            if dma_active {
                0xFF
            } else {
                oam[address - 0xFE00]
            }
        } else if address <= 0xFEFF {
            0xFF
        } else if address <= 0xFF7F {
            if address == 0xFF0F {
                self.interrupt_flags
            } else {
                self.dmg_io.register(address)
            }
        } else if address <= 0xFFFE {
            self.hram@[address - 0xFF80]
        } else {
            self.interrupt_enable_register
        }
    }

    /// The byte read at `address`.
    pub open spec fn read_value(&self, address: u16) -> u8 {
        self.read_at(address, self.dma.active, self.dmg_io.ppu.oam_ram@)
    }

    /// Whether `self` is the bus after `value` is written at `address`. The interrupt enable
    /// latches are never changed by a write.
    pub open spec fn written(&self, old: &MemoryBus, address: u16, value: u8) -> bool {
        &&& self.interrupt_master_enable == old.interrupt_master_enable
        &&& self.enabling_ime == old.enabling_ime
        &&& self.write_effect(old, address, value)
    }

    /// What a write changes, region by region.
    pub open spec fn write_effect(&self, old: &MemoryBus, address: u16, value: u8) -> bool {
        if address <= 0x7FFF {
            if old.in_boot_rom(address) {
                &&& *self == MemoryBus { boot_rom: self.boot_rom, ..*old }
                &&& self.boot_rom@ == old.boot_rom@.update(address as int, value)
            } else {
                &&& *self == MemoryBus { mbc: self.mbc, rom_bank_0: self.rom_bank_0, rom_bank_n: self.rom_bank_n, ..*old }
                &&& self.mbc.written(&old.mbc, address, value)
                &&& address >= 0x2000 ==> self.rom_bank_0@ == refreshed(old.rom_bank_0@, banks_view(old.rom_banks.data@), 0)
                    && self.rom_bank_n@ == refreshed(old.rom_bank_n@, banks_view(old.rom_banks.data@), self.mbc.rom_bank() as int)
                &&& address < 0x2000 ==> self.rom_bank_0@ == old.rom_bank_0@ && self.rom_bank_n@ == old.rom_bank_n@
            }
        } else if address <= 0x9FFF {
            &&& *self == MemoryBus { dmg_io: self.dmg_io, ..*old }
            &&& self.dmg_io == IO { ppu: self.dmg_io.ppu, ..old.dmg_io }
            &&& self.dmg_io.ppu == Ppu { vram: self.dmg_io.ppu.vram, ..old.dmg_io.ppu }
            &&& self.dmg_io.ppu.vram@ == old.dmg_io.ppu.vram@.update(address - 0x8000, value)
        } else if address <= 0xBFFF {
            *self == MemoryBus { mbc: self.mbc, ..*old } && self.mbc.written(&old.mbc, address, value)
        } else if address <= 0xCFFF {
            *self == MemoryBus { wram_0: self.wram_0, ..*old } && self.wram_0@ == old.wram_0@.update(address - 0xC000, value)
        } else if address <= 0xDFFF {
            *self == MemoryBus { wram_1: self.wram_1, ..*old } && self.wram_1@ == old.wram_1@.update(address - 0xD000, value)
        } else if address <= 0xFDFF {
            *self == MemoryBus { echo_ram: self.echo_ram, ..*old } && self.echo_ram@ == old.echo_ram@.update(address - 0xE000, value)
        } else if address <= 0xFE9F {
            let p = old.dmg_io.ppu;
            if old.dma.active || p.mode == 2 || p.mode == 3 {
                *self == *old
            } else {
                &&& *self == MemoryBus { dmg_io: self.dmg_io, ..*old }
                &&& self.dmg_io == IO { ppu: self.dmg_io.ppu, ..old.dmg_io }
                &&& self.dmg_io.ppu == Ppu { oam_ram: self.dmg_io.ppu.oam_ram, ..p }
                &&& self.dmg_io.ppu.oam_ram@ == p.oam_ram@.update(address - 0xFE00, value)
            }
        } else if address <= 0xFEFF {
            *self == *old
        } else if address <= 0xFF7F {
            if address == 0xFF0F {
                *self == MemoryBus { interrupt_flags: value, ..*old }
            } else if address == 0xFF50 {
                *self == MemoryBus { boot_rom_enabled: false, ..*old }
            } else if address == 0xFF46 {
                *self == MemoryBus { dma: Dma { active: true, dma_byte: 0, dma_delay: 2, dma_value: value }, ..*old }
            } else {
                let i = io_write_interrupt(&old.dmg_io, address, value);
                &&& *self == MemoryBus { dmg_io: self.dmg_io, interrupt_flags: self.interrupt_flags, ..*old }
                &&& self.dmg_io.written(&old.dmg_io, address, value, i)
                &&& self.interrupt_flags == (match i {
                    Some(irq) => raised(old.interrupt_flags, irq),
                    None => old.interrupt_flags,
                })
            }
        } else if address <= 0xFFFE {
            *self == MemoryBus { hram: self.hram, ..*old } && self.hram@ == old.hram@.update(address - 0xFF80, value)
        } else {
            *self == MemoryBus { interrupt_enable_register: value, ..*old }
        }
    }

    /// Whether reading `address` completes.
    pub fn can_read(&self, address: u16) -> (r: bool)
        requires
            self.wf(),
        ensures
            r == self.read_ok(address),
    {
        if self.boot_rom_enabled && address <= BOOT_ROM_END {
            (address as usize) < self.boot_rom.len()
        } else if address <= ROM_BANK_N_END || (0xA000 <= address && address <= EXTERNAL_RAM_END) {
            self.mbc.can_read(address)
        } else {
            true
        }
    }

    /// Whether writing `address` completes.
    pub fn can_write(&self, address: u16) -> (r: bool)
        requires
            self.wf(),
        ensures
            r == self.write_ok(address),
    {
        if self.boot_rom_enabled && address <= BOOT_ROM_END {
            (address as usize) < self.boot_rom.len()
        } else if address <= ROM_BANK_N_END || (0xA000 <= address && address <= EXTERNAL_RAM_END) {
            self.mbc.can_write(address)
        } else {
            true
        }
    }

    /// Whether every source byte of the next `n` DMA ticks can be read.
    pub fn dma_can_read(&self, n: u8) -> (r: bool)
        requires
            self.wf(),
        ensures
            r == self.dma_reads_ok(self.dma, n as nat),
    {
        let mut dma = self.dma;
        let mut i: u8 = 0;
        while i < n
            invariant
                self.wf(),
                dma.wf(),
                i <= n,
                self.dma_reads_ok(self.dma, n as nat) == self.dma_reads_ok(dma, (n - i) as nat),
            decreases n - i,
        {
            let r = dma.dma_tick();
            match r {
                Some(p) => {
                    if !self.can_read(p.0) {
                        return false;
                    }
                },
                None => {},
            }
            i = i + 1;
        }
        true
    }

    /// Reads one byte.
    pub fn read_byte(&self, address: u16) -> (r: u8)
        requires
            self.wf(),
            self.read_ok(address),
        ensures
            r == self.read_value(address),
    {
        if address <= ROM_BANK_N_END {
            if self.boot_rom_enabled && address <= BOOT_ROM_END {
                self.boot_rom[address as usize]
            } else {
                self.mbc.read_byte(address)
            }
        } else if address <= VRAM_END {
            self.dmg_io.ppu.vram_read(address)
        } else if address <= EXTERNAL_RAM_END {
            self.mbc.read_byte(address)
        } else if address <= WRAM_0_END {
            self.wram_0[(address - WRAM_0_START) as usize]
        } else if address <= WRAM_1_END {
            self.wram_1[(address - WRAM_1_START) as usize]
        } else if address <= ECHO_RAM_END {
            self.echo_ram[(address - ECHO_RAM_START) as usize]
        } else if address <= OAM_END {
            if self.dma.is_transferring() {
                return 0xFF;
            }
            self.dmg_io.ppu.oam_read(address - OAM_START)
        } else if address <= UNUSED_END {
            0xFF
        } else if address <= IO_REGISTERS_END {
            if address == IF_REGISTER {
                return self.interrupt_flags;
            }
            self.dmg_io.read(address)
        } else if address <= HRAM_END {
            self.hram[(address - HRAM_START) as usize]
        } else {
            self.interrupt_enable_register
        }
    }

    /// Copies bank 0 and the selected bank into the visible 16 KiB windows, padding short banks
    /// with zeros.
    pub fn update_visible_banks(&mut self)
        requires
            old(self).wf(),
        ensures
            *final(self) == (MemoryBus { rom_bank_0: final(self).rom_bank_0, rom_bank_n: final(self).rom_bank_n, ..*old(self) }),
            final(self).rom_bank_0@ == refreshed(old(self).rom_bank_0@, banks_view(old(self).rom_banks.data@), 0),
            final(self).rom_bank_n@ == refreshed(
                old(self).rom_bank_n@,
                banks_view(old(self).rom_banks.data@),
                old(self).mbc.rom_bank() as int,
            ),
            final(self).wf(),
    {
        let rom_bank = self.mbc.get_rom_bank();
        if 0 < self.rom_banks.data.len() {
            let w = copy_window(&self.rom_banks.data[0]);
            self.rom_bank_0 = w;
        }
        if rom_bank < self.rom_banks.data.len() {
            let w = copy_window(&self.rom_banks.data[rom_bank]);
            self.rom_bank_n = w;
        }
    }
}

/// The first 16 KiB of a bank, padded with zeros.
fn copy_window(bank: &Vec<u8>) -> (r: Vec<u8>)
    ensures
        r@ == Seq::new(0x4000, |i: int| if i < bank@.len() { bank@[i] } else { 0u8 }),
{
    let mut w: Vec<u8> = Vec::new();
    let mut i: usize = 0;
    while i < ROM_BANK_SIZE
        invariant
            i <= 0x4000,
            w@ == Seq::new(i as nat, |j: int| if j < bank@.len() { bank@[j] } else { 0u8 }),
        decreases 0x4000 - i,
    {
        let b = if i < bank.len() { bank[i] } else { 0 };
        w.push(b);
        i = i + 1;
        assert(w@ =~= Seq::new(i as nat, |j: int| if j < bank@.len() { bank@[j] } else { 0u8 }));
    }
    w
}

impl MemoryBus {
    /// Writes one byte.
    pub fn write_byte(&mut self, address: u16, value: u8)
        requires
            old(self).wf(),
            old(self).write_ok(address),
        ensures
            final(self).written(old(self), address, value),
            final(self).wf(),
    {
        if address <= ROM_BANK_N_END {
            if self.boot_rom_enabled && address <= BOOT_ROM_END {
                self.boot_rom.set(address as usize, value);
            } else {
                self.mbc.write_byte(address, value);
                if address >= ROM_BANK_SELECT_START {
                    self.update_visible_banks();
                }
            }
        } else if address <= VRAM_END {
            let ghost io0 = self.dmg_io;
            self.dmg_io.ppu.vram_write(address, value);
            assert(self.dmg_io == IO { ppu: self.dmg_io.ppu, ..io0 });
        } else if address <= EXTERNAL_RAM_END {
            self.mbc.write_byte(address, value);
        } else if address <= WRAM_0_END {
            self.wram_0.set((address - WRAM_0_START) as usize, value);
        } else if address <= WRAM_1_END {
            self.wram_1.set((address - WRAM_1_START) as usize, value);
        } else if address <= ECHO_RAM_END {
            self.echo_ram.set((address - ECHO_RAM_START) as usize, value);
        } else if address <= OAM_END {
            if !self.dma.is_transferring() {
                self.dmg_io.ppu.oam_write(address - OAM_START, value);
            }
        } else if address <= UNUSED_END {
        } else if address <= IO_REGISTERS_END {
            if address == IF_REGISTER {
                self.interrupt_flags = value;
            } else if address == BOOT_ROM_DISABLE {
                self.boot_rom_enabled = false;
            } else if address == DMA_TRANSFER {
                self.dma.dma_start(value);
            } else {
                let interrupt = self.dmg_io.write(address, value);
                match interrupt {
                    Some(i) => {
                        self.trigger_interrupt(i);
                    },
                    None => {},
                }
            }
        } else if address <= HRAM_END {
            self.hram.set((address - HRAM_START) as usize, value);
        } else {
            self.interrupt_enable_register = value;
        }
    }

    /// Raises the request flag of an interrupt in IF.
    pub fn trigger_interrupt(&mut self, interrupt: Interrupt)
        ensures
            *final(self) == (MemoryBus { interrupt_flags: raised(old(self).interrupt_flags, interrupt), ..*old(self) }),
    {
        let mut interrupts = InterruptFlags::from(self.interrupt_flags);
        match interrupt {
            Interrupt::VBLANK => interrupts.vblank = true,
            Interrupt::LCDSTAT => interrupts.lcd_stat = true,
            Interrupt::TIMER => interrupts.timer = true,
            Interrupt::SERIAL => interrupts.serial = true,
            Interrupt::JOYPAD => interrupts.joypad = true,
        }
        self.interrupt_flags = u8::from(interrupts);
    }

    /// Reads a little-endian 16-bit value at `address` and the address after it.
    pub fn read_short(&self, address: u16) -> (r: u16)
        requires
            self.wf(),
            self.read_ok(address),
            self.read_ok(address.wrapping_add(1)),
        ensures
            r == crate::registers::pair(self.read_value(address.wrapping_add(1)), self.read_value(address)),
    {
        let lsb = self.read_byte(address);
        let msb = self.read_byte(address.wrapping_add(1));
        crate::registers::make_pair(msb, lsb)
    }

    /// Writes a little-endian 16-bit value: the low byte at `address`, then the high byte after it.
    pub fn write_short(&mut self, address: u16, value: u16)
        requires
            old(self).wf(),
            old(self).write_ok(address),
            old(self).write_ok(address.wrapping_add(1)),
        ensures
            final(self).wf(),
            exists|mid: MemoryBus|
                #![trigger mid.written(old(self), address, crate::registers::low_byte(value))]
                mid.wf() && mid.written(old(self), address, crate::registers::low_byte(value))
                    && final(self).written(&mid, address.wrapping_add(1), crate::registers::high_byte(value)),
    {
        let (msb, lsb) = crate::registers::split_pair(value);
        self.write_byte(address, lsb);
        let ghost mid = *self;
        proof {
            lemma_write_keeps_write_ok(*old(self), mid, address, lsb);
        }
        self.write_byte(address.wrapping_add(1), msb);
        assert(mid.wf() && mid.written(old(self), address, lsb) && self.written(&mid, address.wrapping_add(1), msb));
    }
}

impl MemoryBus {
    /// OAM and the DMA engine after `n` DMA ticks starting from `dma` and `oam`, each copy
    /// reading the bus as it stands.
    pub open spec fn dma_copied(&self, dma: Dma, oam: Seq<u8>, n: nat) -> (Dma, Seq<u8>)
        decreases n,
    {
        if n == 0 {
            (dma, oam)
        } else {
            let (d2, r) = dma.ticked();
            let oam2 = match r {
                Some(p) => oam.update(p.1 as int, self.read_at(p.0, d2.active, oam)),
                None => oam,
            };
            self.dma_copied(d2, oam2, (n - 1) as nat)
        }
    }

    /// Whether every source byte of the next `n` DMA ticks from `dma` can be read.
    pub open spec fn dma_reads_ok(&self, dma: Dma, n: nat) -> bool
        decreases n,
    {
        if n == 0 {
            true
        } else {
            let (d2, r) = dma.ticked();
            (r matches Some(p) ==> self.read_ok(p.0)) && self.dma_reads_ok(d2, (n - 1) as nat)
        }
    }

    /// The bus after the timer has run `cycles` clocks, with a TIMER request on an overflow.
    pub open spec fn timer_stepped(self, cycles: u8) -> MemoryBus {
        let (t, overflow) = self.dmg_io.timer.run(cycles as nat);
        MemoryBus {
            dmg_io: IO { timer: t, ..self.dmg_io },
            interrupt_flags: if overflow { raised(self.interrupt_flags, Interrupt::TIMER) } else { self.interrupt_flags },
            ..self
        }
    }

    /// Advances the timer and the OAM DMA engine by the `cpu_cycles` clocks an instruction took.
    pub fn cycle(&mut self, cpu_cycles: u8)
        requires
            old(self).wf(),
            old(self).dma_reads_ok(old(self).dma, cpu_cycles as nat),
        ensures
            final(self).wf(),
            ({
                let b1 = old(self).timer_stepped(cpu_cycles);
                let (d, oam) = b1.dma_copied(b1.dma, b1.dmg_io.ppu.oam_ram@, cpu_cycles as nat);
                &&& *final(self) == (MemoryBus {
                    dmg_io: IO { ppu: Ppu { oam_ram: final(self).dmg_io.ppu.oam_ram, ..b1.dmg_io.ppu }, ..b1.dmg_io },
                    dma: d,
                    ..b1
                })
                &&& final(self).dmg_io.ppu.oam_ram@ == oam
            }),
    {
        if self.dmg_io.timer.cycle(cpu_cycles) {
            self.trigger_interrupt(Interrupt::TIMER);
        }
        let ghost b1 = *self;
        assert(b1 == old(self).timer_stepped(cpu_cycles));
        proof {
            lemma_dma_reads_ok_same(*old(self), b1, old(self).dma, cpu_cycles as nat);
        }
        let mut i: u8 = 0;
        while i < cpu_cycles
            invariant
                b1.wf(),
                self.wf(),
                i <= cpu_cycles,
                b1.dma_copied(b1.dma, b1.dmg_io.ppu.oam_ram@, cpu_cycles as nat) == b1.dma_copied(
                    self.dma,
                    self.dmg_io.ppu.oam_ram@,
                    (cpu_cycles - i) as nat,
                ),
                b1.dma_reads_ok(self.dma, (cpu_cycles - i) as nat),
                *self == (MemoryBus {
                    dmg_io: IO { ppu: Ppu { oam_ram: self.dmg_io.ppu.oam_ram, ..b1.dmg_io.ppu }, ..b1.dmg_io },
                    dma: self.dma,
                    ..b1
                }),
            decreases cpu_cycles - i,
        {
            let r = self.dma.dma_tick();
            match r {
                Some(p) => {
                    let (src, dst) = p;
                    proof {
                        assert(self.read_ok(src) == b1.read_ok(src));
                    }
                    let value = self.read_byte(src);
                    assert(value == b1.read_at(src, self.dma.active, self.dmg_io.ppu.oam_ram@));
                    self.dmg_io.ppu.oam_dma_write(dst, value);
                },
                None => {},
            }
            i = i + 1;
        }
    }

    /// Copies the first two 16 KiB of an image into the visible bank windows.
    pub fn load_rom(&mut self, rom: &Vec<u8>)
        requires
            old(self).wf(),
        ensures
            *final(self) == (MemoryBus { rom_bank_0: final(self).rom_bank_0, rom_bank_n: final(self).rom_bank_n, ..*old(self) }),
            final(self).rom_bank_0@ == Seq::new(
                0x4000,
                |i: int| if i < rom@.len() { rom@[i] } else { old(self).rom_bank_0@[i] },
            ),
            final(self).rom_bank_n@ == Seq::new(
                0x4000,
                |i: int| if 0x4000 + i < rom@.len() { rom@[0x4000 + i] } else { old(self).rom_bank_n@[i] },
            ),
            final(self).wf(),
    {
        let ghost b0 = self.rom_bank_0@;
        let ghost bn = self.rom_bank_n@;
        let mut i: usize = 0;
        while i < ROM_BANK_SIZE
            invariant
                i <= 0x4000,
                *self == (MemoryBus { rom_bank_0: self.rom_bank_0, rom_bank_n: self.rom_bank_n, ..*old(self) }),
                self.rom_bank_n@ == bn,
                b0 == old(self).rom_bank_0@,
                bn == old(self).rom_bank_n@,
                self.rom_bank_0@.len() == 0x4000,
                forall|j: int| 0 <= j < i ==> self.rom_bank_0@[j] == (if j < rom@.len() { rom@[j] } else { b0[j] }),
                forall|j: int| i <= j < 0x4000 ==> self.rom_bank_0@[j] == b0[j],
            decreases 0x4000 - i,
        {
            if i < rom.len() {
                self.rom_bank_0.set(i, rom[i]);
            }
            i = i + 1;
        }
        let mut k: usize = 0;
        while k < ROM_BANK_SIZE
            invariant
                k <= 0x4000,
                *self == (MemoryBus { rom_bank_0: self.rom_bank_0, rom_bank_n: self.rom_bank_n, ..*old(self) }),
                bn == old(self).rom_bank_n@,
                self.rom_bank_0@ == Seq::new(0x4000, |i: int| if i < rom@.len() { rom@[i] } else { b0[i] }),
                b0 == old(self).rom_bank_0@,
                self.rom_bank_n@.len() == 0x4000,
                forall|j: int| 0 <= j < k ==> self.rom_bank_n@[j] == (if 0x4000 + j < rom@.len() { rom@[0x4000 + j] } else { bn[j] }),
                forall|j: int| k <= j < 0x4000 ==> self.rom_bank_n@[j] == bn[j],
            decreases 0x4000 - k,
        {
            if k < rom.len() && ROM_BANK_SIZE < rom.len() - k {
                self.rom_bank_n.set(k, rom[ROM_BANK_SIZE + k]);
            }
            k = k + 1;
        }
        assert(self.rom_bank_0@ =~= Seq::new(0x4000, |i: int| if i < rom@.len() { rom@[i] } else { b0[i] }));
        assert(self.rom_bank_n@ =~= Seq::new(0x4000, |i: int| if 0x4000 + i < rom@.len() { rom@[0x4000 + i] } else { bn[i] }));
    }
}

impl MemoryBus {
    /// Whether `self` is the bus that `new` builds over `rom` with boot ROM `boot`: the
    /// cartridge as `create_mbc` makes it, cleared RAM, no DMA, interrupts off, the PPU at the
    /// start of a frame.
    pub open spec fn initial(&self, boot: Option<Seq<u8>>, rom: ROM) -> bool {
        &&& self.wf()
        &&& self.boot_rom_enabled == boot is Some
        &&& self.boot_rom@ == (match boot {
            Some(b) => b,
            None => Seq::new(0x100, |i: int| 0u8),
        })
        &&& self.rom_banks.banks() == banks_of(rom.rom@)
        &&& self.mbc.fresh_for(rom)
        &&& self.wram_0@ == Seq::new(0x2000, |i: int| 0u8)
        &&& self.wram_1@ == Seq::new(0x1000, |i: int| 0u8)
        &&& self.echo_ram@ == Seq::new(0x1E00, |i: int| 0u8)
        &&& self.hram@ == Seq::new(0x7F, |i: int| 0u8)
        &&& !self.dma.active
        &&& !self.interrupt_master_enable && !self.enabling_ime
        &&& self.interrupt_enable_register == 0 && self.interrupt_flags == 0
        &&& self.dmg_io.ppu.mode == 2 && self.dmg_io.ppu.lcdc == 0x91 && self.dmg_io.ppu.ly == 0
    }

    /// A bus over `rom`, with `boot_rom` overlaid at 0x0000-0x00FF when given and the cartridge
    /// RAM and clock contents that were saved, if any.
    pub fn new(boot_rom: Option<Vec<u8>>, rom: &ROM, saved_ram: Option<Vec<u8>>, saved_rtc: Option<Vec<u8>>) -> (r: MemoryBus)
        requires
            crate::mbc::mbc_type_of(rom.cartridge_type) is Some,
            rom.rom@.len() > 0,
        ensures
            r.initial(
                match boot_rom {
                    Some(b) => Some(b@),
                    None => None,
                },
                *rom,
            ),
            forall|a: u16|
                #![trigger r.read_value(a)]
                (a as int) < 0x4000 && (a as int) < rom.rom@.len() && !r.in_boot_rom(a) ==> r.read_value(a)
                    == rom.rom@[a as int],
    {
        let mbc = create_mbc(rom, saved_ram, saved_rtc);
        let boot_rom_enabled = boot_rom.is_some();
        let boot = match boot_rom {
            Some(b) => b,
            None => zeroed(BOOT_ROM_SIZE),
        };
        let mut memory_bus = MemoryBus {
            boot_rom_enabled,
            boot_rom: boot,
            rom_banks: rom.load_rom_to_banks(),
            rom_bank_0: zeroed(ROM_BANK_SIZE),
            rom_bank_n: zeroed(ROM_BANK_SIZE),
            wram_0: zeroed(WRAM_0_SIZE),
            wram_1: zeroed(WRAM_1_SIZE),
            echo_ram: zeroed(ECHO_RAM_SIZE),
            hram: zeroed(HRAM_SIZE),
            dmg_io: IO::new(),
            dma: Dma::new(),
            interrupt_master_enable: false,
            enabling_ime: false,
            interrupt_enable_register: 0,
            interrupt_flags: 0,
            mbc,
        };
        memory_bus.load_rom(&rom.rom);
        memory_bus.update_visible_banks();
        proof {
            lemma_first_bank_reads_image(memory_bus.mbc, rom.rom@);
        }
        memory_bus
    }
}

/// A cartridge over the banks of `image` reads byte `a` of the first 16 KiB as the image's byte.
proof fn lemma_first_bank_reads_image(c: Cartridge, image: Seq<u8>)
    requires
        image.len() > 0,
        match c {
            Cartridge::RomOnly(m) => m.rom_banks.banks() == banks_of(image),
            Cartridge::Mbc1(m) => m.rom_banks.banks() == banks_of(image),
            Cartridge::Mbc2(m) => m.rom_banks.banks() == banks_of(image),
            Cartridge::Mbc3(m) => m.rom_banks.banks() == banks_of(image),
            Cartridge::Mbc5(m) => m.rom_banks.banks() == banks_of(image),
        },
    ensures
        forall|a: u16| (a as int) < 0x4000 && (a as int) < image.len() ==> #[trigger] c.read_value(a) == image[a as int],
{
    let banks = banks_of(image);
    assert(banks.len() >= 1);
    assert forall|a: u16| (a as int) < 0x4000 && (a as int) < image.len() implies #[trigger] c.read_value(a) == image[a as int] by {
        assert(bank_value(banks, 0, a as int) == image[a as int]);
        match c {
            Cartridge::RomOnly(m) => assert(banks_view(m.rom_banks.data@) =~= banks),
            Cartridge::Mbc1(m) => assert(banks_view(m.rom_banks.data@) =~= banks),
            Cartridge::Mbc2(m) => assert(banks_view(m.rom_banks.data@) =~= banks),
            Cartridge::Mbc3(m) => assert(banks_view(m.rom_banks.data@) =~= banks),
            Cartridge::Mbc5(m) => assert(banks_view(m.rom_banks.data@) =~= banks),
        }
    }
}

/// Whether DMA sources can be read depends only on what decides whether any address can be read.
proof fn lemma_dma_reads_ok_same(a: MemoryBus, b: MemoryBus, dma: Dma, n: nat)
    requires
        a.boot_rom_enabled == b.boot_rom_enabled,
        a.boot_rom == b.boot_rom,
        a.mbc == b.mbc,
        a.dma_reads_ok(dma, n),
    ensures
        b.dma_reads_ok(dma, n),
    decreases n,
{
    if n > 0 {
        let (d2, r) = dma.ticked();
        lemma_dma_reads_ok_same(a, b, d2, (n - 1) as nat);
    }
}

/// A write at `address` leaves writing the next address possible when it was possible before.
pub proof fn lemma_write_keeps_write_ok(old: MemoryBus, new: MemoryBus, address: u16, value: u8)
    requires
        old.wf(),
        new.written(&old, address, value),
        old.write_ok(address),
        old.write_ok(address.wrapping_add(1)),
    ensures
        new.write_ok(address.wrapping_add(1)),
{
    let next = address.wrapping_add(1);
    if address <= 0x7FFF {
        if !old.in_boot_rom(address) && 0xA000 <= next <= 0xBFFF {
            assert(false);
        }
    } else if 0xA000 <= address <= 0xBFFF {
        lemma_cartridge_ram_write_keeps_ok(old.mbc, new.mbc, address, value, next);
    }
}

/// A write to cartridge RAM leaves which RAM addresses can be read and written unchanged.
pub proof fn lemma_cartridge_ram_write_keeps_ok(old: Cartridge, new: Cartridge, address: u16, value: u8, other: u16)
    requires
        old.wf(),
        new.written(&old, address, value),
        old.write_ok(address),
        0xA000 <= address <= 0xBFFF,
    ensures
        new.write_ok(other) == old.write_ok(other),
        new.read_ok(other) == old.read_ok(other),
{
    match (new, old) {
        (Cartridge::Mbc3(n), Cartridge::Mbc3(o)) => {
            if 0xA000 <= address <= 0xBFFF && o.ram_enabled && o.has_ram {
                assert(n.sram.unwrap().data@.len() == o.sram.unwrap().data@.len());
            }
        },
        (Cartridge::Mbc5(n), Cartridge::Mbc5(o)) => {
            if o.ram_usable() {
                assert(n.sram.unwrap().data@.len() == o.sram.unwrap().data@.len());
            }
        },
        (Cartridge::Mbc1(n), Cartridge::Mbc1(o)) => {
            if o.ram_usable() {
                assert(n.sram.unwrap().data@.len() == o.sram.unwrap().data@.len());
            }
        },
        _ => {},
    }
}

/// Reading cartridge RAM gives back the byte last written there (the low four bits of it on an
/// MBC2, whose RAM is four bits wide).
pub proof fn lemma_cartridge_ram_read_after_write(old: Cartridge, new: Cartridge, address: u16, value: u8)
    requires
        old.wf(),
        new.written(&old, address, value),
        old.write_ok(address),
        old.ram_answers(address),
    ensures
        new.read_value(address) == (if old is Mbc2 { value & 0x0F } else { value }),
{
    match (new, old) {
        (Cartridge::RomOnly(n), Cartridge::RomOnly(o)) => {
            assert(n.read_value(address) == value);
        },
        (Cartridge::Mbc1(n), Cartridge::Mbc1(o)) => {
            assert(n.read_value(address) == value);
        },
        (Cartridge::Mbc2(n), Cartridge::Mbc2(o)) => {
            let (v, a) = (value, address);
            assert((v & 0x0F) & 0x0F == v & 0x0F && a & 0x01FF < 512) by (bit_vector);
            assert(n.read_value(address) == value & 0x0F);
        },
        (Cartridge::Mbc3(n), Cartridge::Mbc3(o)) => {
            assert(n.read_value(address) == value);
        },
        (Cartridge::Mbc5(n), Cartridge::Mbc5(o)) => {
            assert(n.read_value(address) == value);
        },
        _ => {},
    }
}

/// Whether an address is plain memory: video RAM, work RAM, echo RAM or high RAM.
pub open spec fn is_plain_ram(address: u16) -> bool {
    0x8000 <= address <= 0x9FFF || 0xC000 <= address <= 0xFDFF || 0xFF80 <= address <= 0xFFFE
}

/// Reading plain memory, IF or IE gives back the byte last written there.
pub proof fn lemma_read_after_write(old: MemoryBus, new: MemoryBus, address: u16, value: u8)
    requires
        old.wf(),
        new.written(&old, address, value),
        is_plain_ram(address) || address == 0xFF0F || address == 0xFFFF,
    ensures
        new.read_value(address) == value,
{
}

/// Through the bus, cartridge RAM gives back the byte last written there (four bits of it on
/// an MBC2).
pub proof fn lemma_bus_cartridge_ram_read_after_write(old: MemoryBus, new: MemoryBus, address: u16, value: u8)
    requires
        old.wf(),
        new.written(&old, address, value),
        old.write_ok(address),
        old.mbc.ram_answers(address),
    ensures
        new.read_value(address) == (if old.mbc is Mbc2 { value & 0x0F } else { value }),
{
    lemma_cartridge_ram_read_after_write(old.mbc, new.mbc, address, value);
}

/// A write leaves every other byte of plain memory as it was.
pub proof fn lemma_write_keeps_other_ram(old: MemoryBus, new: MemoryBus, address: u16, value: u8, other: u16)
    requires
        old.wf(),
        new.written(&old, address, value),
        is_plain_ram(other),
        other != address,
    ensures
        new.read_value(other) == old.read_value(other),
{
}

/// A 16-bit value written to plain memory, low byte first, is read back whole.
pub proof fn lemma_short_roundtrip(old: MemoryBus, mid: MemoryBus, new: MemoryBus, address: u16, value: u16)
    requires
        old.wf(),
        mid.wf(),
        mid.written(&old, address, crate::registers::low_byte(value)),
        new.written(&mid, address.wrapping_add(1), crate::registers::high_byte(value)),
        is_plain_ram(address),
        is_plain_ram(address.wrapping_add(1)),
    ensures
        crate::registers::pair(new.read_value(address.wrapping_add(1)), new.read_value(address)) == value,
{
    lemma_read_after_write(old, mid, address, crate::registers::low_byte(value));
    lemma_write_keeps_other_ram(mid, new, address.wrapping_add(1), crate::registers::high_byte(value), address);
    lemma_read_after_write(mid, new, address.wrapping_add(1), crate::registers::high_byte(value));
    crate::registers::lemma_pair_bytes(0, 0, value);
}

} // verus!
