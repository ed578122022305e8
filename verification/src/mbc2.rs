use vstd::prelude::*;

use crate::mbc::{
    MBC,
    SRAM,
    SaveFile,
    bank_value,
    banks_view,
    get_value_from_bank,
    INVALID_READ_VALUE,
};
use crate::rom::ROMBanks;

verus! {

pub const MBC2_RAM_SIZE: usize = 512;
pub const MBC2_RAM_ADDR_MASK: u16 = 0x01FF;
pub const ROM_BANK_BITS_MASK: u8 = 0x0F;
pub const RAM_ENABLE_MASK: u8 = 0x0F;
pub const RAM_ENABLE_VALUE: u8 = 0x0A;
pub const RAM_DATA_MASK: u8 = 0x0F;
pub const BANK_SELECT_BIT: u16 = 0x0100;

/// The MBC2 controller: up to 16 ROM banks and 512 half-bytes of built-in RAM,
/// kept only when the cartridge has a battery.
pub struct MBC2 {
    pub rom_banks: ROMBanks,
    pub sram: Option<SRAM>,
    pub rom_bank: usize,
    pub ram_enabled: bool,
    pub has_battery: bool,
}

impl MBC2 {
    /// The ROM bank that 0x4000-0x7FFF shows: the low four bits of the bank number.
    pub open spec fn selected_rom_bank(&self) -> usize {
        self.rom_bank & 0x0F
    }

    /// A controller over `rom_banks`; with a battery it has 512 bytes of RAM, `saved` when of that size.
    pub fn new(rom_banks: ROMBanks, has_battery: bool, save_file_path: String, saved: Option<Vec<u8>>) -> (r: MBC2)
        ensures
            r.wf(),
            r.rom_banks == rom_banks,
            r.rom_bank == 1 && !r.ram_enabled,
            r.has_battery == has_battery,
            has_battery ==> (r.sram matches Some(s) && !s.dirty && s.save_file_path@ == save_file_path@
                && s.data@ == (match saved {
                Some(d) => if d@.len() == 512 {
                    d@
                } else {
                    Seq::new(512, |i: int| 0u8)
                },
                None => Seq::new(512, |i: int| 0u8),
            })),
    {
        let sram = if has_battery {
            Some(SRAM::new(MBC2_RAM_SIZE, save_file_path, saved))
        } else {
            None
        };
        MBC2 { rom_banks, sram, rom_bank: 1, ram_enabled: false, has_battery }
    }

    /// The ROM bank that 0x4000-0x7FFF shows.
    pub fn get_selected_rom_bank(&self) -> (r: usize)
        ensures
            r == self.selected_rom_bank(),
    {
        self.rom_bank & 0x0F
    }
}

impl MBC for MBC2 {
    open spec fn wf(&self) -> bool {
        &&& self.has_battery <==> self.sram is Some
        &&& self.sram matches Some(s) ==> s.data@.len() == 512
    }

    open spec fn ram_bank_ok(&self) -> bool {
        true
    }

    open spec fn read_ok(&self, address: u16) -> bool {
        true
    }

    open spec fn write_ok(&self, address: u16) -> bool {
        true
    }

    open spec fn read_value(&self, address: u16) -> u8 {
        if address <= 0x3FFF {
            bank_value(banks_view(self.rom_banks.data@), 0, address as int)
        } else if address <= 0x7FFF {
            bank_value(banks_view(self.rom_banks.data@), self.selected_rom_bank() as int, address - 0x4000)
        } else if 0xA000 <= address <= 0xBFFF && self.ram_enabled && self.sram is Some {
            self.sram.unwrap().data@[(address & 0x01FF) as int] & 0x0F
        } else {
            0xFF
        }
    }

    open spec fn written(&self, old: &Self, address: u16, value: u8) -> bool {
        if address <= 0x3FFF {
            if address & 0x0100 == 0 {
                *self == (MBC2 { ram_enabled: value & 0x0F == 0x0A, ..*old })
            } else {
                let bank_num = (value & 0x0F) as usize;
                *self == (MBC2 {
                    rom_bank: if bank_num == 0 {
                        1
                    } else {
                        bank_num
                    },
                    ..*old
                })
            }
        } else if 0xA000 <= address <= 0xBFFF && old.ram_enabled && old.sram is Some {
            let s = self.sram.unwrap();
            let o = old.sram.unwrap();
            &&& *self == (MBC2 { sram: self.sram, ..*old })
            &&& self.sram is Some
            &&& s.data@ == o.data@.update((address & 0x01FF) as int, value & 0x0F)
            &&& s.dirty
            &&& s.save_file_path == o.save_file_path
        } else {
            *self == *old
        }
    }

    open spec fn rom_bank(&self) -> usize {
        self.selected_rom_bank()
    }

    fn read_byte(&self, address: u16) -> (r: u8)
        ensures
            r == self.read_value(address),
    {
        if address <= 0x3FFF {
            get_value_from_bank(0, address, &self.rom_banks.data)
        } else if address <= 0x7FFF {
            let bank = self.get_selected_rom_bank();
            get_value_from_bank(bank, address - 0x4000, &self.rom_banks.data)
        } else if 0xA000 <= address && address <= 0xBFFF {
            if self.is_ram_enabled() {
                let ram_addr = (address & MBC2_RAM_ADDR_MASK) as usize;
                assert(address & 0x01FF < 512) by (bit_vector);
                if ram_addr < MBC2_RAM_SIZE {
                    match &self.sram {
                        Some(sram) => sram.read(ram_addr) & RAM_DATA_MASK,
                        None => INVALID_READ_VALUE,
                    }
                } else {
                    INVALID_READ_VALUE
                }
            } else {
                INVALID_READ_VALUE
            }
        } else {
            INVALID_READ_VALUE
        }
    }

    fn write_byte(&mut self, address: u16, value: u8)
        ensures
            final(self).wf(),
            final(self).written(old(self), address, value),
    {
        if address <= 0x3FFF {
            if (address & BANK_SELECT_BIT) == 0 {
                self.ram_enabled = (value & RAM_ENABLE_MASK) == RAM_ENABLE_VALUE;
            } else {
                let bank_num = (value & ROM_BANK_BITS_MASK) as usize;
                self.rom_bank = if bank_num == 0 {
                    1
                } else {
                    bank_num
                };
            }
        } else if 0xA000 <= address && address <= 0xBFFF {
            if self.is_ram_enabled() {
                let ram_addr = (address & MBC2_RAM_ADDR_MASK) as usize;
                assert(address & 0x01FF < 512) by (bit_vector);
                if ram_addr < MBC2_RAM_SIZE {
                    match &mut self.sram {
                        Some(sram) => sram.write(ram_addr, value & RAM_DATA_MASK),
                        None => {},
                    }
                }
            }
        }
    }

    fn get_rom_bank(&self) -> (r: usize)
        ensures
            r == self.selected_rom_bank(),
    {
        self.get_selected_rom_bank()
    }

    fn get_ram_bank(&self) -> (r: usize)
        ensures
            r == 0,
    {
        0
    }

    fn is_ram_enabled(&self) -> (r: bool)
        ensures
            r == self.ram_enabled,
    {
        self.ram_enabled
    }

    fn save_ram(&mut self) -> (r: Option<SaveFile>)
        ensures
            !old(self).has_battery ==> r is None && *final(self) == *old(self),
            old(self).has_battery && old(self).sram is Some ==> ({
                let o = old(self).sram.unwrap();
                &&& *final(self) == (MBC2 { sram: final(self).sram, ..*old(self) })
                &&& final(self).sram matches Some(s) && !s.dirty && s.data@ == o.data@
                    && s.save_file_path == o.save_file_path
                &&& o.dirty ==> (r matches Some(f) && f.path@ == o.save_file_path@ && f.data@
                    == o.data@)
                &&& !o.dirty ==> r is None
            }),
    {
        if self.has_battery {
            match &mut self.sram {
                Some(sram) => sram.save(),
                None => None,
            }
        } else {
            None
        }
    }

    fn dirty_sram(&self) -> (r: bool)
        ensures
            r == (self.sram matches Some(s) && s.dirty),
    {
        match &self.sram {
            Some(sram) => sram.dirty,
            None => false,
        }
    }

    fn can_read(&self, address: u16) -> (r: bool) {
        true
    }

    fn can_write(&self, address: u16) -> (r: bool) {
        true
    }
}

} // verus!
