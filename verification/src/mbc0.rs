use vstd::prelude::*;

use crate::mbc::{
    MBC,
    SaveFile,
    bank_value,
    banks_view,
    get_ram_size_in_bytes,
    get_value_from_bank,
    ram_size_bytes,
    zeroed,
    INVALID_READ_VALUE,
};
use crate::rom::ROMBanks;

verus! {

pub const RAM_ENABLE_AREA_END: u16 = 0x1FFF;
pub const RAM_ENABLE_MASK: u8 = 0x0F;
pub const RAM_ENABLE_VALUE: u8 = 0x0A;

/// A cartridge without a bank controller: two fixed ROM banks and optional RAM.
pub struct MBC0 {
    pub rom_banks: ROMBanks,
    pub ram: Vec<u8>,
    pub ram_enabled: bool,
    pub has_ram: bool,
    pub has_battery: bool,
}

impl MBC0 {
    /// Whether external RAM answers: always with a battery, otherwise once enabled.
    pub open spec fn ram_usable(&self) -> bool {
        (self.has_battery || (self.ram_enabled && self.has_ram)) && self.has_ram
    }

    /// A controller over `rom_banks` with zeroed RAM of the size the header code gives.
    pub fn new(rom_banks: ROMBanks, ram_size: u8, has_battery: bool) -> (r: MBC0)
        ensures
            r.rom_banks == rom_banks,
            r.ram@ == Seq::new(ram_size_bytes(ram_size) as nat, |i: int| 0u8),
            !r.ram_enabled,
            r.has_ram == (ram_size > 0),
            r.has_battery == has_battery,
    {
        let ram_size_bytes = get_ram_size_in_bytes(ram_size);
        MBC0 {
            rom_banks,
            ram: zeroed(ram_size_bytes),
            ram_enabled: false,
            has_ram: ram_size > 0,
            has_battery,
        }
    }
}

impl MBC for MBC0 {
    open spec fn wf(&self) -> bool {
        true
    }

    open spec fn read_ok(&self, address: u16) -> bool {
        true
    }

    open spec fn write_ok(&self, address: u16) -> bool {
        true
    }

    open spec fn read_value(&self, address: u16) -> u8 {
        if address <= 0x3FFF {
            bank_value(banks_view(self.rom_banks.data@), 0, address as int)
        } else if address <= 0x7FFF {
            bank_value(banks_view(self.rom_banks.data@), 1, address - 0x4000)
        } else if 0xA000 <= address <= 0xBFFF {
            if self.ram_usable() && address - 0xA000 < self.ram@.len() {
                self.ram@[address - 0xA000]
            } else {
                0xFF
            }
        } else {
            0xFF
        }
    }

    open spec fn written(&self, old: &Self, address: u16, value: u8) -> bool {
        if address <= 0x7FFF {
            if address <= 0x1FFF && value & 0x0F == 0x0A {
                *self == (MBC0 { ram_enabled: true, ..*old })
            } else {
                *self == *old
            }
        } else if 0xA000 <= address <= 0xBFFF && old.ram_usable() && address - 0xA000
            < old.ram@.len() {
            *self == (MBC0 { ram: self.ram, ..*old }) && self.ram@ == old.ram@.update(
                address - 0xA000,
                value,
            )
        } else {
            *self == *old
        }
    }

    open spec fn rom_bank(&self) -> usize {
        0
    }

    open spec fn ram_bank_ok(&self) -> bool {
        true
    }

    fn read_byte(&self, address: u16) -> (r: u8)
        ensures
            r == self.read_value(address),
    {
        if address <= 0x3FFF {
            get_value_from_bank(0, address, &self.rom_banks.data)
        } else if address <= 0x7FFF {
            get_value_from_bank(1, address - 0x4000, &self.rom_banks.data)
        } else if 0xA000 <= address && address <= 0xBFFF {
            let implicit_ram_enabled = if self.has_battery {
                true
            } else {
                self.is_ram_enabled()
            };
            if implicit_ram_enabled && self.has_ram {
                let ram_address = (address - 0xA000) as usize;
                if ram_address < self.ram.len() {
                    self.ram[ram_address]
                } else {
                    INVALID_READ_VALUE
                }
            } else {
                INVALID_READ_VALUE
            }
        } else {
            INVALID_READ_VALUE
        }
    }

    fn write_byte(&mut self, address: u16, value: u8)
        ensures
            final(self).wf(),
            final(self).written(old(self), address, value),
    {
        if address <= 0x7FFF {
            if address <= RAM_ENABLE_AREA_END && (value & RAM_ENABLE_MASK) == RAM_ENABLE_VALUE {
                self.ram_enabled = true;
            }
        } else if 0xA000 <= address && address <= 0xBFFF {
            let implicit_ram_enabled = if self.has_battery {
                true
            } else {
                self.is_ram_enabled()
            };
            if implicit_ram_enabled && self.has_ram {
                let ram_addr = (address - 0xA000) as usize;
                if ram_addr < self.ram.len() {
                    self.ram.set(ram_addr, value);
                }
            }
        }
    }

    fn get_rom_bank(&self) -> (r: usize)
        ensures
            r == 0,
    {
        0
    }

    fn get_ram_bank(&self) -> (r: usize)
        ensures
            r == 1,
    {
        1
    }

    fn is_ram_enabled(&self) -> (r: bool)
        ensures
            r == (self.ram_enabled && self.has_ram),
    {
        self.ram_enabled && self.has_ram
    }

    fn save_ram(&mut self) -> (r: Option<SaveFile>)
        ensures
            r is None,
            *final(self) == *old(self),
    {
        None
    }

    fn dirty_sram(&self) -> (r: bool)
        ensures
            !r,
    {
        false
    }

    fn can_read(&self, address: u16) -> (r: bool) {
        true
    }

    fn can_write(&self, address: u16) -> (r: bool) {
        true
    }
}

} // verus!
