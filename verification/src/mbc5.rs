use vstd::prelude::*;

use crate::mbc::{
    MBC,
    SRAM,
    SaveFile,
    bank_value,
    banks_view,
    get_ram_size_in_bytes,
    get_value_from_bank,
    ram_size_bytes,
    INVALID_READ_VALUE,
};
use crate::rom::ROMBanks;

verus! {

pub const MBC5_MAX_ROM_BANKS: usize = 512;
pub const RAM_ENABLE_MASK: u8 = 0x0F;
pub const RAM_ENABLE_VALUE: u8 = 0x0A;
pub const ROM_BANK_BITS_MASK: usize = 0x100;
pub const ROM_BANK_HIGH_BIT_MASK: u8 = 0x01;
pub const RAM_BANK_MASK: u8 = 0x0F;
pub const RUMBLE_BIT_MASK: u8 = 0x08;
pub const RAM_BANK_RUMBLE_MASK: u8 = 0x07;
pub const BANK_SIZE: usize = 0x2000;
pub const ROM_BANK_LOW_BITS_MASK: usize = 0xFF;

/// The MBC5 controller: 9-bit ROM bank number, up to 16 RAM banks, optional rumble motor.
pub struct MBC5 {
    pub rom_banks: ROMBanks,
    pub sram: Option<SRAM>,
    pub rom_bank: usize,
    pub ram_bank: usize,
    pub ram_enabled: bool,
    pub has_ram: bool,
    pub has_battery: bool,
    pub has_rumble: bool,
    pub rom_bank_count: usize,
}

impl MBC5 {
    /// The ROM bank that 0x4000-0x7FFF shows: the bank number modulo the bank count.
    pub open spec fn active_rom_bank(&self) -> usize {
        (self.rom_bank % self.rom_bank_count) as usize
    }

    /// Offset into cartridge RAM of an external RAM address.
    pub open spec fn ram_offset(&self, address: u16) -> int {
        self.ram_bank * 0x2000 + (address - 0xA000)
    }

    /// Whether external RAM answers.
    pub open spec fn ram_usable(&self) -> bool {
        self.ram_enabled && self.has_ram
    }

    /// A controller over `rom_banks`, with RAM (`saved` or zeroed) when the header has RAM.
    pub fn new(
        rom_banks: ROMBanks,
        ram_size: u8,
        has_battery: bool,
        has_rumble: bool,
        save_file_path: String,
        saved: Option<Vec<u8>>,
    ) -> (r: MBC5)
        requires
            rom_banks.data@.len() >= 1,
        ensures
            r.wf(),
            r.rom_banks == rom_banks,
            r.rom_bank == 1 && r.ram_bank == 0 && !r.ram_enabled,
            r.has_ram == (ram_size > 0),
            r.has_battery == has_battery,
            r.has_rumble == has_rumble,
            r.rom_bank_count == if rom_banks.data@.len() < 512 {
                rom_banks.data@.len() as usize
            } else {
                512usize
            },
            r.has_ram ==> (r.sram matches Some(s) && !s.dirty && s.save_file_path@ == save_file_path@
                && s.data@ == (match saved {
                Some(d) => if d@.len() == ram_size_bytes(ram_size) {
                    d@
                } else {
                    Seq::new(ram_size_bytes(ram_size) as nat, |i: int| 0u8)
                },
                None => Seq::new(ram_size_bytes(ram_size) as nat, |i: int| 0u8),
            })),
    {
        let ram_size_bytes = get_ram_size_in_bytes(ram_size);
        let has_ram = ram_size > 0;
        let n = rom_banks.data.len();
        let rom_bank_count = if n < MBC5_MAX_ROM_BANKS {
            n
        } else {
            MBC5_MAX_ROM_BANKS
        };
        let sram = if has_ram {
            Some(SRAM::new(ram_size_bytes, save_file_path, saved))
        } else {
            None
        };
        MBC5 {
            rom_banks,
            sram,
            rom_bank: 1,
            ram_bank: 0,
            ram_enabled: false,
            has_ram,
            has_battery,
            has_rumble,
            rom_bank_count,
        }
    }

    /// The ROM bank that 0x4000-0x7FFF shows.
    pub fn get_active_rom_bank(&self) -> (r: usize)
        requires
            self.rom_bank_count >= 1,
        ensures
            r == self.active_rom_bank(),
    {
        self.rom_bank % self.rom_bank_count
    }
}

impl MBC for MBC5 {
    open spec fn wf(&self) -> bool {
        &&& self.rom_bank_count >= 1
        &&& self.rom_bank <= 0x1FF
        &&& self.ram_bank <= 0x0F
        &&& self.has_ram <==> self.sram is Some
    }

    open spec fn ram_bank_ok(&self) -> bool {
        true
    }

    open spec fn read_ok(&self, address: u16) -> bool {
        0xA000 <= address <= 0xBFFF && self.ram_usable() ==> self.ram_offset(address) < self.sram.unwrap().data@.len()
    }

    open spec fn write_ok(&self, address: u16) -> bool {
        self.read_ok(address)
    }

    open spec fn read_value(&self, address: u16) -> u8 {
        if address <= 0x3FFF {
            bank_value(banks_view(self.rom_banks.data@), 0, address as int)
        } else if address <= 0x7FFF {
            bank_value(banks_view(self.rom_banks.data@), self.active_rom_bank() as int, address - 0x4000)
        } else if 0xA000 <= address <= 0xBFFF && self.ram_usable() {
            self.sram.unwrap().data@[self.ram_offset(address)]
        } else {
            0xFF
        }
    }

    open spec fn written(&self, old: &Self, address: u16, value: u8) -> bool {
        if address <= 0x1FFF {
            *self == (MBC5 { ram_enabled: value & 0x0F == 0x0A, ..*old })
        } else if address <= 0x2FFF {
            *self == (MBC5 { rom_bank: (old.rom_bank & 0x100) | (value as usize), ..*old })
        } else if address <= 0x3FFF {
            *self == (MBC5 { rom_bank: (old.rom_bank & 0xFF) | (((value & 0x01) as usize) << 8), ..*old })
        } else if address <= 0x5FFF {
            *self == (MBC5 {
                ram_bank: if old.has_rumble {
                    (value & 0x07) as usize
                } else {
                    (value & 0x0F) as usize
                },
                ..*old
            })
        } else if 0xA000 <= address <= 0xBFFF && old.ram_usable() {
            let s = self.sram.unwrap();
            let o = old.sram.unwrap();
            &&& *self == (MBC5 { sram: self.sram, ..*old })
            &&& self.sram is Some
            &&& s.data@ == o.data@.update(old.ram_offset(address), value)
            &&& s.dirty
            &&& s.save_file_path == o.save_file_path
        } else {
            *self == *old
        }
    }

    open spec fn rom_bank(&self) -> usize {
        self.active_rom_bank()
    }

    fn read_byte(&self, address: u16) -> (r: u8)
        ensures
            r == self.read_value(address),
    {
        if address <= 0x3FFF {
            get_value_from_bank(0, address, &self.rom_banks.data)
        } else if address <= 0x7FFF {
            get_value_from_bank(self.get_active_rom_bank(), address - 0x4000, &self.rom_banks.data)
        } else if 0xA000 <= address && address <= 0xBFFF {
            if self.is_ram_enabled() && self.has_ram {
                match &self.sram {
                    Some(sram) => {
                        let ram_addr = self.ram_bank * BANK_SIZE + (address - 0xA000) as usize;
                        sram.read(ram_addr)
                    },
                    None => INVALID_READ_VALUE,
                }
            } else {
                INVALID_READ_VALUE
            }
        } else {
            INVALID_READ_VALUE
        }
    }

    fn write_byte(&mut self, address: u16, value: u8)
        ensures
            final(self).wf(),
            final(self).written(old(self), address, value),
    {
        if address <= 0x1FFF {
            self.ram_enabled = (value & RAM_ENABLE_MASK) == RAM_ENABLE_VALUE;
        } else if address <= 0x2FFF {
            proof {
                let rb = self.rom_bank;
                let v = value;
                assert((rb & 0x100) | (v as usize) <= 0x1FF) by (bit_vector);
            }
            self.rom_bank = (self.rom_bank & ROM_BANK_BITS_MASK) | value as usize;
        } else if address <= 0x3FFF {
            let high_bit = ((value & ROM_BANK_HIGH_BIT_MASK) as usize) << 8;
            proof {
                let rb = self.rom_bank;
                let v = value;
                assert((rb & 0xFF) | (((v & 0x01) as usize) << 8) <= 0x1FF) by (bit_vector);
            }
            self.rom_bank = (self.rom_bank & ROM_BANK_LOW_BITS_MASK) | high_bit;
        } else if address <= 0x5FFF {
            let v = value;
            assert((v & 0x07) <= 0x0F && (v & 0x0F) <= 0x0F) by (bit_vector);
            if self.has_rumble {
                self.ram_bank = (value & RAM_BANK_RUMBLE_MASK) as usize;
            } else {
                self.ram_bank = (value & RAM_BANK_MASK) as usize;
            }
        } else if 0xA000 <= address && address <= 0xBFFF {
            if self.is_ram_enabled() && self.has_ram {
                match &mut self.sram {
                    Some(sram) => {
                        let ram_addr = self.ram_bank * BANK_SIZE + (address - 0xA000) as usize;
                        sram.write(ram_addr, value);
                    },
                    None => {},
                }
            }
        }
    }

    fn get_rom_bank(&self) -> (r: usize)
        ensures
            r == self.active_rom_bank(),
    {
        self.get_active_rom_bank()
    }

    fn get_ram_bank(&self) -> (r: usize)
        ensures
            r == self.ram_bank,
    {
        self.ram_bank
    }

    fn is_ram_enabled(&self) -> (r: bool)
        ensures
            r == (self.ram_enabled && self.has_ram),
    {
        self.ram_enabled && self.has_ram
    }

    fn save_ram(&mut self) -> (r: Option<SaveFile>)
        ensures
            !(old(self).has_battery && old(self).has_ram) ==> r is None && *final(self) == *old(self),
            old(self).has_battery && old(self).has_ram && old(self).sram is Some ==> ({
                let o = old(self).sram.unwrap();
                &&& *final(self) == (MBC5 { sram: final(self).sram, ..*old(self) })
                &&& final(self).sram matches Some(s) && !s.dirty && s.data@ == o.data@
                    && s.save_file_path == o.save_file_path
                &&& o.dirty ==> (r matches Some(f) && f.path@ == o.save_file_path@ && f.data@
                    == o.data@)
                &&& !o.dirty ==> r is None
            }),
    {
        if self.has_battery && self.has_ram {
            match &mut self.sram {
                Some(sram) => sram.save(),
                None => None,
            }
        } else {
            None
        }
    }

    fn dirty_sram(&self) -> (r: bool)
        ensures
            r == (self.sram matches Some(s) && s.dirty),
    {
        match &self.sram {
            Some(sram) => sram.dirty,
            None => false,
        }
    }

    fn can_read(&self, address: u16) -> (r: bool) {
        if 0xA000 <= address && address <= 0xBFFF && self.ram_enabled && self.has_ram {
            match &self.sram {
                Some(sram) => self.ram_bank * 0x2000 + ((address - 0xA000) as usize) < sram.data.len(),
                None => false,
            }
        } else {
            true
        }
    }

    fn can_write(&self, address: u16) -> (r: bool) {
        self.can_read(address)
    }
}

} // verus!
