use vstd::prelude::*;

use crate::mbc::{
    MBC,
    SRAM,
    SaveFile,
    bank_value,
    banks_view,
    get_ram_banks,
    get_ram_size_in_bytes,
    get_rom_banks,
    ram_bank_count_of,
    ram_size_bytes,
    rom_size_bytes,
};
use crate::rom::ROMBanks;

verus! {

/// MBC1 banking mode: ROM mode keeps RAM bank 0 and lets 0x4000-0x5FFF select the upper
/// ROM bank bits; RAM mode lets it select the RAM bank.
#[derive(Debug, Clone, Copy, PartialEq, Eq, Structural)]
pub enum BankingMode {
    ROM,
    RAM,
}

/// The MBC1 controller.
pub struct MBC1 {
    pub rom_banks: ROMBanks,
    pub sram: Option<SRAM>,
    pub rom_bank: usize,
    pub ram_bank: usize,
    pub ram_enabled: bool,
    pub has_ram: bool,
    pub has_battery: bool,
    pub banking_mode: BankingMode,
    pub rom_bank_count: usize,
    pub ram_bank_count: usize,
}

impl MBC1 {
    /// The ROM bank that 0x4000-0x7FFF shows: bank numbers 0x00/0x20/0x40/0x60 select the
    /// next bank, then the number is masked by the bank count.
    pub open spec fn selected_rom_bank(&self) -> usize {
        let bank = if self.rom_bank % 0x20 == 0 {
            (self.rom_bank + 1) as usize
        } else {
            self.rom_bank
        };
        bank & ((self.rom_bank_count - 1) as usize)
    }

    /// The RAM bank that 0xA000-0xBFFF shows: bank 0 in ROM mode.
    pub open spec fn active_ram_bank(&self) -> usize {
        if self.banking_mode == BankingMode::RAM {
            self.ram_bank & ((self.ram_bank_count - 1) as usize)
        } else {
            0
        }
    }

    /// Offset into cartridge RAM of an external RAM address.
    pub open spec fn ram_offset(&self, address: u16) -> int {
        self.active_ram_bank() * 0x2000 + (address - 0xA000)
    }

    /// Whether external RAM answers.
    pub open spec fn ram_usable(&self) -> bool {
        self.ram_enabled && self.has_ram
    }

    /// A controller over `rom_banks` with cartridge RAM `saved` (or zeroed) when the header has RAM.
    pub fn new(
        rom_banks: ROMBanks,
        rom_size: u8,
        ram_size: u8,
        has_battery: bool,
        save_file_path: String,
        saved: Option<Vec<u8>>,
    ) -> (r: MBC1)
        ensures
            r.wf(),
            r.rom_banks == rom_banks,
            r.rom_bank == 1 && r.ram_bank == 0 && !r.ram_enabled,
            r.banking_mode == BankingMode::ROM,
            r.has_ram == (ram_size > 0),
            r.has_battery == has_battery,
            r.rom_bank_count == rom_size_bytes(rom_size) / 0x4000,
            r.ram_bank_count == ram_bank_count_of(ram_size),
            r.has_ram ==> (r.sram matches Some(s) && !s.dirty && s.save_file_path@ == save_file_path@
                && s.data@ == (match saved {
                Some(d) => if d@.len() == ram_size_bytes(ram_size) {
                    d@
                } else {
                    Seq::new(ram_size_bytes(ram_size) as nat, |i: int| 0u8)
                },
                None => Seq::new(ram_size_bytes(ram_size) as nat, |i: int| 0u8),
            })),
    {
        let ram_size_bytes = get_ram_size_in_bytes(ram_size);
        let has_ram = ram_size > 0;
        let rom_bank_count = get_rom_banks(rom_size);
        let ram_bank_count = get_ram_banks(ram_size);
        let sram = if has_ram {
            Some(SRAM::new(ram_size_bytes, save_file_path, saved))
        } else {
            None
        };
        MBC1 {
            rom_banks,
            sram,
            rom_bank: 1,
            ram_bank: 0,
            ram_enabled: false,
            has_ram,
            has_battery,
            banking_mode: BankingMode::ROM,
            rom_bank_count,
            ram_bank_count,
        }
    }

    /// The ROM bank that 0x4000-0x7FFF shows.
    pub fn get_selected_rom_bank(&self) -> (r: usize)
        requires
            self.wf(),
        ensures
            r == self.selected_rom_bank(),
    {
        let mut bank = self.rom_bank;
        if bank % 0x20 == 0 {
            bank = bank + 1;
        }
        bank & (self.rom_bank_count - 1)
    }

    /// The RAM bank that 0xA000-0xBFFF shows.
    pub fn get_active_ram_bank(&self) -> (r: usize)
        requires
            self.ram_bank_ok(),
            self.ram_bank <= 3,
        ensures
            r == self.active_ram_bank(),
            r <= 3,
    {
        if self.banking_mode == BankingMode::RAM {
            let b = self.ram_bank;
            let m = (self.ram_bank_count - 1) as usize;
            assert(b <= 3 ==> b & m <= 3) by (bit_vector);
            self.ram_bank & (self.ram_bank_count - 1)
        } else {
            0
        }
    }
}

impl MBC for MBC1 {
    open spec fn wf(&self) -> bool {
        &&& self.rom_bank_count >= 2
        &&& self.rom_bank <= 0x7F
        &&& self.ram_bank <= 3
        &&& self.has_ram <==> self.sram is Some
    }

    open spec fn ram_bank_ok(&self) -> bool {
        self.banking_mode == BankingMode::RAM ==> self.ram_bank_count >= 1
    }

    open spec fn read_ok(&self, address: u16) -> bool {
        if address <= 0x3FFF {
            self.rom_banks.data@.len() > 0
        } else if address <= 0x7FFF {
            self.selected_rom_bank() < self.rom_banks.data@.len()
        } else if 0xA000 <= address <= 0xBFFF {
            self.ram_usable() ==> self.ram_bank_ok() && self.ram_offset(address)
                < self.sram.unwrap().data@.len()
        } else {
            true
        }
    }

    open spec fn write_ok(&self, address: u16) -> bool {
        0xA000 <= address <= 0xBFFF && self.ram_usable() ==> self.ram_bank_ok() && self.ram_offset(
            address,
        ) < self.sram.unwrap().data@.len()
    }

    open spec fn read_value(&self, address: u16) -> u8 {
        if address <= 0x3FFF {
            bank_value(banks_view(self.rom_banks.data@), 0, address as int)
        } else if address <= 0x7FFF {
            bank_value(banks_view(self.rom_banks.data@), self.selected_rom_bank() as int, address - 0x4000)
        } else if 0xA000 <= address <= 0xBFFF && self.ram_usable() {
            self.sram.unwrap().data@[self.ram_offset(address)]
        } else {
            0xFF
        }
    }

    open spec fn written(&self, old: &Self, address: u16, value: u8) -> bool {
        if address <= 0x1FFF {
            *self == (MBC1 { ram_enabled: value & 0x0F == 0x0A, ..*old })
        } else if address <= 0x3FFF {
            let lower = (value & 0x1F) as usize;
            let bank_num = if lower == 0 {
                1usize
            } else {
                lower
            };
            *self == (MBC1 { rom_bank: (old.rom_bank & 0x60) | bank_num, ..*old })
        } else if address <= 0x5FFF {
            if old.banking_mode == BankingMode::ROM {
                *self == (MBC1 {
                    rom_bank: (old.rom_bank & 0x1F) | (((value & 0x03) as usize) << 5),
                    ..*old
                })
            } else {
                *self == (MBC1 { ram_bank: (value & 0x03) as usize, ..*old })
            }
        } else if address <= 0x7FFF {
            *self == (MBC1 {
                banking_mode: if value & 0x01 == 0 {
                    BankingMode::ROM
                } else {
                    BankingMode::RAM
                },
                ..*old
            })
        } else if 0xA000 <= address <= 0xBFFF && old.ram_usable() {
            let s = self.sram.unwrap();
            let o = old.sram.unwrap();
            &&& *self == (MBC1 { sram: self.sram, ..*old })
            &&& self.sram is Some
            &&& s.data@ == o.data@.update(old.ram_offset(address), value)
            &&& s.dirty
            &&& s.save_file_path == o.save_file_path
        } else {
            *self == *old
        }
    }

    open spec fn rom_bank(&self) -> usize {
        self.selected_rom_bank()
    }

    fn read_byte(&self, address: u16) -> (r: u8)
        ensures
            r == self.read_value(address),
    {
        if address <= 0x3FFF {
            let bank = &self.rom_banks.data[0];
            if (address as usize) < bank.len() {
                bank[address as usize]
            } else {
                0xFF
            }
        } else if address <= 0x7FFF {
            let bank_addr = (address - 0x4000) as usize;
            let bank = &self.rom_banks.data[self.get_selected_rom_bank()];
            if bank_addr < bank.len() {
                bank[bank_addr]
            } else {
                0xFF
            }
        } else if 0xA000 <= address && address <= 0xBFFF {
            if self.ram_enabled && self.has_ram {
                let bank = self.get_active_ram_bank();
                let ram_address = bank * 0x2000 + (address - 0xA000) as usize;
                match &self.sram {
                    Some(sram) => sram.read(ram_address),
                    None => 0xFF,
                }
            } else {
                0xFF
            }
        } else {
            0xFF
        }
    }

    fn write_byte(&mut self, address: u16, value: u8)
        ensures
            final(self).wf(),
            final(self).written(old(self), address, value),
    {
        if address <= 0x1FFF {
            self.ram_enabled = (value & 0x0F) == 0x0A;
        } else if address <= 0x3FFF {
            let lower_bits = (value & 0x1F) as usize;
            assert(value & 0x1F <= 0x1F) by (bit_vector);
            let bank_num = if lower_bits == 0 {
                1
            } else {
                lower_bits
            };
            proof {
                let rb = self.rom_bank;
                assert(rb <= 0x7F && bank_num <= 0x1F ==> (rb & 0x60) | bank_num <= 0x7F) by (bit_vector);
            }
            self.rom_bank = (self.rom_bank & 0x60) | bank_num;
        } else if address <= 0x5FFF {
            let upper_bits = ((value & 0x03) as usize) << 5;
            if self.banking_mode == BankingMode::ROM {
                proof {
                    let rb = self.rom_bank;
                    let v = value;
                    assert(((rb & 0x1F) | (((v & 0x03) as usize) << 5)) <= 0x7F) by (bit_vector);
                }
                self.rom_bank = (self.rom_bank & 0x1F) | upper_bits;
            } else {
                self.ram_bank = value as usize & 0x03;
                proof {
                    let v = value;
                    assert((v as usize & 0x03) == (v & 0x03) as usize && (v as usize & 0x03) <= 3) by (bit_vector);
                }
            }
        } else if address <= 0x7FFF {
            self.banking_mode = if value & 0x01 == 0 {
                BankingMode::ROM
            } else {
                BankingMode::RAM
            };
        } else if 0xA000 <= address && address <= 0xBFFF {
            if self.ram_enabled && self.has_ram {
                let bank = self.get_active_ram_bank();
                let addr = bank * 0x2000 + (address - 0xA000) as usize;
                match &mut self.sram {
                    Some(sram) => sram.write(addr, value),
                    None => {},
                }
            }
        }
    }

    fn get_rom_bank(&self) -> (r: usize)
        ensures
            r == self.selected_rom_bank(),
    {
        self.get_selected_rom_bank()
    }

    fn get_ram_bank(&self) -> (r: usize)
        ensures
            r == self.active_ram_bank(),
    {
        self.get_active_ram_bank()
    }

    fn is_ram_enabled(&self) -> (r: bool)
        ensures
            r == (self.ram_enabled && self.has_ram),
    {
        self.ram_enabled && self.has_ram
    }

    fn save_ram(&mut self) -> (r: Option<SaveFile>)
        ensures
            !(old(self).has_battery && old(self).has_ram) ==> r is None && *final(self) == *old(self),
            old(self).has_battery && old(self).has_ram && old(self).sram is Some ==> ({
                let o = old(self).sram.unwrap();
                &&& *final(self) == (MBC1 { sram: final(self).sram, ..*old(self) })
                &&& final(self).sram matches Some(s) && !s.dirty && s.data@ == o.data@
                    && s.save_file_path == o.save_file_path
                &&& o.dirty ==> (r matches Some(f) && f.path@ == o.save_file_path@ && f.data@
                    == o.data@)
                &&& !o.dirty ==> r is None
            }),
    {
        if self.has_battery && self.has_ram {
            match &mut self.sram {
                Some(sram) => sram.save(),
                None => None,
            }
        } else {
            None
        }
    }

    fn dirty_sram(&self) -> (r: bool)
        ensures
            r == (self.sram matches Some(s) && s.dirty),
    {
        match &self.sram {
            Some(sram) => sram.dirty,
            None => false,
        }
    }

    fn can_read(&self, address: u16) -> (r: bool) {
        if address <= 0x3FFF {
            self.rom_banks.data.len() > 0
        } else if address <= 0x7FFF {
            self.get_selected_rom_bank() < self.rom_banks.data.len()
        } else {
            self.can_write(address)
        }
    }

    fn can_write(&self, address: u16) -> (r: bool) {
        if 0xA000 <= address && address <= 0xBFFF && self.ram_enabled && self.has_ram {
            if self.banking_mode == BankingMode::RAM && self.ram_bank_count < 1 {
                false
            } else {
                match &self.sram {
                    Some(sram) => {
                        let bank = self.get_active_ram_bank();
                        bank * 0x2000 + ((address - 0xA000) as usize) < sram.data.len()
                    },
                    None => false,
                }
            }
        } else {
            true
        }
    }
}

/// The ROM bank that a write of `value` to 0x2000-0x3FFF selects: `value` mod 32, or bank 1
/// when that is 0.
pub open spec fn low_bank_of(value: u8) -> int {
    if value % 32 == 0 {
        1
    } else {
        (value % 32) as int
    }
}

/// Writing `value` to 0x2000-0x3FFF sets the low five bits of the ROM bank register to
/// `value` mod 32 (1 in place of 0) and keeps its upper two bits. With the upper bits clear and
/// a bank count that is a power of two (as every header size gives) above that bank,
/// 0x4000-0x7FFF then reads that bank.
pub proof fn lemma_rom_bank_select(old_m: MBC1, new_m: MBC1, address: u16, value: u8, offset: int)
    requires
        old_m.wf(),
        0x2000 <= address <= 0x3FFF,
        new_m.written(&old_m, address, value),
    ensures
        new_m.rom_bank % 32 == low_bank_of(value),
        new_m.rom_bank / 32 == old_m.rom_bank / 32,
        old_m.rom_bank / 32 == 0 && low_bank_of(value) < old_m.rom_bank_count
            && old_m.rom_bank_count & ((old_m.rom_bank_count - 1) as usize) == 0 && 0 <= offset < 0x4000
            ==> new_m.read_value((0x4000 + offset) as u16) == bank_value(
            banks_view(new_m.rom_banks.data@),
            low_bank_of(value),
            offset,
        ),
{
    let rb = old_m.rom_bank;
    let cnt = old_m.rom_bank_count;
    let bn: usize = low_bank_of(value) as usize;
    let m: usize = (cnt - 1) as usize;
    assert({
        &&& (value & 0x1F) as usize == (value % 32) as usize
        &&& (1 <= bn <= 0x1F && rb <= 0x7F ==> ((rb & 0x60) | bn) % 32 == bn && ((rb & 0x60) | bn) / 32
            == rb / 32)
        &&& (bn < cnt && cnt & m == 0 && m == cnt - 1 ==> bn & m == bn)
    }) by (bit_vector);
    assert(new_m.rom_bank == (rb & 0x60) | bn);
    if rb / 32 == 0 && bn < cnt && cnt & m == 0 && 0 <= offset < 0x4000 {
        assert(new_m.rom_bank == bn);
        assert(new_m.selected_rom_bank() == bn);
        assert(((0x4000 + offset) as u16) - 0x4000 == offset);
    }
}

/// The other MBC1 control writes: 0x0000-0x1FFF enables cartridge RAM exactly when the low
/// nibble of the value is 0xA; 0x4000-0x5FFF sets, in ROM mode, the upper two ROM bank bits
/// (bank number / 32) to the value mod 4 and keeps the low five, and in RAM mode sets the RAM bank
/// to the value mod 4; 0x6000-0x7FFF selects RAM banking mode exactly when the value is odd.
/// Each changes nothing else.
pub proof fn lemma_control_writes(old_m: MBC1, new_m: MBC1, address: u16, value: u8)
    requires
        old_m.wf(),
        address <= 0x1FFF || 0x4000 <= address <= 0x7FFF,
        new_m.written(&old_m, address, value),
    ensures
        address <= 0x1FFF ==> new_m == (MBC1 { ram_enabled: value % 16 == 10, ..old_m }),
        0x4000 <= address <= 0x5FFF && old_m.banking_mode == BankingMode::ROM ==> new_m == (MBC1 {
            rom_bank: new_m.rom_bank,
            ..old_m
        }) && new_m.rom_bank % 32 == old_m.rom_bank % 32 && new_m.rom_bank / 32 == value % 4,
        0x4000 <= address <= 0x5FFF && old_m.banking_mode == BankingMode::RAM ==> new_m == (MBC1 {
            ram_bank: (value % 4) as usize,
            ..old_m
        }),
        0x6000 <= address <= 0x7FFF ==> new_m == (MBC1 {
            banking_mode: if value % 2 == 1 { BankingMode::RAM } else { BankingMode::ROM },
            ..old_m
        }),
{
    let rb = old_m.rom_bank;
    assert({
        &&& (value & 0x0F == 0x0A) == (value % 16 == 10)
        &&& (value & 0x03) as usize == (value % 4) as usize
        &&& (value & 0x01 == 0) == (value % 2 == 0)
        &&& (rb <= 0x7F ==> ((rb & 0x1F) | (((value & 0x03) as usize) << 5)) % 32 == rb % 32 && ((rb
            & 0x1F) | (((value & 0x03) as usize) << 5)) / 32 == (value % 4) as usize)
    }) by (bit_vector);
}

} // verus!
