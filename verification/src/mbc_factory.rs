use vstd::prelude::*;

use crate::mbc::{MBC, MBCType, SRAM, SaveFile, mbc_type_of, path_with_extension, sram_save_path};
use crate::mbc0::MBC0;
use crate::mbc1::MBC1;
use crate::mbc2::MBC2;
use crate::mbc3::MBC3;
use crate::mbc5::MBC5;
use crate::rom::{ROM, banks_of};

verus! {

pub const CART_TYPE_ROM_RAM_BATT: u8 = 0x03;
pub const CART_TYPE_MBC1_RAM_BATT: u8 = 0x06;
pub const CART_TYPE_MMM01_RAM_BATT: u8 = 0x09;
pub const CART_TYPE_MBC3_RAM_BATT: u8 = 0x0D;
pub const CART_TYPE_MBC3_TIMER_BATT: u8 = 0x0F;
pub const CART_TYPE_MBC3_TIMER_RAM_BATT: u8 = 0x10;
pub const CART_TYPE_MBC4_RAM_BATT: u8 = 0x13;
pub const CART_TYPE_MBC5_RAM_BATT: u8 = 0x1B;
pub const CART_TYPE_MBC5_RUMBLE_RAM_BATT: u8 = 0x1E;
pub const CART_TYPE_HUC1_RAM_BATT: u8 = 0xFF;
pub const CART_TYPE_MBC5_RUMBLE: u8 = 0x1C;
pub const CART_TYPE_MBC5_RUMBLE_RAM: u8 = 0x1D;

/// Whether a cartridge type byte names battery-backed RAM.
pub open spec fn has_battery_of(t: u8) -> bool {
    t == 0x03 || t == 0x06 || t == 0x09 || t == 0x0D || t == 0x0F || t == 0x10 || t == 0x13 || t
        == 0x1B || t == 0x1E || t == 0xFF
}

/// Whether a cartridge type byte names a real-time clock.
pub open spec fn has_rtc_of(t: u8) -> bool {
    t == 0x0F || t == 0x10
}

/// Whether a cartridge type byte names a rumble motor.
pub open spec fn has_rumble_of(t: u8) -> bool {
    t == 0x1C || t == 0x1D || t == 0x1E
}

/// The memory bank controller of a cartridge.
pub enum Cartridge {
    RomOnly(MBC0),
    Mbc1(MBC1),
    Mbc2(MBC2),
    Mbc3(MBC3),
    Mbc5(MBC5),
}

impl Cartridge {
    pub open spec fn wf(&self) -> bool {
        match self {
            Cartridge::RomOnly(m) => m.wf(),
            Cartridge::Mbc1(m) => m.wf(),
            Cartridge::Mbc2(m) => m.wf(),
            Cartridge::Mbc3(m) => m.wf(),
            Cartridge::Mbc5(m) => m.wf(),
        }
    }

    /// The controller kind.
    pub open spec fn kind(&self) -> MBCType {
        match self {
            Cartridge::RomOnly(_) => MBCType::RomOnly,
            Cartridge::Mbc1(_) => MBCType::MBC1,
            Cartridge::Mbc2(_) => MBCType::MBC2,
            Cartridge::Mbc3(_) => MBCType::MBC3,
            Cartridge::Mbc5(_) => MBCType::MBC5,
        }
    }

    pub open spec fn read_ok(&self, address: u16) -> bool {
        match self {
            Cartridge::RomOnly(m) => m.read_ok(address),
            Cartridge::Mbc1(m) => m.read_ok(address),
            Cartridge::Mbc2(m) => m.read_ok(address),
            Cartridge::Mbc3(m) => m.read_ok(address),
            Cartridge::Mbc5(m) => m.read_ok(address),
        }
    }

    pub open spec fn write_ok(&self, address: u16) -> bool {
        match self {
            Cartridge::RomOnly(m) => m.write_ok(address),
            Cartridge::Mbc1(m) => m.write_ok(address),
            Cartridge::Mbc2(m) => m.write_ok(address),
            Cartridge::Mbc3(m) => m.write_ok(address),
            Cartridge::Mbc5(m) => m.write_ok(address),
        }
    }

    pub open spec fn read_value(&self, address: u16) -> u8 {
        match self {
            Cartridge::RomOnly(m) => m.read_value(address),
            Cartridge::Mbc1(m) => m.read_value(address),
            Cartridge::Mbc2(m) => m.read_value(address),
            Cartridge::Mbc3(m) => m.read_value(address),
            Cartridge::Mbc5(m) => m.read_value(address),
        }
    }

    /// `self` is a state that writing `value` at `address` can lead to from `old`.
    pub open spec fn written(&self, old: &Cartridge, address: u16, value: u8) -> bool {
        match (self, old) {
            (Cartridge::RomOnly(n), Cartridge::RomOnly(o)) => n.written(o, address, value),
            (Cartridge::Mbc1(n), Cartridge::Mbc1(o)) => n.written(o, address, value),
            (Cartridge::Mbc2(n), Cartridge::Mbc2(o)) => n.written(o, address, value),
            (Cartridge::Mbc3(n), Cartridge::Mbc3(o)) => n.written(o, address, value),
            (Cartridge::Mbc5(n), Cartridge::Mbc5(o)) => n.written(o, address, value),
            _ => false,
        }
    }

    pub open spec fn rom_bank(&self) -> usize {
        match self {
            Cartridge::RomOnly(m) => m.rom_bank(),
            Cartridge::Mbc1(m) => m.rom_bank(),
            Cartridge::Mbc2(m) => m.rom_bank(),
            Cartridge::Mbc3(m) => m.rom_bank(),
            Cartridge::Mbc5(m) => m.rom_bank(),
        }
    }

    /// Whether the RAM of the cartridge changed since the last save.
    pub open spec fn sram_dirty(&self) -> bool {
        match self {
            Cartridge::RomOnly(m) => false,
            Cartridge::Mbc1(m) => m.sram matches Some(s) && s.dirty,
            Cartridge::Mbc2(m) => m.sram matches Some(s) && s.dirty,
            Cartridge::Mbc3(m) => m.sram matches Some(s) && s.dirty,
            Cartridge::Mbc5(m) => m.sram matches Some(s) && s.dirty,
        }
    }

    /// Whether the RAM of the cartridge is kept by a battery, and so saved.
    pub open spec fn battery_ram(&self) -> bool {
        match self {
            Cartridge::RomOnly(m) => false,
            Cartridge::Mbc1(m) => m.has_battery && m.has_ram,
            Cartridge::Mbc2(m) => m.has_battery,
            Cartridge::Mbc3(m) => m.has_battery && m.sram is Some,
            Cartridge::Mbc5(m) => m.has_battery && m.has_ram,
        }
    }

    /// Whether the external RAM window reaches cartridge RAM at `address`: the RAM is present
    /// and enabled, the byte exists, and on an MBC3 no clock register is selected.
    pub open spec fn ram_answers(&self, address: u16) -> bool {
        &&& 0xA000 <= address <= 0xBFFF
        &&& match self {
            Cartridge::RomOnly(m) => m.ram_usable() && address - 0xA000 < m.ram@.len(),
            Cartridge::Mbc1(m) => m.ram_usable(),
            Cartridge::Mbc2(m) => m.ram_enabled && m.sram is Some,
            Cartridge::Mbc3(m) => m.ram_enabled && m.has_ram && !m.rtc_register_selected(m.ram_bank),
            Cartridge::Mbc5(m) => m.ram_usable(),
        }
    }

    /// Whether `self` is the controller that `create_mbc` builds for `rom`: the kind the header
    /// names, the image's banks, bank 1 selected, RAM disabled, and nothing unsaved.
    pub open spec fn fresh_for(&self, rom: ROM) -> bool {
        &&& self.wf()
        &&& Some(self.kind()) == mbc_type_of(rom.cartridge_type)
        &&& !self.sram_dirty()
        &&& match *self {
            Cartridge::RomOnly(m) => m.rom_banks.banks() == banks_of(rom.rom@) && m.has_battery
                == has_battery_of(rom.cartridge_type) && m.has_ram == (rom.ram_size > 0) && !m.ram_enabled,
            Cartridge::Mbc1(m) => m.rom_banks.banks() == banks_of(rom.rom@) && m.has_battery
                == has_battery_of(rom.cartridge_type) && m.has_ram == (rom.ram_size > 0) && m.rom_bank
                == 1 && m.ram_bank == 0 && !m.ram_enabled,
            Cartridge::Mbc2(m) => m.rom_banks.banks() == banks_of(rom.rom@) && m.has_battery
                == has_battery_of(rom.cartridge_type) && m.rom_bank == 1 && !m.ram_enabled,
            Cartridge::Mbc3(m) => m.rom_banks.banks() == banks_of(rom.rom@) && m.has_battery
                == has_battery_of(rom.cartridge_type) && m.has_rtc == has_rtc_of(rom.cartridge_type)
                && m.has_ram == (rom.ram_size > 0) && m.rom_bank == 1 && m.ram_bank == 0 && !m.ram_enabled
                && (m.rtc matches Some(c) ==> !c.dirty),
            Cartridge::Mbc5(m) => m.rom_banks.banks() == banks_of(rom.rom@) && m.has_battery
                == has_battery_of(rom.cartridge_type) && m.has_rumble == has_rumble_of(rom.cartridge_type)
                && m.has_ram == (rom.ram_size > 0) && m.rom_bank == 1 && !m.ram_enabled,
        }
    }

    /// The cartridge RAM, when the controller has one.
    pub open spec fn sram(&self) -> Option<SRAM> {
        match self {
            Cartridge::RomOnly(m) => None,
            Cartridge::Mbc1(m) => m.sram,
            Cartridge::Mbc2(m) => m.sram,
            Cartridge::Mbc3(m) => m.sram,
            Cartridge::Mbc5(m) => m.sram,
        }
    }

    /// Whether `new` and `r` are the controller and the result of a clock save from `self`:
    /// only an MBC3 with a clock saves one.
    pub open spec fn rtc_saved(&self, new: &Cartridge, r: Option<SaveFile>) -> bool {
        match self {
            Cartridge::Mbc3(m) => new matches Cartridge::Mbc3(n) && m.rtc_saved(&n, r),
            _ => r is None && *new == *self,
        }
    }

    /// Reads a byte of the cartridge address space.
    pub fn read_byte(&self, address: u16) -> (r: u8)
        requires
            self.wf(),
            self.read_ok(address),
        ensures
            r == self.read_value(address),
    {
        match self {
            Cartridge::RomOnly(m) => m.read_byte(address),
            Cartridge::Mbc1(m) => m.read_byte(address),
            Cartridge::Mbc2(m) => m.read_byte(address),
            Cartridge::Mbc3(m) => m.read_byte(address),
            Cartridge::Mbc5(m) => m.read_byte(address),
        }
    }

    /// Writes a byte of the cartridge address space.
    pub fn write_byte(&mut self, address: u16, value: u8)
        requires
            old(self).wf(),
            old(self).write_ok(address),
        ensures
            final(self).wf(),
            final(self).written(old(self), address, value),
    {
        match self {
            Cartridge::RomOnly(m) => m.write_byte(address, value),
            Cartridge::Mbc1(m) => m.write_byte(address, value),
            Cartridge::Mbc2(m) => m.write_byte(address, value),
            Cartridge::Mbc3(m) => m.write_byte(address, value),
            Cartridge::Mbc5(m) => m.write_byte(address, value),
        }
    }

    /// The ROM bank mapped at 0x4000-0x7FFF.
    pub fn get_rom_bank(&self) -> (r: usize)
        requires
            self.wf(),
        ensures
            r == self.rom_bank(),
    {
        match self {
            Cartridge::RomOnly(m) => m.get_rom_bank(),
            Cartridge::Mbc1(m) => m.get_rom_bank(),
            Cartridge::Mbc2(m) => m.get_rom_bank(),
            Cartridge::Mbc3(m) => m.get_rom_bank(),
            Cartridge::Mbc5(m) => m.get_rom_bank(),
        }
    }

    /// Whether reading `address` completes.
    pub fn can_read(&self, address: u16) -> (r: bool)
        requires
            self.wf(),
        ensures
            r == self.read_ok(address),
    {
        match self {
            Cartridge::RomOnly(m) => m.can_read(address),
            Cartridge::Mbc1(m) => m.can_read(address),
            Cartridge::Mbc2(m) => m.can_read(address),
            Cartridge::Mbc3(m) => m.can_read(address),
            Cartridge::Mbc5(m) => m.can_read(address),
        }
    }

    /// Whether writing `address` completes.
    pub fn can_write(&self, address: u16) -> (r: bool)
        requires
            self.wf(),
        ensures
            r == self.write_ok(address),
    {
        match self {
            Cartridge::RomOnly(m) => m.can_write(address),
            Cartridge::Mbc1(m) => m.can_write(address),
            Cartridge::Mbc2(m) => m.can_write(address),
            Cartridge::Mbc3(m) => m.can_write(address),
            Cartridge::Mbc5(m) => m.can_write(address),
        }
    }

    /// Whether the RAM bank can be computed (an MBC1 in RAM banking mode needs RAM banks).
    pub open spec fn ram_bank_ok(&self) -> bool {
        match self {
            Cartridge::Mbc1(m) => m.ram_bank_ok(),
            _ => true,
        }
    }

    /// What the controller reports as the RAM enable: for MBC0, MBC1 and MBC5 only when RAM
    /// is present.
    pub open spec fn ram_enable_reported(&self) -> bool {
        match self {
            Cartridge::RomOnly(m) => m.ram_enabled && m.has_ram,
            Cartridge::Mbc1(m) => m.ram_enabled && m.has_ram,
            Cartridge::Mbc2(m) => m.ram_enabled,
            Cartridge::Mbc3(m) => m.ram_enabled,
            Cartridge::Mbc5(m) => m.ram_enabled && m.has_ram,
        }
    }

    /// What the controller reports as the RAM bank: MBC0 1, MBC2 0, MBC1 its active bank,
    /// MBC3 0xFF while a clock register is selected, MBC5 its bank register.
    pub open spec fn ram_bank_reported(&self) -> usize {
        match self {
            Cartridge::RomOnly(m) => 1,
            Cartridge::Mbc1(m) => m.active_ram_bank(),
            Cartridge::Mbc2(m) => 0,
            Cartridge::Mbc3(m) => m.reported_ram_bank(),
            Cartridge::Mbc5(m) => m.ram_bank,
        }
    }

    /// Whether cartridge RAM is enabled.
    pub fn is_ram_enabled(&self) -> (r: bool)
        ensures
            r == self.ram_enable_reported(),
    {
        match self {
            Cartridge::RomOnly(m) => m.is_ram_enabled(),
            Cartridge::Mbc1(m) => m.is_ram_enabled(),
            Cartridge::Mbc2(m) => m.is_ram_enabled(),
            Cartridge::Mbc3(m) => m.is_ram_enabled(),
            Cartridge::Mbc5(m) => m.is_ram_enabled(),
        }
    }

    /// The RAM bank mapped at 0xA000-0xBFFF.
    pub fn get_ram_bank(&self) -> (r: usize)
        requires
            self.wf(),
            self.ram_bank_ok(),
        ensures
            r == self.ram_bank_reported(),
    {
        match self {
            Cartridge::RomOnly(m) => m.get_ram_bank(),
            Cartridge::Mbc1(m) => m.get_ram_bank(),
            Cartridge::Mbc2(m) => m.get_ram_bank(),
            Cartridge::Mbc3(m) => m.get_ram_bank(),
            Cartridge::Mbc5(m) => m.get_ram_bank(),
        }
    }

    /// Whether the RAM of the cartridge changed since the last save.
    pub fn dirty_sram(&self) -> (r: bool)
        ensures
            r == self.sram_dirty(),
    {
        match self {
            Cartridge::RomOnly(m) => m.dirty_sram(),
            Cartridge::Mbc1(m) => m.dirty_sram(),
            Cartridge::Mbc2(m) => m.dirty_sram(),
            Cartridge::Mbc3(m) => m.dirty_sram(),
            Cartridge::Mbc5(m) => m.dirty_sram(),
        }
    }

    /// The battery-backed RAM file to write, when it changed since the last save.
    pub fn save_ram(&mut self) -> (r: Option<SaveFile>)
        requires
            old(self).wf(),
        ensures
            final(self).wf(),
            final(self).kind() == old(self).kind(),
            old(self).battery_ram() ==> !final(self).sram_dirty() && (r is Some <==> old(
                self,
            ).sram_dirty()),
            old(self).battery_ram() ==> (final(self).sram() matches Some(s) && old(self).sram() matches Some(o)
                && s.data@ == o.data@ && s.save_file_path == o.save_file_path && (r matches Some(f) ==> f.path@
                == o.save_file_path@ && f.data@ == o.data@)),
            !old(self).battery_ram() ==> r is None && *final(self) == *old(self),
    {
        let r = match self {
            Cartridge::RomOnly(m) => m.save_ram(),
            Cartridge::Mbc1(m) => m.save_ram(),
            Cartridge::Mbc2(m) => m.save_ram(),
            Cartridge::Mbc3(m) => m.save_ram(),
            Cartridge::Mbc5(m) => m.save_ram(),
        };
        r
    }

    /// The clock file to write, when the cartridge has a clock that changed since the last save.
    pub fn save_rtc(&mut self) -> (r: Option<SaveFile>)
        requires
            old(self).wf(),
        ensures
            final(self).wf(),
            old(self).rtc_saved(&*final(self), r),
    {
        match self {
            Cartridge::Mbc3(m) => m.save_rtc(),
            _ => None,
        }
    }
}

/// Builds the controller that the header of `rom` names, over the image cut into banks,
/// with saved RAM and clock contents where given.
pub fn create_mbc(rom: &ROM, saved_ram: Option<Vec<u8>>, saved_rtc: Option<Vec<u8>>) -> (r: Cartridge)
    requires
        mbc_type_of(rom.cartridge_type) is Some,
        rom.rom@.len() > 0,
    ensures
        r.fresh_for(*rom),
{
    let t = rom.cartridge_type;
    let mbc_type = MBCType::from_byte(t);
    let has_battery = t == CART_TYPE_ROM_RAM_BATT || t == CART_TYPE_MBC1_RAM_BATT || t
        == CART_TYPE_MMM01_RAM_BATT || t == CART_TYPE_MBC3_RAM_BATT || t == CART_TYPE_MBC3_TIMER_BATT
        || t == CART_TYPE_MBC3_TIMER_RAM_BATT || t == CART_TYPE_MBC4_RAM_BATT || t
        == CART_TYPE_MBC5_RAM_BATT || t == CART_TYPE_MBC5_RUMBLE_RAM_BATT || t == CART_TYPE_HUC1_RAM_BATT;
    let has_rtc = t == CART_TYPE_MBC3_TIMER_BATT || t == CART_TYPE_MBC3_TIMER_RAM_BATT;
    let has_rumble = t == CART_TYPE_MBC5_RUMBLE || t == CART_TYPE_MBC5_RUMBLE_RAM || t
        == CART_TYPE_MBC5_RUMBLE_RAM_BATT;
    let rom_banks = rom.load_rom_to_banks();
    proof {
        assert(banks_of(rom.rom@).len() >= 1);
        assert(rom_banks.data@.len() == rom_banks.banks().len());
    }
    match mbc_type {
        MBCType::RomOnly => Cartridge::RomOnly(MBC0::new(rom_banks, rom.ram_size, has_battery)),
        MBCType::MBC1 => Cartridge::Mbc1(
            MBC1::new(
                rom_banks,
                rom.rom_size,
                rom.ram_size,
                has_battery,
                sram_save_path(rom.rom_file_path.as_str()),
                saved_ram,
            ),
        ),
        MBCType::MBC2 => Cartridge::Mbc2(
            MBC2::new(rom_banks, has_battery, sram_save_path(rom.rom_file_path.as_str()), saved_ram),
        ),
        MBCType::MBC3 => Cartridge::Mbc3(
            MBC3::new(
                rom_banks,
                rom.ram_size,
                has_battery,
                has_rtc,
                rom.rom_file_path.as_str(),
                saved_ram,
                saved_rtc,
            ),
        ),
        MBCType::MBC5 => Cartridge::Mbc5(
            MBC5::new(
                rom_banks,
                rom.ram_size,
                has_battery,
                has_rumble,
                sram_save_path(rom.rom_file_path.as_str()),
                saved_ram,
            ),
        ),
    }
}

} // verus!
