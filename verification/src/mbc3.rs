use vstd::prelude::*;

use std::time::{Duration, SystemTime, SystemTimeError};

use crate::mbc::{
    MBC,
    SRAM,
    SaveFile,
    bank_value,
    banks_view,
    get_ram_size_in_bytes,
    get_value_from_bank,
    ram_size_bytes,
    with_extension,
    zeroed,
    path_with_extension,
    INVALID_READ_VALUE,
};
use crate::rom::ROMBanks;

verus! {

pub const MBC3_MAX_ROM_BANKS: usize = 128;
pub const RTC_REG_COUNT: usize = 5;
pub const RTC_SECONDS_INDEX: usize = 0;
pub const RTC_MINUTES_INDEX: usize = 1;
pub const RTC_HOURS_INDEX: usize = 2;
pub const RTC_DAYS_LOW: usize = 3;
pub const RTC_DAYS_HIGH: usize = 4;
pub const RTC_HALT_BIT: u8 = 0x40;
pub const RTC_DAY_CARRY_BIT: u8 = 0x80;
pub const RAM_ENABLE_MASK: u8 = 0x0F;
pub const RAM_ENABLE_VALUE: u8 = 0x0A;
pub const ROM_BANK_MASK: u8 = 0x7F;
pub const BANK_SIZE: usize = 0x2000;
pub const RTC_REG_START: usize = 0x08;
pub const RTC_REG_END: usize = 0x0C;

/// The largest elapsed time the clock can apply: the seconds register plus it must fit in 64 bits.
pub const MAX_ELAPSED_SECS: u64 = 0xFFFF_FFFF_FFFF_FF00;

#[verifier::external_type_specification]
#[verifier::external_body]
pub struct ExSystemTime(std::time::SystemTime);

/// The current time, from `SystemTime::now`; nothing is stated of it.
#[verifier::external_body]
fn system_now() -> SystemTime {
    SystemTime::now()
}

#[verifier::external_type_specification]
#[verifier::external_body]
pub struct ExSystemTimeError(std::time::SystemTimeError);

/// The time from `earlier` to `now`, through `SystemTime::duration_since`; an error when
/// `earlier` is the later one. Nothing is stated of the value.
#[verifier::external_body]
fn duration_since(now: &SystemTime, earlier: &SystemTime) -> Result<Duration, SystemTimeError> {
    now.duration_since(*earlier)
}

/// The whole seconds of a duration, through `Duration::as_secs`; nothing is stated of the value.
#[verifier::external_body]
fn whole_seconds(d: &Duration) -> u64 {
    d.as_secs()
}

/// Whole seconds from `earlier` to `now`, or `None` when `earlier` is the later one.
fn seconds_between(now: &SystemTime, earlier: &SystemTime) -> Option<u64> {
    match duration_since(now, earlier) {
        Ok(d) => Some(whole_seconds(&d)),
        Err(_) => None,
    }
}

/// The clock registers after `seconds` more seconds: carries run from seconds to minutes,
/// hours and the 9-bit day counter; a day counter beyond 511 wraps and sets the carry bit.
pub open spec fn advanced_registers(regs: Seq<u8>, seconds: u64) -> Seq<u8> {
    let secs0: int = regs[0] + seconds;
    let mins0: int = regs[1] as int;
    let hours0: int = regs[2] as int;
    let days0: int = (regs[4] & 0x01) * 256 + regs[3];
    let (secs1, mins1) = if secs0 >= 60 {
        (secs0 % 60, mins0 + secs0 / 60)
    } else {
        (secs0, mins0)
    };
    let (mins2, hours1) = if mins1 >= 60 {
        (mins1 % 60, hours0 + mins1 / 60)
    } else {
        (mins1, hours0)
    };
    let (hours2, days1) = if hours1 >= 24 {
        (hours1 % 24, days0 + hours1 / 24)
    } else {
        (hours1, days0)
    };
    let (high, days2) = if days1 > 511 {
        ((regs[4] | 0x80) as u8, days1 % 512)
    } else {
        (regs[4], days1)
    };
    seq![
        secs1 as u8,
        mins2 as u8,
        hours2 as u8,
        (days2 % 256) as u8,
        ((high & 0xFE) | ((days2 / 256) % 2) as u8) as u8,
    ]
}

/// The MBC3 real-time clock: live registers, the latched copy the game reads, and the
/// time the live registers were last brought up to date.
pub struct RtcData {
    pub registers: Vec<u8>,
    pub latch_registers: Vec<u8>,
    pub base_time: SystemTime,
    pub latch_state: bool,
    pub dirty: bool,
    pub save_path: String,
}

/// The file in which the clock registers of a cartridge are kept: the image path with extension `rtc`.
pub fn rtc_save_path(rom_file_path: &str) -> (r: String)
    ensures
        r@ == path_with_extension(rom_file_path@, "rtc"@),
{
    proof {
        reveal_strlit("rtc");
    }
    with_extension(rom_file_path, "rtc")
}

impl RtcData {
    pub open spec fn wf(&self) -> bool {
        self.registers@.len() == 5 && self.latch_registers@.len() == 5
    }

    /// Whether the halt bit stops the clock.
    pub open spec fn halted(&self) -> bool {
        self.registers@[4] & 0x40 != 0
    }

    /// `self` is the clock after an update from `old` in which the time since the last update
    /// read `elapsed` and the current time read `now`.
    pub open spec fn update_of(&self, old: &RtcData, elapsed: Option<u64>, now: SystemTime) -> bool {
        if !old.halted() && (elapsed matches Some(s) && 0 < s <= MAX_ELAPSED_SECS) {
            &&& *self == (RtcData { registers: self.registers, base_time: now, dirty: true, ..*old })
            &&& self.registers@ == advanced_registers(old.registers@, elapsed.unwrap())
        } else {
            *self == *old
        }
    }

    /// `self` is the clock after some update from `old`.
    pub open spec fn updated(&self, old: &RtcData) -> bool {
        exists|e: Option<u64>, n: SystemTime| self.update_of(old, e, n)
    }

    /// `self` is the clock after an update from `old` and a copy of the live registers to the latch.
    pub open spec fn latched(&self, old: &RtcData) -> bool {
        exists|mid: RtcData|
            #![trigger mid.updated(old)]
            mid.updated(old) && *self == (RtcData { latch_registers: self.latch_registers, ..mid })
                && self.latch_registers@ == mid.registers@
    }

    /// `self` is the clock after `value` was written to the latch register: a change of bit 0
    /// from 1 to 0 latches the registers.
    pub open spec fn latch_written(&self, old: &RtcData, value: u8) -> bool {
        let new_latch = value & 0x01 != 0;
        if old.latch_state && !new_latch {
            exists|mid: RtcData|
                #![trigger mid.latched(old)]
                mid.latched(old) && *self == (RtcData { latch_state: new_latch, ..mid })
        } else {
            *self == (RtcData { latch_state: new_latch, ..*old })
        }
    }

    /// A stopped-at-zero clock started now, taking the registers from `saved` when it holds five bytes.
    pub fn new(save_path: String, saved: Option<Vec<u8>>) -> (r: RtcData)
        ensures
            r.wf(),
            r.save_path@ == save_path@,
            !r.latch_state && !r.dirty,
            r.registers@ == (match saved {
                Some(d) => if d@.len() == 5 {
                    d@
                } else {
                    Seq::new(5, |i: int| 0u8)
                },
                None => Seq::new(5, |i: int| 0u8),
            }),
            r.latch_registers@ == r.registers@,
    {
        let mut rtc = RtcData {
            registers: zeroed(RTC_REG_COUNT),
            latch_registers: zeroed(RTC_REG_COUNT),
            base_time: system_now(),
            latch_state: false,
            dirty: false,
            save_path,
        };
        match saved {
            Some(data) => {
                let _ = rtc.load(data);
            },
            None => {},
        }
        proof {
            assert(rtc.latch_registers@ =~= rtc.registers@);
        }
        rtc
    }

    /// Takes the registers from saved data; refuses data that is not five bytes long.
    pub fn load(&mut self, data: Vec<u8>) -> (ok: bool)
        requires
            old(self).wf(),
        ensures
            final(self).wf(),
            ok == (data@.len() == 5),
            ok ==> final(self).registers@ == data@ && final(self).latch_registers@ == data@
                && !final(self).dirty && final(self).save_path == old(self).save_path
                && final(self).latch_state == old(self).latch_state,
            !ok ==> *final(self) == *old(self),
    {
        if data.len() != RTC_REG_COUNT {
            return false;
        }
        self.latch_registers = data.clone();
        self.registers = data;
        self.base_time = system_now();
        self.dirty = false;
        true
    }

    /// When the registers changed since the last save: brings them up to date, clears the
    /// flag and gives the file to write.
    pub fn save(&mut self) -> (r: Option<SaveFile>)
        requires
            old(self).wf(),
        ensures
            final(self).wf(),
            !old(self).dirty ==> r is None && *final(self) == *old(self),
            old(self).dirty ==> exists|mid: RtcData|
                #![trigger mid.updated(old(self))]
                mid.updated(old(self)) && *final(self) == (RtcData { dirty: false, ..mid }) && (r matches Some(
                    f,
                ) && f.path@ == mid.save_path@ && f.data@ == mid.registers@),
    {
        if self.dirty {
            self.update();
            let ghost mid = *self;
            self.dirty = false;
            let r = Some(SaveFile { path: self.save_path.clone(), data: self.registers.clone() });
            assert(mid.updated(old(self)));
            r
        } else {
            None
        }
    }

    /// Applies `seconds` elapsed seconds to the live registers.
    pub fn advance(&mut self, seconds: u64)
        requires
            old(self).wf(),
            seconds <= MAX_ELAPSED_SECS,
        ensures
            final(self).wf(),
            final(self).registers@ == advanced_registers(old(self).registers@, seconds),
            *final(self) == (RtcData { registers: final(self).registers, ..*old(self) }),
    {
        let mut secs = self.registers[RTC_SECONDS_INDEX] as u64 + seconds;
        let mut mins = self.registers[RTC_MINUTES_INDEX] as u64;
        let mut hours = self.registers[RTC_HOURS_INDEX] as u64;
        let mut days = ((self.registers[RTC_DAYS_HIGH] & 0x01) as u64) * 256 + self.registers[RTC_DAYS_LOW] as u64;
        if secs >= 60 {
            mins = mins + secs / 60;
            secs = secs % 60;
        }
        if mins >= 60 {
            hours = hours + mins / 60;
            mins = mins % 60;
        }
        if hours >= 24 {
            days = days + hours / 24;
            hours = hours % 24;
        }
        let mut high = self.registers[RTC_DAYS_HIGH];
        if days > 511 {
            high = high | RTC_DAY_CARRY_BIT;
            days = days % 512;
        }
        let ghost regs = self.registers@;
        let mut new_regs: Vec<u8> = Vec::new();
        new_regs.push(secs as u8);
        new_regs.push(mins as u8);
        new_regs.push(hours as u8);
        new_regs.push((days % 256) as u8);
        new_regs.push((high & 0xFE) | ((days / 256) % 2) as u8);
        self.registers = new_regs;
        proof {
            assert(self.registers@ =~= advanced_registers(regs, seconds));
        }
    }

    /// Brings the live registers up to date with the time elapsed since the last update,
    /// unless the clock is halted.
    pub fn update(&mut self)
        requires
            old(self).wf(),
        ensures
            final(self).wf(),
            final(self).updated(old(self)),
    {
        if (self.registers[RTC_DAYS_HIGH] & RTC_HALT_BIT) == 0 {
            let now = system_now();
            let elapsed = seconds_between(&now, &self.base_time);
            match elapsed {
                Some(seconds) => {
                    if seconds > 0 && seconds <= MAX_ELAPSED_SECS {
                        let later = system_now();
                        self.base_time = later;
                        self.advance(seconds);
                        self.dirty = true;
                        assert(final(self).update_of(old(self), elapsed, later));
                    } else {
                        assert(final(self).update_of(old(self), elapsed, now));
                    }
                },
                None => {
                    assert(final(self).update_of(old(self), elapsed, now));
                },
            }
        } else {
            let ghost n = self.base_time;
            assert(final(self).update_of(old(self), None, n));
        }
    }

    /// Brings the registers up to date and copies them to the latch.
    pub fn latch(&mut self)
        requires
            old(self).wf(),
        ensures
            final(self).wf(),
            final(self).latched(old(self)),
    {
        self.update();
        let ghost mid = *self;
        self.latch_registers = self.registers.clone();
        proof {
            assert(self.latch_registers@ =~= mid.registers@);
            assert(mid.updated(old(self)));
        }
    }

    /// The latched value of clock register `reg_index` (0xFF beyond the five registers).
    pub fn read_latched(&self, reg_index: usize) -> (r: u8)
        requires
            self.wf(),
        ensures
            reg_index < 5 ==> r == self.latch_registers@[reg_index as int],
            reg_index >= 5 ==> r == 0xFF,
    {
        if reg_index < RTC_REG_COUNT {
            self.latch_registers[reg_index]
        } else {
            0xFF
        }
    }

    /// Writes clock register `reg_index` after bringing the clock up to date: seconds and
    /// minutes keep 6 bits, hours 5, the day high register its halt and day bits and the
    /// old carry; while halted the latch follows.
    pub fn write_register(&mut self, reg_index: usize, value: u8)
        requires
            old(self).wf(),
        ensures
            final(self).wf(),
            reg_index >= 5 ==> *final(self) == *old(self),
            reg_index < 5 ==> exists|mid: RtcData|
                #![trigger mid.updated(old(self))]
                mid.updated(old(self)) && final(self).register_written(&mid, reg_index, value),
    {
        if reg_index < RTC_REG_COUNT {
            self.update();
            let ghost mid = *self;
            let v = if reg_index == RTC_SECONDS_INDEX {
                value & 0x3F
            } else if reg_index == RTC_MINUTES_INDEX {
                value & 0x3F
            } else if reg_index == RTC_HOURS_INDEX {
                value & 0x1F
            } else if reg_index == RTC_DAYS_LOW {
                value
            } else {
                let day_carry = self.registers[reg_index] & RTC_DAY_CARRY_BIT;
                (value & 0xC1) | day_carry
            };
            self.registers.set(reg_index, v);
            if reg_index == RTC_DAYS_HIGH {
                let ghost h = mid.registers@[4];
                assert((value & 0x40) == (((value & 0xC1) | (h & 0x80)) & 0x40)) by (bit_vector);
                if (value & RTC_HALT_BIT) != (self.registers[reg_index] & RTC_HALT_BIT) {
                    self.base_time = system_now();
                }
            }
            if (self.registers[RTC_DAYS_HIGH] & RTC_HALT_BIT) != 0 {
                let cur = self.registers[reg_index];
                self.latch_registers.set(reg_index, cur);
            }
            self.dirty = true;
            assert(mid.updated(old(self)));
        }
    }

    /// `self` is `mid` after clock register `reg_index` was given `value`.
    pub open spec fn register_written(&self, mid: &RtcData, reg_index: usize, value: u8) -> bool {
        let v: u8 = if reg_index == 0 || reg_index == 1 {
            value & 0x3F
        } else if reg_index == 2 {
            value & 0x1F
        } else if reg_index == 3 {
            value
        } else {
            (value & 0xC1) | (mid.registers@[4] & 0x80)
        };
        let regs = mid.registers@.update(reg_index as int, v);
        &&& self.registers@ == regs
        &&& (regs[4] & 0x40 != 0 ==> self.latch_registers@ == mid.latch_registers@.update(reg_index as int, v))
        &&& (regs[4] & 0x40 == 0 ==> self.latch_registers@ == mid.latch_registers@)
        &&& *self == (RtcData {
            registers: self.registers,
            latch_registers: self.latch_registers,
            dirty: true,
            ..*mid
        })
    }

    /// Handles a write to the latch register: a change of bit 0 from 1 to 0 latches the clock.
    pub fn update_latch_state(&mut self, value: u8)
        requires
            old(self).wf(),
        ensures
            final(self).wf(),
            final(self).latch_written(old(self), value),
    {
        let new_latch = value & 0x01 != 0;
        if self.latch_state && !new_latch {
            self.latch();
            let ghost mid = *self;
            self.latch_state = new_latch;
            assert(mid.latched(old(self)));
        } else {
            self.latch_state = new_latch;
        }
    }
}

/// The MBC3 controller: 7-bit ROM bank number, RAM banks and an optional real-time clock.
pub struct MBC3 {
    pub rom_banks: ROMBanks,
    pub sram: Option<SRAM>,
    pub rtc: Option<RtcData>,
    pub rom_bank: usize,
    pub ram_bank: usize,
    pub ram_enabled: bool,
    pub has_ram: bool,
    pub has_battery: bool,
    pub has_rtc: bool,
    pub rom_bank_count: usize,
}

impl MBC3 {
    /// The ROM bank that 0x4000-0x7FFF shows: bank 0 selects bank 1, then the number is
    /// masked by the bank count.
    pub open spec fn active_rom_bank(&self) -> usize {
        let bank = if self.rom_bank == 0 {
            1
        } else {
            self.rom_bank
        };
        bank & ((self.rom_bank_count - 1) as usize)
    }

    /// Whether a RAM bank number selects a clock register.
    pub open spec fn rtc_register_selected(&self, bank: usize) -> bool {
        self.has_rtc && 0x08 <= bank <= 0x0C
    }

    /// The RAM bank reported to the bus: 0xFF while a clock register is selected.
    pub open spec fn reported_ram_bank(&self) -> usize {
        if self.rtc_register_selected(self.ram_bank) {
            0xFF
        } else {
            self.ram_bank
        }
    }

    /// Offset into cartridge RAM of an external RAM address.
    pub open spec fn ram_offset(&self, address: u16) -> int {
        self.ram_bank * 0x2000 + (address - 0xA000)
    }

    /// Whether the external RAM window shows cartridge RAM (enabled, present, and no clock
    /// register selected).
    pub open spec fn ram_window(&self) -> bool {
        self.ram_enabled && self.has_ram && !self.rtc_register_selected(self.ram_bank)
    }

    /// A controller over `rom_banks`, with RAM (`saved` or zeroed) when the header has RAM
    /// and a clock (`saved_rtc` or zeroed) when the cartridge has one.
    pub fn new(
        rom_banks: ROMBanks,
        ram_size: u8,
        has_battery: bool,
        has_rtc: bool,
        rom_file_path: &str,
        saved: Option<Vec<u8>>,
        saved_rtc: Option<Vec<u8>>,
    ) -> (r: MBC3)
        requires
            rom_banks.data@.len() >= 1,
        ensures
            r.wf(),
            r.rom_banks == rom_banks,
            r.rom_bank == 1 && r.ram_bank == 0 && !r.ram_enabled,
            r.has_ram == (ram_size > 0),
            r.has_battery == has_battery,
            r.has_rtc == has_rtc,
            r.rom_bank_count == if rom_banks.data@.len() < 128 {
                rom_banks.data@.len() as usize
            } else {
                128usize
            },
            r.has_ram ==> (r.sram matches Some(s) && !s.dirty && s.save_file_path@ == path_with_extension(
                rom_file_path@,
                "sav"@,
            ) && s.data@ == (match saved {
                Some(d) => if d@.len() == ram_size_bytes(ram_size) {
                    d@
                } else {
                    Seq::new(ram_size_bytes(ram_size) as nat, |i: int| 0u8)
                },
                None => Seq::new(ram_size_bytes(ram_size) as nat, |i: int| 0u8),
            })),
            r.has_rtc ==> (r.rtc matches Some(c) && c.save_path@ == path_with_extension(
                rom_file_path@,
                "rtc"@,
            ) && !c.dirty && !c.latch_state && c.registers@ == (match saved_rtc {
                Some(d) => if d@.len() == 5 {
                    d@
                } else {
                    Seq::new(5, |i: int| 0u8)
                },
                None => Seq::new(5, |i: int| 0u8),
            })),
    {
        let ram_size_bytes = get_ram_size_in_bytes(ram_size);
        let has_ram = ram_size > 0;
        let n = rom_banks.data.len();
        let rom_bank_count = if n < MBC3_MAX_ROM_BANKS {
            n
        } else {
            MBC3_MAX_ROM_BANKS
        };
        let sram = if has_ram {
            Some(SRAM::new(ram_size_bytes, crate::mbc::sram_save_path(rom_file_path), saved))
        } else {
            None
        };
        let rtc = if has_rtc {
            Some(RtcData::new(rtc_save_path(rom_file_path), saved_rtc))
        } else {
            None
        };
        MBC3 {
            rom_banks,
            sram,
            rtc,
            rom_bank: 1,
            ram_bank: 0,
            ram_enabled: false,
            has_ram,
            has_battery,
            has_rtc,
            rom_bank_count,
        }
    }

    /// The ROM bank that 0x4000-0x7FFF shows.
    pub fn get_active_rom_bank(&self) -> (r: usize)
        requires
            self.rom_bank_count >= 1,
        ensures
            r == self.active_rom_bank(),
    {
        let bank = if self.rom_bank == 0 {
            1
        } else {
            self.rom_bank
        };
        bank & (self.rom_bank_count - 1)
    }

    /// Whether a RAM bank number selects a clock register.
    pub fn is_rtc_register(&self, bank: usize) -> (r: bool)
        ensures
            r == self.rtc_register_selected(bank),
    {
        self.has_rtc && bank >= RTC_REG_START && bank <= RTC_REG_END
    }

    /// The clock register index (0 to 4) that a clock bank number 0x08-0x0C selects.
    pub fn ram_bank_to_rtc_register(&self, bank: usize) -> (r: usize)
        ensures
            0x08 <= bank <= 0x0C ==> r == bank - 0x08,
            !(0x08 <= bank <= 0x0C) ==> r == 0,
    {
        if bank >= RTC_REG_START && bank <= RTC_REG_END {
            bank - RTC_REG_START
        } else {
            0
        }
    }
}

impl MBC for MBC3 {
    open spec fn wf(&self) -> bool {
        &&& self.rom_bank_count >= 1
        &&& self.rom_bank <= 0x7F
        &&& self.ram_bank <= 0xFF
        &&& self.has_ram <==> self.sram is Some
        &&& self.has_rtc <==> self.rtc is Some
        &&& self.rtc matches Some(c) ==> c.wf()
    }

    open spec fn ram_bank_ok(&self) -> bool {
        true
    }

    open spec fn read_ok(&self, address: u16) -> bool {
        0xA000 <= address <= 0xBFFF && self.ram_window() ==> self.ram_offset(address)
            < self.sram.unwrap().data@.len()
    }

    open spec fn write_ok(&self, address: u16) -> bool {
        self.read_ok(address)
    }

    open spec fn read_value(&self, address: u16) -> u8 {
        if address <= 0x3FFF {
            bank_value(banks_view(self.rom_banks.data@), 0, address as int)
        } else if address <= 0x7FFF {
            bank_value(banks_view(self.rom_banks.data@), self.active_rom_bank() as int, address - 0x4000)
        } else if 0xA000 <= address <= 0xBFFF && self.ram_enabled && self.rtc_register_selected(self.ram_bank) {
            self.rtc.unwrap().latch_registers@[self.ram_bank - 0x08]
        } else if 0xA000 <= address <= 0xBFFF && self.ram_window() {
            self.sram.unwrap().data@[self.ram_offset(address)]
        } else {
            0xFF
        }
    }

    open spec fn written(&self, old: &Self, address: u16, value: u8) -> bool {
        if address <= 0x1FFF {
            *self == (MBC3 { ram_enabled: value & 0x0F == 0x0A, ..*old })
        } else if address <= 0x3FFF {
            *self == (MBC3 { rom_bank: (value & 0x7F) as usize, ..*old })
        } else if address <= 0x5FFF {
            *self == (MBC3 { ram_bank: value as usize, ..*old })
        } else if address <= 0x7FFF {
            if old.rtc is Some {
                &&& *self == (MBC3 { rtc: self.rtc, ..*old })
                &&& self.rtc is Some
                &&& self.rtc.unwrap().latch_written(&old.rtc.unwrap(), value)
            } else {
                *self == *old
            }
        } else if 0xA000 <= address <= 0xBFFF && old.ram_enabled && old.rtc_register_selected(old.ram_bank) {
            &&& *self == (MBC3 { rtc: self.rtc, ..*old })
            &&& self.rtc is Some
            &&& exists|mid: RtcData|
                #![trigger mid.updated(&old.rtc.unwrap())]
                mid.updated(&old.rtc.unwrap()) && self.rtc.unwrap().register_written(
                    &mid,
                    (old.ram_bank - 0x08) as usize,
                    value,
                )
        } else if 0xA000 <= address <= 0xBFFF && old.ram_window() {
            let s = self.sram.unwrap();
            let o = old.sram.unwrap();
            &&& *self == (MBC3 { sram: self.sram, ..*old })
            &&& self.sram is Some
            &&& s.data@ == o.data@.update(old.ram_offset(address), value)
            &&& s.dirty
            &&& s.save_file_path == o.save_file_path
        } else {
            *self == *old
        }
    }

    open spec fn rom_bank(&self) -> usize {
        self.active_rom_bank()
    }

    fn read_byte(&self, address: u16) -> (r: u8)
        ensures
            r == self.read_value(address),
    {
        if address <= 0x3FFF {
            get_value_from_bank(0, address, &self.rom_banks.data)
        } else if address <= 0x7FFF {
            let bank = self.get_active_rom_bank();
            get_value_from_bank(bank, address - 0x4000, &self.rom_banks.data)
        } else if 0xA000 <= address && address <= 0xBFFF {
            if self.is_ram_enabled() {
                let bank = self.ram_bank;
                if self.is_rtc_register(bank) {
                    match &self.rtc {
                        Some(rtc) => rtc.read_latched(self.ram_bank_to_rtc_register(bank)),
                        None => INVALID_READ_VALUE,
                    }
                } else if self.has_ram {
                    match &self.sram {
                        Some(sram) => {
                            let ram_addr = bank * BANK_SIZE + (address - 0xA000) as usize;
                            sram.read(ram_addr)
                        },
                        None => INVALID_READ_VALUE,
                    }
                } else {
                    INVALID_READ_VALUE
                }
            } else {
                INVALID_READ_VALUE
            }
        } else {
            INVALID_READ_VALUE
        }
    }

    fn write_byte(&mut self, address: u16, value: u8)
        ensures
            final(self).wf(),
            final(self).written(old(self), address, value),
    {
        if address <= 0x1FFF {
            self.ram_enabled = (value & RAM_ENABLE_MASK) == RAM_ENABLE_VALUE;
        } else if address <= 0x3FFF {
            assert(value & 0x7F <= 0x7F) by (bit_vector);
            self.rom_bank = (value & ROM_BANK_MASK) as usize;
        } else if address <= 0x5FFF {
            self.ram_bank = value as usize;
        } else if address <= 0x7FFF {
            match &mut self.rtc {
                Some(rtc) => rtc.update_latch_state(value),
                None => {},
            }
        } else if 0xA000 <= address && address <= 0xBFFF {
            if self.is_ram_enabled() {
                let bank = self.ram_bank;
                if self.is_rtc_register(bank) {
                    let rtc_reg = self.ram_bank_to_rtc_register(bank);
                    match &mut self.rtc {
                        Some(rtc) => rtc.write_register(rtc_reg, value),
                        None => {},
                    }
                } else if self.has_ram {
                    match &mut self.sram {
                        Some(sram) => {
                            let ram_addr = bank * BANK_SIZE + (address - 0xA000) as usize;
                            sram.write(ram_addr, value);
                        },
                        None => {},
                    }
                }
            }
        }
    }

    fn get_rom_bank(&self) -> (r: usize)
        ensures
            r == self.active_rom_bank(),
    {
        self.get_active_rom_bank()
    }

    fn get_ram_bank(&self) -> (r: usize)
        ensures
            r == self.reported_ram_bank(),
    {
        if self.is_rtc_register(self.ram_bank) {
            0xFF
        } else {
            self.ram_bank
        }
    }

    fn is_ram_enabled(&self) -> (r: bool)
        ensures
            r == self.ram_enabled,
    {
        self.ram_enabled
    }

    fn save_ram(&mut self) -> (r: Option<SaveFile>)
        ensures
            !(old(self).has_battery && old(self).sram is Some) ==> r is None && *final(self)
                == *old(self),
            old(self).has_battery && old(self).sram is Some ==> ({
                let o = old(self).sram.unwrap();
                &&& *final(self) == (MBC3 { sram: final(self).sram, ..*old(self) })
                &&& final(self).sram matches Some(s) && !s.dirty && s.data@ == o.data@
                    && s.save_file_path == o.save_file_path
                &&& o.dirty ==> (r matches Some(f) && f.path@ == o.save_file_path@ && f.data@
                    == o.data@)
                &&& !o.dirty ==> r is None
            }),
    {
        if self.has_battery {
            match &mut self.sram {
                Some(sram) => sram.save(),
                None => None,
            }
        } else {
            None
        }
    }

    fn dirty_sram(&self) -> (r: bool)
        ensures
            r == (self.sram matches Some(s) && s.dirty),
    {
        match &self.sram {
            Some(sram) => sram.dirty,
            None => false,
        }
    }

    fn can_read(&self, address: u16) -> (r: bool) {
        if 0xA000 <= address && address <= 0xBFFF && self.ram_enabled && self.has_ram
            && !self.is_rtc_register(self.ram_bank) {
            match &self.sram {
                Some(sram) => {
                    let bank = self.ram_bank;
                    bank * 0x2000 + ((address - 0xA000) as usize) < sram.data.len()
                },
                None => false,
            }
        } else {
            true
        }
    }

    fn can_write(&self, address: u16) -> (r: bool) {
        self.can_read(address)
    }
}

impl MBC3 {
    /// Whether `new` and `r` are the controller and the result of a clock save from `self`:
    /// without a clock nothing happens; a clock unchanged since the last save gives nothing;
    /// a changed one is brought up to date, marked saved, and its registers are the file.
    pub open spec fn rtc_saved(&self, new: &MBC3, r: Option<SaveFile>) -> bool {
        match self.rtc {
            None => r is None && *new == *self,
            Some(o) => {
                &&& *new == (MBC3 { rtc: new.rtc, ..*self })
                &&& !o.dirty ==> r is None && new.rtc == self.rtc
                &&& o.dirty ==> exists|mid: RtcData|
                    #![trigger mid.updated(&o)]
                    mid.updated(&o) && new.rtc == Some(RtcData { dirty: false, ..mid }) && (r matches Some(f)
                        && f.path@ == mid.save_path@ && f.data@ == mid.registers@)
            },
        }
    }

    /// The clock file to write, when the cartridge has a clock whose registers changed since
    /// the last save (asked after the RAM file has been written).
    pub fn save_rtc(&mut self) -> (r: Option<SaveFile>)
        requires
            old(self).wf(),
        ensures
            final(self).wf(),
            old(self).rtc_saved(&*final(self), r),
    {
        if self.has_rtc {
            match &mut self.rtc {
                Some(rtc) => rtc.save(),
                None => None,
            }
        } else {
            None
        }
    }
}

} // verus!
