use vstd::prelude::*;

verus! {

// Memory sizes (in bytes).
pub const KB_2: usize = 2 * 1024;
pub const KB_8: usize = 8 * 1024;
pub const KB_16: usize = 16 * 1024;
pub const KB_32: usize = 32 * 1024;
pub const KB_64: usize = 64 * 1024;
pub const KB_128: usize = 128 * 1024;
pub const KB_256: usize = 256 * 1024;
pub const KB_512: usize = 512 * 1024;
pub const MB_1: usize = 1024 * 1024;
pub const MB_2: usize = 2 * 1024 * 1024;
pub const MB_4: usize = 4 * 1024 * 1024;
pub const MB_8: usize = 8 * 1024 * 1024;

// Memory region addresses.
pub const ROM_BANK0_START: u16 = 0x0000;
pub const ROM_BANK0_END: u16 = 0x3FFF;
pub const ROM_BANK_N_START: u16 = 0x4000;
pub const ROM_BANK_N_END: u16 = 0x7FFF;
pub const RAM_START: u16 = 0xA000;
pub const RAM_END: u16 = 0xBFFF;
pub const INVALID_READ_VALUE: u8 = 0xFF;
pub const ROM_BANK_SELECT_START: u16 = 0x2000;

/// A file that a cartridge asks to have written: battery-backed RAM or clock registers.
pub struct SaveFile {
    pub path: String,
    pub data: Vec<u8>,
}

/// The byte at `address` of bank `bank`, or 0xFF when either is missing.
pub open spec fn bank_value(banks: Seq<Seq<u8>>, bank: int, address: int) -> u8 {
    if 0 <= bank < banks.len() && 0 <= address < banks[bank].len() {
        banks[bank][address]
    } else {
        0xFF
    }
}

/// The banks held by a vector of vectors.
pub open spec fn banks_view(data: Seq<Vec<u8>>) -> Seq<Seq<u8>> {
    data.map_values(|b: Vec<u8>| b@)
}

/// Reads byte `address` of bank `bank`, giving 0xFF where the bank or the byte is missing.
pub fn get_value_from_bank(bank: usize, address: u16, data: &Vec<Vec<u8>>) -> (r: u8)
    ensures
        r == bank_value(banks_view(data@), bank as int, address as int),
{
    if bank < data.len() {
        if (address as usize) < data[bank].len() {
            data[bank][address as usize]
        } else {
            INVALID_READ_VALUE
        }
    } else {
        INVALID_READ_VALUE
    }
}

/// `n` zero bytes.
pub fn zeroed(n: usize) -> (v: Vec<u8>)
    ensures
        v@ == Seq::new(n as nat, |i: int| 0u8),
{
    let mut v: Vec<u8> = Vec::new();
    let mut i: usize = 0;
    while i < n
        invariant
            i <= n,
            v@ == Seq::new(i as nat, |j: int| 0u8),
        decreases n - i,
    {
        v.push(0);
        i = i + 1;
        assert(v@ =~= Seq::new(i as nat, |j: int| 0u8));
    }
    v
}

/// What every memory bank controller offers to the memory bus.
pub trait MBC {
    /// The controller's own invariant.
    spec fn wf(&self) -> bool;

    /// Whether reading `address` completes (the controller does not stop on it).
    spec fn read_ok(&self, address: u16) -> bool;

    /// Whether writing `address` completes.
    spec fn write_ok(&self, address: u16) -> bool;

    /// The byte read at `address`.
    spec fn read_value(&self, address: u16) -> u8;

    /// Whether `self` is a state that writing `value` at `address` can lead to from `old`.
    spec fn written(&self, old: &Self, address: u16, value: u8) -> bool;

    /// The ROM bank mapped at 0x4000-0x7FFF.
    spec fn rom_bank(&self) -> usize;

    /// Whether the RAM bank can be computed.
    spec fn ram_bank_ok(&self) -> bool;

    /// Reads a byte of the cartridge address space.
    fn read_byte(&self, address: u16) -> (r: u8)
        requires
            self.wf(),
            self.read_ok(address),
    ;

    /// Writes a byte of the cartridge address space.
    fn write_byte(&mut self, address: u16, value: u8)
        requires
            old(self).wf(),
            old(self).write_ok(address),
    ;

    /// The ROM bank mapped at 0x4000-0x7FFF.
    fn get_rom_bank(&self) -> (r: usize)
        requires
            self.wf(),
    ;

    /// The RAM bank mapped at 0xA000-0xBFFF.
    fn get_ram_bank(&self) -> (r: usize)
        requires
            self.wf(),
            self.ram_bank_ok(),
    ;

    /// Whether cartridge RAM is enabled.
    fn is_ram_enabled(&self) -> (r: bool);

    /// The battery-backed RAM file to write, when it changed since the last save.
    fn save_ram(&mut self) -> (r: Option<SaveFile>);

    /// Whether cartridge RAM changed since the last save.
    fn dirty_sram(&self) -> (r: bool);

    /// Whether reading `address` completes.
    fn can_read(&self, address: u16) -> (r: bool)
        requires
            self.wf(),
        ensures
            r == self.read_ok(address),
    ;

    /// Whether writing `address` completes.
    fn can_write(&self, address: u16) -> (r: bool)
        requires
            self.wf(),
        ensures
            r == self.write_ok(address),
    ;
}

/// The memory bank controller kinds that the emulator supports.
#[derive(Debug, Clone, Copy, PartialEq, Eq, Structural)]
pub enum MBCType {
    RomOnly,
    MBC1,
    MBC2,
    MBC3,
    MBC5,
}

/// The controller kind of a cartridge type byte, if it is supported.
pub open spec fn mbc_type_of(value: u8) -> Option<MBCType> {
    if value == 0x00 {
        Some(MBCType::RomOnly)
    } else if value == 0x01 || value == 0x02 || value == 0x03 {
        Some(MBCType::MBC1)
    } else if value == 0x05 || value == 0x06 {
        Some(MBCType::MBC2)
    } else if 0x0F <= value <= 0x13 {
        Some(MBCType::MBC3)
    } else if 0x19 <= value <= 0x1E {
        Some(MBCType::MBC5)
    } else {
        None
    }
}

impl MBCType {
    /// The controller kind of a supported cartridge type byte.
    pub fn from_byte(value: u8) -> (r: Self)
        requires
            mbc_type_of(value) is Some,
        ensures
            mbc_type_of(value) == Some(r),
    {
        if value == 0x00 {
            MBCType::RomOnly
        } else if value == 0x01 || value == 0x02 || value == 0x03 {
            MBCType::MBC1
        } else if value == 0x05 || value == 0x06 {
            MBCType::MBC2
        } else if 0x0F <= value && value <= 0x13 {
            MBCType::MBC3
        } else {
            MBCType::MBC5
        }
    }

    /// The controller kind of a cartridge type byte, or `None` for an unsupported one.
    pub fn try_from_byte(value: u8) -> (r: Option<Self>)
        ensures
            r == mbc_type_of(value),
    {
        if value == 0x00 || value == 0x01 || value == 0x02 || value == 0x03 || value == 0x05 || value
            == 0x06 || (0x0F <= value && value <= 0x13) || (0x19 <= value && value <= 0x1E) {
            Some(MBCType::from_byte(value))
        } else {
            None
        }
    }
}

/// ROM size in bytes for the header's ROM size code (32 KiB for unknown codes).
pub open spec fn rom_size_bytes(rom_size: u8) -> usize {
    if rom_size <= 8 {
        (0x8000usize << rom_size) as usize
    } else {
        0x8000
    }
}

/// RAM size in bytes for the header's RAM size code (none for unknown codes).
pub open spec fn ram_size_bytes(ram_size: u8) -> usize {
    if ram_size == 1 {
        KB_2
    } else if ram_size == 2 {
        KB_8
    } else if ram_size == 3 {
        KB_32
    } else if ram_size == 4 {
        KB_128
    } else if ram_size == 5 {
        KB_64
    } else {
        0
    }
}

/// Number of 8 KiB RAM banks for the header's RAM size code.
pub open spec fn ram_bank_count_of(ram_size: u8) -> usize {
    if ram_size == 1 || ram_size == 2 {
        1
    } else if ram_size == 3 {
        4
    } else if ram_size == 4 {
        16
    } else if ram_size == 5 {
        8
    } else {
        0
    }
}

/// ROM size in bytes for a header ROM size code.
pub fn get_rom_size_in_bytes(rom_size: u8) -> (r: usize)
    ensures
        r == rom_size_bytes(rom_size),
{
    let r = match rom_size {
        0x00 => KB_32,
        0x01 => KB_64,
        0x02 => KB_128,
        0x03 => KB_256,
        0x04 => KB_512,
        0x05 => MB_1,
        0x06 => MB_2,
        0x07 => MB_4,
        0x08 => MB_8,
        _ => KB_32,
    };
    proof {
        assert(0x8000usize << 0u8 == 0x8000 && 0x8000usize << 1u8 == 0x10000 && 0x8000usize << 2u8
            == 0x20000 && 0x8000usize << 3u8 == 0x40000 && 0x8000usize << 4u8 == 0x80000
            && 0x8000usize << 5u8 == 0x100000 && 0x8000usize << 6u8 == 0x200000 && 0x8000usize
            << 7u8 == 0x400000 && 0x8000usize << 8u8 == 0x800000) by (bit_vector);
    }
    r
}

/// Number of 16 KiB ROM banks for a header ROM size code.
pub fn get_rom_banks(rom_size: u8) -> (r: usize)
    ensures
        r == rom_size_bytes(rom_size) / 0x4000,
        r >= 2,
{
    let r = get_rom_size_in_bytes(rom_size) / KB_16;
    proof {
        assert(rom_size_bytes(rom_size) >= 0x8000) by {
            if rom_size <= 8 {
                assert(rom_size <= 8 ==> (0x8000usize << rom_size) >= 0x8000usize) by (bit_vector);
            }
        }
    }
    r
}

/// RAM size in bytes for a header RAM size code.
pub fn get_ram_size_in_bytes(ram_size: u8) -> (r: usize)
    ensures
        r == ram_size_bytes(ram_size),
{
    match ram_size {
        0x00 => 0,
        0x01 => KB_2,
        0x02 => KB_8,
        0x03 => KB_32,
        0x04 => KB_128,
        0x05 => KB_64,
        _ => 0,
    }
}

/// Number of 8 KiB RAM banks for a header RAM size code.
pub fn get_ram_banks(ram_size: u8) -> (r: usize)
    ensures
        r == ram_bank_count_of(ram_size),
{
    match ram_size {
        0x00 => 0,
        0x01 => 1,
        0x02 => 1,
        0x03 => 4,
        0x04 => 16,
        0x05 => 8,
        _ => 0,
    }
}

/// Cartridge RAM, with a flag that records whether it changed since it was last saved.
pub struct SRAM {
    pub data: Vec<u8>,
    pub dirty: bool,
    pub save_file_path: String,
}

/// What `Path::with_extension` makes of a path and an extension.
pub uninterp spec fn path_with_extension(path: Seq<char>, extension: Seq<char>) -> Seq<char>;

/// Whether a path component holds a path separator (`/`, or `\\` on Windows).
pub open spec fn has_separator(s: Seq<char>) -> bool {
    s.contains('/') || s.contains('\\')
}

/// `path` with its extension replaced by `extension`, through `Path::with_extension`, which
/// panics on an extension holding a path separator.
#[verifier::external_body]
pub(crate) fn with_extension(path: &str, extension: &str) -> (r: String)
    requires
        !has_separator(extension@),
    ensures
        r@ == path_with_extension(path@, extension@),
{
    std::path::Path::new(path).with_extension(extension).to_string_lossy().into_owned()
}

/// The file in which the battery-backed RAM of a cartridge is kept: the image path with extension `sav`.
pub fn sram_save_path(rom_file_path: &str) -> (r: String)
    ensures
        r@ == path_with_extension(rom_file_path@, "sav"@),
{
    proof {
        reveal_strlit("sav");
    }
    with_extension(rom_file_path, "sav")
}

impl SRAM {
    /// `size` zero bytes, replaced by `saved` when the saved file has exactly that size.
    pub fn new(size: usize, save_file_path: String, saved: Option<Vec<u8>>) -> (r: SRAM)
        ensures
            r.data@ == (match saved {
                Some(d) => if d@.len() == size {
                    d@
                } else {
                    Seq::new(size as nat, |i: int| 0u8)
                },
                None => Seq::new(size as nat, |i: int| 0u8),
            }),
            !r.dirty,
            r.save_file_path@ == save_file_path@,
    {
        let data = match saved {
            Some(d) => if d.len() == size {
                d
            } else {
                zeroed(size)
            },
            None => zeroed(size),
        };
        SRAM { data, dirty: false, save_file_path }
    }

    /// The byte at `address`.
    pub fn read(&self, address: usize) -> (r: u8)
        requires
            address < self.data@.len(),
        ensures
            r == self.data@[address as int],
    {
        self.data[address]
    }

    /// Stores a byte and marks the RAM as changed.
    pub fn write(&mut self, address: usize, value: u8)
        requires
            address < old(self).data@.len(),
        ensures
            final(self).data@ == old(self).data@.update(address as int, value),
            final(self).dirty,
            final(self).save_file_path == old(self).save_file_path,
    {
        self.data.set(address, value);
        self.dirty = true;
    }

    /// When the RAM changed since it was last saved: clears the flag and gives the file to write.
    pub fn save(&mut self) -> (r: Option<SaveFile>)
        ensures
            old(self).dirty ==> (r matches Some(f) && f.path@ == old(self).save_file_path@ && f.data@
                == old(self).data@),
            !old(self).dirty ==> r is None,
            !final(self).dirty,
            final(self).data@ == old(self).data@,
            final(self).save_file_path == old(self).save_file_path,
    {
        if self.dirty {
            self.dirty = false;
            Some(SaveFile { path: self.save_file_path.clone(), data: self.data.clone() })
        } else {
            None
        }
    }
}

} // verus!
