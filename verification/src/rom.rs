use vstd::prelude::*;

verus! {

pub const HEADER_START: u16 = 0x0134;
pub const TITLE_START: u16 = 0x0134;
pub const TITLE_END: u16 = 0x0143;
pub const CGB_FLAG: u16 = 0x0143;
pub const LICENSEE_CODE_START: u16 = 0x144;
pub const LICENSEE_CODE_END: u16 = 0x146;
pub const SGB_FLAG: u16 = 0x0146;
pub const CARTRIDGE_TYPE: u16 = 0x0147;
pub const ROM_SIZE: u16 = 0x0148;
pub const RAM_SIZE: u16 = 0x0149;
pub const DESTINATION_CODE: u16 = 0x014A;
pub const OLD_LICENSEE_CODE: u16 = 0x014B;
pub const MASK_ROM_VERSION: u16 = 0x014C;
pub const HEADER_CHECKSUM: u16 = 0x014D;
pub const GLOBAL_CHECKSUM_START: u16 = 0x014E;

/// Size of one switchable ROM bank.
pub const ROM_BANK_SIZE: usize = 0x4000;

/// Smallest image whose header can be read: the header ends at 0x014F.
pub const MIN_ROM_LEN: usize = 0x150;

/// What `String::from_utf8` makes of a byte sequence: the decoded characters, or
/// nothing when the bytes are not valid UTF-8.
pub uninterp spec fn utf8_decode(bytes: Seq<u8>) -> Option<Seq<char>>;

/// Decodes bytes as UTF-8 with `String::from_utf8`; every character takes at least one byte.
#[verifier::external_body]
fn string_from_utf8(bytes: Vec<u8>) -> (r: Option<String>)
    ensures
        r matches Some(s) ==> utf8_decode(bytes@) == Some(s@) && s@.len() <= bytes@.len(),
        r is None ==> utf8_decode(bytes@) is None,
{
    String::from_utf8(bytes).ok()
}

#[verifier::external_type_specification]
#[verifier::external_body]
pub struct ExIoError(std::io::Error);

/// Builds an error of kind `Other` with `std::io::Error::new`; nothing is stated of it.
#[verifier::external_body]
fn io_error_other(message: &str) -> std::io::Error {
    std::io::Error::new(std::io::ErrorKind::Other, message.to_string())
}

/// The value of an ASCII hexadecimal digit.
pub open spec fn hex_digit(b: u8) -> Option<u16> {
    if 0x30 <= b <= 0x39 {
        Some((b - 0x30) as u16)
    } else if 0x41 <= b <= 0x46 {
        Some((b - 0x41 + 10) as u16)
    } else if 0x61 <= b <= 0x66 {
        Some((b - 0x61 + 10) as u16)
    } else {
        None
    }
}

/// The new licensee code read from its two header bytes as a base-16 number
/// (an optional leading `+` allowed), or 0 when they do not form one.
pub open spec fn licensee_value(b0: u8, b1: u8) -> u16 {
    if b0 == 0x2B && hex_digit(b1) is Some {
        hex_digit(b1).unwrap()
    } else if hex_digit(b0) is Some && hex_digit(b1) is Some {
        (hex_digit(b0).unwrap() * 16 + hex_digit(b1).unwrap()) as u16
    } else {
        0
    }
}

/// The header checksum over bytes 0x0134..0x014C: start at 0 and, for each byte,
/// subtract the byte and one (wrapping).
pub open spec fn header_checksum_of(rom: Seq<u8>, end: int) -> u8
    decreases end - 0x134,
{
    if end <= 0x134 {
        0
    } else {
        let prev = header_checksum_of(rom, end - 1);
        ((prev - rom[end - 1] - 1) % 256) as u8
    }
}

/// The image cut into 16 KiB banks, the last one possibly shorter.
pub open spec fn banks_of(rom: Seq<u8>) -> Seq<Seq<u8>> {
    Seq::new(
        ((rom.len() + 0x3FFF) / 0x4000) as nat,
        |i: int|
            rom.subrange(
                i * 0x4000,
                if (i + 1) * 0x4000 <= rom.len() {
                    (i + 1) * 0x4000
                } else {
                    rom.len() as int
                },
            ),
    )
}

/// A cartridge image with its decoded header.
pub struct ROM {
    pub title: String,
    pub cgb_flag: u8,
    pub licensee_code: u16,
    pub sgb_flag: u8,
    pub cartridge_type: u8,
    pub rom_size: u8,
    pub ram_size: u8,
    pub destination_code: u8,
    pub old_licensee_code: u8,
    pub mask_rom_version: u8,
    pub header_checksum: u8,
    pub global_checksum: u16,
    pub rom: Vec<u8>,
    pub rom_file_path: String,
}

/// A cartridge image cut into 16 KiB banks.
pub struct ROMBanks {
    pub data: Vec<Vec<u8>>,
}

impl ROMBanks {
    /// The banks as sequences of bytes.
    pub open spec fn banks(&self) -> Seq<Seq<u8>> {
        self.data@.map_values(|b: Vec<u8>| b@)
    }

    /// No banks.
    pub fn new() -> (r: ROMBanks)
        ensures
            r.data@.len() == 0,
    {
        ROMBanks { data: Vec::new() }
    }
}

/// Reads a hexadecimal digit.
fn hex_digit_value(b: u8) -> (r: Option<u16>)
    ensures
        r == hex_digit(b),
{
    if 0x30 <= b && b <= 0x39 {
        Some((b - 0x30) as u16)
    } else if 0x41 <= b && b <= 0x46 {
        Some((b - 0x41 + 10) as u16)
    } else if 0x61 <= b && b <= 0x66 {
        Some((b - 0x61 + 10) as u16)
    } else {
        None
    }
}

/// Reads the new licensee code from its two header bytes.
pub fn parse_licensee_code(b0: u8, b1: u8) -> (r: u16)
    ensures
        r == licensee_value(b0, b1),
{
    let d1 = hex_digit_value(b1);
    if b0 == 0x2B {
        match d1 {
            Some(v) => v,
            None => 0,
        }
    } else {
        match (hex_digit_value(b0), d1) {
            (Some(h), Some(l)) => h * 16 + l,
            _ => 0,
        }
    }
}

impl ROM {
    /// The fields that the header of `rom` gives.
    pub open spec fn header_matches(&self, rom: Seq<u8>) -> bool {
        &&& Some(self.title@) == utf8_decode(rom.subrange(0x134, 0x143))
        &&& self.cgb_flag == rom[0x143]
        &&& self.licensee_code == licensee_value(rom[0x144], rom[0x145])
        &&& self.sgb_flag == rom[0x146]
        &&& self.cartridge_type == rom[0x147]
        &&& self.rom_size == rom[0x148]
        &&& self.ram_size == rom[0x149]
        &&& self.destination_code == rom[0x14A]
        &&& self.old_licensee_code == rom[0x14B]
        &&& self.mask_rom_version == rom[0x14C]
        &&& self.header_checksum == rom[0x14D]
        &&& self.global_checksum == rom[0x14E] as u16 + rom[0x14F] as u16 * 256
    }

    /// Whether an image can be decoded: it holds a whole header and its title is UTF-8.
    pub open spec fn decodable(rom: Seq<u8>) -> bool {
        rom.len() >= 0x150 && utf8_decode(rom.subrange(0x134, 0x143)) is Some
    }

    /// Decodes the header of an image.
    pub fn new(rom_file_path: String, rom: Vec<u8>) -> (r: ROM)
        requires
            ROM::decodable(rom@),
        ensures
            r.header_matches(rom@),
            r.rom@ == rom@,
            r.rom_file_path@ == rom_file_path@,
            r.title@.len() <= 15,
    {
        let mut title_bytes: Vec<u8> = Vec::new();
        let mut i: usize = TITLE_START as usize;
        while i < TITLE_END as usize
            invariant
                0x134 <= i <= 0x143,
                rom@.len() >= 0x150,
                title_bytes@ == rom@.subrange(0x134, i as int),
            decreases 0x143 - i,
        {
            title_bytes.push(rom[i]);
            i = i + 1;
            assert(title_bytes@ =~= rom@.subrange(0x134, i as int));
        }
        let title = match string_from_utf8(title_bytes) {
            Some(t) => t,
            None => {
                proof {
                    assert(false);
                }
                String::new()
            },
        };
        let licensee_code = parse_licensee_code(rom[0x144], rom[0x145]);
        let global_checksum = rom[GLOBAL_CHECKSUM_START as usize] as u16 + (rom[GLOBAL_CHECKSUM_START as usize
            + 1] as u16) * 256;
        ROM {
            title,
            cgb_flag: rom[CGB_FLAG as usize],
            licensee_code,
            sgb_flag: rom[SGB_FLAG as usize],
            cartridge_type: rom[CARTRIDGE_TYPE as usize],
            rom_size: rom[ROM_SIZE as usize],
            ram_size: rom[RAM_SIZE as usize],
            destination_code: rom[DESTINATION_CODE as usize],
            old_licensee_code: rom[OLD_LICENSEE_CODE as usize],
            mask_rom_version: rom[MASK_ROM_VERSION as usize],
            header_checksum: rom[HEADER_CHECKSUM as usize],
            global_checksum,
            rom,
            rom_file_path,
        }
    }

    /// Decodes the header of an image, or gives `None` for an image that `new` refuses
    /// (shorter than a header, or with a title that is not UTF-8).
    pub fn try_new(rom_file_path: String, rom: Vec<u8>) -> (r: Option<ROM>)
        ensures
            r is Some <==> ROM::decodable(rom@),
            r matches Some(x) ==> x.header_matches(rom@) && x.rom@ == rom@ && x.rom_file_path@
                == rom_file_path@ && x.title@.len() <= 15,
    {
        if rom.len() < MIN_ROM_LEN {
            return None;
        }
        let mut title_bytes: Vec<u8> = Vec::new();
        let mut i: usize = TITLE_START as usize;
        while i < TITLE_END as usize
            invariant
                0x134 <= i <= 0x143,
                rom@.len() >= 0x150,
                title_bytes@ == rom@.subrange(0x134, i as int),
            decreases 0x143 - i,
        {
            title_bytes.push(rom[i]);
            i = i + 1;
            assert(title_bytes@ =~= rom@.subrange(0x134, i as int));
        }
        match string_from_utf8(title_bytes) {
            Some(_) => Some(ROM::new(rom_file_path, rom)),
            None => None,
        }
    }

    /// The header checksum computed over the header bytes.
    pub fn calculate_header_checksum(&self) -> (r: u8)
        requires
            self.rom@.len() >= 0x150,
        ensures
            r == header_checksum_of(self.rom@, 0x14D),
    {
        let mut header_checksum: u8 = 0;
        let mut x: u16 = HEADER_START;
        while x < HEADER_CHECKSUM
            invariant
                0x134 <= x <= 0x14D,
                self.rom@.len() >= 0x150,
                header_checksum == header_checksum_of(self.rom@, x as int),
            decreases 0x14D - x,
        {
            header_checksum = header_checksum.wrapping_sub(self.rom[x as usize]).wrapping_sub(1);
            x = x + 1;
        }
        header_checksum
    }

    /// Checks the stored header checksum against the computed one.
    pub fn validate_header_checksum(&self) -> (r: Result<String, std::io::Error>)
        requires
            self.rom@.len() >= 0x150,
        ensures
            r is Ok <==> self.header_checksum == header_checksum_of(self.rom@, 0x14D),
            r matches Ok(msg) ==> msg@ == "Header checksum [OK]"@,
    {
        if self.header_checksum_valid() {
            Ok("Header checksum [OK]".to_string())
        } else {
            Err(io_error_other("Header checksum [FAIL]"))
        }
    }

    /// Whether the stored header checksum matches the computed one.
    pub fn header_checksum_valid(&self) -> (r: bool)
        requires
            self.rom@.len() >= 0x150,
        ensures
            r == (self.header_checksum == header_checksum_of(self.rom@, 0x14D)),
    {
        self.header_checksum == self.calculate_header_checksum()
    }

    /// Cuts the image into 16 KiB banks.
    pub fn load_rom_to_banks(&self) -> (r: ROMBanks)
        ensures
            r.banks() == banks_of(self.rom@),
    {
        let mut rom_banks: ROMBanks = ROMBanks::new();
        let len = self.rom.len();
        let nbanks = len / ROM_BANK_SIZE + if len % ROM_BANK_SIZE != 0 { 1 } else { 0 };
        let mut k: usize = 0;
        let mut rom_offset: usize = 0;
        while k < nbanks
            invariant
                len == self.rom@.len(),
                nbanks == (len + 0x3FFF) / 0x4000,
                k <= nbanks,
                k < nbanks ==> rom_offset == k * 0x4000,
                rom_banks.data@.len() == k,
                forall|j: int|
                    0 <= j < k ==> #[trigger] rom_banks.data@[j]@ == banks_of(self.rom@)[j],
            decreases nbanks - k,
        {
            let end = if len - rom_offset > ROM_BANK_SIZE {
                rom_offset + ROM_BANK_SIZE
            } else {
                len
            };
            let mut bank: Vec<u8> = Vec::new();
            let mut i = rom_offset;
            while i < end
                invariant
                    rom_offset <= i <= end <= len,
                    len == self.rom@.len(),
                    bank@ == self.rom@.subrange(rom_offset as int, i as int),
                decreases end - i,
            {
                bank.push(self.rom[i]);
                i = i + 1;
                assert(bank@ =~= self.rom@.subrange(rom_offset as int, i as int));
            }
            proof {
                assert(banks_of(self.rom@)[k as int] == bank@);
            }
            rom_banks.data.push(bank);
            k = k + 1;
            if k < nbanks {
                rom_offset = rom_offset + ROM_BANK_SIZE;
            }
        }
        proof {
            assert(rom_banks.banks() =~= banks_of(self.rom@));
        }
        rom_banks
    }
}

/// Cutting an image into banks loses nothing: every bank but the last holds 16 KiB, and the
/// banks laid end to end give the image back.
pub proof fn lemma_banks_concatenate(rom: Seq<u8>)
    ensures
        forall|i: int| 0 <= i < banks_of(rom).len() - 1 ==> #[trigger] banks_of(rom)[i].len() == 0x4000,
        banks_of(rom).flatten() == rom,
    decreases rom.len(),
{
    let b = banks_of(rom);
    if rom.len() == 0 {
        assert(b.len() == 0);
    } else if rom.len() <= 0x4000 {
        assert(b.len() == 1);
        assert(b.drop_first().len() == 0);
        assert(b.first() =~= rom);
        assert(b.flatten() == b.first().add(b.drop_first().flatten()));
        assert(b.first().add(Seq::<u8>::empty()) =~= rom);
    } else {
        let rest = rom.skip(0x4000);
        lemma_banks_concatenate(rest);
        let br = banks_of(rest);
        assert(b.len() == br.len() + 1);
        assert forall|i: int| 0 <= i < br.len() implies #[trigger] b.drop_first()[i] == br[i] by {
            assert(b.drop_first()[i] =~= br[i]);
        }
        assert(b.drop_first() =~= br);
        assert(b.first() =~= rom.take(0x4000));
        assert(b.flatten() == b.first().add(b.drop_first().flatten()));
        assert(rom.take(0x4000).add(rest) =~= rom);
        assert forall|i: int| 0 <= i < b.len() - 1 implies #[trigger] b[i].len() == 0x4000 by {
            if i > 0 {
                assert(b[i] == br[i - 1]);
            }
        }
    }
}

} // verus!
