use vstd::prelude::*;

use crate::rom::{ROM, header_checksum_of};
use crate::rom_debug::{contains, occurs_at};

verus! {

/// Appends a character (`String::push`).
pub assume_specification[ String::push ](string: &mut String, ch: char)
    ensures
        final(string)@ == old(string)@.push(ch),
;

/// Appends a string slice (`String::push_str`).
pub assume_specification[ String::push_str ](string: &mut String, s: &str)
    ensures
        final(string)@ == old(string)@ + s@,
;

/// The character of a decimal digit.
pub open spec fn digit_char(d: int) -> char {
    if d == 0 {
        '0'
    } else if d == 1 {
        '1'
    } else if d == 2 {
        '2'
    } else if d == 3 {
        '3'
    } else if d == 4 {
        '4'
    } else if d == 5 {
        '5'
    } else if d == 6 {
        '6'
    } else if d == 7 {
        '7'
    } else if d == 8 {
        '8'
    } else {
        '9'
    }
}

/// A number written in decimal, without leading zeros.
pub open spec fn decimal_text(n: nat) -> Seq<char>
    decreases n,
{
    if n < 10 {
        seq![digit_char(n as int)]
    } else {
        decimal_text(n / 10).push(digit_char((n % 10) as int))
    }
}

/// A name from a table, or `Unknown` when the table has none.
pub open spec fn label_or_unknown(label: Option<Seq<char>>) -> Seq<char> {
    match label {
        Some(l) => l,
        None => "Unknown"@,
    }
}

/// A header line `<prefix><n> - <name>]` followed by a line break.
pub open spec fn named_line(prefix: Seq<char>, n: nat, label: Option<Seq<char>>) -> Seq<char> {
    prefix + decimal_text(n) + " - "@ + label_or_unknown(label) + "]\n"@
}

/// A header line `<prefix><n>]` followed by a line break.
pub open spec fn number_line(prefix: Seq<char>, n: nat) -> Seq<char> {
    prefix + decimal_text(n) + "]\n"@
}

/// The CGB flag line.
pub open spec fn cgb_line(flag: u8) -> Seq<char> {
    if flag == 0x80 {
        "CGB Flag: [80 - The game supports CGB enhancements, but is backwards compatible with monochrome Game Boys]\n"@
    } else if flag == 0xC0 {
        "CGB Flag: [C0 - The game works on CGB only, DMG will just ignore the bit 6 value, same as 0x80]\n"@
    } else {
        named_line("CGB Flag: ["@, flag as nat, Some("No CGB support"@))
    }
}

/// The SGB flag line.
pub open spec fn sgb_line(flag: u8) -> Seq<char> {
    if flag == 0x00 {
        "SGB Flag: [00 - No SGB support]\n"@
    } else if flag == 0x03 {
        "SGB Flag: [03 - Game supports SGB functions]\n"@
    } else {
        named_line("SGB Flag: ["@, flag as nat, None)
    }
}

/// The destination line.
pub open spec fn destination_line(code: u8) -> Seq<char> {
    if code == 0x00 {
        "Destination code: [00 - Japan]\n"@
    } else if code == 0x01 {
        "Destination code: [01 - International]\n"@
    } else {
        named_line("Destination code: ["@, code as nat, None)
    }
}

/// The licensee line: the new code when the old code is 0x33, the old code otherwise.
pub open spec fn licensee_line(rom: ROM) -> Seq<char> {
    if rom.old_licensee_code == 0x33 {
        match new_licensee_label(rom.licensee_code) {
            Some(l) => named_line("Licensee Code: ["@, rom.licensee_code as nat, Some(l)),
            None => named_line("Licensee: ["@, rom.licensee_code as nat, None),
        }
    } else {
        named_line("Licensee: ["@, rom.old_licensee_code as nat, old_licensee_label(rom.old_licensee_code))
    }
}

/// The checksum verdict line.
pub open spec fn checksum_line(rom: ROM) -> Seq<char> {
    if rom.header_checksum == header_checksum_of(rom.rom@, 0x14D) {
        "Header checksum [OK]\n"@
    } else {
        "Header checksum [FAIL]\n"@
    }
}

/// The readable summary of a cartridge header.
pub open spec fn header_text(rom: ROM) -> Seq<char> {
    "\n"@ + "Title: ["@ + rom.title@ + "]\n"@ + cgb_line(rom.cgb_flag) + sgb_line(rom.sgb_flag) + named_line(
        "Cartridge type: ["@,
        rom.cartridge_type as nat,
        cartridge_type_label(rom.cartridge_type),
    ) + named_line("ROM size: ["@, rom.rom_size as nat, rom_size_label(rom.rom_size)) + named_line(
        "Save RAM size: ["@,
        rom.ram_size as nat,
        ram_size_label(rom.ram_size),
    ) + destination_line(rom.destination_code) + licensee_line(rom) + number_line(
        "Mask ROM Version: ["@,
        rom.mask_rom_version as nat,
    ) + number_line("Header Checksum: ["@, rom.header_checksum as nat) + checksum_line(rom) + number_line(
        "Global Checksum: ["@,
        rom.global_checksum as nat,
    )
}

/// The character of a decimal digit.
fn digit(d: u32) -> (c: char)
    requires
        d < 10,
    ensures
        c == digit_char(d as int),
{
    if d == 0 {
        '0'
    } else if d == 1 {
        '1'
    } else if d == 2 {
        '2'
    } else if d == 3 {
        '3'
    } else if d == 4 {
        '4'
    } else if d == 5 {
        '5'
    } else if d == 6 {
        '6'
    } else if d == 7 {
        '7'
    } else if d == 8 {
        '8'
    } else {
        '9'
    }
}

/// Appends `n` in decimal.
fn push_decimal(s: &mut String, n: u32)
    ensures
        final(s)@ == old(s)@ + decimal_text(n as nat),
    decreases n,
{
    if n >= 10 {
        push_decimal(s, n / 10);
    }
    let ghost before = s@;
    s.push(digit(n % 10));
    proof {
        if n < 10 {
            assert(s@ =~= old(s)@ + decimal_text(n as nat));
        } else {
            assert(before == old(s)@ + decimal_text((n / 10) as nat));
            assert(s@ =~= old(s)@ + decimal_text(n as nat));
        }
    }
}

/// Appends a header line `<prefix><n> - <name>]` and a line break.
fn push_named_line(s: &mut String, prefix: &str, n: u32, label: Option<&str>)
    ensures
        final(s)@ == old(s)@ + named_line(
            prefix@,
            n as nat,
            match label {
                Some(l) => Some(l@),
                None => None,
            },
        ),
{
    s.push_str(prefix);
    push_decimal(s, n);
    s.push_str(" - ");
    match label {
        Some(l) => s.push_str(l),
        None => s.push_str("Unknown"),
    }
    s.push_str("]\n");
    proof {
        let lab = match label {
            Some(l) => Some(l@),
            None => None::<Seq<char>>,
        };
        assert(s@ =~= old(s)@ + named_line(prefix@, n as nat, lab));
    }
}

/// Appends a header line `<prefix><n>]` and a line break.
fn push_number_line(s: &mut String, prefix: &str, n: u32)
    ensures
        final(s)@ == old(s)@ + number_line(prefix@, n as nat),
{
    s.push_str(prefix);
    push_decimal(s, n);
    s.push_str("]\n");
    assert(s@ =~= old(s)@ + number_line(prefix@, n as nat));
}

/// The publisher that a new licensee code names.
pub open spec fn new_licensee_label(code: u16) -> Option<Seq<char>> {
    if code == 0x00 {
        Some("none"@)
    } else if code == 0x01 {
        Some("nintendo"@)
    } else if code == 0x08 {
        Some("capcom"@)
    } else if code == 0x13 {
        Some("electronic arts"@)
    } else if code == 0x18 {
        Some("hudsonsoft"@)
    } else if code == 0x19 {
        Some("b-ai"@)
    } else if code == 0x20 {
        Some("kss"@)
    } else if code == 0x22 {
        Some("pow"@)
    } else if code == 0x24 {
        Some("pcm complete"@)
    } else if code == 0x25 {
        Some("san-x"@)
    } else if code == 0x28 {
        Some("kemco japan"@)
    } else if code == 0x29 {
        Some("seta"@)
    } else if code == 0x30 {
        Some("viacom"@)
    } else if code == 0x31 {
        Some("nintendo"@)
    } else if code == 0x32 {
        Some("bandia"@)
    } else if code == 0x33 {
        Some("ocean/acclaim"@)
    } else if code == 0x34 {
        Some("konami"@)
    } else if code == 0x35 {
        Some("hector"@)
    } else if code == 0x37 {
        Some("taito"@)
    } else if code == 0x38 {
        Some("hudson"@)
    } else if code == 0x39 {
        Some("banpresto"@)
    } else if code == 0x41 {
        Some("ubi soft"@)
    } else if code == 0x42 {
        Some("atlus"@)
    } else if code == 0x44 {
        Some("malibu"@)
    } else if code == 0x46 {
        Some("angel"@)
    } else if code == 0x47 {
        Some("pullet-proof"@)
    } else if code == 0x49 {
        Some("irem"@)
    } else if code == 0x50 {
        Some("absolute"@)
    } else if code == 0x51 {
        Some("acclaim"@)
    } else if code == 0x52 {
        Some("activision"@)
    } else if code == 0x53 {
        Some("american sammy"@)
    } else if code == 0x54 {
        Some("konami"@)
    } else if code == 0x55 {
        Some("hi tech entertainment"@)
    } else if code == 0x56 {
        Some("ljn"@)
    } else if code == 0x57 {
        Some("matchbox"@)
    } else if code == 0x58 {
        Some("mattel"@)
    } else if code == 0x59 {
        Some("milton bradley"@)
    } else if code == 0x60 {
        Some("titus"@)
    } else if code == 0x61 {
        Some("virgin"@)
    } else if code == 0x64 {
        Some("lucasarts"@)
    } else if code == 0x67 {
        Some("ocean"@)
    } else if code == 0x69 {
        Some("electronic arts"@)
    } else if code == 0x70 {
        Some("infogrames"@)
    } else if code == 0x71 {
        Some("interplay"@)
    } else if code == 0x72 {
        Some("broderbund"@)
    } else if code == 0x73 {
        Some("sculptured"@)
    } else if code == 0x75 {
        Some("sci"@)
    } else if code == 0x78 {
        Some("t*hq"@)
    } else if code == 0x79 {
        Some("accolade"@)
    } else if code == 0x80 {
        Some("misawa"@)
    } else if code == 0x83 {
        Some("lozc"@)
    } else if code == 0x86 {
        Some("tokuma shoten i*"@)
    } else if code == 0x87 {
        Some("tsukuda ori*"@)
    } else if code == 0x91 {
        Some("chun soft"@)
    } else if code == 0x92 {
        Some("video system"@)
    } else if code == 0x93 {
        Some("ocean/acclaim"@)
    } else if code == 0x95 {
        Some("varie"@)
    } else if code == 0x96 {
        Some("yonezawa/s'pal"@)
    } else if code == 0x97 {
        Some("kaneko"@)
    } else if code == 0x99 {
        Some("pack in soft"@)
    } else {
        None
    }
}

/// The publisher that a new licensee code names.
fn new_licensee_name(code: u16) -> (r: Option<&'static str>)
    ensures
        match r {
            Some(n) => new_licensee_label(code) == Some(n@),
            None => new_licensee_label(code) is None,
        },
{
    if code == 0x00 {
        Some("none")
    } else if code == 0x01 {
        Some("nintendo")
    } else if code == 0x08 {
        Some("capcom")
    } else if code == 0x13 {
        Some("electronic arts")
    } else if code == 0x18 {
        Some("hudsonsoft")
    } else if code == 0x19 {
        Some("b-ai")
    } else if code == 0x20 {
        Some("kss")
    } else if code == 0x22 {
        Some("pow")
    } else if code == 0x24 {
        Some("pcm complete")
    } else if code == 0x25 {
        Some("san-x")
    } else if code == 0x28 {
        Some("kemco japan")
    } else if code == 0x29 {
        Some("seta")
    } else if code == 0x30 {
        Some("viacom")
    } else if code == 0x31 {
        Some("nintendo")
    } else if code == 0x32 {
        Some("bandia")
    } else if code == 0x33 {
        Some("ocean/acclaim")
    } else if code == 0x34 {
        Some("konami")
    } else if code == 0x35 {
        Some("hector")
    } else if code == 0x37 {
        Some("taito")
    } else if code == 0x38 {
        Some("hudson")
    } else if code == 0x39 {
        Some("banpresto")
    } else if code == 0x41 {
        Some("ubi soft")
    } else if code == 0x42 {
        Some("atlus")
    } else if code == 0x44 {
        Some("malibu")
    } else if code == 0x46 {
        Some("angel")
    } else if code == 0x47 {
        Some("pullet-proof")
    } else if code == 0x49 {
        Some("irem")
    } else if code == 0x50 {
        Some("absolute")
    } else if code == 0x51 {
        Some("acclaim")
    } else if code == 0x52 {
        Some("activision")
    } else if code == 0x53 {
        Some("american sammy")
    } else if code == 0x54 {
        Some("konami")
    } else if code == 0x55 {
        Some("hi tech entertainment")
    } else if code == 0x56 {
        Some("ljn")
    } else if code == 0x57 {
        Some("matchbox")
    } else if code == 0x58 {
        Some("mattel")
    } else if code == 0x59 {
        Some("milton bradley")
    } else if code == 0x60 {
        Some("titus")
    } else if code == 0x61 {
        Some("virgin")
    } else if code == 0x64 {
        Some("lucasarts")
    } else if code == 0x67 {
        Some("ocean")
    } else if code == 0x69 {
        Some("electronic arts")
    } else if code == 0x70 {
        Some("infogrames")
    } else if code == 0x71 {
        Some("interplay")
    } else if code == 0x72 {
        Some("broderbund")
    } else if code == 0x73 {
        Some("sculptured")
    } else if code == 0x75 {
        Some("sci")
    } else if code == 0x78 {
        Some("t*hq")
    } else if code == 0x79 {
        Some("accolade")
    } else if code == 0x80 {
        Some("misawa")
    } else if code == 0x83 {
        Some("lozc")
    } else if code == 0x86 {
        Some("tokuma shoten i*")
    } else if code == 0x87 {
        Some("tsukuda ori*")
    } else if code == 0x91 {
        Some("chun soft")
    } else if code == 0x92 {
        Some("video system")
    } else if code == 0x93 {
        Some("ocean/acclaim")
    } else if code == 0x95 {
        Some("varie")
    } else if code == 0x96 {
        Some("yonezawa/s'pal")
    } else if code == 0x97 {
        Some("kaneko")
    } else if code == 0x99 {
        Some("pack in soft")
    } else {
        None
    }
}

/// The hardware that a cartridge type byte names.
pub open spec fn cartridge_type_label(code: u8) -> Option<Seq<char>> {
    if code == 0x00 {
        Some("ROM"@)
    } else if code == 0x01 {
        Some("MBC1"@)
    } else if code == 0x02 {
        Some("MBC1+RAM"@)
    } else if code == 0x03 {
        Some("MBC1+RAM+BATTERY"@)
    } else if code == 0x05 {
        Some("MBC2"@)
    } else if code == 0x06 {
        Some("MBC2+BATTERY"@)
    } else if code == 0x08 {
        Some("ROM+RAM"@)
    } else if code == 0x09 {
        Some("ROM+RAM+BATTERY"@)
    } else if code == 0x0B {
        Some("MMM01"@)
    } else if code == 0x0C {
        Some("MMM01+RAM"@)
    } else if code == 0x0D {
        Some("MMM01+RAM+BATTERY"@)
    } else if code == 0x0F {
        Some("MBC3+TIMER+BATTERY"@)
    } else if code == 0x10 {
        Some("MBC3+TIMER+RAM+BATTERY"@)
    } else if code == 0x11 {
        Some("MBC3"@)
    } else if code == 0x12 {
        Some("MBC3+RAM"@)
    } else if code == 0x13 {
        Some("MBC3+RAM+BATTERY"@)
    } else if code == 0x15 {
        Some("MBC4"@)
    } else if code == 0x16 {
        Some("MBC4+RAM"@)
    } else if code == 0x17 {
        Some("MBC4+RAM+BATTERY"@)
    } else if code == 0x19 {
        Some("MBC5"@)
    } else if code == 0x1A {
        Some("MBC5+RAM"@)
    } else if code == 0x1B {
        Some("MBC5+RAM+BATTERY"@)
    } else if code == 0x1C {
        Some("MBC5+RUMBLE"@)
    } else if code == 0x1D {
        Some("MBC5+RUMBLE+RAM"@)
    } else if code == 0x1E {
        Some("MBC5+RUMBLE+RAM+BATTERY"@)
    } else if code == 0xFC {
        Some("POCKET CAMERA"@)
    } else if code == 0xFD {
        Some("Bandai TAMA5"@)
    } else if code == 0xFE {
        Some("HuC3"@)
    } else if code == 0xFF {
        Some("HuC1+RAM+BATTERY"@)
    } else {
        None
    }
}

/// The hardware that a cartridge type byte names.
fn cartridge_type_name(code: u8) -> (r: Option<&'static str>)
    ensures
        match r {
            Some(n) => cartridge_type_label(code) == Some(n@),
            None => cartridge_type_label(code) is None,
        },
{
    if code == 0x00 {
        Some("ROM")
    } else if code == 0x01 {
        Some("MBC1")
    } else if code == 0x02 {
        Some("MBC1+RAM")
    } else if code == 0x03 {
        Some("MBC1+RAM+BATTERY")
    } else if code == 0x05 {
        Some("MBC2")
    } else if code == 0x06 {
        Some("MBC2+BATTERY")
    } else if code == 0x08 {
        Some("ROM+RAM")
    } else if code == 0x09 {
        Some("ROM+RAM+BATTERY")
    } else if code == 0x0B {
        Some("MMM01")
    } else if code == 0x0C {
        Some("MMM01+RAM")
    } else if code == 0x0D {
        Some("MMM01+RAM+BATTERY")
    } else if code == 0x0F {
        Some("MBC3+TIMER+BATTERY")
    } else if code == 0x10 {
        Some("MBC3+TIMER+RAM+BATTERY")
    } else if code == 0x11 {
        Some("MBC3")
    } else if code == 0x12 {
        Some("MBC3+RAM")
    } else if code == 0x13 {
        Some("MBC3+RAM+BATTERY")
    } else if code == 0x15 {
        Some("MBC4")
    } else if code == 0x16 {
        Some("MBC4+RAM")
    } else if code == 0x17 {
        Some("MBC4+RAM+BATTERY")
    } else if code == 0x19 {
        Some("MBC5")
    } else if code == 0x1A {
        Some("MBC5+RAM")
    } else if code == 0x1B {
        Some("MBC5+RAM+BATTERY")
    } else if code == 0x1C {
        Some("MBC5+RUMBLE")
    } else if code == 0x1D {
        Some("MBC5+RUMBLE+RAM")
    } else if code == 0x1E {
        Some("MBC5+RUMBLE+RAM+BATTERY")
    } else if code == 0xFC {
        Some("POCKET CAMERA")
    } else if code == 0xFD {
        Some("Bandai TAMA5")
    } else if code == 0xFE {
        Some("HuC3")
    } else if code == 0xFF {
        Some("HuC1+RAM+BATTERY")
    } else {
        None
    }
}

/// The ROM size that a ROM size code names.
pub open spec fn rom_size_label(code: u8) -> Option<Seq<char>> {
    if code == 0x00 {
        Some("32k"@)
    } else if code == 0x01 {
        Some("64k"@)
    } else if code == 0x02 {
        Some("128k"@)
    } else if code == 0x03 {
        Some("256k"@)
    } else if code == 0x04 {
        Some("512k"@)
    } else if code == 0x05 {
        Some("1024k"@)
    } else if code == 0x06 {
        Some("2048k"@)
    } else if code == 0x07 {
        Some("4096k"@)
    } else {
        None
    }
}

/// The ROM size that a ROM size code names.
fn rom_size_name(code: u8) -> (r: Option<&'static str>)
    ensures
        match r {
            Some(n) => rom_size_label(code) == Some(n@),
            None => rom_size_label(code) is None,
        },
{
    if code == 0x00 {
        Some("32k")
    } else if code == 0x01 {
        Some("64k")
    } else if code == 0x02 {
        Some("128k")
    } else if code == 0x03 {
        Some("256k")
    } else if code == 0x04 {
        Some("512k")
    } else if code == 0x05 {
        Some("1024k")
    } else if code == 0x06 {
        Some("2048k")
    } else if code == 0x07 {
        Some("4096k")
    } else {
        None
    }
}

/// The RAM size that a RAM size code names.
pub open spec fn ram_size_label(code: u8) -> Option<Seq<char>> {
    if code == 0x00 {
        Some("0k"@)
    } else if code == 0x01 {
        Some("2k"@)
    } else if code == 0x02 {
        Some("8k"@)
    } else if code == 0x03 {
        Some("32k"@)
    } else {
        None
    }
}

/// The RAM size that a RAM size code names.
fn ram_size_name(code: u8) -> (r: Option<&'static str>)
    ensures
        match r {
            Some(n) => ram_size_label(code) == Some(n@),
            None => ram_size_label(code) is None,
        },
{
    if code == 0x00 {
        Some("0k")
    } else if code == 0x01 {
        Some("2k")
    } else if code == 0x02 {
        Some("8k")
    } else if code == 0x03 {
        Some("32k")
    } else {
        None
    }
}

/// The publisher that an old licensee code names.
pub open spec fn old_licensee_label(code: u8) -> Option<Seq<char>> {
    if code == 0x00 {
        Some("None"@)
    } else if code == 0x01 {
        Some("Nintendo"@)
    } else if code == 0x08 {
        Some("Capcom"@)
    } else if code == 0x09 {
        Some("Hot-B"@)
    } else if code == 0x0A {
        Some("Jaleco"@)
    } else if code == 0x0B {
        Some("Coconuts Japan"@)
    } else if code == 0x0C {
        Some("Elite Systems"@)
    } else if code == 0x13 {
        Some("EA (Electronic Arts)"@)
    } else if code == 0x18 {
        Some("Hudsonsoft"@)
    } else if code == 0x19 {
        Some("ITC Entertainment"@)
    } else if code == 0x1A {
        Some("Yanoman"@)
    } else if code == 0x1D {
        Some("Japan Clary"@)
    } else if code == 0x1F {
        Some("Virgin Interactive"@)
    } else if code == 0x24 {
        Some("PCM Complete"@)
    } else if code == 0x25 {
        Some("San-X"@)
    } else if code == 0x28 {
        Some("Kotobuki Systems"@)
    } else if code == 0x29 {
        Some("Seta"@)
    } else if code == 0x30 {
        Some("Infogrames"@)
    } else if code == 0x31 {
        Some("Nintendo"@)
    } else if code == 0x32 {
        Some("Bandai"@)
    } else if code == 0x33 {
        Some("Indicates that the New licensee code should be used instead."@)
    } else if code == 0x34 {
        Some("Konami"@)
    } else if code == 0x35 {
        Some("HectorSoft"@)
    } else if code == 0x38 {
        Some("Capcom"@)
    } else if code == 0x39 {
        Some("Banpresto"@)
    } else if code == 0x3C {
        Some(".Entertainment i"@)
    } else if code == 0x3E {
        Some("Gremlin"@)
    } else if code == 0x41 {
        Some("Ubisoft"@)
    } else if code == 0x42 {
        Some("Atlus"@)
    } else if code == 0x44 {
        Some("Malibu"@)
    } else if code == 0x46 {
        Some("Angel"@)
    } else if code == 0x47 {
        Some("Spectrum Holoby"@)
    } else if code == 0x49 {
        Some("Irem"@)
    } else if code == 0x4A {
        Some("Virgin Interactive"@)
    } else if code == 0x4D {
        Some("Malibu"@)
    } else if code == 0x4F {
        Some("U.S. Gold"@)
    } else if code == 0x50 {
        Some("Absolute"@)
    } else if code == 0x51 {
        Some("Acclaim"@)
    } else if code == 0x52 {
        Some("Activision"@)
    } else if code == 0x53 {
        Some("American Sammy"@)
    } else if code == 0x54 {
        Some("GameTek"@)
    } else if code == 0x55 {
        Some("Park Place"@)
    } else if code == 0x56 {
        Some("LJN"@)
    } else if code == 0x57 {
        Some("Matchbox"@)
    } else if code == 0x59 {
        Some("Milton Bradley"@)
    } else if code == 0x5A {
        Some("Mindscape"@)
    } else if code == 0x5B {
        Some("Romstar"@)
    } else if code == 0x5C {
        Some("Naxat Soft"@)
    } else if code == 0x5D {
        Some("Tradewest"@)
    } else if code == 0x60 {
        Some("Titus"@)
    } else if code == 0x61 {
        Some("Virgin Interactive"@)
    } else if code == 0x67 {
        Some("Ocean Interactive"@)
    } else if code == 0x69 {
        Some("EA (Electronic Arts)"@)
    } else if code == 0x6E {
        Some("Elite Systems"@)
    } else if code == 0x6F {
        Some("Electro Brain"@)
    } else if code == 0x70 {
        Some("Infogrames"@)
    } else if code == 0x71 {
        Some("Interplay"@)
    } else if code == 0x72 {
        Some("Broderbund"@)
    } else if code == 0x73 {
        Some("Sculptered Soft"@)
    } else if code == 0x75 {
        Some("The Sales Curve"@)
    } else if code == 0x78 {
        Some("t.hq"@)
    } else if code == 0x79 {
        Some("Accolade"@)
    } else if code == 0x7A {
        Some("Triffix Entertainment"@)
    } else if code == 0x7C {
        Some("Microprose"@)
    } else if code == 0x7F {
        Some("Kemco"@)
    } else if code == 0x80 {
        Some("Misawa Entertainment"@)
    } else if code == 0x83 {
        Some("Lozc"@)
    } else if code == 0x86 {
        Some("Tokuma Shoten Intermedia"@)
    } else if code == 0x8B {
        Some("Bullet-Proof Software"@)
    } else if code == 0x8C {
        Some("Vic Tokai"@)
    } else if code == 0x8E {
        Some("Ape"@)
    } else if code == 0x8F {
        Some("I’Max"@)
    } else if code == 0x91 {
        Some("Chunsoft Co."@)
    } else if code == 0x92 {
        Some("Video System"@)
    } else if code == 0x93 {
        Some("Tsubaraya Productions Co."@)
    } else if code == 0x95 {
        Some("Varie Corporation"@)
    } else if code == 0x96 {
        Some("Yonezawa/S’Pal"@)
    } else if code == 0x97 {
        Some("Kaneko"@)
    } else if code == 0x99 {
        Some("Arc"@)
    } else if code == 0x9A {
        Some("Nihon Bussan"@)
    } else if code == 0x9B {
        Some("Tecmo"@)
    } else if code == 0x9C {
        Some("Imagineer"@)
    } else if code == 0x9D {
        Some("Banpresto"@)
    } else if code == 0x9F {
        Some("Nova"@)
    } else if code == 0xA1 {
        Some("Hori Electric"@)
    } else if code == 0xA2 {
        Some("Bandai"@)
    } else if code == 0xA4 {
        Some("Konami"@)
    } else if code == 0xA6 {
        Some("Kawada"@)
    } else if code == 0xA7 {
        Some("Takara"@)
    } else if code == 0xA9 {
        Some("Technos Japan"@)
    } else if code == 0xAA {
        Some("Broderbund"@)
    } else if code == 0xAC {
        Some("Toei Animation"@)
    } else if code == 0xAD {
        Some("Toho"@)
    } else if code == 0xAF {
        Some("Namco"@)
    } else if code == 0xB0 {
        Some("Acclaim"@)
    } else if code == 0xB1 {
        Some("ASCII or Nexsoft"@)
    } else if code == 0xB2 {
        Some("Bandai"@)
    } else if code == 0xB4 {
        Some("Square Enix"@)
    } else if code == 0xB6 {
        Some("HAL Laboratory"@)
    } else if code == 0xB7 {
        Some("SNK"@)
    } else if code == 0xB9 {
        Some("Pony Canyon"@)
    } else if code == 0xBA {
        Some("Culture Brain"@)
    } else if code == 0xBB {
        Some("Sunsoft"@)
    } else if code == 0xBD {
        Some("Sony Imagesoft"@)
    } else if code == 0xBF {
        Some("Sammy"@)
    } else if code == 0xC0 {
        Some("Taito"@)
    } else if code == 0xC2 {
        Some("Kemco"@)
    } else if code == 0xC3 {
        Some("Squaresoft"@)
    } else if code == 0xC4 {
        Some("Tokuma Shoten Intermedia"@)
    } else if code == 0xC5 {
        Some("Data East"@)
    } else if code == 0xC6 {
        Some("Tonkinhouse"@)
    } else if code == 0xC8 {
        Some("Koei"@)
    } else if code == 0xC9 {
        Some("UFL"@)
    } else if code == 0xCA {
        Some("Ultra"@)
    } else if code == 0xCB {
        Some("Vap"@)
    } else if code == 0xCC {
        Some("Use Corporation"@)
    } else if code == 0xCD {
        Some("Meldac"@)
    } else if code == 0xCE {
        Some(".Pony Canyon or"@)
    } else if code == 0xCF {
        Some("Angel"@)
    } else if code == 0xD0 {
        Some("Taito"@)
    } else if code == 0xD1 {
        Some("Sofel"@)
    } else if code == 0xD2 {
        Some("Quest"@)
    } else if code == 0xD3 {
        Some("Sigma Enterprises"@)
    } else if code == 0xD4 {
        Some("ASK Kodansha Co."@)
    } else if code == 0xD6 {
        Some("Naxat Soft"@)
    } else if code == 0xD7 {
        Some("Copya System"@)
    } else if code == 0xD9 {
        Some("Banpresto"@)
    } else if code == 0xDA {
        Some("Tomy"@)
    } else if code == 0xDB {
        Some("LJN"@)
    } else if code == 0xDD {
        Some("NCS"@)
    } else if code == 0xDE {
        Some("Human"@)
    } else if code == 0xDF {
        Some("Altron"@)
    } else if code == 0xE0 {
        Some("Jaleco"@)
    } else if code == 0xE1 {
        Some("Towa Chiki"@)
    } else if code == 0xE2 {
        Some("Yutaka"@)
    } else if code == 0xE3 {
        Some("Varie"@)
    } else if code == 0xE5 {
        Some("Epcoh"@)
    } else if code == 0xE7 {
        Some("Athena"@)
    } else if code == 0xE8 {
        Some("Asmik ACE Entertainment"@)
    } else if code == 0xE9 {
        Some("Natsume"@)
    } else if code == 0xEA {
        Some("King Records"@)
    } else if code == 0xEB {
        Some("Atlus"@)
    } else if code == 0xEC {
        Some("Epic/Sony Records"@)
    } else if code == 0xEE {
        Some("IGS"@)
    } else if code == 0xF0 {
        Some("A Wave"@)
    } else if code == 0xF3 {
        Some("Extreme Entertainment"@)
    } else if code == 0xFF {
        Some("LJN"@)
    } else {
        None
    }
}

/// The publisher that an old licensee code names.
fn old_licensee_name(code: u8) -> (r: Option<&'static str>)
    ensures
        match r {
            Some(n) => old_licensee_label(code) == Some(n@),
            None => old_licensee_label(code) is None,
        },
{
    if code == 0x00 {
        Some("None")
    } else if code == 0x01 {
        Some("Nintendo")
    } else if code == 0x08 {
        Some("Capcom")
    } else if code == 0x09 {
        Some("Hot-B")
    } else if code == 0x0A {
        Some("Jaleco")
    } else if code == 0x0B {
        Some("Coconuts Japan")
    } else if code == 0x0C {
        Some("Elite Systems")
    } else if code == 0x13 {
        Some("EA (Electronic Arts)")
    } else if code == 0x18 {
        Some("Hudsonsoft")
    } else if code == 0x19 {
        Some("ITC Entertainment")
    } else if code == 0x1A {
        Some("Yanoman")
    } else if code == 0x1D {
        Some("Japan Clary")
    } else if code == 0x1F {
        Some("Virgin Interactive")
    } else if code == 0x24 {
        Some("PCM Complete")
    } else if code == 0x25 {
        Some("San-X")
    } else if code == 0x28 {
        Some("Kotobuki Systems")
    } else if code == 0x29 {
        Some("Seta")
    } else if code == 0x30 {
        Some("Infogrames")
    } else if code == 0x31 {
        Some("Nintendo")
    } else if code == 0x32 {
        Some("Bandai")
    } else if code == 0x33 {
        Some("Indicates that the New licensee code should be used instead.")
    } else if code == 0x34 {
        Some("Konami")
    } else if code == 0x35 {
        Some("HectorSoft")
    } else if code == 0x38 {
        Some("Capcom")
    } else if code == 0x39 {
        Some("Banpresto")
    } else if code == 0x3C {
        Some(".Entertainment i")
    } else if code == 0x3E {
        Some("Gremlin")
    } else if code == 0x41 {
        Some("Ubisoft")
    } else if code == 0x42 {
        Some("Atlus")
    } else if code == 0x44 {
        Some("Malibu")
    } else if code == 0x46 {
        Some("Angel")
    } else if code == 0x47 {
        Some("Spectrum Holoby")
    } else if code == 0x49 {
        Some("Irem")
    } else if code == 0x4A {
        Some("Virgin Interactive")
    } else if code == 0x4D {
        Some("Malibu")
    } else if code == 0x4F {
        Some("U.S. Gold")
    } else if code == 0x50 {
        Some("Absolute")
    } else if code == 0x51 {
        Some("Acclaim")
    } else if code == 0x52 {
        Some("Activision")
    } else if code == 0x53 {
        Some("American Sammy")
    } else if code == 0x54 {
        Some("GameTek")
    } else if code == 0x55 {
        Some("Park Place")
    } else if code == 0x56 {
        Some("LJN")
    } else if code == 0x57 {
        Some("Matchbox")
    } else if code == 0x59 {
        Some("Milton Bradley")
    } else if code == 0x5A {
        Some("Mindscape")
    } else if code == 0x5B {
        Some("Romstar")
    } else if code == 0x5C {
        Some("Naxat Soft")
    } else if code == 0x5D {
        Some("Tradewest")
    } else if code == 0x60 {
        Some("Titus")
    } else if code == 0x61 {
        Some("Virgin Interactive")
    } else if code == 0x67 {
        Some("Ocean Interactive")
    } else if code == 0x69 {
        Some("EA (Electronic Arts)")
    } else if code == 0x6E {
        Some("Elite Systems")
    } else if code == 0x6F {
        Some("Electro Brain")
    } else if code == 0x70 {
        Some("Infogrames")
    } else if code == 0x71 {
        Some("Interplay")
    } else if code == 0x72 {
        Some("Broderbund")
    } else if code == 0x73 {
        Some("Sculptered Soft")
    } else if code == 0x75 {
        Some("The Sales Curve")
    } else if code == 0x78 {
        Some("t.hq")
    } else if code == 0x79 {
        Some("Accolade")
    } else if code == 0x7A {
        Some("Triffix Entertainment")
    } else if code == 0x7C {
        Some("Microprose")
    } else if code == 0x7F {
        Some("Kemco")
    } else if code == 0x80 {
        Some("Misawa Entertainment")
    } else if code == 0x83 {
        Some("Lozc")
    } else if code == 0x86 {
        Some("Tokuma Shoten Intermedia")
    } else if code == 0x8B {
        Some("Bullet-Proof Software")
    } else if code == 0x8C {
        Some("Vic Tokai")
    } else if code == 0x8E {
        Some("Ape")
    } else if code == 0x8F {
        Some("I’Max")
    } else if code == 0x91 {
        Some("Chunsoft Co.")
    } else if code == 0x92 {
        Some("Video System")
    } else if code == 0x93 {
        Some("Tsubaraya Productions Co.")
    } else if code == 0x95 {
        Some("Varie Corporation")
    } else if code == 0x96 {
        Some("Yonezawa/S’Pal")
    } else if code == 0x97 {
        Some("Kaneko")
    } else if code == 0x99 {
        Some("Arc")
    } else if code == 0x9A {
        Some("Nihon Bussan")
    } else if code == 0x9B {
        Some("Tecmo")
    } else if code == 0x9C {
        Some("Imagineer")
    } else if code == 0x9D {
        Some("Banpresto")
    } else if code == 0x9F {
        Some("Nova")
    } else if code == 0xA1 {
        Some("Hori Electric")
    } else if code == 0xA2 {
        Some("Bandai")
    } else if code == 0xA4 {
        Some("Konami")
    } else if code == 0xA6 {
        Some("Kawada")
    } else if code == 0xA7 {
        Some("Takara")
    } else if code == 0xA9 {
        Some("Technos Japan")
    } else if code == 0xAA {
        Some("Broderbund")
    } else if code == 0xAC {
        Some("Toei Animation")
    } else if code == 0xAD {
        Some("Toho")
    } else if code == 0xAF {
        Some("Namco")
    } else if code == 0xB0 {
        Some("Acclaim")
    } else if code == 0xB1 {
        Some("ASCII or Nexsoft")
    } else if code == 0xB2 {
        Some("Bandai")
    } else if code == 0xB4 {
        Some("Square Enix")
    } else if code == 0xB6 {
        Some("HAL Laboratory")
    } else if code == 0xB7 {
        Some("SNK")
    } else if code == 0xB9 {
        Some("Pony Canyon")
    } else if code == 0xBA {
        Some("Culture Brain")
    } else if code == 0xBB {
        Some("Sunsoft")
    } else if code == 0xBD {
        Some("Sony Imagesoft")
    } else if code == 0xBF {
        Some("Sammy")
    } else if code == 0xC0 {
        Some("Taito")
    } else if code == 0xC2 {
        Some("Kemco")
    } else if code == 0xC3 {
        Some("Squaresoft")
    } else if code == 0xC4 {
        Some("Tokuma Shoten Intermedia")
    } else if code == 0xC5 {
        Some("Data East")
    } else if code == 0xC6 {
        Some("Tonkinhouse")
    } else if code == 0xC8 {
        Some("Koei")
    } else if code == 0xC9 {
        Some("UFL")
    } else if code == 0xCA {
        Some("Ultra")
    } else if code == 0xCB {
        Some("Vap")
    } else if code == 0xCC {
        Some("Use Corporation")
    } else if code == 0xCD {
        Some("Meldac")
    } else if code == 0xCE {
        Some(".Pony Canyon or")
    } else if code == 0xCF {
        Some("Angel")
    } else if code == 0xD0 {
        Some("Taito")
    } else if code == 0xD1 {
        Some("Sofel")
    } else if code == 0xD2 {
        Some("Quest")
    } else if code == 0xD3 {
        Some("Sigma Enterprises")
    } else if code == 0xD4 {
        Some("ASK Kodansha Co.")
    } else if code == 0xD6 {
        Some("Naxat Soft")
    } else if code == 0xD7 {
        Some("Copya System")
    } else if code == 0xD9 {
        Some("Banpresto")
    } else if code == 0xDA {
        Some("Tomy")
    } else if code == 0xDB {
        Some("LJN")
    } else if code == 0xDD {
        Some("NCS")
    } else if code == 0xDE {
        Some("Human")
    } else if code == 0xDF {
        Some("Altron")
    } else if code == 0xE0 {
        Some("Jaleco")
    } else if code == 0xE1 {
        Some("Towa Chiki")
    } else if code == 0xE2 {
        Some("Yutaka")
    } else if code == 0xE3 {
        Some("Varie")
    } else if code == 0xE5 {
        Some("Epcoh")
    } else if code == 0xE7 {
        Some("Athena")
    } else if code == 0xE8 {
        Some("Asmik ACE Entertainment")
    } else if code == 0xE9 {
        Some("Natsume")
    } else if code == 0xEA {
        Some("King Records")
    } else if code == 0xEB {
        Some("Atlus")
    } else if code == 0xEC {
        Some("Epic/Sony Records")
    } else if code == 0xEE {
        Some("IGS")
    } else if code == 0xF0 {
        Some("A Wave")
    } else if code == 0xF3 {
        Some("Extreme Entertainment")
    } else if code == 0xFF {
        Some("LJN")
    } else {
        None
    }
}


/// Whether a text holds no `[`.
pub open spec fn no_open_bracket(s: Seq<char>) -> bool {
    forall|j: int| 0 <= j < s.len() ==> s[j] != '['
}

/// No name of the table holds a `[`.
proof fn lemma_new_licensee_label_plain(code: u16)
    ensures
        new_licensee_label(code) matches Some(l) ==> no_open_bracket(l),
{
    if code == 0x00 {
        reveal_strlit("none");
    } else if code == 0x01 {
        reveal_strlit("nintendo");
    } else if code == 0x08 {
        reveal_strlit("capcom");
    } else if code == 0x13 {
        reveal_strlit("electronic arts");
    } else if code == 0x18 {
        reveal_strlit("hudsonsoft");
    } else if code == 0x19 {
        reveal_strlit("b-ai");
    } else if code == 0x20 {
        reveal_strlit("kss");
    } else if code == 0x22 {
        reveal_strlit("pow");
    } else if code == 0x24 {
        reveal_strlit("pcm complete");
    } else if code == 0x25 {
        reveal_strlit("san-x");
    } else if code == 0x28 {
        reveal_strlit("kemco japan");
    } else if code == 0x29 {
        reveal_strlit("seta");
    } else if code == 0x30 {
        reveal_strlit("viacom");
    } else if code == 0x31 {
        reveal_strlit("nintendo");
    } else if code == 0x32 {
        reveal_strlit("bandia");
    } else if code == 0x33 {
        reveal_strlit("ocean/acclaim");
    } else if code == 0x34 {
        reveal_strlit("konami");
    } else if code == 0x35 {
        reveal_strlit("hector");
    } else if code == 0x37 {
        reveal_strlit("taito");
    } else if code == 0x38 {
        reveal_strlit("hudson");
    } else if code == 0x39 {
        reveal_strlit("banpresto");
    } else if code == 0x41 {
        reveal_strlit("ubi soft");
    } else if code == 0x42 {
        reveal_strlit("atlus");
    } else if code == 0x44 {
        reveal_strlit("malibu");
    } else if code == 0x46 {
        reveal_strlit("angel");
    } else if code == 0x47 {
        reveal_strlit("pullet-proof");
    } else if code == 0x49 {
        reveal_strlit("irem");
    } else if code == 0x50 {
        reveal_strlit("absolute");
    } else if code == 0x51 {
        reveal_strlit("acclaim");
    } else if code == 0x52 {
        reveal_strlit("activision");
    } else if code == 0x53 {
        reveal_strlit("american sammy");
    } else if code == 0x54 {
        reveal_strlit("konami");
    } else if code == 0x55 {
        reveal_strlit("hi tech entertainment");
    } else if code == 0x56 {
        reveal_strlit("ljn");
    } else if code == 0x57 {
        reveal_strlit("matchbox");
    } else if code == 0x58 {
        reveal_strlit("mattel");
    } else if code == 0x59 {
        reveal_strlit("milton bradley");
    } else if code == 0x60 {
        reveal_strlit("titus");
    } else if code == 0x61 {
        reveal_strlit("virgin");
    } else if code == 0x64 {
        reveal_strlit("lucasarts");
    } else if code == 0x67 {
        reveal_strlit("ocean");
    } else if code == 0x69 {
        reveal_strlit("electronic arts");
    } else if code == 0x70 {
        reveal_strlit("infogrames");
    } else if code == 0x71 {
        reveal_strlit("interplay");
    } else if code == 0x72 {
        reveal_strlit("broderbund");
    } else if code == 0x73 {
        reveal_strlit("sculptured");
    } else if code == 0x75 {
        reveal_strlit("sci");
    } else if code == 0x78 {
        reveal_strlit("t*hq");
    } else if code == 0x79 {
        reveal_strlit("accolade");
    } else if code == 0x80 {
        reveal_strlit("misawa");
    } else if code == 0x83 {
        reveal_strlit("lozc");
    } else if code == 0x86 {
        reveal_strlit("tokuma shoten i*");
    } else if code == 0x87 {
        reveal_strlit("tsukuda ori*");
    } else if code == 0x91 {
        reveal_strlit("chun soft");
    } else if code == 0x92 {
        reveal_strlit("video system");
    } else if code == 0x93 {
        reveal_strlit("ocean/acclaim");
    } else if code == 0x95 {
        reveal_strlit("varie");
    } else if code == 0x96 {
        reveal_strlit("yonezawa/s'pal");
    } else if code == 0x97 {
        reveal_strlit("kaneko");
    } else if code == 0x99 {
        reveal_strlit("pack in soft");
    }
}

/// No name of the table holds a `[`.
proof fn lemma_cartridge_type_label_plain(code: u8)
    ensures
        cartridge_type_label(code) matches Some(l) ==> no_open_bracket(l),
{
    if code == 0x00 {
        reveal_strlit("ROM");
    } else if code == 0x01 {
        reveal_strlit("MBC1");
    } else if code == 0x02 {
        reveal_strlit("MBC1+RAM");
    } else if code == 0x03 {
        reveal_strlit("MBC1+RAM+BATTERY");
    } else if code == 0x05 {
        reveal_strlit("MBC2");
    } else if code == 0x06 {
        reveal_strlit("MBC2+BATTERY");
    } else if code == 0x08 {
        reveal_strlit("ROM+RAM");
    } else if code == 0x09 {
        reveal_strlit("ROM+RAM+BATTERY");
    } else if code == 0x0B {
        reveal_strlit("MMM01");
    } else if code == 0x0C {
        reveal_strlit("MMM01+RAM");
    } else if code == 0x0D {
        reveal_strlit("MMM01+RAM+BATTERY");
    } else if code == 0x0F {
        reveal_strlit("MBC3+TIMER+BATTERY");
    } else if code == 0x10 {
        reveal_strlit("MBC3+TIMER+RAM+BATTERY");
    } else if code == 0x11 {
        reveal_strlit("MBC3");
    } else if code == 0x12 {
        reveal_strlit("MBC3+RAM");
    } else if code == 0x13 {
        reveal_strlit("MBC3+RAM+BATTERY");
    } else if code == 0x15 {
        reveal_strlit("MBC4");
    } else if code == 0x16 {
        reveal_strlit("MBC4+RAM");
    } else if code == 0x17 {
        reveal_strlit("MBC4+RAM+BATTERY");
    } else if code == 0x19 {
        reveal_strlit("MBC5");
    } else if code == 0x1A {
        reveal_strlit("MBC5+RAM");
    } else if code == 0x1B {
        reveal_strlit("MBC5+RAM+BATTERY");
    } else if code == 0x1C {
        reveal_strlit("MBC5+RUMBLE");
    } else if code == 0x1D {
        reveal_strlit("MBC5+RUMBLE+RAM");
    } else if code == 0x1E {
        reveal_strlit("MBC5+RUMBLE+RAM+BATTERY");
    } else if code == 0xFC {
        reveal_strlit("POCKET CAMERA");
    } else if code == 0xFD {
        reveal_strlit("Bandai TAMA5");
    } else if code == 0xFE {
        reveal_strlit("HuC3");
    } else if code == 0xFF {
        reveal_strlit("HuC1+RAM+BATTERY");
    }
}

/// No name of the table holds a `[`.
proof fn lemma_rom_size_label_plain(code: u8)
    ensures
        rom_size_label(code) matches Some(l) ==> no_open_bracket(l),
{
    if code == 0x00 {
        reveal_strlit("32k");
    } else if code == 0x01 {
        reveal_strlit("64k");
    } else if code == 0x02 {
        reveal_strlit("128k");
    } else if code == 0x03 {
        reveal_strlit("256k");
    } else if code == 0x04 {
        reveal_strlit("512k");
    } else if code == 0x05 {
        reveal_strlit("1024k");
    } else if code == 0x06 {
        reveal_strlit("2048k");
    } else if code == 0x07 {
        reveal_strlit("4096k");
    }
}

/// No name of the table holds a `[`.
proof fn lemma_ram_size_label_plain(code: u8)
    ensures
        ram_size_label(code) matches Some(l) ==> no_open_bracket(l),
{
    if code == 0x00 {
        reveal_strlit("0k");
    } else if code == 0x01 {
        reveal_strlit("2k");
    } else if code == 0x02 {
        reveal_strlit("8k");
    } else if code == 0x03 {
        reveal_strlit("32k");
    }
}

/// No name of the table holds a `[`.
proof fn lemma_old_licensee_label_plain(code: u8)
    ensures
        old_licensee_label(code) matches Some(l) ==> no_open_bracket(l),
{
    if code == 0x00 {
        reveal_strlit("None");
    } else if code == 0x01 {
        reveal_strlit("Nintendo");
    } else if code == 0x08 {
        reveal_strlit("Capcom");
    } else if code == 0x09 {
        reveal_strlit("Hot-B");
    } else if code == 0x0A {
        reveal_strlit("Jaleco");
    } else if code == 0x0B {
        reveal_strlit("Coconuts Japan");
    } else if code == 0x0C {
        reveal_strlit("Elite Systems");
    } else if code == 0x13 {
        reveal_strlit("EA (Electronic Arts)");
    } else if code == 0x18 {
        reveal_strlit("Hudsonsoft");
    } else if code == 0x19 {
        reveal_strlit("ITC Entertainment");
    } else if code == 0x1A {
        reveal_strlit("Yanoman");
    } else if code == 0x1D {
        reveal_strlit("Japan Clary");
    } else if code == 0x1F {
        reveal_strlit("Virgin Interactive");
    } else if code == 0x24 {
        reveal_strlit("PCM Complete");
    } else if code == 0x25 {
        reveal_strlit("San-X");
    } else if code == 0x28 {
        reveal_strlit("Kotobuki Systems");
    } else if code == 0x29 {
        reveal_strlit("Seta");
    } else if code == 0x30 {
        reveal_strlit("Infogrames");
    } else if code == 0x31 {
        reveal_strlit("Nintendo");
    } else if code == 0x32 {
        reveal_strlit("Bandai");
    } else if code == 0x33 {
        reveal_strlit("Indicates that the New licensee code should be used instead.");
    } else if code == 0x34 {
        reveal_strlit("Konami");
    } else if code == 0x35 {
        reveal_strlit("HectorSoft");
    } else if code == 0x38 {
        reveal_strlit("Capcom");
    } else if code == 0x39 {
        reveal_strlit("Banpresto");
    } else if code == 0x3C {
        reveal_strlit(".Entertainment i");
    } else if code == 0x3E {
        reveal_strlit("Gremlin");
    } else if code == 0x41 {
        reveal_strlit("Ubisoft");
    } else if code == 0x42 {
        reveal_strlit("Atlus");
    } else if code == 0x44 {
        reveal_strlit("Malibu");
    } else if code == 0x46 {
        reveal_strlit("Angel");
    } else if code == 0x47 {
        reveal_strlit("Spectrum Holoby");
    } else if code == 0x49 {
        reveal_strlit("Irem");
    } else if code == 0x4A {
        reveal_strlit("Virgin Interactive");
    } else if code == 0x4D {
        reveal_strlit("Malibu");
    } else if code == 0x4F {
        reveal_strlit("U.S. Gold");
    } else if code == 0x50 {
        reveal_strlit("Absolute");
    } else if code == 0x51 {
        reveal_strlit("Acclaim");
    } else if code == 0x52 {
        reveal_strlit("Activision");
    } else if code == 0x53 {
        reveal_strlit("American Sammy");
    } else if code == 0x54 {
        reveal_strlit("GameTek");
    } else if code == 0x55 {
        reveal_strlit("Park Place");
    } else if code == 0x56 {
        reveal_strlit("LJN");
    } else if code == 0x57 {
        reveal_strlit("Matchbox");
    } else if code == 0x59 {
        reveal_strlit("Milton Bradley");
    } else if code == 0x5A {
        reveal_strlit("Mindscape");
    } else if code == 0x5B {
        reveal_strlit("Romstar");
    } else if code == 0x5C {
        reveal_strlit("Naxat Soft");
    } else if code == 0x5D {
        reveal_strlit("Tradewest");
    } else if code == 0x60 {
        reveal_strlit("Titus");
    } else if code == 0x61 {
        reveal_strlit("Virgin Interactive");
    } else if code == 0x67 {
        reveal_strlit("Ocean Interactive");
    } else if code == 0x69 {
        reveal_strlit("EA (Electronic Arts)");
    } else if code == 0x6E {
        reveal_strlit("Elite Systems");
    } else if code == 0x6F {
        reveal_strlit("Electro Brain");
    } else if code == 0x70 {
        reveal_strlit("Infogrames");
    } else if code == 0x71 {
        reveal_strlit("Interplay");
    } else if code == 0x72 {
        reveal_strlit("Broderbund");
    } else if code == 0x73 {
        reveal_strlit("Sculptered Soft");
    } else if code == 0x75 {
        reveal_strlit("The Sales Curve");
    } else if code == 0x78 {
        reveal_strlit("t.hq");
    } else if code == 0x79 {
        reveal_strlit("Accolade");
    } else if code == 0x7A {
        reveal_strlit("Triffix Entertainment");
    } else if code == 0x7C {
        reveal_strlit("Microprose");
    } else if code == 0x7F {
        reveal_strlit("Kemco");
    } else if code == 0x80 {
        reveal_strlit("Misawa Entertainment");
    } else if code == 0x83 {
        reveal_strlit("Lozc");
    } else if code == 0x86 {
        reveal_strlit("Tokuma Shoten Intermedia");
    } else if code == 0x8B {
        reveal_strlit("Bullet-Proof Software");
    } else if code == 0x8C {
        reveal_strlit("Vic Tokai");
    } else if code == 0x8E {
        reveal_strlit("Ape");
    } else if code == 0x8F {
        reveal_strlit("I’Max");
    } else if code == 0x91 {
        reveal_strlit("Chunsoft Co.");
    } else if code == 0x92 {
        reveal_strlit("Video System");
    } else if code == 0x93 {
        reveal_strlit("Tsubaraya Productions Co.");
    } else if code == 0x95 {
        reveal_strlit("Varie Corporation");
    } else if code == 0x96 {
        reveal_strlit("Yonezawa/S’Pal");
    } else if code == 0x97 {
        reveal_strlit("Kaneko");
    } else if code == 0x99 {
        reveal_strlit("Arc");
    } else if code == 0x9A {
        reveal_strlit("Nihon Bussan");
    } else if code == 0x9B {
        reveal_strlit("Tecmo");
    } else if code == 0x9C {
        reveal_strlit("Imagineer");
    } else if code == 0x9D {
        reveal_strlit("Banpresto");
    } else if code == 0x9F {
        reveal_strlit("Nova");
    } else if code == 0xA1 {
        reveal_strlit("Hori Electric");
    } else if code == 0xA2 {
        reveal_strlit("Bandai");
    } else if code == 0xA4 {
        reveal_strlit("Konami");
    } else if code == 0xA6 {
        reveal_strlit("Kawada");
    } else if code == 0xA7 {
        reveal_strlit("Takara");
    } else if code == 0xA9 {
        reveal_strlit("Technos Japan");
    } else if code == 0xAA {
        reveal_strlit("Broderbund");
    } else if code == 0xAC {
        reveal_strlit("Toei Animation");
    } else if code == 0xAD {
        reveal_strlit("Toho");
    } else if code == 0xAF {
        reveal_strlit("Namco");
    } else if code == 0xB0 {
        reveal_strlit("Acclaim");
    } else if code == 0xB1 {
        reveal_strlit("ASCII or Nexsoft");
    } else if code == 0xB2 {
        reveal_strlit("Bandai");
    } else if code == 0xB4 {
        reveal_strlit("Square Enix");
    } else if code == 0xB6 {
        reveal_strlit("HAL Laboratory");
    } else if code == 0xB7 {
        reveal_strlit("SNK");
    } else if code == 0xB9 {
        reveal_strlit("Pony Canyon");
    } else if code == 0xBA {
        reveal_strlit("Culture Brain");
    } else if code == 0xBB {
        reveal_strlit("Sunsoft");
    } else if code == 0xBD {
        reveal_strlit("Sony Imagesoft");
    } else if code == 0xBF {
        reveal_strlit("Sammy");
    } else if code == 0xC0 {
        reveal_strlit("Taito");
    } else if code == 0xC2 {
        reveal_strlit("Kemco");
    } else if code == 0xC3 {
        reveal_strlit("Squaresoft");
    } else if code == 0xC4 {
        reveal_strlit("Tokuma Shoten Intermedia");
    } else if code == 0xC5 {
        reveal_strlit("Data East");
    } else if code == 0xC6 {
        reveal_strlit("Tonkinhouse");
    } else if code == 0xC8 {
        reveal_strlit("Koei");
    } else if code == 0xC9 {
        reveal_strlit("UFL");
    } else if code == 0xCA {
        reveal_strlit("Ultra");
    } else if code == 0xCB {
        reveal_strlit("Vap");
    } else if code == 0xCC {
        reveal_strlit("Use Corporation");
    } else if code == 0xCD {
        reveal_strlit("Meldac");
    } else if code == 0xCE {
        reveal_strlit(".Pony Canyon or");
    } else if code == 0xCF {
        reveal_strlit("Angel");
    } else if code == 0xD0 {
        reveal_strlit("Taito");
    } else if code == 0xD1 {
        reveal_strlit("Sofel");
    } else if code == 0xD2 {
        reveal_strlit("Quest");
    } else if code == 0xD3 {
        reveal_strlit("Sigma Enterprises");
    } else if code == 0xD4 {
        reveal_strlit("ASK Kodansha Co.");
    } else if code == 0xD6 {
        reveal_strlit("Naxat Soft");
    } else if code == 0xD7 {
        reveal_strlit("Copya System");
    } else if code == 0xD9 {
        reveal_strlit("Banpresto");
    } else if code == 0xDA {
        reveal_strlit("Tomy");
    } else if code == 0xDB {
        reveal_strlit("LJN");
    } else if code == 0xDD {
        reveal_strlit("NCS");
    } else if code == 0xDE {
        reveal_strlit("Human");
    } else if code == 0xDF {
        reveal_strlit("Altron");
    } else if code == 0xE0 {
        reveal_strlit("Jaleco");
    } else if code == 0xE1 {
        reveal_strlit("Towa Chiki");
    } else if code == 0xE2 {
        reveal_strlit("Yutaka");
    } else if code == 0xE3 {
        reveal_strlit("Varie");
    } else if code == 0xE5 {
        reveal_strlit("Epcoh");
    } else if code == 0xE7 {
        reveal_strlit("Athena");
    } else if code == 0xE8 {
        reveal_strlit("Asmik ACE Entertainment");
    } else if code == 0xE9 {
        reveal_strlit("Natsume");
    } else if code == 0xEA {
        reveal_strlit("King Records");
    } else if code == 0xEB {
        reveal_strlit("Atlus");
    } else if code == 0xEC {
        reveal_strlit("Epic/Sony Records");
    } else if code == 0xEE {
        reveal_strlit("IGS");
    } else if code == 0xF0 {
        reveal_strlit("A Wave");
    } else if code == 0xF3 {
        reveal_strlit("Extreme Entertainment");
    } else if code == 0xFF {
        reveal_strlit("LJN");
    }
}

impl ROM {
    /// A readable summary of the cartridge header: title, flags, hardware, sizes, destination,
    /// licensee, versions and checksums, one per line.
    pub fn describe(&self) -> (r: String)
        requires
            self.rom@.len() >= 0x150,
        ensures
            r@ == header_text(*self),
    {
        let mut s = String::new();
        s.push_str("\n");
        s.push_str("Title: [");
        s.push_str(self.title.as_str());
        s.push_str("]\n");
        let ghost s0 = s@;
        if self.cgb_flag == 0x80 {
            s.push_str("CGB Flag: [80 - The game supports CGB enhancements, but is backwards compatible with monochrome Game Boys]\n");
        } else if self.cgb_flag == 0xC0 {
            s.push_str("CGB Flag: [C0 - The game works on CGB only, DMG will just ignore the bit 6 value, same as 0x80]\n");
        } else {
            push_named_line(&mut s, "CGB Flag: [", self.cgb_flag as u32, Some("No CGB support"));
        }
        assert(s@ == s0 + cgb_line(self.cgb_flag));
        let ghost s1 = s@;
        if self.sgb_flag == 0x00 {
            s.push_str("SGB Flag: [00 - No SGB support]\n");
        } else if self.sgb_flag == 0x03 {
            s.push_str("SGB Flag: [03 - Game supports SGB functions]\n");
        } else {
            push_named_line(&mut s, "SGB Flag: [", self.sgb_flag as u32, None);
        }
        assert(s@ == s1 + sgb_line(self.sgb_flag));
        push_named_line(&mut s, "Cartridge type: [", self.cartridge_type as u32, cartridge_type_name(self.cartridge_type));
        push_named_line(&mut s, "ROM size: [", self.rom_size as u32, rom_size_name(self.rom_size));
        push_named_line(&mut s, "Save RAM size: [", self.ram_size as u32, ram_size_name(self.ram_size));
        let ghost s2 = s@;
        if self.destination_code == 0x00 {
            s.push_str("Destination code: [00 - Japan]\n");
        } else if self.destination_code == 0x01 {
            s.push_str("Destination code: [01 - International]\n");
        } else {
            push_named_line(&mut s, "Destination code: [", self.destination_code as u32, None);
        }
        assert(s@ == s2 + destination_line(self.destination_code));
        let ghost s3 = s@;
        if self.old_licensee_code == 0x33 {
            match new_licensee_name(self.licensee_code) {
                Some(name) => push_named_line(&mut s, "Licensee Code: [", self.licensee_code as u32, Some(name)),
                None => push_named_line(&mut s, "Licensee: [", self.licensee_code as u32, None),
            }
        } else {
            push_named_line(&mut s, "Licensee: [", self.old_licensee_code as u32, old_licensee_name(self.old_licensee_code));
        }
        assert(s@ == s3 + licensee_line(*self));
        push_number_line(&mut s, "Mask ROM Version: [", self.mask_rom_version as u32);
        push_number_line(&mut s, "Header Checksum: [", self.header_checksum as u32);
        let ghost s4 = s@;
        if self.header_checksum_valid() {
            s.push_str("Header checksum [OK]\n");
        } else {
            s.push_str("Header checksum [FAIL]\n");
        }
        assert(s@ == s4 + checksum_line(*self));
        push_number_line(&mut s, "Global Checksum: [", self.global_checksum as u32);
        assert(s@ =~= header_text(*self));
        s
    }
}

/// Whether a search pattern starts with `Header checksum [` and holds no line break: the
/// checksum verdicts are such patterns.
pub open spec fn verdict_pattern(p: Seq<char>) -> bool {
    &&& p.len() >= 17
    &&& p.subrange(0, 17) == "Header checksum ["@
    &&& forall|k: int| 0 <= k < p.len() ==> p[k] != '\n'
}

/// An occurrence in `x + y`, where `x` ends a line, lies in `x` or in `y`.
proof fn lemma_split_at_line(x: Seq<char>, y: Seq<char>, p: Seq<char>)
    requires
        x.len() > 0,
        x[x.len() - 1] == '\n',
        p.len() > 0,
        forall|k: int| 0 <= k < p.len() ==> p[k] != '\n',
    ensures
        contains(x + y, p) <==> contains(x, p) || contains(y, p),
{
    let xy = x + y;
    if contains(xy, p) {
        let i = choose|i: int| occurs_at(xy, p, i);
        if i + p.len() <= x.len() {
            assert(x.subrange(i, i + p.len()) =~= xy.subrange(i, i + p.len()));
            assert(occurs_at(x, p, i));
        } else if i >= x.len() {
            assert(y.subrange(i - x.len(), i - x.len() + p.len()) =~= xy.subrange(i, i + p.len()));
            assert(occurs_at(y, p, i - x.len()));
        } else {
            let k = x.len() - 1 - i;
            assert(xy.subrange(i, i + p.len())[k] == xy[x.len() - 1]);
            assert(p[k] == '\n');
        }
    }
    if contains(x, p) {
        let i = choose|i: int| occurs_at(x, p, i);
        assert(xy.subrange(i, i + p.len()) =~= x.subrange(i, i + p.len()));
        assert(occurs_at(xy, p, i));
    }
    if contains(y, p) {
        let i = choose|i: int| occurs_at(y, p, i);
        assert(xy.subrange(i + x.len(), i + x.len() + p.len()) =~= y.subrange(i, i + p.len()));
        assert(occurs_at(xy, p, i + x.len()));
    }
}

/// A line whose only `[` is the one at index `k` holds no verdict pattern unless the
/// 17 characters ending at that `[` read `Header checksum [`.
proof fn lemma_one_bracket(l: Seq<char>, k: int, p: Seq<char>)
    requires
        verdict_pattern(p),
        0 <= k < l.len(),
        forall|j: int| 0 <= j < l.len() && j != k ==> l[j] != '[',
        k < 16 || l.subrange(k - 16, k + 1) != "Header checksum ["@,
    ensures
        !contains(l, p),
{
    reveal_strlit("Header checksum [");
    if contains(l, p) {
        let i = choose|i: int| occurs_at(l, p, i);
        assert(p.subrange(0, 17)[16] == p[16]);
        assert(p[16] == '[');
        assert(l.subrange(i, i + p.len())[16] == l[i + 16]);
        assert(i + 16 == k);
        assert(l.subrange(k - 16, k + 1) =~= p.subrange(0, 17));
    }
}

/// The digits of a decimal number hold no `[`.
proof fn lemma_decimal_plain(n: nat)
    ensures
        no_open_bracket(decimal_text(n)),
    decreases n,
{
    if n >= 10 {
        lemma_decimal_plain(n / 10);
    }
}

/// A line `prefix + body + "]\n"` whose prefix ends in its only `[` and whose body holds no
/// `[` holds no verdict pattern unless the prefix ends with `Header checksum [`.
proof fn lemma_bracket_line(prefix: Seq<char>, body: Seq<char>, p: Seq<char>)
    requires
        verdict_pattern(p),
        prefix.len() > 0,
        prefix[prefix.len() - 1] == '[',
        forall|j: int| 0 <= j < prefix.len() - 1 ==> prefix[j] != '[',
        no_open_bracket(body),
        prefix.len() < 17 || prefix.subrange(prefix.len() - 17, prefix.len() as int) != "Header checksum ["@,
    ensures
        !contains(prefix + body + "]\n"@, p),
{
    reveal_strlit("]\n");
    let l = prefix + body + "]\n"@;
    let k = prefix.len() - 1;
    assert forall|j: int| 0 <= j < l.len() && j != k implies l[j] != '[' by {
        if j < prefix.len() {
        } else if j < prefix.len() + body.len() {
            assert(l[j] == body[j - prefix.len()]);
        } else {
        }
    }
    if k >= 16 {
        assert(l.subrange(k - 16, k + 1) =~= prefix.subrange(prefix.len() - 17, prefix.len() as int));
    }
    lemma_one_bracket(l, k, p);
}

/// A named header line holds no verdict pattern when its prefix is a plain header prefix.
proof fn lemma_named_line_plain(prefix: Seq<char>, n: nat, label: Option<Seq<char>>, p: Seq<char>)
    requires
        verdict_pattern(p),
        prefix.len() > 0,
        prefix[prefix.len() - 1] == '[',
        forall|j: int| 0 <= j < prefix.len() - 1 ==> prefix[j] != '[',
        prefix.len() < 17 || prefix.subrange(prefix.len() - 17, prefix.len() as int) != "Header checksum ["@,
        label matches Some(l) ==> no_open_bracket(l),
    ensures
        !contains(named_line(prefix, n, label), p),
        named_line(prefix, n, label).len() > 0,
        named_line(prefix, n, label)[named_line(prefix, n, label).len() - 1] == '\n',
{
    reveal_strlit(" - ");
    reveal_strlit("Unknown");
    reveal_strlit("]\n");
    lemma_decimal_plain(n);
    let body = decimal_text(n) + " - "@ + label_or_unknown(label);
    assert(no_open_bracket(body)) by {
        assert forall|j: int| 0 <= j < body.len() implies body[j] != '[' by {
            let d = decimal_text(n);
            if j < d.len() {
            } else if j < d.len() + 3 {
            } else {
                assert(body[j] == label_or_unknown(label)[j - d.len() - 3]);
            }
        }
    }
    assert(named_line(prefix, n, label) =~= prefix + body + "]\n"@);
    lemma_bracket_line(prefix, body, p);
}

/// A number header line holds no verdict pattern when its prefix is a plain header prefix.
proof fn lemma_number_line_plain(prefix: Seq<char>, n: nat, p: Seq<char>)
    requires
        verdict_pattern(p),
        prefix.len() > 0,
        prefix[prefix.len() - 1] == '[',
        forall|j: int| 0 <= j < prefix.len() - 1 ==> prefix[j] != '[',
        prefix.len() < 17 || prefix.subrange(prefix.len() - 17, prefix.len() as int) != "Header checksum ["@,
    ensures
        !contains(number_line(prefix, n), p),
        number_line(prefix, n).len() > 0,
        number_line(prefix, n)[number_line(prefix, n).len() - 1] == '\n',
{
    reveal_strlit("]\n");
    lemma_decimal_plain(n);
    lemma_bracket_line(prefix, decimal_text(n), p);
}

/// A line ends with a line break.
pub open spec fn ends_line(s: Seq<char>) -> bool {
    s.len() > 0 && s[s.len() - 1] == '\n'
}

/// The title line, with the break before it, holds no verdict pattern: the title is short.
proof fn lemma_title_plain(title: Seq<char>, p: Seq<char>)
    requires
        verdict_pattern(p),
        p.len() >= 20,
        title.len() <= 15,
    ensures
        !contains("\n"@ + "Title: ["@ + title + "]\n"@, p),
        ends_line("\n"@ + "Title: ["@ + title + "]\n"@),
{
    reveal_strlit("\n");
    reveal_strlit("Title: [");
    reveal_strlit("]\n");
    reveal_strlit("Header checksum [");
    let a = "\n"@ + "Title: ["@ + title + "]\n"@;
    if contains(a, p) {
        let i = choose|i: int| occurs_at(a, p, i);
        assert(p.subrange(0, 17)[0] == p[0]);
        assert(a.subrange(i, i + p.len())[0] == a[i]);
        assert(a[i] == 'H');
        assert(i >= 9);
    }
}

/// The CGB flag line holds no verdict pattern.
proof fn lemma_cgb_plain(flag: u8, p: Seq<char>)
    requires
        verdict_pattern(p),
    ensures
        !contains(cgb_line(flag), p),
        ends_line(cgb_line(flag)),
{
    if flag == 0x80 {
        let l = "CGB Flag: [80 - The game supports CGB enhancements, but is backwards compatible with monochrome Game Boys]\n"@;
        reveal_strlit("CGB Flag: [80 - The game supports CGB enhancements, but is backwards compatible with monochrome Game Boys]\n");
        lemma_one_bracket(l, 10, p);
    } else if flag == 0xC0 {
        let l = "CGB Flag: [C0 - The game works on CGB only, DMG will just ignore the bit 6 value, same as 0x80]\n"@;
        reveal_strlit("CGB Flag: [C0 - The game works on CGB only, DMG will just ignore the bit 6 value, same as 0x80]\n");
        lemma_one_bracket(l, 10, p);
    } else {
        reveal_strlit("CGB Flag: [");
        reveal_strlit("No CGB support");
        lemma_named_line_plain("CGB Flag: ["@, flag as nat, Some("No CGB support"@), p);
    }
}

/// The SGB flag line holds no verdict pattern.
proof fn lemma_sgb_plain(flag: u8, p: Seq<char>)
    requires
        verdict_pattern(p),
    ensures
        !contains(sgb_line(flag), p),
        ends_line(sgb_line(flag)),
{
    if flag == 0x00 {
        reveal_strlit("SGB Flag: [00 - No SGB support]\n");
        lemma_one_bracket("SGB Flag: [00 - No SGB support]\n"@, 10, p);
    } else if flag == 0x03 {
        reveal_strlit("SGB Flag: [03 - Game supports SGB functions]\n");
        lemma_one_bracket("SGB Flag: [03 - Game supports SGB functions]\n"@, 10, p);
    } else {
        reveal_strlit("SGB Flag: [");
        lemma_named_line_plain("SGB Flag: ["@, flag as nat, None, p);
    }
}

/// The destination line holds no verdict pattern.
proof fn lemma_destination_plain(code: u8, p: Seq<char>)
    requires
        verdict_pattern(p),
    ensures
        !contains(destination_line(code), p),
        ends_line(destination_line(code)),
{
    reveal_strlit("Header checksum [");
    if code == 0x00 {
        let l = "Destination code: [00 - Japan]\n"@;
        reveal_strlit("Destination code: [00 - Japan]\n");
        assert(l.subrange(2, 19) != "Header checksum ["@) by {
            assert(l.subrange(2, 19)[0] != "Header checksum ["@[0]);
        }
        lemma_one_bracket(l, 18, p);
    } else if code == 0x01 {
        let l = "Destination code: [01 - International]\n"@;
        reveal_strlit("Destination code: [01 - International]\n");
        assert(l.subrange(2, 19) != "Header checksum ["@) by {
            assert(l.subrange(2, 19)[0] != "Header checksum ["@[0]);
        }
        lemma_one_bracket(l, 18, p);
    } else {
        let pre = "Destination code: ["@;
        reveal_strlit("Destination code: [");
        assert(pre.subrange(2, 19) != "Header checksum ["@) by {
            assert(pre.subrange(2, 19)[0] != "Header checksum ["@[0]);
        }
        lemma_named_line_plain(pre, code as nat, None, p);
    }
}

/// A header prefix of 17 or more characters other than the checksum verdict's.
proof fn lemma_prefix_differs(pre: Seq<char>)
    requires
        pre.len() >= 17,
        pre[pre.len() - 17] != 'H' || pre[pre.len() - 10] != 'c',
    ensures
        pre.subrange(pre.len() - 17, pre.len() as int) != "Header checksum ["@,
{
    reveal_strlit("Header checksum [");
    let s = pre.subrange(pre.len() - 17, pre.len() as int);
    assert(s[0] == pre[pre.len() - 17]);
    assert(s[7] == pre[pre.len() - 10]);
}

/// The licensee line holds no verdict pattern.
proof fn lemma_licensee_plain(rom: ROM, p: Seq<char>)
    requires
        verdict_pattern(p),
    ensures
        !contains(licensee_line(rom), p),
        ends_line(licensee_line(rom)),
{
    reveal_strlit("Licensee Code: [");
    reveal_strlit("Licensee: [");
    lemma_new_licensee_label_plain(rom.licensee_code);
    lemma_old_licensee_label_plain(rom.old_licensee_code);
    if rom.old_licensee_code == 0x33 {
        match new_licensee_label(rom.licensee_code) {
            Some(l) => lemma_named_line_plain("Licensee Code: ["@, rom.licensee_code as nat, Some(l), p),
            None => lemma_named_line_plain("Licensee: ["@, rom.licensee_code as nat, None, p),
        }
    } else {
        lemma_named_line_plain(
            "Licensee: ["@,
            rom.old_licensee_code as nat,
            old_licensee_label(rom.old_licensee_code),
            p,
        );
    }
}

/// The lines other than the checksum verdict hold no verdict pattern, and each ends a line.
proof fn lemma_other_lines_plain(rom: ROM, p: Seq<char>)
    requires
        verdict_pattern(p),
        p.len() >= 20,
        rom.title@.len() <= 15,
    ensures
        !contains("\n"@ + "Title: ["@ + rom.title@ + "]\n"@, p),
        ends_line("\n"@ + "Title: ["@ + rom.title@ + "]\n"@),
        !contains(cgb_line(rom.cgb_flag), p) && ends_line(cgb_line(rom.cgb_flag)),
        !contains(sgb_line(rom.sgb_flag), p) && ends_line(sgb_line(rom.sgb_flag)),
        !contains(named_line("Cartridge type: ["@, rom.cartridge_type as nat, cartridge_type_label(rom.cartridge_type)), p),
        ends_line(named_line("Cartridge type: ["@, rom.cartridge_type as nat, cartridge_type_label(rom.cartridge_type))),
        !contains(named_line("ROM size: ["@, rom.rom_size as nat, rom_size_label(rom.rom_size)), p),
        ends_line(named_line("ROM size: ["@, rom.rom_size as nat, rom_size_label(rom.rom_size))),
        !contains(named_line("Save RAM size: ["@, rom.ram_size as nat, ram_size_label(rom.ram_size)), p),
        ends_line(named_line("Save RAM size: ["@, rom.ram_size as nat, ram_size_label(rom.ram_size))),
        !contains(destination_line(rom.destination_code), p) && ends_line(destination_line(rom.destination_code)),
        !contains(licensee_line(rom), p) && ends_line(licensee_line(rom)),
        !contains(number_line("Mask ROM Version: ["@, rom.mask_rom_version as nat), p),
        ends_line(number_line("Mask ROM Version: ["@, rom.mask_rom_version as nat)),
        !contains(number_line("Header Checksum: ["@, rom.header_checksum as nat), p),
        ends_line(number_line("Header Checksum: ["@, rom.header_checksum as nat)),
        !contains(number_line("Global Checksum: ["@, rom.global_checksum as nat), p),
        ends_line(number_line("Global Checksum: ["@, rom.global_checksum as nat)),
{
    lemma_title_plain(rom.title@, p);
    lemma_cgb_plain(rom.cgb_flag, p);
    lemma_sgb_plain(rom.sgb_flag, p);
    lemma_destination_plain(rom.destination_code, p);
    lemma_licensee_plain(rom, p);
    reveal_strlit("Cartridge type: [");
    reveal_strlit("ROM size: [");
    reveal_strlit("Save RAM size: [");
    reveal_strlit("Mask ROM Version: [");
    reveal_strlit("Header Checksum: [");
    reveal_strlit("Global Checksum: [");
    lemma_prefix_differs("Cartridge type: ["@);
    lemma_prefix_differs("Mask ROM Version: ["@);
    lemma_prefix_differs("Header Checksum: ["@);
    lemma_prefix_differs("Global Checksum: ["@);
    lemma_cartridge_type_label_plain(rom.cartridge_type);
    lemma_rom_size_label_plain(rom.rom_size);
    lemma_ram_size_label_plain(rom.ram_size);
    lemma_named_line_plain("Cartridge type: ["@, rom.cartridge_type as nat, cartridge_type_label(rom.cartridge_type), p);
    lemma_named_line_plain("ROM size: ["@, rom.rom_size as nat, rom_size_label(rom.rom_size), p);
    lemma_named_line_plain("Save RAM size: ["@, rom.ram_size as nat, ram_size_label(rom.ram_size), p);
    lemma_number_line_plain("Mask ROM Version: ["@, rom.mask_rom_version as nat, p);
    lemma_number_line_plain("Header Checksum: ["@, rom.header_checksum as nat, p);
    lemma_number_line_plain("Global Checksum: ["@, rom.global_checksum as nat, p);
}

/// Appending a line keeps the text ending a line.
proof fn lemma_append_line(x: Seq<char>, y: Seq<char>)
    requires
        ends_line(y),
    ensures
        ends_line(x + y),
{
    assert((x + y)[(x + y).len() - 1] == y[y.len() - 1]);
}

/// A verdict pattern occurs in the summary exactly when it occurs in the checksum verdict line.
proof fn lemma_summary_search(rom: ROM, p: Seq<char>)
    requires
        verdict_pattern(p),
        p.len() >= 20,
        rom.title@.len() <= 15,
    ensures
        contains(header_text(rom), p) <==> contains(checksum_line(rom), p),
{
    lemma_other_lines_plain(rom, p);
    reveal_strlit("Header checksum [OK]\n");
    reveal_strlit("Header checksum [FAIL]\n");
    let a0 = "\n"@ + "Title: ["@ + rom.title@ + "]\n"@;
    let l1 = cgb_line(rom.cgb_flag);
    let l2 = sgb_line(rom.sgb_flag);
    let l3 = named_line("Cartridge type: ["@, rom.cartridge_type as nat, cartridge_type_label(rom.cartridge_type));
    let l4 = named_line("ROM size: ["@, rom.rom_size as nat, rom_size_label(rom.rom_size));
    let l5 = named_line("Save RAM size: ["@, rom.ram_size as nat, ram_size_label(rom.ram_size));
    let l6 = destination_line(rom.destination_code);
    let l7 = licensee_line(rom);
    let l8 = number_line("Mask ROM Version: ["@, rom.mask_rom_version as nat);
    let l9 = number_line("Header Checksum: ["@, rom.header_checksum as nat);
    let l10 = checksum_line(rom);
    let l11 = number_line("Global Checksum: ["@, rom.global_checksum as nat);
    assert(ends_line(l10));
    let a1 = a0 + l1;
    let a2 = a1 + l2;
    let a3 = a2 + l3;
    let a4 = a3 + l4;
    let a5 = a4 + l5;
    let a6 = a5 + l6;
    let a7 = a6 + l7;
    let a8 = a7 + l8;
    let a9 = a8 + l9;
    let a10 = a9 + l10;
    lemma_append_line(a0, l1);
    lemma_append_line(a1, l2);
    lemma_append_line(a2, l3);
    lemma_append_line(a3, l4);
    lemma_append_line(a4, l5);
    lemma_append_line(a5, l6);
    lemma_append_line(a6, l7);
    lemma_append_line(a7, l8);
    lemma_append_line(a8, l9);
    lemma_append_line(a9, l10);
    lemma_split_at_line(a0, l1, p);
    lemma_split_at_line(a1, l2, p);
    lemma_split_at_line(a2, l3, p);
    lemma_split_at_line(a3, l4, p);
    lemma_split_at_line(a4, l5, p);
    lemma_split_at_line(a5, l6, p);
    lemma_split_at_line(a6, l7, p);
    lemma_split_at_line(a7, l8, p);
    lemma_split_at_line(a8, l9, p);
    lemma_split_at_line(a9, l10, p);
    lemma_split_at_line(a10, l11, p);
    assert(header_text(rom) == a10 + l11);
}

/// The two checksum verdicts are verdict patterns.
proof fn lemma_verdicts()
    ensures
        verdict_pattern("Header checksum [OK]"@),
        verdict_pattern("Header checksum [FAIL]"@),
        "Header checksum [OK]"@.len() == 20,
        "Header checksum [FAIL]"@.len() == 22,
{
    reveal_strlit("Header checksum [OK]");
    reveal_strlit("Header checksum [FAIL]");
    reveal_strlit("Header checksum [");
    assert("Header checksum [OK]"@.subrange(0, 17) =~= "Header checksum ["@);
    assert("Header checksum [FAIL]"@.subrange(0, 17) =~= "Header checksum ["@);
}

/// The header summary says `Header checksum [OK]` exactly when the stored header checksum
/// matches the one computed over the header, and `Header checksum [FAIL]` exactly when it does
/// not; it shows the title between `Title: [` and `]`. (A title decoded from the header's
/// 15 bytes has at most 15 characters.)
pub proof fn lemma_summary_reports_checksum(rom: ROM)
    requires
        rom.title@.len() <= 15,
    ensures
        contains(header_text(rom), "Header checksum [OK]"@) <==> rom.header_checksum == header_checksum_of(
            rom.rom@,
            0x14D,
        ),
        contains(header_text(rom), "Header checksum [FAIL]"@) <==> rom.header_checksum != header_checksum_of(
            rom.rom@,
            0x14D,
        ),
        contains(header_text(rom), "Title: ["@ + rom.title@ + "]"@),
{
    let ok = "Header checksum [OK]"@;
    let fail = "Header checksum [FAIL]"@;
    lemma_verdicts();
    lemma_summary_search(rom, ok);
    lemma_summary_search(rom, fail);
    reveal_strlit("Header checksum [OK]\n");
    reveal_strlit("Header checksum [FAIL]\n");
    reveal_strlit("Header checksum [OK]");
    reveal_strlit("Header checksum [FAIL]");
    let okl = "Header checksum [OK]\n"@;
    let faill = "Header checksum [FAIL]\n"@;
    assert(occurs_at(okl, ok, 0)) by {
        assert(okl.subrange(0, 20) =~= ok);
    }
    assert(occurs_at(faill, fail, 0)) by {
        assert(faill.subrange(0, 22) =~= fail);
    }
    if contains(okl, fail) {
        let i = choose|i: int| occurs_at(okl, fail, i);
    }
    if contains(faill, ok) {
        let i = choose|i: int| occurs_at(faill, ok, i);
        assert(faill.subrange(i, i + 20)[16] == faill[i + 16]);
        assert(faill.subrange(i, i + 20)[17] == faill[i + 17]);
        assert(ok[16] == '[' && ok[17] == 'O');
    }
    // The title line follows the first line break.
    reveal_strlit("\n");
    reveal_strlit("Title: [");
    reveal_strlit("]\n");
    reveal_strlit("]");
    let t = "Title: ["@ + rom.title@ + "]"@;
    let a0 = "\n"@ + "Title: ["@ + rom.title@ + "]\n"@;
    assert(a0.subrange(1, 1 + t.len() as int) =~= t);
    let text = header_text(rom);
    assert(text.subrange(1, 1 + t.len() as int) =~= a0.subrange(1, 1 + t.len() as int));
    assert(occurs_at(text, t, 1));
}

} // verus!
