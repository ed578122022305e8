use vstd::prelude::*;

verus! {

pub const TILE_WIDTH: usize = 8;
pub const TILE_HEIGHT_EIGHT: usize = 8;
pub const TILE_HEIGHT_SIXTEEN: usize = 16;

/// The two-bit colour number of column `col` (0 leftmost) in a tile row whose low bit plane
/// is `low` and high bit plane is `high`.
pub open spec fn row_pixel(low: u8, high: u8, col: int) -> u8 {
    let shift = (7 - col) as u8;
    ((((high >> shift) & 1u8) << 1u8) | ((low >> shift) & 1u8)) as u8
}

/// A colour number is below four.
pub proof fn lemma_row_pixel_range(low: u8, high: u8, col: int)
    requires
        0 <= col < 8,
    ensures
        row_pixel(low, high, col) < 4,
{
    let shift = (7 - col) as u8;
    assert(((((high >> shift) & 1u8) << 1u8) | ((low >> shift) & 1u8)) < 4u8) by (bit_vector);
}

/// The pixels of an 8-pixel-wide tile, two bytes per row.
pub struct TileData {
    pub data: Vec<u8>,
    pub height: usize,
    pub width: usize,
}

impl TileData {
    pub open spec fn wf(&self) -> bool {
        &&& self.height == 8 || self.height == 16
        &&& self.width == 8
        &&& self.data@.len() == self.height * 2
    }

    /// The colour number at `row`, `col`.
    pub open spec fn pixel(&self, row: int, col: int) -> u8 {
        row_pixel(self.data@[row * 2], self.data@[row * 2 + 1], col)
    }

    /// A tile of `height` rows (8 or 16) from `height * 2` bytes.
    pub fn new(data: &[u8], height: usize) -> (r: Self)
        requires
            height == 8 || height == 16,
            data@.len() == height * 2,
        ensures
            r.wf(),
            r.height == height,
            r.data@ == data@,
    {
        let mut v: Vec<u8> = Vec::new();
        let mut i: usize = 0;
        while i < data.len()
            invariant
                i <= data@.len(),
                v@ == data@.subrange(0, i as int),
            decreases data@.len() - i,
        {
            v.push(data[i]);
            i = i + 1;
            assert(v@ =~= data@.subrange(0, i as int));
        }
        assert(v@ =~= data@);
        TileData { data: v, height, width: 8 }
    }

    /// The colour number (0 to 3) at `row`, `col`.
    pub fn get_pixel(&self, row: usize, col: usize) -> (r: u8)
        requires
            self.wf(),
            row < self.height,
            col < self.width,
        ensures
            r == self.pixel(row as int, col as int),
            r < 4,
    {
        let plane1 = self.data[row * 2];
        let plane2 = self.data[row * 2 + 1];
        let bit_position = (7 - col) as u8;
        let low_bit = (plane1 >> bit_position) & 0x01;
        let high_bit = (plane2 >> bit_position) & 0x01;
        proof {
            lemma_row_pixel_range(plane1, plane2, col as int);
        }
        (high_bit << 1u8) | low_bit
    }
}

/// Names one attribute of a sprite.
#[allow(non_camel_case_types)]
#[derive(Debug, Clone, Copy, PartialEq, Eq, Structural)]
pub enum OamFlag {
    PRIORITY,
    Y_FLIP,
    X_FLIP,
    DMG_PALETTE,
    BANK,
    CGB_PALETTE,
}

/// The attribute byte of a sprite.
#[derive(Debug, Clone, Copy, PartialEq, Eq, Structural)]
pub struct OAMFlags {
    pub priority: bool,
    pub y_flip: bool,
    pub x_flip: bool,
    pub dmg_palette: bool,
    pub bank: bool,
    pub cgb_palette: u8,
}

/// The attributes that an attribute byte encodes: bit 7 priority, 6 Y flip, 5 X flip,
/// 4 DMG palette, 3 bank, bits 0-2 CGB palette.
pub open spec fn oam_flags_of(byte: u8) -> OAMFlags {
    OAMFlags {
        priority: byte & 0x80 != 0,
        y_flip: byte & 0x40 != 0,
        x_flip: byte & 0x20 != 0,
        dmg_palette: byte & 0x10 != 0,
        bank: byte & 0x08 != 0,
        cgb_palette: byte & 0x07,
    }
}

impl OAMFlags {
    pub open spec fn flag(self, flag: OamFlag) -> bool {
        match flag {
            OamFlag::PRIORITY => self.priority,
            OamFlag::Y_FLIP => self.y_flip,
            OamFlag::X_FLIP => self.x_flip,
            OamFlag::DMG_PALETTE => self.dmg_palette,
            OamFlag::BANK => self.bank,
            OamFlag::CGB_PALETTE => self.cgb_palette != 0,
        }
    }

    /// No attribute set.
    pub fn new() -> (r: Self)
        ensures
            r == (OAMFlags {
                priority: false,
                y_flip: false,
                x_flip: false,
                dmg_palette: false,
                bank: false,
                cgb_palette: 0,
            }),
    {
        OAMFlags {
            priority: false,
            y_flip: false,
            x_flip: false,
            dmg_palette: false,
            bank: false,
            cgb_palette: 0,
        }
    }

    /// Decodes an attribute byte.
    pub fn from_byte(byte: u8) -> (r: Self)
        ensures
            r == oam_flags_of(byte),
    {
        OAMFlags {
            priority: byte & 0x80 != 0,
            y_flip: byte & 0x40 != 0,
            x_flip: byte & 0x20 != 0,
            dmg_palette: byte & 0x10 != 0,
            bank: byte & 0x08 != 0,
            cgb_palette: byte & 0x07,
        }
    }

    pub fn get_flag(&self, flag: OamFlag) -> (r: bool)
        ensures
            r == self.flag(flag),
    {
        match flag {
            OamFlag::PRIORITY => self.priority,
            OamFlag::Y_FLIP => self.y_flip,
            OamFlag::X_FLIP => self.x_flip,
            OamFlag::DMG_PALETTE => self.dmg_palette,
            OamFlag::BANK => self.bank,
            OamFlag::CGB_PALETTE => self.cgb_palette != 0,
        }
    }

    /// Sets one attribute; the CGB palette becomes 1 or 0.
    pub fn set_flag(&mut self, flag: OamFlag, value: bool)
        ensures
            final(self).flag(flag) == value,
            forall|other: OamFlag| other != flag ==> final(self).flag(other) == old(self).flag(other),
            flag == OamFlag::CGB_PALETTE ==> final(self).cgb_palette == (if value { 1u8 } else { 0u8 }),
    {
        match flag {
            OamFlag::PRIORITY => self.priority = value,
            OamFlag::Y_FLIP => self.y_flip = value,
            OamFlag::X_FLIP => self.x_flip = value,
            OamFlag::DMG_PALETTE => self.dmg_palette = value,
            OamFlag::BANK => self.bank = value,
            OamFlag::CGB_PALETTE => self.cgb_palette = if value { 1 } else { 0 },
        }
    }
}

/// One sprite of the object attribute memory.
#[derive(Debug, Clone, Copy, PartialEq, Eq, Structural)]
pub struct OamEntry {
    pub y: u8,
    pub x: u8,
    pub tile_number: u8,
    pub flags: OAMFlags,
}

impl OamEntry {
    /// A sprite at 0,0 with tile 0 and no attribute.
    pub fn new() -> (r: Self)
        ensures
            r == (OamEntry { y: 0, x: 0, tile_number: 0, flags: oam_flags_of(0) }),
    {
        OamEntry { y: 0, x: 0, tile_number: 0, flags: OAMFlags::from_byte(0) }
    }
}

/// A sprite as the renderer reads it from OAM.
#[derive(Debug, Clone, Copy, PartialEq, Eq, Structural)]
pub struct Sprite {
    pub y: u8,
    pub x: u8,
    pub tile_number: u8,
    pub flags: OAMFlags,
}

} // verus!
