use vstd::prelude::*;

verus! {

pub const BG_PALETTE_ADDR: u16 = 0xFF47;
pub const OBJ_PALETTE0_ADDR: u16 = 0xFF48;
pub const OBJ_PALETTE1_ADDR: u16 = 0xFF49;
pub const WINDOW_Y_ADDR: u16 = 0xFF4A;
pub const WINDOW_X_ADDR: u16 = 0xFF4B;

pub const PALETTE_MASK: u8 = 0x03;
pub const DEFAULT_BG_PALETTE: u8 = 0xFC;
pub const DEFAULT_OBJ_PALETTE: u8 = 0xFF;

// Display colours (ARGB), from lightest to darkest.
pub const DARKEST_GREEN: u32 = 0xFF142C38;
pub const DARK_GREEN: u32 = 0xFF548C70;
pub const LIGHT_GREEN: u32 = 0xFFACD490;
pub const LIGHTEST_GREEN: u32 = 0xFFE8FCCC;

/// The display colour of a two-bit shade: 0 lightest to 3 darkest.
pub open spec fn shade_colour(shade: u8) -> u32 {
    if shade == 0 {
        LIGHTEST_GREEN
    } else if shade == 1 {
        LIGHT_GREEN
    } else if shade == 2 {
        DARK_GREEN
    } else {
        DARKEST_GREEN
    }
}

/// The four colours that a palette byte maps pixel values 0 to 3 to.
pub open spec fn palette_colours(data: u8) -> Seq<u32> {
    seq![
        shade_colour(data & 3),
        shade_colour((data >> 2) & 3),
        shade_colour((data >> 4) & 3),
        shade_colour((data >> 6) & 3),
    ]
}

/// Whether an address is one of the palette and window registers.
pub open spec fn is_lcd_register(address: u16) -> bool {
    0xFF47 <= address <= 0xFF4B
}

/// The display colour of a two-bit shade.
pub fn default_colour(shade: u8) -> (r: u32)
    ensures
        r == shade_colour(shade),
{
    if shade == 0 {
        LIGHTEST_GREEN
    } else if shade == 1 {
        LIGHT_GREEN
    } else if shade == 2 {
        DARK_GREEN
    } else {
        DARKEST_GREEN
    }
}

/// Palette and window registers, with the colour tables the palettes select.
pub struct LCD {
    pub bg_palette: u8,
    pub obj_palette: [u8; 2],
    pub window_x: u8,
    pub window_y: u8,
    pub bg_colours: [u32; 4],
    pub sp1_colours: [u32; 4],
    pub sp2_colours: [u32; 4],
}

impl LCD {
    /// The value read from a palette or window register.
    pub open spec fn register(self, address: u16) -> u8 {
        if address == 0xFF47 {
            self.bg_palette
        } else if address == 0xFF48 {
            self.obj_palette@[0]
        } else if address == 0xFF49 {
            self.obj_palette@[1]
        } else if address == 0xFF4A {
            self.window_y
        } else {
            self.window_x
        }
    }

    /// The state after a write to a palette or window register.
    pub open spec fn written(self, old: LCD, address: u16, value: u8) -> bool {
        if address == 0xFF47 {
            self == LCD { bg_palette: value, bg_colours: self.bg_colours, ..old }
                && self.bg_colours@ == palette_colours(value)
        } else if address == 0xFF48 {
            self == LCD { obj_palette: self.obj_palette, sp1_colours: self.sp1_colours, ..old }
                && self.obj_palette@ == old.obj_palette@.update(0, value)
                && self.sp1_colours@ == palette_colours(value)
        } else if address == 0xFF49 {
            self == LCD { obj_palette: self.obj_palette, sp2_colours: self.sp2_colours, ..old }
                && self.obj_palette@ == old.obj_palette@.update(1, value)
                && self.sp2_colours@ == palette_colours(value)
        } else if address == 0xFF4A {
            self == LCD { window_y: value, ..old }
        } else {
            self == LCD { window_x: value, ..old }
        }
    }

    /// The state after colour table `palette` (0 background, 1 and 2 sprites) is recomputed
    /// from `data`; any other table number changes nothing.
    pub open spec fn palette_updated(self, old: LCD, palette: u8, data: u8) -> bool {
        if palette == 0 {
            self == LCD { bg_colours: self.bg_colours, ..old } && self.bg_colours@ == palette_colours(data)
        } else if palette == 1 {
            self == LCD { sp1_colours: self.sp1_colours, ..old } && self.sp1_colours@ == palette_colours(data)
        } else if palette == 2 {
            self == LCD { sp2_colours: self.sp2_colours, ..old } && self.sp2_colours@ == palette_colours(data)
        } else {
            self == old
        }
    }

    /// Default palettes and the default colour tables.
    pub fn new() -> (r: LCD)
        ensures
            r.bg_palette == 0xFC && r.obj_palette@ == seq![0xFFu8, 0xFFu8],
            r.window_x == 0 && r.window_y == 0,
            r.bg_colours@ == palette_colours(0xE4),
            r.sp1_colours@ == palette_colours(0xE4),
            r.sp2_colours@ == palette_colours(0xE4),
    {
        let colours = [LIGHTEST_GREEN, LIGHT_GREEN, DARK_GREEN, DARKEST_GREEN];
        proof {
            assert(0xE4u8 & 3 == 0 && (0xE4u8 >> 2) & 3 == 1 && (0xE4u8 >> 4) & 3 == 2 && (0xE4u8 >> 6) & 3 == 3)
                by (bit_vector);
            assert(colours@ =~= palette_colours(0xE4));
        }
        LCD {
            bg_palette: DEFAULT_BG_PALETTE,
            obj_palette: [DEFAULT_OBJ_PALETTE, DEFAULT_OBJ_PALETTE],
            window_x: 0,
            window_y: 0,
            bg_colours: colours,
            sp1_colours: colours,
            sp2_colours: colours,
        }
    }

    /// Reads a palette or window register.
    pub fn read(&self, address: u16) -> (r: u8)
        requires
            is_lcd_register(address),
        ensures
            r == self.register(address),
    {
        if address == BG_PALETTE_ADDR {
            self.bg_palette
        } else if address == OBJ_PALETTE0_ADDR {
            self.obj_palette[0]
        } else if address == OBJ_PALETTE1_ADDR {
            self.obj_palette[1]
        } else if address == WINDOW_Y_ADDR {
            self.window_y
        } else {
            self.window_x
        }
    }

    /// Writes a palette or window register; a palette write also recomputes its colour table.
    pub fn write(&mut self, address: u16, value: u8)
        requires
            is_lcd_register(address),
        ensures
            final(self).written(*old(self), address, value),
    {
        if address == BG_PALETTE_ADDR {
            self.bg_palette = value;
            self.update_palette(value, 0);
        } else if address == OBJ_PALETTE0_ADDR {
            self.obj_palette = [value, self.obj_palette[1]];
            self.update_palette(value, 1);
        } else if address == OBJ_PALETTE1_ADDR {
            self.obj_palette = [self.obj_palette[0], value];
            self.update_palette(value, 2);
        } else if address == WINDOW_Y_ADDR {
            self.window_y = value;
        } else {
            self.window_x = value;
        }
        proof {
            if address == 0xFF48 {
                assert(final(self).obj_palette@ =~= old(self).obj_palette@.update(0, value));
            } else if address == 0xFF49 {
                assert(final(self).obj_palette@ =~= old(self).obj_palette@.update(1, value));
            }
        }
    }

    /// Recomputes one colour table (0 background, 1 and 2 sprites) from a palette byte;
    /// any other table number changes nothing.
    pub fn update_palette(&mut self, palette_data: u8, palette: u8)
        ensures
            final(self).palette_updated(*old(self), palette, palette_data),
    {
        let colours = [
            default_colour(palette_data & PALETTE_MASK),
            default_colour((palette_data >> 2) & PALETTE_MASK),
            default_colour((palette_data >> 4) & PALETTE_MASK),
            default_colour((palette_data >> 6) & PALETTE_MASK),
        ];
        proof {
            assert(colours@ =~= palette_colours(palette_data));
        }
        if palette == 0 {
            self.bg_colours = colours;
        } else if palette == 1 {
            self.sp1_colours = colours;
        } else if palette == 2 {
            self.sp2_colours = colours;
        }
    }

    /// The colour of a background pixel value (0 to 3).
    pub fn get_bg_colour(&self, pixel: u8) -> (r: u32)
        requires
            pixel < 4,
        ensures
            r == self.bg_colours@[pixel as int],
    {
        self.bg_colours[pixel as usize]
    }

    /// The colour of a sprite pixel value (0 to 3) under sprite palette 0 or, for any other index, 1.
    pub fn get_sprite_colour(&self, palette_index: u8, pixel: u8) -> (r: u32)
        requires
            pixel < 4,
        ensures
            palette_index == 0 ==> r == self.sp1_colours@[pixel as int],
            palette_index != 0 ==> r == self.sp2_colours@[pixel as int],
    {
        if palette_index == 0 {
            self.sp1_colours[pixel as usize]
        } else {
            self.sp2_colours[pixel as usize]
        }
    }
}

} // verus!
