use vstd::prelude::*;

use crate::interrupts::Interrupt;
use crate::lcd::{LCD, LIGHTEST_GREEN, is_lcd_register};
use crate::tiles::{OAMFlags, Sprite, TileData, oam_flags_of, row_pixel, lemma_row_pixel_range};

verus! {

pub const OAM_MODE: u8 = 2;
pub const VRAM_MODE: u8 = 3;
pub const HBLANK_MODE: u8 = 0;
pub const VBLANK_MODE: u8 = 1;
pub const LINES_PER_FRAME: u8 = 153;
pub const TICKS_PER_LINE: u16 = 456;
pub const Y_RES: usize = 144;
pub const X_RES: usize = 160;
pub const FRAMEBUFFER_SIZE: usize = 23040;
pub const VRAM_SIZE: usize = 0x2000;
pub const OAM_SIZE: usize = 0xA0;
pub const MAX_SPRITES_PER_LINE: usize = 10;
pub const LYC_COINCIDENCE_FLAG: u8 = 0x04;
pub const UNSIGNED_TILE_START: u16 = 0x8000;
pub const SIGNED_TILE_START: u16 = 0x8800;
pub const TILE_MAP_0_START: u16 = 0x9800;
pub const TILE_MAP_1_START: u16 = 0x9C00;

/// The pixel processing unit: video memory, sprite memory, LCD registers and the frame being drawn.
pub struct Ppu {
    pub oam_ram: Vec<u8>,
    pub vram: Vec<u8>,
    pub mode: u8,
    pub line_ticks: u16,
    pub current_frame: u32,
    pub previous_frame_time: u32,
    pub start_time: u32,
    pub frame_count: u16,
    pub lcd: LCD,
    pub lcdc: u8,
    pub stat: u8,
    pub scroll_x: u8,
    pub scroll_y: u8,
    pub ly: u8,
    pub ly_compare: u8,
    pub window_line_counter: u8,
    pub framebuffer: Vec<u32>,
    pub prev_stat_line: bool,
}

/// Whether an address is one of the registers the PPU answers for itself or through the LCD.
pub open spec fn is_ppu_register(address: u16) -> bool {
    0xFF40 <= address <= 0xFF45 || is_lcd_register(address)
}

/// The framebuffer with row `ly` replaced by `line`.
pub open spec fn with_line(fb: Seq<u32>, ly: int, line: Seq<u32>) -> Seq<u32> {
    Seq::new(
        fb.len(),
        |i: int|
            if ly * 160 <= i < ly * 160 + 160 {
                line[i - ly * 160]
            } else {
                fb[i]
            },
    )
}

/// The address of the first byte of a background or window tile under the addressing mode
/// that LCDC bit 4 selects.
pub open spec fn tile_data_address(lcdc: u8, tile_index: u8) -> int {
    if lcdc & 0x10 != 0 {
        0x8000 + tile_index * 16
    } else {
        0x8800 + ((tile_index + 128) % 256) * 16
    }
}

impl Ppu {
    pub open spec fn wf(&self) -> bool {
        &&& self.oam_ram@.len() == 0xA0
        &&& self.vram@.len() == 0x2000
        &&& self.framebuffer@.len() == 23040
        &&& self.mode <= 3
        &&& self.ly <= 152
        &&& self.mode != 1 ==> self.ly <= 143
    }

    /// The byte of video memory at a bus address in 0x8000-0x9FFF.
    pub open spec fn vram_at(&self, address: int) -> u8 {
        self.vram@[address - 0x8000]
    }

    pub open spec fn lcd_enabled(&self) -> bool {
        self.lcdc & 0x80 != 0
    }

    /// The value read from a PPU register; other addresses read 0xFF.
    pub open spec fn register(&self, address: u16) -> u8 {
        if address == 0xFF40 {
            self.lcdc
        } else if address == 0xFF41 {
            self.stat
        } else if address == 0xFF42 {
            self.scroll_y
        } else if address == 0xFF43 {
            self.scroll_x
        } else if address == 0xFF44 {
            self.ly
        } else if address == 0xFF45 {
            self.ly_compare
        } else if is_lcd_register(address) {
            self.lcd.register(address)
        } else {
            0xFF
        }
    }

    /// Whether `self` is the PPU after `value` is written to register `address`.
    pub open spec fn reg_written(&self, old: &Ppu, address: u16, value: u8) -> bool {
        if address == 0xFF40 {
            *self == Ppu { lcdc: value, ..*old }
        } else if address == 0xFF41 {
            *self == Ppu { stat: ((old.stat & 0x87u8) | (value & 0x78u8)) as u8, ..*old }
        } else if address == 0xFF42 {
            *self == Ppu { scroll_y: value, ..*old }
        } else if address == 0xFF43 {
            *self == Ppu { scroll_x: value, ..*old }
        } else if address == 0xFF45 {
            *self == Ppu { ly_compare: value, ..*old }
        } else if is_lcd_register(address) {
            *self == Ppu { lcd: self.lcd, ..*old } && self.lcd.written(old.lcd, address, value)
        } else {
            *self == *old
        }
    }

    /// The STAT interrupt line: a source enabled in STAT whose condition holds.
    pub open spec fn stat_line(&self) -> bool {
        ||| self.stat & 0x40 != 0 && self.ly == self.ly_compare
        ||| self.stat & 0x20 != 0 && self.mode == 2
        ||| self.stat & 0x10 != 0 && self.mode == 1
        ||| self.stat & 0x08 != 0 && self.mode == 0
    }

    /// STAT mode bits refreshed and a LCDSTAT request added on a rising edge of the STAT line.
    pub open spec fn stat_refreshed(self, ints: Seq<Interrupt>) -> (Ppu, Seq<Interrupt>) {
        let p = Ppu { stat: ((self.stat & 0xFCu8) | self.mode) as u8, ..self };
        let line = p.stat_line();
        (
            Ppu { prev_stat_line: line, ..p },
            if line && !self.prev_stat_line {
                ints.push(Interrupt::LCDSTAT)
            } else {
                ints
            },
        )
    }

    /// The PPU switched to `mode`.
    pub open spec fn mode_set(self, mode: u8, ints: Seq<Interrupt>) -> (Ppu, Seq<Interrupt>) {
        Ppu { mode, stat: ((self.stat & 0xFCu8) | mode) as u8, ..self }.stat_refreshed(ints)
    }

    /// LY advanced by one, with the coincidence flag, and the wrap to a new frame after line 152.
    pub open spec fn ly_advanced(self, ints: Seq<Interrupt>) -> (Ppu, Seq<Interrupt>) {
        let ly = ((self.ly + 1) % 256) as u8;
        let (p, i) = if ly == self.ly_compare {
            let q = Ppu { ly, stat: (self.stat | 0x04u8) as u8, ..self };
            if q.stat & 0x40 != 0 {
                q.stat_refreshed(ints)
            } else {
                (q, ints)
            }
        } else {
            (Ppu { ly, stat: (self.stat & 0xFBu8) as u8, ..self }, ints)
        };
        if p.ly >= 153 {
            let q = Ppu {
                ly: 0,
                window_line_counter: 0,
                current_frame: ((p.current_frame + 1) % 0x1_0000_0000) as u32,
                ..p
            };
            let (q2, i2) = q.mode_set(2, i);
            q2.stat_refreshed(i2)
        } else {
            (p, i)
        }
    }

    /// Whether the window covers part of the current line.
    pub open spec fn window_visible(&self) -> bool {
        self.lcdc & 0x20 != 0 && self.ly >= self.lcd.window_y && self.lcd.window_x <= 166
    }

    /// The first screen column of the window.
    pub open spec fn window_start(&self) -> int {
        if self.lcd.window_x >= 7 {
            self.lcd.window_x - 7
        } else {
            0
        }
    }

    /// The background colour at column `x` of the current line.
    pub open spec fn bg_colour(&self, x: int) -> u32 {
        let gx = (x + self.scroll_x) % 256;
        let gy = (self.ly + self.scroll_y) % 256;
        let map: int = if self.lcdc & 0x08 != 0 { 0x9C00 } else { 0x9800 };
        let index = self.vram_at(map + (gy / 8) * 32 + gx / 8);
        let address = tile_data_address(self.lcdc, index) + (gy % 8) * 2;
        self.lcd.bg_colours@[row_pixel(self.vram_at(address), self.vram_at(address + 1), gx % 8) as int]
    }

    /// The window colour at column `x` of the current line.
    pub open spec fn window_colour(&self, x: int) -> u32 {
        let wl = self.window_line_counter;
        let map: int = if self.lcdc & 0x40 != 0 { 0x9C00 } else { 0x9800 };
        let index = self.vram_at(map + (x - self.window_start()) / 8 + (wl / 8) * 32);
        let address = tile_data_address(self.lcdc, index) + (wl % 8) * 2;
        self.lcd.bg_colours@[row_pixel(
            self.vram_at(address),
            self.vram_at(address + 1),
            (x - self.window_start()) % 8,
        ) as int]
    }

    /// The colour of column `x` from the background and the window, before sprites.
    pub open spec fn base_colour(&self, x: int) -> u32 {
        if self.window_visible() && x >= self.window_start() {
            self.window_colour(x)
        } else if self.lcdc & 0x01 != 0 {
            self.bg_colour(x)
        } else {
            LIGHTEST_GREEN
        }
    }

    /// Sprite height in pixels: 16 when LCDC bit 2 is set, else 8.
    pub open spec fn sprite_height(&self) -> int {
        if self.lcdc & 0x04 != 0 {
            16
        } else {
            8
        }
    }

    /// Sprite `i` (0 to 39) of OAM.
    pub open spec fn oam_sprite(&self, i: int) -> Sprite {
        Sprite {
            y: self.oam_ram@[4 * i],
            x: self.oam_ram@[4 * i + 1],
            tile_number: self.oam_ram@[4 * i + 2],
            flags: oam_flags_of(self.oam_ram@[4 * i + 3]),
        }
    }

    /// Whether a sprite covers the current line.
    pub open spec fn on_line(&self, s: Sprite) -> bool {
        s.y - 16 <= self.ly < s.y - 16 + self.sprite_height()
    }

    /// The first ten sprites, in OAM order, among the first `n` entries that cover the line.
    pub open spec fn line_sprites(&self, n: int) -> Seq<Sprite>
        decreases n,
    {
        if n <= 0 {
            seq![]
        } else {
            let prev = self.line_sprites(n - 1);
            if prev.len() < 10 && self.on_line(self.oam_sprite(n - 1)) {
                prev.push(self.oam_sprite(n - 1))
            } else {
                prev
            }
        }
    }

    /// The colour number of sprite `s` at column `x` of the current line, after flips.
    pub open spec fn sprite_pixel(&self, s: Sprite, x: int) -> u8 {
        let row0 = self.ly - (s.y - 16);
        let col0 = x - (s.x - 8);
        let row = if s.flags.y_flip { self.sprite_height() - 1 - row0 } else { row0 };
        let col = if s.flags.x_flip { 7 - col0 } else { col0 };
        let tile = if self.sprite_height() == 16 { s.tile_number & 0xFEu8 } else { s.tile_number };
        let address = 0x8000 + tile * 16 + row * 2;
        row_pixel(self.vram_at(address), self.vram_at(address + 1), col)
    }

    /// The colour of sprite `s` at column `x` under its palette.
    pub open spec fn sprite_colour(&self, s: Sprite, x: int) -> u32 {
        let p = self.sprite_pixel(s, x) as int;
        if s.flags.dmg_palette {
            self.lcd.sp2_colours@[p]
        } else {
            self.lcd.sp1_colours@[p]
        }
    }

    /// Whether sprite `s` draws at column `x` over the colour `base`: it covers the column, its
    /// pixel is not transparent, and a sprite behind the background only shows over colour 0.
    pub open spec fn sprite_draws(&self, s: Sprite, x: int, base: u32) -> bool {
        &&& 0 <= x - (s.x - 8) < 8
        &&& self.sprite_pixel(s, x) != 0
        &&& s.flags.priority ==> base == LIGHTEST_GREEN
    }

    /// Among the first `n` of `sprites`, the one that wins column `x` (the leftmost, the earliest
    /// on a tie), as its X coordinate and colour.
    pub open spec fn winning_sprite(&self, sprites: Seq<Sprite>, n: int, x: int, base: u32) -> Option<(u8, u32)>
        decreases n,
    {
        if n <= 0 {
            None
        } else {
            let prev = self.winning_sprite(sprites, n - 1, x, base);
            let s = sprites[n - 1];
            if self.sprite_draws(s, x, base) && (prev matches Some(b) ==> s.x < b.0) {
                Some((s.x, self.sprite_colour(s, x)))
            } else {
                prev
            }
        }
    }

    /// The final colour of column `x` of the current line.
    pub open spec fn pixel_colour(&self, x: int) -> u32 {
        let base = self.base_colour(x);
        if self.lcdc & 0x02 != 0 {
            let sprites = self.line_sprites(40);
            match self.winning_sprite(sprites, sprites.len() as int, x, base) {
                Some(b) => b.1,
                None => base,
            }
        } else {
            base
        }
    }

    /// The current line as drawn.
    pub open spec fn scanline(&self) -> Seq<u32> {
        Seq::new(160, |x: int| self.pixel_colour(x))
    }

    /// One step of `cycles` clocks: the PPU after it (its framebuffer aside), the interrupts it
    /// requests, and the line it draws into row LY of the framebuffer, if it finishes one.
    pub open spec fn ticked(self, cycles: u8) -> (Ppu, Seq<Interrupt>, Option<Seq<u32>>) {
        if !self.lcd_enabled() {
            (
                Ppu {
                    ly: 0,
                    line_ticks: 0,
                    window_line_counter: 0,
                    stat: (self.stat & 0xFCu8) as u8,
                    ..self
                },
                seq![],
                None,
            )
        } else {
            let q = Ppu { line_ticks: (self.line_ticks + cycles) as u16, ..self };
            if q.mode == 2 {
                if q.line_ticks >= 80 {
                    let stat = if q.ly == q.ly_compare { q.stat | 0x04u8 } else { q.stat & 0xFBu8 };
                    let (r, i) = Ppu { stat: stat as u8, line_ticks: (q.line_ticks - 80) as u16, ..q }.mode_set(3, seq![]);
                    (r, i, None)
                } else {
                    (q, seq![], None)
                }
            } else if q.mode == 3 {
                if q.line_ticks >= 172 {
                    let (r, i) = Ppu { line_ticks: (q.line_ticks - 172) as u16, ..q }.mode_set(0, seq![]);
                    (r, i, None)
                } else {
                    (q, seq![], None)
                }
            } else if q.mode == 0 {
                if q.line_ticks >= 204 {
                    let r1 = if q.window_visible_for_count() {
                        Ppu { window_line_counter: ((q.window_line_counter + 1) % 256) as u8, ..q }
                    } else {
                        q
                    };
                    let (r2, i2) = r1.mode_set(if r1.ly == 143 { 1 } else { 2 }, seq![]);
                    let (r3, i3) = r2.ly_advanced(i2);
                    (Ppu { line_ticks: (r3.line_ticks - 204) as u16, ..r3 }, i3, Some(q.scanline()))
                } else {
                    (q, seq![], None)
                }
            } else {
                if q.line_ticks >= 456 {
                    let i = if q.ly == 144 { seq![Interrupt::VBLANK] } else { seq![] };
                    let (r, i2) = q.ly_advanced(i);
                    (Ppu { line_ticks: (r.line_ticks - 456) as u16, ..r }, i2, None)
                } else {
                    (q, seq![], None)
                }
            }
        }
    }

    /// The condition under which the window line counter moves on after a line.
    pub open spec fn window_visible_for_count(&self) -> bool {
        self.lcdc & 0x20 != 0 && self.ly >= self.lcd.window_y && self.window_start() <= 166
    }

    /// A PPU at power-on: mode 2, LCDC 0x91, STAT 0x85, blank memory and a blank frame.
    pub fn new() -> (r: Ppu)
        ensures
            r.wf(),
            r.mode == 2 && r.lcdc == 0x91 && r.stat == 0x85 && r.ly == 0 && r.ly_compare == 0,
            r.line_ticks == 0 && r.current_frame == 0 && r.window_line_counter == 0,
            r.scroll_x == 0 && r.scroll_y == 0 && !r.prev_stat_line,
            r.oam_ram@ == Seq::new(0xA0, |i: int| 0u8),
            r.vram@ == Seq::new(0x2000, |i: int| 0u8),
            r.framebuffer@ == Seq::new(23040, |i: int| LIGHTEST_GREEN),
    {
        let mut framebuffer: Vec<u32> = Vec::new();
        let mut i: usize = 0;
        while i < FRAMEBUFFER_SIZE
            invariant
                i <= 23040,
                framebuffer@ == Seq::new(i as nat, |j: int| LIGHTEST_GREEN),
            decreases 23040 - i,
        {
            framebuffer.push(LIGHTEST_GREEN);
            i = i + 1;
            assert(framebuffer@ =~= Seq::new(i as nat, |j: int| LIGHTEST_GREEN));
        }
        Ppu {
            oam_ram: crate::mbc::zeroed(OAM_SIZE),
            vram: crate::mbc::zeroed(VRAM_SIZE),
            mode: OAM_MODE,
            line_ticks: 0,
            current_frame: 0,
            previous_frame_time: 0,
            start_time: 0,
            frame_count: 0,
            lcd: LCD::new(),
            lcdc: 0x91,
            stat: 0x85,
            scroll_x: 0,
            scroll_y: 0,
            ly: 0,
            ly_compare: 0,
            window_line_counter: 0,
            framebuffer,
            prev_stat_line: false,
        }
    }

    /// Whether LCDC bit 7 turns the LCD and the PPU on.
    pub fn lcd_ppu_enabled(&self) -> (r: bool)
        ensures
            r == self.lcd_enabled(),
    {
        self.lcdc & 0x80 != 0
    }

    /// Reads a PPU register.
    pub fn read(&self, address: u16) -> (r: u8)
        ensures
            r == self.register(address),
    {
        if address == 0xFF40 {
            self.lcdc
        } else if address == 0xFF41 {
            self.stat
        } else if address == 0xFF42 {
            self.scroll_y
        } else if address == 0xFF43 {
            self.scroll_x
        } else if address == 0xFF44 {
            self.ly
        } else if address == 0xFF45 {
            self.ly_compare
        } else if address == 0xFF47 {
            self.lcd.bg_palette
        } else if 0xFF48 <= address && address <= 0xFF4B {
            self.lcd.read(address)
        } else {
            0xFF
        }
    }

    /// Writes a PPU register; LY (0xFF44) is read-only and keeps its value.
    pub fn write(&mut self, address: u16, value: u8)
        requires
            is_ppu_register(address),
        ensures
            final(self).reg_written(old(self), address, value),
    {
        if address == 0xFF40 {
            self.lcdc = value;
        } else if address == 0xFF41 {
            self.stat = (self.stat & 0x87) | (value & 0x78);
        } else if address == 0xFF42 {
            self.scroll_y = value;
        } else if address == 0xFF43 {
            self.scroll_x = value;
        } else if address == 0xFF44 {
        } else if address == 0xFF45 {
            self.ly_compare = value;
        } else {
            self.lcd.write(address, value);
        }
    }

    /// Reads a byte of sprite memory.
    pub fn oam_read(&self, address: u16) -> (r: u8)
        requires
            self.wf(),
            address < 0xA0,
        ensures
            r == self.oam_ram@[address as int],
    {
        self.oam_ram[address as usize]
    }

    /// Writes a byte of sprite memory for a DMA transfer, whatever the mode.
    pub fn oam_dma_write(&mut self, address: u16, value: u8)
        requires
            old(self).wf(),
            address < 0xA0,
        ensures
            *final(self) == (Ppu { oam_ram: final(self).oam_ram, ..*old(self) }),
            final(self).oam_ram@ == old(self).oam_ram@.update(address as int, value),
            final(self).wf(),
    {
        self.oam_ram.set(address as usize, value);
    }

    /// Writes a byte of sprite memory; ignored while the PPU reads it (modes 2 and 3).
    pub fn oam_write(&mut self, address: u16, value: u8)
        requires
            old(self).wf(),
            old(self).mode != 2 && old(self).mode != 3 ==> address < 0xA0,
        ensures
            *final(self) == (Ppu { oam_ram: final(self).oam_ram, ..*old(self) }),
            old(self).mode == 2 || old(self).mode == 3 ==> *final(self) == *old(self),
            old(self).mode != 2 && old(self).mode != 3 ==> final(self).oam_ram@ == old(
                self,
            ).oam_ram@.update(address as int, value),
            final(self).wf(),
    {
        if self.mode == OAM_MODE || self.mode == VRAM_MODE {
            return ;
        }
        self.oam_ram.set(address as usize, value);
    }

    /// Reads video memory at a bus address in 0x8000-0x9FFF.
    pub fn vram_read(&self, address: u16) -> (r: u8)
        requires
            self.wf(),
            0x8000 <= address <= 0x9FFF,
        ensures
            r == self.vram_at(address as int),
    {
        self.vram[(address - UNSIGNED_TILE_START) as usize]
    }

    /// Writes video memory at a bus address in 0x8000-0x9FFF.
    pub fn vram_write(&mut self, address: u16, value: u8)
        requires
            old(self).wf(),
            0x8000 <= address <= 0x9FFF,
        ensures
            *final(self) == (Ppu { vram: final(self).vram, ..*old(self) }),
            final(self).vram@ == old(self).vram@.update(address - 0x8000, value),
            final(self).wf(),
    {
        self.vram.set((address - UNSIGNED_TILE_START) as usize, value);
    }
}

impl Ppu {
    fn window_enabled(&self) -> (r: bool)
        ensures
            r == (self.lcdc & 0x20 != 0),
    {
        self.lcdc & 0x20 != 0
    }

    fn sprites_enabled(&self) -> (r: bool)
        ensures
            r == (self.lcdc & 0x02 != 0),
    {
        self.lcdc & 0x02 != 0
    }

    fn is_background_enabled(&self) -> (r: bool)
        ensures
            r == (self.lcdc & 0x01 != 0),
    {
        self.lcdc & 0x01 != 0
    }

    /// Sprite height in pixels.
    fn sprite_size(&self) -> (r: u8)
        ensures
            r == self.sprite_height(),
    {
        if self.lcdc & LYC_COINCIDENCE_FLAG != 0 {
            16
        } else {
            8
        }
    }

    fn update_stat_interrupts(&mut self, interrupts: &mut Vec<Interrupt>)
        ensures
            (*final(self), final(interrupts)@) == old(self).stat_refreshed(old(interrupts)@),
    {
        self.stat = (self.stat & 0b11111100) | self.mode;
        let current_stat_line = (self.stat & 0x40 != 0 && self.ly == self.ly_compare) || (self.stat
            & 0x20 != 0 && self.mode == OAM_MODE) || (self.stat & 0x10 != 0 && self.mode
            == VBLANK_MODE) || (self.stat & 0x08 != 0 && self.mode == HBLANK_MODE);
        if current_stat_line && !self.prev_stat_line {
            interrupts.push(Interrupt::LCDSTAT);
        }
        self.prev_stat_line = current_stat_line;
    }

    fn change_mode(&mut self, mode: u8, interrupts: &mut Vec<Interrupt>)
        ensures
            (*final(self), final(interrupts)@) == old(self).mode_set(mode, old(interrupts)@),
    {
        self.mode = mode;
        self.stat = (self.stat & 0xFC) | mode;
        self.update_stat_interrupts(interrupts);
    }

    fn increment_ly(&mut self, interrupts: &mut Vec<Interrupt>)
        ensures
            (*final(self), final(interrupts)@) == old(self).ly_advanced(old(interrupts)@),
    {
        self.ly = self.ly.wrapping_add(1);
        if self.ly == self.ly_compare {
            self.stat = self.stat | LYC_COINCIDENCE_FLAG;
            if self.stat & 0x40 != 0 {
                self.update_stat_interrupts(interrupts);
            }
        } else {
            self.stat = self.stat & 0xFB;
        }
        if self.ly >= LINES_PER_FRAME {
            self.ly = 0;
            self.window_line_counter = 0;
            self.current_frame = self.current_frame.wrapping_add(1);
            self.change_mode(OAM_MODE, interrupts);
            self.update_stat_interrupts(interrupts);
        }
    }

    /// Advances the PPU by `cycles` clocks and gives the interrupts it requests: LCDSTAT on a
    /// rising edge of the STAT line, VBLANK when line 144 ends. Finishing mode 0 draws the line.
    pub fn tick(&mut self, cycles: u8) -> (r: Vec<Interrupt>)
        requires
            old(self).wf(),
            old(self).lcd_enabled() ==> old(self).line_ticks + cycles <= 0xFFFF,
        ensures
            final(self).wf(),
            ({
                let (p, i, drew) = old(self).ticked(cycles);
                &&& *final(self) == (Ppu { framebuffer: final(self).framebuffer, ..p })
                &&& r@ == i
                &&& drew matches Some(line) ==> final(self).framebuffer@ == with_line(
                    old(self).framebuffer@,
                    old(self).ly as int,
                    line,
                )
                &&& drew is None ==> final(self).framebuffer@ == old(self).framebuffer@
            }),
            cycles <= 24 && old(self).line_ticks < 480 ==> final(self).line_ticks < 480,
    {
        let mut interrupts: Vec<Interrupt> = Vec::new();
        if !self.lcd_ppu_enabled() {
            self.ly = 0;
            self.line_ticks = 0;
            self.window_line_counter = 0;
            self.stat = self.stat & 0xFC;
            return interrupts;
        }
        self.line_ticks = self.line_ticks + cycles as u16;
        if self.mode == OAM_MODE {
            if self.line_ticks >= 80 {
                if self.ly == self.ly_compare {
                    self.stat = self.stat | LYC_COINCIDENCE_FLAG;
                } else {
                    self.stat = self.stat & 0xFB;
                }
                self.line_ticks = self.line_ticks - 80;
                self.change_mode(VRAM_MODE, &mut interrupts);
            }
        } else if self.mode == VRAM_MODE {
            if self.line_ticks >= 172 {
                self.line_ticks = self.line_ticks - 172;
                self.change_mode(HBLANK_MODE, &mut interrupts);
            }
        } else if self.mode == HBLANK_MODE {
            if self.line_ticks >= 204 {
                self.render_scanline();
                let window_x = if self.lcd.window_x >= 7 { self.lcd.window_x - 7 } else { 0 };
                if self.window_enabled() && self.ly >= self.lcd.window_y && window_x <= 166 {
                    self.window_line_counter = self.window_line_counter.wrapping_add(1);
                }
                if self.ly == 143 {
                    self.change_mode(VBLANK_MODE, &mut interrupts);
                } else {
                    self.change_mode(OAM_MODE, &mut interrupts);
                }
                self.increment_ly(&mut interrupts);
                self.line_ticks = self.line_ticks - 204;
            }
        } else {
            if self.line_ticks >= TICKS_PER_LINE {
                if self.ly == 144 {
                    interrupts.push(Interrupt::VBLANK);
                }
                self.increment_ly(&mut interrupts);
                self.line_ticks = self.line_ticks - TICKS_PER_LINE;
            }
        }
        interrupts
    }
}

impl Ppu {
    fn get_bg_tile_map_area(&self) -> (r: bool)
        ensures
            r == (self.lcdc & 0x08 != 0),
    {
        self.lcdc & 0x08 != 0
    }

    /// The 1024 tile numbers of the background map that LCDC bit 3 selects.
    fn get_bg_tile_map(&self) -> (r: Vec<u8>)
        requires
            self.wf(),
        ensures
            r@.len() == 1024,
            forall|i: int|
                0 <= i < 1024 ==> r@[i] == self.vram_at(
                    (if self.lcdc & 0x08 != 0 { 0x9C00int } else { 0x9800int }) + i,
                ),
    {
        let base: u16 = if self.get_bg_tile_map_area() { TILE_MAP_1_START } else { TILE_MAP_0_START };
        let mut tile_map: Vec<u8> = Vec::new();
        let mut i: u16 = 0;
        while i < 1024
            invariant
                self.wf(),
                base == (if self.lcdc & 0x08 != 0 { 0x9C00u16 } else { 0x9800u16 }),
                i <= 1024,
                tile_map@.len() == i,
                forall|j: int| 0 <= j < i ==> tile_map@[j] == self.vram_at(base + j),
            decreases 1024 - i,
        {
            tile_map.push(self.vram_read(base + i));
            i = i + 1;
        }
        tile_map
    }

    /// The first tile data address of the addressing mode that LCDC bit 4 selects.
    fn get_tile_data_base(&self) -> (r: u16)
        ensures
            r == (if self.lcdc & 0x10 != 0 { 0x8000u16 } else { 0x8800u16 }),
    {
        if self.lcdc & 0x10 != 0 {
            UNSIGNED_TILE_START
        } else {
            SIGNED_TILE_START
        }
    }

    /// The 8x8 background or window tile `tile_index` under the current addressing mode.
    pub fn get_tile_data(&self, tile_index: u8) -> (r: TileData)
        requires
            self.wf(),
        ensures
            r.wf(),
            r.height == 8,
            forall|i: int|
                0 <= i < 16 ==> r.data@[i] == self.vram_at(tile_data_address(self.lcdc, tile_index) + i),
    {
        let tile_data_base = self.get_tile_data_base();
        let tile_address: u16 = if tile_data_base == SIGNED_TILE_START {
            let adjusted_index: u8 = if tile_index < 128 { tile_index + 128 } else { tile_index - 128 };
            SIGNED_TILE_START + adjusted_index as u16 * 16
        } else {
            tile_data_base + tile_index as u16 * 16
        };
        let mut tile_data: Vec<u8> = Vec::new();
        let mut i: u16 = 0;
        while i < 16
            invariant
                self.wf(),
                tile_address == tile_data_address(self.lcdc, tile_index),
                i <= 16,
                tile_data@.len() == i,
                forall|j: int| 0 <= j < i ==> tile_data@[j] == self.vram_at(tile_address + j),
            decreases 16 - i,
        {
            tile_data.push(self.vram_read(tile_address + i));
            i = i + 1;
        }
        TileData::new(tile_data.as_slice(), 8)
    }

    /// The tile data of a sprite: one tile, or for 8x16 sprites the pair starting at the even
    /// tile number.
    pub fn get_sprite_data(&self, sprite: &Sprite) -> (r: TileData)
        requires
            self.wf(),
        ensures
            r.wf(),
            r.height == self.sprite_height(),
            forall|i: int|
                0 <= i < r.height * 2 ==> r.data@[i] == self.vram_at(
                    0x8000 + (if self.sprite_height() == 16 {
                        sprite.tile_number & 0xFEu8
                    } else {
                        sprite.tile_number
                    }) * 16 + i,
                ),
    {
        let is_tall = (self.lcdc & LYC_COINCIDENCE_FLAG) != 0;
        let sprite_size: u16 = if is_tall { 32 } else { 16 };
        let height: usize = if is_tall { 16 } else { 8 };
        let tile_number = if is_tall { sprite.tile_number & 0xFE } else { sprite.tile_number };
        let sprite_tile_address: u16 = UNSIGNED_TILE_START + tile_number as u16 * 16;
        let mut data: Vec<u8> = Vec::new();
        let mut i: u16 = 0;
        while i < sprite_size
            invariant
                self.wf(),
                sprite_size == (if is_tall { 32u16 } else { 16u16 }),
                sprite_tile_address == 0x8000 + tile_number * 16,
                tile_number <= 255,
                i <= sprite_size,
                data@.len() == i,
                forall|j: int| 0 <= j < i ==> data@[j] == self.vram_at(sprite_tile_address + j),
            decreases sprite_size - i,
        {
            data.push(self.vram_read(sprite_tile_address + i));
            i = i + 1;
        }
        TileData::new(data.as_slice(), height)
    }

    /// The forty sprites of OAM, in order.
    fn get_sprites(&self) -> (r: Vec<Sprite>)
        requires
            self.wf(),
        ensures
            r@.len() == 40,
            forall|i: int| 0 <= i < 40 ==> r@[i] == self.oam_sprite(i),
    {
        let mut sprites: Vec<Sprite> = Vec::new();
        let mut i: u16 = 0;
        while i < 40
            invariant
                self.wf(),
                i <= 40,
                sprites@.len() == i,
                forall|j: int| 0 <= j < i ==> sprites@[j] == self.oam_sprite(j),
            decreases 40 - i,
        {
            let offset = i * 4;
            let y = self.oam_read(offset);
            let x = self.oam_read(offset + 1);
            let tile_number = self.oam_read(offset + 2);
            let flags = OAMFlags::from_byte(self.oam_read(offset + 3));
            sprites.push(Sprite { y, x, tile_number, flags });
            i = i + 1;
        }
        sprites
    }

    /// Draws the background into `line` when it is enabled.
    fn render_background_scanline(&self, line: &mut Vec<u32>)
        requires
            self.wf(),
            old(line)@.len() == 160,
        ensures
            final(line)@.len() == 160,
            forall|x: int|
                0 <= x < 160 ==> final(line)@[x] == (if self.lcdc & 0x01 != 0 {
                    self.bg_colour(x)
                } else {
                    old(line)@[x]
                }),
    {
        if self.is_background_enabled() {
            let tile_map = self.get_bg_tile_map();
            let mut x: usize = 0;
            while x < X_RES
                invariant
                    self.wf(),
                    self.lcdc & 0x01 != 0,
                    tile_map@.len() == 1024,
                    forall|i: int|
                        0 <= i < 1024 ==> tile_map@[i] == self.vram_at(
                            (if self.lcdc & 0x08 != 0 { 0x9C00int } else { 0x9800int }) + i,
                        ),
                    x <= 160,
                    line@.len() == 160,
                    forall|j: int| 0 <= j < x ==> line@[j] == self.bg_colour(j),
                    forall|j: int| x <= j < 160 ==> line@[j] == old(line)@[j],
                decreases 160 - x,
            {
                let global_x = (x + self.scroll_x as usize) % 256;
                let global_y = (self.ly as usize + self.scroll_y as usize) % 256;
                let tile_x = global_x / 8;
                let tile_y = global_y / 8;
                let tile_index = tile_map[tile_y * 32 + tile_x];
                let tile = self.get_tile_data(tile_index);
                let row = global_y % 8;
                let col = global_x % 8;
                let pixel = tile.get_pixel(row, col);
                let colour = self.lcd.get_bg_colour(pixel);
                proof {
                    assert(tile.data@[(row * 2) as int] == self.vram_at(
                        tile_data_address(self.lcdc, tile_index) + row * 2,
                    ));
                    assert(tile.data@[(row * 2 + 1) as int] == self.vram_at(
                        tile_data_address(self.lcdc, tile_index) + row * 2 + 1,
                    ));
                }
                line.set(x, colour);
                x = x + 1;
            }
        }
    }

    /// Draws the window over `line` where it is visible.
    fn render_window_scanline(&self, line: &mut Vec<u32>)
        requires
            self.wf(),
            old(line)@.len() == 160,
        ensures
            final(line)@.len() == 160,
            forall|x: int|
                0 <= x < 160 ==> final(line)@[x] == (if self.window_visible() && x
                    >= self.window_start() {
                    self.window_colour(x)
                } else {
                    old(line)@[x]
                }),
    {
        let window_x: u8 = if self.lcd.window_x >= 7 { self.lcd.window_x - 7 } else { 0 };
        if !self.window_enabled() || self.ly < self.lcd.window_y || self.lcd.window_x > 166 {
            return ;
        }
        let window_line = self.window_line_counter;
        let w_tile_y = (window_line / 8) as u16;
        let tile_map_base: u16 = if self.lcdc & 0x40 != 0 { 0x9C00 } else { 0x9800 };
        let data_area_is_8800 = self.lcdc & 0x10 == 0;
        let tile_line = window_line % 8;
        let mut screen_x: u8 = window_x;
        while screen_x < 160
            invariant
                self.wf(),
                self.window_visible(),
                window_x == self.window_start(),
                window_x <= screen_x <= 160,
                window_line == self.window_line_counter,
                w_tile_y == window_line / 8,
                tile_line == window_line % 8,
                tile_map_base == (if self.lcdc & 0x40 != 0 { 0x9C00u16 } else { 0x9800u16 }),
                data_area_is_8800 == (self.lcdc & 0x10 == 0),
                line@.len() == 160,
                forall|j: int| 0 <= j < window_x ==> line@[j] == old(line)@[j],
                forall|j: int| window_x <= j < screen_x ==> line@[j] == self.window_colour(j),
                forall|j: int| screen_x <= j < 160 ==> line@[j] == old(line)@[j],
            decreases 160 - screen_x,
        {
            let tile_map_offset = (screen_x as u16 - window_x as u16) / 8 + w_tile_y * 32;
            let mut tile_id = self.vram_read(tile_map_base + tile_map_offset);
            if data_area_is_8800 {
                tile_id = tile_id.wrapping_add(128);
            }
            let base_address: u16 = if data_area_is_8800 { SIGNED_TILE_START } else { UNSIGNED_TILE_START };
            let tile_address = base_address + tile_id as u16 * 16 + tile_line as u16 * 2;
            let tile_low = self.vram_read(tile_address);
            let tile_high = self.vram_read(tile_address + 1);
            let pixel_x = ((screen_x as u16 - window_x as u16) % 8) as u8;
            let pixel_bit_position = 7 - pixel_x;
            let colour_bit_0 = (tile_low >> pixel_bit_position) & 0x1;
            let colour_bit_1 = (tile_high >> pixel_bit_position) & 0x1;
            let colour_id = (colour_bit_1 << 1u8) | colour_bit_0;
            proof {
                lemma_row_pixel_range(tile_low, tile_high, pixel_x as int);
            }
            let colour = self.lcd.get_bg_colour(colour_id);
            line.set(screen_x as usize, colour);
            screen_x = screen_x + 1;
        }
    }

    /// Draws the sprites of the line over `line`: at each column the leftmost sprite that draws
    /// there, among the first ten sprites on the line.
    fn render_sprite_scanline(&self, line: &mut Vec<u32>)
        requires
            self.wf(),
            self.ly <= 143,
            old(line)@.len() == 160,
        ensures
            final(line)@.len() == 160,
            forall|x: int|
                0 <= x < 160 ==> final(line)@[x] == (if self.lcdc & 0x02 != 0 {
                    match self.winning_sprite(
                        self.line_sprites(40),
                        self.line_sprites(40).len() as int,
                        x,
                        old(line)@[x],
                    ) {
                        Some(b) => b.1,
                        None => old(line)@[x],
                    }
                } else {
                    old(line)@[x]
                }),
    {
        if !self.sprites_enabled() {
            return ;
        }
        let current_scanline = self.ly as i32;
        let sprite_height = self.sprite_size() as i32;
        let sprite_data = self.get_sprites();
        let mut sprites_to_render: Vec<Sprite> = Vec::new();
        let mut i: usize = 0;
        while i < 40
            invariant
                self.wf(),
                sprite_data@.len() == 40,
                forall|j: int| 0 <= j < 40 ==> sprite_data@[j] == self.oam_sprite(j),
                current_scanline == self.ly,
                sprite_height == self.sprite_height(),
                i <= 40,
                sprites_to_render@ == self.line_sprites(i as int),
                forall|j: int|
                    0 <= j < sprites_to_render@.len() ==> self.on_line(#[trigger] sprites_to_render@[j]),
            decreases 40 - i,
        {
            let sprite = sprite_data[i];
            let screen_y = sprite.y as i32 - 16;
            if sprites_to_render.len() < MAX_SPRITES_PER_LINE && screen_y <= current_scanline
                && screen_y + sprite_height > current_scanline {
                sprites_to_render.push(sprite);
            }
            i = i + 1;
        }
        let mut x: usize = 0;
        while x < X_RES
            invariant
                self.wf(),
                self.lcdc & 0x02 != 0,
                self.ly <= 143,
                current_scanline == self.ly,
                sprite_height == self.sprite_height(),
                sprites_to_render@ == self.line_sprites(40),
                forall|j: int|
                    0 <= j < sprites_to_render@.len() ==> self.on_line(#[trigger] sprites_to_render@[j]),
                x <= 160,
                line@.len() == 160,
                forall|j: int|
                    0 <= j < x ==> line@[j] == match self.winning_sprite(
                        self.line_sprites(40),
                        self.line_sprites(40).len() as int,
                        j,
                        old(line)@[j],
                    ) {
                        Some(b) => b.1,
                        None => old(line)@[j],
                    },
                forall|j: int| x <= j < 160 ==> line@[j] == old(line)@[j],
            decreases 160 - x,
        {
            let base = line[x];
            let mut best: Option<(u8, u32)> = None;
            let mut k: usize = 0;
            while k < sprites_to_render.len()
                invariant
                    self.wf(),
                    current_scanline == self.ly,
                    sprite_height == self.sprite_height(),
                    forall|j: int|
                        0 <= j < sprites_to_render@.len() ==> self.on_line(#[trigger] sprites_to_render@[j]),
                    x < 160,
                    k <= sprites_to_render@.len(),
                    best == self.winning_sprite(sprites_to_render@, k as int, x as int, base),
                decreases sprites_to_render@.len() - k,
            {
                let sprite = sprites_to_render[k];
                let screen_x = sprite.x as i32 - 8;
                let sprite_x_pos = x as i32 - screen_x;
                if sprite_x_pos >= 0 && sprite_x_pos < 8 {
                    let screen_y = sprite.y as i32 - 16;
                    let mut sprite_row = current_scanline - screen_y;
                    let mut sprite_col = sprite_x_pos;
                    assert(self.on_line(sprites_to_render@[k as int]));
                    if sprite.flags.y_flip {
                        sprite_row = (sprite_height - 1) - sprite_row;
                    }
                    if sprite.flags.x_flip {
                        sprite_col = 7 - sprite_col;
                    }
                    let tile = self.get_sprite_data(&sprite);
                    let sprite_pixel = tile.get_pixel(sprite_row as usize, sprite_col as usize);
                    proof {
                        let tn = if self.sprite_height() == 16 {
                            sprite.tile_number & 0xFEu8
                        } else {
                            sprite.tile_number
                        };
                        assert(tile.data@[sprite_row * 2] == self.vram_at(0x8000 + tn * 16 + sprite_row * 2));
                        assert(tile.data@[sprite_row * 2 + 1] == self.vram_at(
                            0x8000 + tn * 16 + sprite_row * 2 + 1,
                        ));
                    }
                    if sprite_pixel != 0 {
                        let palette_index: u8 = if sprite.flags.dmg_palette { 1 } else { 0 };
                        let sprite_colour = self.lcd.get_sprite_colour(palette_index, sprite_pixel);
                        let should_draw = if sprite.flags.priority { base == LIGHTEST_GREEN } else { true };
                        if should_draw {
                            let has_higher_priority = match best {
                                None => true,
                                Some(b) => sprite.x < b.0,
                            };
                            if has_higher_priority {
                                best = Some((sprite.x, sprite_colour));
                            }
                        }
                    }
                }
                k = k + 1;
            }
            match best {
                Some(b) => {
                    line.set(x, b.1);
                },
                None => {},
            }
            x = x + 1;
        }
    }

    /// Draws the current line into the framebuffer: background, then window, then sprites.
    fn render_scanline(&mut self)
        requires
            old(self).wf(),
            old(self).ly <= 143,
        ensures
            *final(self) == (Ppu { framebuffer: final(self).framebuffer, ..*old(self) }),
            final(self).framebuffer@ == with_line(old(self).framebuffer@, old(self).ly as int, old(self).scanline()),
            final(self).wf(),
    {
        let ly = self.ly as usize;
        let mut line: Vec<u32> = Vec::new();
        let mut i: usize = 0;
        while i < X_RES
            invariant
                i <= 160,
                line@ == Seq::new(i as nat, |j: int| LIGHTEST_GREEN),
            decreases 160 - i,
        {
            line.push(LIGHTEST_GREEN);
            i = i + 1;
            assert(line@ =~= Seq::new(i as nat, |j: int| LIGHTEST_GREEN));
        }
        let ghost l0 = line@;
        self.render_background_scanline(&mut line);
        let ghost l1 = line@;
        self.render_window_scanline(&mut line);
        let ghost l2 = line@;
        self.render_sprite_scanline(&mut line);
        proof {
            assert forall|x: int| 0 <= x < 160 implies l2[x] == self.base_colour(x) by {}
            assert(line@ =~= self.scanline());
        }
        let ghost fb0 = self.framebuffer@;
        let ghost drawn = self.scanline();
        let ghost s0 = *self;
        let mut k: usize = 0;
        while k < X_RES
            invariant
                self.wf(),
                ly == self.ly,
                ly <= 143,
                k <= 160,
                line@ == drawn,
                drawn.len() == 160,
                *self == (Ppu { framebuffer: self.framebuffer, ..s0 }),
                self.framebuffer@ == Seq::new(
                    23040,
                    |j: int|
                        if ly * 160 <= j < ly * 160 + k {
                            line@[j - ly * 160]
                        } else {
                            fb0[j]
                        },
                ),
            decreases 160 - k,
        {
            self.framebuffer.set(ly * X_RES + k, line[k]);
            k = k + 1;
            assert(self.framebuffer@ =~= Seq::new(
                23040,
                |j: int|
                    if ly * 160 <= j < ly * 160 + k {
                        line@[j - ly * 160]
                    } else {
                        fb0[j]
                    },
            ));
        }
        assert(self.framebuffer@ =~= with_line(fb0, ly as int, line@));
    }
}

/// The colour of pixel (`mx`, `my`) of the 256 x 256 picture that the 32 x 32 tile map at `map`
/// lays out: the tile in map row `my / 8`, column `mx / 8`, at row `my % 8`, column `mx % 8` of
/// that tile.
pub open spec fn map_pixel(p: Ppu, map: int, mx: int, my: int) -> u32 {
    let tile = p.vram_at(map + 32 * (my / 8) + mx / 8);
    let row = tile_data_address(p.lcdc, tile) + 2 * (my % 8);
    p.lcd.bg_colours@[row_pixel(p.vram_at(row), p.vram_at(row + 1), mx % 8) as int]
}

/// The tile map that LCDC bit `bit` selects: 0x9C00 when set, 0x9800 when clear.
pub open spec fn selected_map(lcdc: u8, bit: u8) -> int {
    if lcdc & bit != 0 {
        0x9C00
    } else {
        0x9800
    }
}

/// The background scrolls by SCX and SCY: column `x` of line LY shows the picture of the
/// background tile map (LCDC bit 3) at column (x + SCX) mod 256 and row (LY + SCY) mod 256, and
/// that is what the drawn line holds there when the background is on and neither the window nor
/// sprites cover it.
pub proof fn lemma_background_scroll(p: Ppu, x: int)
    requires
        0 <= x < 160,
    ensures
        p.bg_colour(x) == map_pixel(
            p,
            selected_map(p.lcdc, 0x08),
            (x + p.scroll_x) % 256,
            (p.ly + p.scroll_y) % 256,
        ),
        p.lcdc & 0x01 != 0 && p.lcdc & 0x02 == 0 && !(p.window_visible() && x >= p.window_start())
            ==> p.scanline()[x] == map_pixel(
            p,
            selected_map(p.lcdc, 0x08),
            (x + p.scroll_x) % 256,
            (p.ly + p.scroll_y) % 256,
        ),
{
}

/// Raising SCX by eight shifts the background one tile to the left: column `x` then shows what
/// column `x + 8` showed before.
pub proof fn lemma_scroll_by_tile(p: Ppu, x: int)
    requires
        0 <= x,
    ensures
        (Ppu { scroll_x: ((p.scroll_x + 8) % 256) as u8, ..p }).bg_colour(x) == p.bg_colour(x + 8),
{
    let q = Ppu { scroll_x: ((p.scroll_x + 8) % 256) as u8, ..p };
    assert((x + q.scroll_x) % 256 == (x + 8 + p.scroll_x) % 256) by {
        vstd::arithmetic::div_mod::lemma_add_mod_noop_right(x, p.scroll_x + 8, 256);
    }
}

/// Tile data addressing (LCDC bit 4): with the bit set, tile `t` starts at 0x8000 + 16t; with it
/// clear, the index is signed and tile `t` starts at 0x9000 + 16t for t below 128 and at
/// 0x9000 + 16(t - 256) from 128 on.
pub proof fn lemma_tile_data_address(lcdc: u8, t: u8)
    ensures
        lcdc & 0x10 != 0 ==> tile_data_address(lcdc, t) == 0x8000 + 16 * t,
        lcdc & 0x10 == 0 ==> tile_data_address(lcdc, t) == (if t < 128 {
            0x9000 + 16 * t
        } else {
            0x9000 + 16 * (t - 256)
        }),
{
}

/// The window draws from its own tile map (LCDC bit 6) without scrolling: a column `x` at or
/// right of WX - 7 on a line where the window is visible shows the window picture at column
/// x - (WX - 7) and at the window's own line counter, and the window covers the background there.
pub proof fn lemma_window_pixel(p: Ppu, x: int)
    requires
        0 <= x < 160,
        p.window_visible(),
        x >= p.window_start(),
    ensures
        p.window_colour(x) == map_pixel(
            p,
            selected_map(p.lcdc, 0x40),
            x - p.window_start(),
            p.window_line_counter as int,
        ),
        p.base_colour(x) == p.window_colour(x),
        p.window_start() == (if p.lcd.window_x >= 7 { p.lcd.window_x - 7 } else { 0 }),
{
}

} // verus!
