//! The background pipeline, pixel compositing, and the work of one dot.

use vstd::prelude::*;
use crate::ppu::PPU;
use crate::ppu::PRE_RENDER_LINE;
use crate::ppu::STATUS_SPRITE_ZERO_HIT;
use crate::ppu::StepResult;
use crate::ppu::colors::convert_color;
use crate::ppu::colors::spec_convert_color;
use crate::ppu::scrolling::coarse_x;
use crate::ppu::scrolling::coarse_y;
use crate::ppu::scrolling::fine_y;
use crate::ppu::scrolling::nametable;
use crate::rom::ROM;

verus! {

/// Bit `bit` of `word` is set.
#[verifier::allow_in_spec]
pub fn bit_of(word: u16, bit: u16) -> bool
    requires
        bit < 16,
    returns
        (word >> bit) % 2 == 1,
{
    (word >> bit) % 2 == 1
}

/// The index into the frame of the red byte of pixel (`x`, `y`).
pub open spec fn spec_pixel_offset(x: int, y: int) -> int {
    (y * 256 + x) * 3
}

impl PPU {
    /// The dot fetches for the background: dots 1 to 256 and 321 to 336.
    #[verifier::allow_in_spec]
    pub fn in_fetch_range(&self) -> bool
        returns
            (1 <= self.cycle && self.cycle <= 256) || (321 <= self.cycle && self.cycle <= 336),
    {
        (1 <= self.cycle && self.cycle <= 256) || (321 <= self.cycle && self.cycle <= 336)
    }

    /// The scanline renders: it is visible or the pre-render line.
    #[verifier::allow_in_spec]
    pub fn on_render_line(&self) -> bool
        returns
            self.scanline < 240 || self.scanline == PRE_RENDER_LINE,
    {
        self.scanline < 240 || self.scanline == PRE_RENDER_LINE
    }

    /// Base of the background pattern table: CTRL bit 4.
    #[verifier::allow_in_spec]
    pub fn background_table(&self) -> u16
        returns
            (if (self.ctrl & 0x10) != 0 {
                0x1000u16
            } else {
                0u16
            }),
    {
        if (self.ctrl & 0x10) != 0 {
            0x1000
        } else {
            0
        }
    }

    /// Address of the attribute byte for the tile at `v`: one byte per 4x4
    /// tiles, after the 960 tile bytes of the nametable.
    pub open spec fn spec_attribute_address(&self) -> u16 {
        (0x23C0 + nametable(self.v) * 0x400 + (coarse_y(self.v) / 4) * 8 + coarse_x(self.v)
            / 4) as u16
    }

    /// Which two bits of the attribute byte belong to the tile at `v`.
    pub open spec fn spec_attribute_shift(&self) -> u16 {
        (((coarse_y(self.v) % 4) / 2) * 4 + ((coarse_x(self.v) % 4) / 2) * 2) as u16
    }

    /// Address of the low pattern byte of the latched tile, at row fine Y.
    pub open spec fn spec_pattern_address(&self) -> u16 {
        (self.background_table() + self.bg_next_tile_id * 16 + fine_y(self.v)) as u16
    }

    pub open spec fn spec_fetch_nametable_byte(&self, rom: &ROM) -> PPU {
        PPU {
            bg_next_tile_id: self.spec_read_ppu_memory(rom, (0x2000 + self.v % 0x1000) as u16),
            ..*self
        }
    }

    pub open spec fn spec_fetch_attribute_byte(&self, rom: &ROM) -> PPU {
        PPU {
            bg_next_tile_attrib: (self.spec_read_ppu_memory(rom, self.spec_attribute_address())
                >> self.spec_attribute_shift()) % 4,
            ..*self
        }
    }

    pub open spec fn spec_fetch_pattern_low(&self, rom: &ROM) -> PPU {
        PPU {
            bg_next_tile_lsb: self.spec_read_ppu_memory(rom, self.spec_pattern_address()),
            ..*self
        }
    }

    pub open spec fn spec_fetch_pattern_high(&self, rom: &ROM) -> PPU {
        PPU {
            bg_next_tile_msb: self.spec_read_ppu_memory(
                rom,
                (self.spec_pattern_address() + 8) as u16,
            ),
            ..*self
        }
    }

    /// The latched tile enters the low eight bits of the shift registers;
    /// each attribute bit fills eight positions.
    pub open spec fn spec_load_background_shifters(&self) -> PPU {
        PPU {
            bg_shifter_pattern_lo: ((self.bg_shifter_pattern_lo / 256) * 256
                + self.bg_next_tile_lsb) as u16,
            bg_shifter_pattern_hi: ((self.bg_shifter_pattern_hi / 256) * 256
                + self.bg_next_tile_msb) as u16,
            bg_shifter_attrib_lo: ((self.bg_shifter_attrib_lo / 256) * 256 + if
                self.bg_next_tile_attrib % 2 == 1 {
                0xFFint
            } else {
                0int
            }) as u16,
            bg_shifter_attrib_hi: ((self.bg_shifter_attrib_hi / 256) * 256 + if
                self.bg_next_tile_attrib / 2 % 2 == 1 {
                0xFFint
            } else {
                0int
            }) as u16,
            ..*self
        }
    }

    /// With the background on (MASK bit 3) the four shift registers move
    /// left by one, and on every eighth dot the latched tile is loaded.
    pub open spec fn spec_update_shifters(&self) -> PPU {
        if (self.mask & 0x08) != 0 {
            let shifted = PPU {
                bg_shifter_pattern_lo: self.bg_shifter_pattern_lo << 1,
                bg_shifter_pattern_hi: self.bg_shifter_pattern_hi << 1,
                bg_shifter_attrib_lo: self.bg_shifter_attrib_lo << 1,
                bg_shifter_attrib_hi: self.bg_shifter_attrib_hi << 1,
                ..*self
            };
            if self.cycle % 8 == 0 {
                shifted.spec_load_background_shifters()
            } else {
                shifted
            }
        } else {
            *self
        }
    }

    /// The fetch that falls on this dot of the eight-dot pattern: nametable
    /// byte, attribute byte, pattern low, pattern high, then the step to the
    /// next tile.
    pub open spec fn spec_fetch_phase(&self, rom: &ROM) -> PPU {
        let phase = (self.cycle - 1) % 8;
        if phase == 0 {
            self.spec_fetch_nametable_byte(rom)
        } else if phase == 2 {
            self.spec_fetch_attribute_byte(rom)
        } else if phase == 4 {
            self.spec_fetch_pattern_low(rom)
        } else if phase == 6 {
            self.spec_fetch_pattern_high(rom)
        } else if phase == 7 {
            self.spec_increment_scroll_x()
        } else {
            *self
        }
    }

    /// The background pipeline on this dot. It runs on render lines while
    /// rendering is on: shift and fetch in the fetch range, step down a row
    /// on dot 256, and take the horizontal scroll from `t` on dot 257.
    pub open spec fn spec_background_cycle(&self, rom: &ROM) -> PPU {
        if !self.is_rendering_enabled() || !self.on_render_line() {
            *self
        } else if self.in_fetch_range() {
            let fetched = self.spec_update_shifters().spec_fetch_phase(rom);
            if self.cycle == 256 {
                fetched.spec_increment_scroll_y()
            } else {
                fetched
            }
        } else if self.cycle == 257 {
            self.spec_transfer_address_x()
        } else {
            *self
        }
    }

    /// The sprite pipeline on this dot. On dot 257, while rendering is on, a
    /// visible scanline evaluates the sprites for the scanline below and the
    /// pre-render line empties the selection.
    pub open spec fn spec_sprite_cycle(&self, rom: &ROM) -> PPU {
        if !self.is_rendering_enabled() || self.cycle != 257 {
            *self
        } else if self.scanline < 240 {
            self.spec_evaluate_sprites(rom)
        } else if self.scanline == PRE_RENDER_LINE {
            self.spec_clear_sprites()
        } else {
            *self
        }
    }

    /// The pre-render line clears the flags on dot 1 and, while rendering is
    /// on, takes the vertical scroll from `t` on dots 280 to 304.
    pub open spec fn spec_pre_render(&self) -> PPU {
        if self.scanline != PRE_RENDER_LINE {
            *self
        } else if self.cycle == 1 {
            self.spec_clear_nmi()
        } else if 280 <= self.cycle <= 304 {
            self.spec_transfer_address_y()
        } else {
            *self
        }
    }

    /// The background's colour and palette on column `x`: the bits that fine
    /// X selects from the shift registers, or nothing where the background
    /// is off (MASK bit 3) or clipped in the left eight columns (MASK bit 1).
    pub open spec fn spec_background_pixel(&self, x: u8) -> (u8, u8) {
        if (self.mask & 0x08) != 0 && (x >= 8 || (self.mask & 0x02) != 0) {
            let bit = (15 - self.x) as u16;
            (
                (if bit_of(self.bg_shifter_pattern_lo, bit) {
                    1int
                } else {
                    0int
                } + if bit_of(self.bg_shifter_pattern_hi, bit) {
                    2int
                } else {
                    0int
                }) as u8,
                (if bit_of(self.bg_shifter_attrib_lo, bit) {
                    1int
                } else {
                    0int
                } + if bit_of(self.bg_shifter_attrib_hi, bit) {
                    2int
                } else {
                    0int
                }) as u8,
            )
        } else {
            (0, 0)
        }
    }

    /// The sprite pixel on column `x`, or nothing where sprites are off
    /// (MASK bit 4) or clipped in the left eight columns (MASK bit 2).
    pub open spec fn spec_visible_sprite_pixel(&self, x: u8) -> (u8, u8, bool, bool) {
        if (self.mask & 0x10) != 0 && (x >= 8 || (self.mask & 0x04) != 0) {
            self.spec_get_sprite_pixel(x)
        } else {
            (0, 0, false, false)
        }
    }

    /// Sprite 0 hits on column `x`: an opaque pixel of sprite 0 lies over an
    /// opaque background pixel, and the column is not 255.
    pub open spec fn spec_sprite_zero_hits(&self, x: u8) -> bool {
        let background = self.spec_background_pixel(x);
        let sprite = self.spec_visible_sprite_pixel(x);
        sprite.3 && sprite.0 != 0 && background.0 != 0 && x != 255
    }

    /// The palette RAM address of the pixel shown on column `x`: the sprite
    /// wins where it is opaque and either in front or over a transparent
    /// background; colour 0 of any palette is the backdrop.
    pub open spec fn spec_pixel_palette_address(&self, x: u8) -> u16 {
        let background = self.spec_background_pixel(x);
        let sprite = self.spec_visible_sprite_pixel(x);
        let (pixel, palette) = if sprite.0 != 0 && (sprite.2 || background.0 == 0) {
            (sprite.0, sprite.1)
        } else {
            background
        };
        if pixel == 0 {
            0x3F00
        } else {
            (0x3F00 + (palette % 8) * 4 + pixel % 4) as u16
        }
    }

    /// The pixel of the current dot drawn into the frame, with the sprite-0
    /// flag set if it hits here. Only the dots 1 to 256 of a visible
    /// scanline draw.
    pub open spec fn spec_render_pixel(&self, rom: &ROM) -> PPU {
        if self.scanline < 240 && 1 <= self.cycle <= 256 {
            let x = (self.cycle - 1) as u8;
            let rgb = spec_convert_color(
                self.spec_read_ppu_memory(rom, self.spec_pixel_palette_address(x)),
            );
            let at = spec_pixel_offset(x as int, self.scanline as int);
            PPU {
                status: if self.spec_sprite_zero_hits(x) {
                    self.status | STATUS_SPRITE_ZERO_HIT
                } else {
                    self.status
                },
                framebuffer: Box::new(
                    vstd::array::spec_array_update(
                        vstd::array::spec_array_update(
                            vstd::array::spec_array_update(*self.framebuffer, at, rgb.0),
                            at + 1,
                            rgb.1,
                        ),
                        at + 2,
                        rgb.2,
                    ),
                ),
                ..*self
            }
        } else {
            *self
        }
    }

    /// The first `n` pixels of the current scanline drawn in order, the dot
    /// counter left on the last of them.
    pub open spec fn spec_render_dots(&self, rom: &ROM, n: int) -> PPU
        decreases n,
    {
        if n <= 0 {
            *self
        } else {
            (PPU { cycle: n as u16, ..self.spec_render_dots(rom, n - 1) }).spec_render_pixel(rom)
        }
    }

    /// Everything the PPU does on the dot it stands on; the first component
    /// tells whether the NMI line rose.
    pub open spec fn spec_dot(&self, rom: &ROM) -> (bool, PPU) {
        self.spec_render_pixel(rom).spec_pre_render().spec_background_cycle(rom).spec_sprite_cycle(
            rom,
        ).spec_check_nmi()
    }

    /// One dot: the counter moves on, then the PPU does the work of the dot
    /// it arrived at.
    #[verifier::opaque]
    pub open spec fn spec_step(&self, rom: &ROM) -> (StepResult, PPU) {
        let (new_frame, moved) = self.spec_advance();
        let (vblank_nmi, done) = moved.spec_dot(rom);
        (StepResult { new_frame, vblank_nmi }, done)
    }

    pub fn fetch_nametable_byte(&mut self, rom: &ROM)
        ensures
            *final(self) == old(self).spec_fetch_nametable_byte(rom),
    {
        self.bg_next_tile_id = self.read_ppu_memory(rom, 0x2000 + self.v % 0x1000);
    }

    pub fn fetch_attribute_byte(&mut self, rom: &ROM)
        ensures
            *final(self) == old(self).spec_fetch_attribute_byte(rom),
    {
        let v = self.v;
        let address = 0x23C0 + nametable(v) * 0x400 + (coarse_y(v) / 4) * 8 + coarse_x(v) / 4;
        let shift = ((coarse_y(v) % 4) / 2) * 4 + ((coarse_x(v) % 4) / 2) * 2;
        self.bg_next_tile_attrib = (self.read_ppu_memory(rom, address) >> shift) % 4;
    }

    fn pattern_address(&self) -> (r: u16)
        ensures
            r == self.spec_pattern_address(),
            r < 0x2000 - 8,
    {
        self.background_table() + (self.bg_next_tile_id as u16) * 16 + fine_y(self.v)
    }

    pub fn fetch_pattern_low(&mut self, rom: &ROM)
        ensures
            *final(self) == old(self).spec_fetch_pattern_low(rom),
    {
        self.bg_next_tile_lsb = self.read_ppu_memory(rom, self.pattern_address());
    }

    pub fn fetch_pattern_high(&mut self, rom: &ROM)
        ensures
            *final(self) == old(self).spec_fetch_pattern_high(rom),
    {
        self.bg_next_tile_msb = self.read_ppu_memory(rom, self.pattern_address() + 8);
    }

    pub fn load_background_shifters(&mut self)
        ensures
            *final(self) == old(self).spec_load_background_shifters(),
    {
        let attrib_lo: u16 = if self.bg_next_tile_attrib % 2 == 1 {
            0xFF
        } else {
            0
        };
        let attrib_hi: u16 = if self.bg_next_tile_attrib / 2 % 2 == 1 {
            0xFF
        } else {
            0
        };
        self.bg_shifter_pattern_lo = (self.bg_shifter_pattern_lo / 256) * 256
            + self.bg_next_tile_lsb as u16;
        self.bg_shifter_pattern_hi = (self.bg_shifter_pattern_hi / 256) * 256
            + self.bg_next_tile_msb as u16;
        self.bg_shifter_attrib_lo = (self.bg_shifter_attrib_lo / 256) * 256 + attrib_lo;
        self.bg_shifter_attrib_hi = (self.bg_shifter_attrib_hi / 256) * 256 + attrib_hi;
    }

    pub fn update_shifters(&mut self)
        ensures
            *final(self) == old(self).spec_update_shifters(),
    {
        if (self.mask & 0x08) != 0 {
            self.bg_shifter_pattern_lo = self.bg_shifter_pattern_lo << 1;
            self.bg_shifter_pattern_hi = self.bg_shifter_pattern_hi << 1;
            self.bg_shifter_attrib_lo = self.bg_shifter_attrib_lo << 1;
            self.bg_shifter_attrib_hi = self.bg_shifter_attrib_hi << 1;
            if self.cycle % 8 == 0 {
                self.load_background_shifters();
            }
        }
    }

    fn fetch_phase(&mut self, rom: &ROM)
        requires
            old(self).wf(),
            old(self).cycle >= 1,
        ensures
            *final(self) == old(self).spec_fetch_phase(rom),
            old(self).spec_kept(final(self)),
    {
        let phase = (self.cycle - 1) % 8;
        if phase == 0 {
            self.fetch_nametable_byte(rom);
        } else if phase == 2 {
            self.fetch_attribute_byte(rom);
        } else if phase == 4 {
            self.fetch_pattern_low(rom);
        } else if phase == 6 {
            self.fetch_pattern_high(rom);
        } else if phase == 7 {
            self.increment_scroll_x();
        }
    }

    fn background_cycle(&mut self, rom: &ROM)
        requires
            old(self).wf(),
        ensures
            *final(self) == old(self).spec_background_cycle(rom),
            old(self).spec_kept(final(self)),
    {
        if !self.is_rendering_enabled() || !self.on_render_line() {
            return ;
        }
        if self.in_fetch_range() {
            let at_row_end = self.cycle == 256;
            self.update_shifters();
            self.fetch_phase(rom);
            if at_row_end {
                self.increment_scroll_y();
            }
        } else if self.cycle == 257 {
            self.transfer_address_x();
        }
    }

    fn sprite_cycle(&mut self, rom: &ROM)
        requires
            old(self).wf(),
        ensures
            *final(self) == old(self).spec_sprite_cycle(rom),
            old(self).spec_kept(final(self)),
    {
        if !self.is_rendering_enabled() || self.cycle != 257 {
            return ;
        }
        if self.scanline < 240 {
            self.evaluate_sprites(rom);
        } else if self.scanline == PRE_RENDER_LINE {
            self.secondary_oam = [0xFFu8;32];
            self.sprite_count = 0;
            self.sprite_zero_hit_possible = false;
        }
    }

    fn pre_render(&mut self)
        requires
            old(self).wf(),
        ensures
            *final(self) == old(self).spec_pre_render(),
            old(self).spec_kept(final(self)),
    {
        if self.scanline == PRE_RENDER_LINE {
            if self.cycle == 1 {
                self.clear_nmi();
            } else if 280 <= self.cycle && self.cycle <= 304 {
                self.transfer_address_y();
            }
        }
    }

    fn background_pixel(&self, x: u8) -> (r: (u8, u8))
        requires
            self.wf(),
        ensures
            r == self.spec_background_pixel(x),
            r.0 < 4,
            r.1 < 4,
    {
        if (self.mask & 0x08) != 0 && (x >= 8 || (self.mask & 0x02) != 0) {
            let bit = 15 - self.x as u16;
            let p0: u8 = if bit_of(self.bg_shifter_pattern_lo, bit) {
                1
            } else {
                0
            };
            let p1: u8 = if bit_of(self.bg_shifter_pattern_hi, bit) {
                2
            } else {
                0
            };
            let a0: u8 = if bit_of(self.bg_shifter_attrib_lo, bit) {
                1
            } else {
                0
            };
            let a1: u8 = if bit_of(self.bg_shifter_attrib_hi, bit) {
                2
            } else {
                0
            };
            (p0 + p1, a0 + a1)
        } else {
            (0, 0)
        }
    }

    fn visible_sprite_pixel(&self, x: u8) -> (r: (u8, u8, bool, bool))
        requires
            self.wf(),
        ensures
            r == self.spec_visible_sprite_pixel(x),
    {
        if (self.mask & 0x10) != 0 && (x >= 8 || (self.mask & 0x04) != 0) {
            self.get_sprite_pixel(x)
        } else {
            (0, 0, false, false)
        }
    }

    /// Draws the pixel of the current dot.
    pub fn render_pixel(&mut self, rom: &ROM)
        requires
            old(self).wf(),
        ensures
            *final(self) == old(self).spec_render_pixel(rom),
            old(self).spec_kept(final(self)),
    {
        if !(self.scanline < 240 && 1 <= self.cycle && self.cycle <= 256) {
            return ;
        }
        let x = (self.cycle - 1) as u8;
        let background = self.background_pixel(x);
        let sprite = self.visible_sprite_pixel(x);
        let shown: (u8, u8) = if sprite.0 != 0 && (sprite.2 || background.0 == 0) {
            (sprite.0, sprite.1)
        } else {
            background
        };
        let address: u16 = if shown.0 == 0 {
            0x3F00
        } else {
            0x3F00 + (shown.1 % 8) as u16 * 4 + (shown.0 % 4) as u16
        };
        let rgb = convert_color(self.read_ppu_memory(rom, address));
        if sprite.3 && sprite.0 != 0 && background.0 != 0 && x != 255 {
            self.status = self.status | STATUS_SPRITE_ZERO_HIT;
        }
        let at: usize = (self.scanline as usize * 256 + x as usize) * 3;
        self.framebuffer[at] = rgb.0;
        self.framebuffer[at + 1] = rgb.1;
        self.framebuffer[at + 2] = rgb.2;
    }

    /// Draws the 256 pixels of the current scanline from the pipeline as it
    /// stands, leaving the dot counter on dot 256.
    pub fn render_scanline(&mut self, rom: &ROM)
        requires
            old(self).wf(),
        ensures
            *final(self) == old(self).spec_render_dots(rom, 256),
            final(self).wf(),
    {
        let mut pixel: u16 = 0;
        while pixel < 256
            invariant
                pixel <= 256,
                self.wf(),
                *self == old(self).spec_render_dots(rom, pixel as int),
            decreases 256 - pixel,
        {
            self.cycle = pixel + 1;
            self.render_pixel(rom);
            pixel = pixel + 1;
        }
    }

    /// Advances the PPU by one dot.
    pub fn step(&mut self, rom: &ROM) -> (r: StepResult)
        requires
            old(self).wf(),
        ensures
            (r, *final(self)) == old(self).spec_step(rom),
            final(self).wf(),
            r.new_frame ==> final(self).scanline == 0 && final(self).cycle == 0,
            !r.new_frame ==> final(self).spec_dots_left() == old(self).spec_dots_left() - 1,
            final(self).dots@ == old(self).dots@ + 1,
    {
        reveal(PPU::spec_step);
        let new_frame = self.advance();
        self.render_pixel(rom);
        self.pre_render();
        self.background_cycle(rom);
        self.sprite_cycle(rom);
        let vblank_nmi = self.check_nmi();
        StepResult { new_frame, vblank_nmi }
    }
}

} // verus!
