//! Sprite evaluation for one scanline and the sprite pixel under a dot.

use vstd::prelude::*;
use crate::ppu::PPU;
use crate::ppu::STATUS_SPRITE_OVERFLOW;
use crate::rom::ROM;

verus! {

/// Bit `bit` of the low pattern plane plus twice bit `bit` of the high plane,
/// for a pattern word holding the high plane in bits 15-8.
#[verifier::allow_in_spec]
pub fn pattern_pixel(pattern: u16, bit: u16) -> u8
    requires
        bit < 8,
    returns
        (((pattern >> bit) % 2) + 2 * ((pattern >> ((bit + 8) as u16)) % 2)) as u8,
{
    (((pattern >> bit) % 2) + 2 * ((pattern >> (bit + 8)) % 2)) as u8
}

impl PPU {
    /// Sprites are 16 pixels tall with CTRL bit 5, else 8.
    #[verifier::allow_in_spec]
    pub fn sprite_height(&self) -> u16
        returns
            (if (self.ctrl & 0x20) != 0 {
                16u16
            } else {
                8u16
            }),
    {
        if (self.ctrl & 0x20) != 0 {
            16
        } else {
            8
        }
    }

    /// Sprite `index` of primary OAM covers the current scanline:
    /// `scanline - y` lies in `[0, height)`.
    pub open spec fn spec_sprite_in_range(&self, index: int) -> bool {
        let y = self.oam_data[index * 4];
        y <= self.scanline && self.scanline - y < self.sprite_height()
    }

    /// No sprite selected: secondary OAM filled with `$FF`.
    pub open spec fn spec_clear_sprites(&self) -> PPU {
        PPU {
            secondary_oam: vstd::array::spec_array_fill_for_copy_type::<u8, 32>(0xFF),
            sprite_count: 0,
            sprite_zero_hit_possible: false,
            ..*self
        }
    }

    /// Sprite `index` examined: if it covers the scanline it takes the next
    /// free slot of secondary OAM, or sets the overflow flag when all eight
    /// are taken.
    pub open spec fn spec_select_sprite(&self, index: int) -> PPU {
        if !self.spec_sprite_in_range(index) {
            *self
        } else if self.sprite_count < 8 {
            let slot = self.sprite_count as int;
            PPU {
                secondary_oam: vstd::array::spec_array_update(
                    vstd::array::spec_array_update(
                        vstd::array::spec_array_update(
                            vstd::array::spec_array_update(
                                self.secondary_oam,
                                slot * 4,
                                self.oam_data[index * 4],
                            ),
                            slot * 4 + 1,
                            self.oam_data[index * 4 + 1],
                        ),
                        slot * 4 + 2,
                        self.oam_data[index * 4 + 2],
                    ),
                    slot * 4 + 3,
                    self.oam_data[index * 4 + 3],
                ),
                sprite_indexes: vstd::array::spec_array_update(
                    self.sprite_indexes,
                    slot,
                    index as u8,
                ),
                sprite_zero_hit_possible: self.sprite_zero_hit_possible || index == 0,
                sprite_count: (self.sprite_count + 1) as usize,
                ..*self
            }
        } else {
            PPU { status: self.status | STATUS_SPRITE_OVERFLOW, ..*self }
        }
    }

    /// The first `n` sprites of primary OAM examined in order, starting from
    /// an empty selection.
    pub open spec fn spec_select_sprites(&self, n: int) -> PPU
        decreases n,
    {
        if n <= 0 {
            self.spec_clear_sprites()
        } else {
            self.spec_select_sprites(n - 1).spec_select_sprite(n - 1)
        }
    }

    /// Address of the low pattern byte for the selected sprite in `slot`:
    /// the row is `scanline - y` (0 for a slot whose sprite lies below the
    /// scanline), counted from the bottom with attribute bit 7. An 8x8 sprite takes its table from CTRL bit 3; an 8x16 sprite
    /// takes it from bit 0 of the tile number, and its lower half from the
    /// next tile.
    pub open spec fn spec_sprite_pattern_address(&self, slot: int) -> u16 {
        let y = self.secondary_oam[slot * 4];
        let tile = self.secondary_oam[slot * 4 + 1];
        let attributes = self.secondary_oam[slot * 4 + 2];
        let height = self.sprite_height();
        let down = if y <= self.scanline {
            (self.scanline - y) % (height as int)
        } else {
            0
        };
        let row = if attributes >= 0x80 {
            height - 1 - down
        } else {
            down
        };
        if height == 8 {
            (if (self.ctrl & 0x08) != 0 {
                0x1000int
            } else {
                0int
            } + tile * 16 + row) as u16
        } else {
            ((tile % 2) * 0x1000 + (tile - tile % 2 + row / 8) * 16 + row % 8) as u16
        }
    }

    /// The selected sprite in `slot` with its pattern row, its X and its
    /// priority bit latched for the scanline.
    pub open spec fn spec_fetch_sprite(&self, rom: &ROM, slot: int) -> PPU {
        let address = self.spec_sprite_pattern_address(slot);
        let low = self.spec_read_ppu_memory(rom, address);
        let high = self.spec_read_ppu_memory(rom, (address + 8) as u16);
        PPU {
            sprite_patterns: vstd::array::spec_array_update(
                self.sprite_patterns,
                slot,
                (high * 256 + low) as u16,
            ),
            sprite_positions: vstd::array::spec_array_update(
                self.sprite_positions,
                slot,
                self.secondary_oam[slot * 4 + 3],
            ),
            sprite_priorities: vstd::array::spec_array_update(
                self.sprite_priorities,
                slot,
                (self.secondary_oam[slot * 4 + 2] / 32) % 2,
            ),
            ..*self
        }
    }

    /// The first `n` slots fetched in order.
    pub open spec fn spec_fetch_sprites(&self, rom: &ROM, n: int) -> PPU
        decreases n,
    {
        if n <= 0 {
            *self
        } else {
            self.spec_fetch_sprites(rom, n - 1).spec_fetch_sprite(rom, n - 1)
        }
    }

    /// Sprite evaluation: all 64 sprites examined, then every selected one
    /// fetched.
    pub open spec fn spec_evaluate_sprites(&self, rom: &ROM) -> PPU {
        let selected = self.spec_select_sprites(64);
        selected.spec_fetch_sprites(rom, selected.sprite_count as int)
    }

    /// The pixel that the sprite in `slot` puts on column `x`: 0 when the
    /// sprite does not cover the column. Attribute bit 6 mirrors the row.
    pub open spec fn spec_slot_pixel(&self, slot: int, x: u8) -> u8 {
        let left = self.sprite_positions[slot];
        if left <= x && x - left < 8 {
            let offset = (x - left) as u16;
            if (self.secondary_oam[slot * 4 + 2] / 64) % 2 == 1 {
                pattern_pixel(self.sprite_patterns[slot], offset)
            } else {
                pattern_pixel(self.sprite_patterns[slot], (7 - offset) as u16)
            }
        } else {
            0
        }
    }

    /// The first opaque sprite pixel on column `x` among the slots from
    /// `slot` on: its colour, its palette (4 to 7), whether it goes in front
    /// of the background, and whether it belongs to sprite 0. All zero and
    /// false when there is none.
    pub open spec fn spec_sprite_pixel_from(&self, x: u8, slot: int) -> (u8, u8, bool, bool)
        decreases self.sprite_count - slot,
    {
        if slot < 0 || slot >= self.sprite_count {
            (0, 0, false, false)
        } else if self.spec_slot_pixel(slot, x) != 0 {
            (
                self.spec_slot_pixel(slot, x),
                (4 + self.secondary_oam[slot * 4 + 2] % 4) as u8,
                self.sprite_priorities[slot] == 0,
                self.sprite_indexes[slot] == 0,
            )
        } else {
            self.spec_sprite_pixel_from(x, slot + 1)
        }
    }

    pub open spec fn spec_get_sprite_pixel(&self, x: u8) -> (u8, u8, bool, bool) {
        self.spec_sprite_pixel_from(x, 0)
    }

    fn select_sprite(&mut self, index: usize)
        requires
            old(self).wf(),
            index < 64,
        ensures
            *final(self) == old(self).spec_select_sprite(index as int),
            old(self).spec_kept(final(self)),
    {
        let y = self.oam_data[index * 4];
        let top = y as u16;
        if top <= self.scanline && self.scanline - top < self.sprite_height() {
            if self.sprite_count < 8 {
                let slot = self.sprite_count;
                self.secondary_oam[slot * 4] = y;
                self.secondary_oam[slot * 4 + 1] = self.oam_data[index * 4 + 1];
                self.secondary_oam[slot * 4 + 2] = self.oam_data[index * 4 + 2];
                self.secondary_oam[slot * 4 + 3] = self.oam_data[index * 4 + 3];
                self.sprite_indexes[slot] = index as u8;
                if index == 0 {
                    self.sprite_zero_hit_possible = true;
                }
                self.sprite_count = slot + 1;
            } else {
                self.status = self.status | STATUS_SPRITE_OVERFLOW;
            }
        }
    }

    fn sprite_pattern_address(&self, slot: usize) -> (r: u16)
        requires
            slot < 8,
        ensures
            r == self.spec_sprite_pattern_address(slot as int),
            r < 0x2000,
    {
        let y = self.secondary_oam[slot * 4];
        let tile = self.secondary_oam[slot * 4 + 1] as u16;
        let attributes = self.secondary_oam[slot * 4 + 2];
        let height = self.sprite_height();
        let top = y as u16;
        let down: u16 = if top <= self.scanline {
            (self.scanline - top) % height
        } else {
            0
        };
        let row = if attributes >= 0x80 {
            height - 1 - down
        } else {
            down
        };
        if height == 8 {
            let table: u16 = if (self.ctrl & 0x08) != 0 {
                0x1000
            } else {
                0
            };
            table + tile * 16 + row
        } else {
            (tile % 2) * 0x1000 + (tile - tile % 2 + row / 8) * 16 + row % 8
        }
    }

    fn fetch_sprite(&mut self, rom: &ROM, slot: usize)
        requires
            old(self).wf(),
            slot < 8,
        ensures
            *final(self) == old(self).spec_fetch_sprite(rom, slot as int),
            old(self).spec_kept(final(self)),
    {
        let address = self.sprite_pattern_address(slot);
        let low = self.read_ppu_memory(rom, address);
        let high = self.read_ppu_memory(rom, address + 8);
        self.sprite_patterns[slot] = high as u16 * 256 + low as u16;
        self.sprite_positions[slot] = self.secondary_oam[slot * 4 + 3];
        self.sprite_priorities[slot] = (self.secondary_oam[slot * 4 + 2] / 32) % 2;
    }

    /// Selects the sprites that cover the current scanline and latches what
    /// drawing them needs.
    pub fn evaluate_sprites(&mut self, rom: &ROM)
        requires
            old(self).wf(),
        ensures
            *final(self) == old(self).spec_evaluate_sprites(rom),
            old(self).spec_kept(final(self)),
    {
        self.secondary_oam = [0xFFu8;32];
        self.sprite_count = 0;
        self.sprite_zero_hit_possible = false;
        let mut index: usize = 0;
        while index < 64
            invariant
                index <= 64,
                old(self).spec_kept(self),
                *self == old(self).spec_select_sprites(index as int),
            decreases 64 - index,
        {
            self.select_sprite(index);
            index = index + 1;
        }
        let ghost selected = *self;
        let count = self.sprite_count;
        let mut slot: usize = 0;
        while slot < count
            invariant
                slot <= count <= 8,
                old(self).spec_kept(self),
                count == selected.sprite_count,
                *self == selected.spec_fetch_sprites(rom, slot as int),
            decreases count - slot,
        {
            self.fetch_sprite(rom, slot);
            slot = slot + 1;
        }
    }

    fn slot_pixel(&self, slot: usize, x: u8) -> (r: u8)
        requires
            slot < 8,
        ensures
            r == self.spec_slot_pixel(slot as int, x),
    {
        let left = self.sprite_positions[slot];
        if left <= x && x - left < 8 {
            let offset = (x - left) as u16;
            if (self.secondary_oam[slot * 4 + 2] / 64) % 2 == 1 {
                pattern_pixel(self.sprite_patterns[slot], offset)
            } else {
                pattern_pixel(self.sprite_patterns[slot], 7 - offset)
            }
        } else {
            0
        }
    }

    /// The first opaque sprite pixel on column `x`.
    pub fn get_sprite_pixel(&self, x: u8) -> (r: (u8, u8, bool, bool))
        requires
            self.wf(),
        ensures
            r == self.spec_get_sprite_pixel(x),
    {
        let mut slot: usize = 0;
        while slot < self.sprite_count
            invariant
                self.wf(),
                slot <= self.sprite_count,
                self.spec_sprite_pixel_from(x, 0) == self.spec_sprite_pixel_from(x, slot as int),
            decreases self.sprite_count - slot,
        {
            let pixel = self.slot_pixel(slot, x);
            if pixel != 0 {
                return (
                    pixel,
                    4 + self.secondary_oam[slot * 4 + 2] % 4,
                    self.sprite_priorities[slot] == 0,
                    self.sprite_indexes[slot] == 0,
                );
            }
            slot = slot + 1;
        }
        (0, 0, false, false)
    }
}

} // verus!
