//! Views of PPU memory for a debugger: the pattern tables and the four
//! nametables as RGB888 pictures.

use vstd::prelude::*;
use crate::ppu::PPU;
use crate::ppu::colors::convert_color;
use crate::ppu::colors::spec_convert_color;
use crate::ppu::sprite::pattern_pixel;
use crate::rom::ROM;

verus! {

/// Side of the pattern-table picture in pixels: 16 tiles of 8.
pub const PATTERN_TABLE_SIDE: usize = 128;

/// Bytes in the pattern-table picture.
pub const PATTERN_TABLE_BYTES: usize = 49152;

/// Width of the nametable picture: two screens of 256.
pub const NAMETABLES_WIDTH: usize = 512;

/// Height of the nametable picture: two screens of 240.
pub const NAMETABLES_HEIGHT: usize = 480;

/// Bytes in the nametable picture.
pub const NAMETABLES_BYTES: usize = 737280;

/// One of the three channels of a colour.
pub open spec fn spec_channel(rgb: (u8, u8, u8), channel: int) -> u8 {
    if channel == 0 {
        rgb.0
    } else if channel == 1 {
        rgb.1
    } else {
        rgb.2
    }
}

impl PPU {
    /// The two-bit pixel in column `column` of row `row` of the tile whose
    /// pattern starts at `tile`.
    pub open spec fn spec_tile_pixel(&self, rom: &ROM, tile: u16, row: u16, column: u16) -> u8 {
        let low = self.spec_read_ppu_memory(rom, (tile + row) as u16);
        let high = self.spec_read_ppu_memory(rom, (tile + row + 8) as u16);
        pattern_pixel((high * 256 + low) as u16, (7 - column) as u16)
    }

    /// The colour of pixel (`x`, `y`) of pattern table `table mod 2` drawn
    /// with palette `palette mod 8`: the table's tiles in 16 rows of 16.
    pub open spec fn spec_pattern_table_pixel(
        &self,
        rom: &ROM,
        table: usize,
        palette: u8,
        x: int,
        y: int,
    ) -> (u8, u8, u8) {
        let tile = ((table % 2) * 0x1000 + ((y / 8) * 16 + x / 8) * 16) as u16;
        let pixel = self.spec_tile_pixel(rom, tile, (y % 8) as u16, (x % 8) as u16);
        spec_convert_color(
            self.spec_read_ppu_memory(rom, (0x3F00 + (palette % 8) * 4 + pixel) as u16),
        )
    }

    /// The colour of pixel (`x`, `y`) of the four nametables laid out two by
    /// two, each tile drawn from the background pattern table with the
    /// palette its attribute byte gives it.
    pub open spec fn spec_nametables_pixel(&self, rom: &ROM, x: int, y: int) -> (u8, u8, u8) {
        let base = 0x2000 + (y / 240) * 0x800 + (x / 256) * 0x400;
        let tile_x = (x % 256) / 8;
        let tile_y = (y % 240) / 8;
        let tile = self.spec_read_ppu_memory(rom, (base + tile_y * 32 + tile_x) as u16);
        let attributes = self.spec_read_ppu_memory(
            rom,
            (base + 0x3C0 + (tile_y / 4) * 8 + tile_x / 4) as u16,
        );
        let shift = (((tile_y % 4) / 2) * 4 + ((tile_x % 4) / 2) * 2) as u16;
        let palette = (attributes >> shift) % 4;
        let pixel = self.spec_tile_pixel(
            rom,
            (self.background_table() + tile * 16) as u16,
            (y % 8) as u16,
            (x % 8) as u16,
        );
        spec_convert_color(self.spec_read_ppu_memory(rom, (0x3F00 + palette * 4 + pixel) as u16))
    }

    fn tile_pixel(&self, rom: &ROM, tile: u16, row: u16, column: u16) -> (r: u8)
        requires
            tile <= 0x1FF0,
            row < 8,
            column < 8,
        ensures
            r == self.spec_tile_pixel(rom, tile, row, column),
            r < 4,
    {
        let low = self.read_ppu_memory(rom, tile + row);
        let high = self.read_ppu_memory(rom, tile + row + 8);
        pattern_pixel(high as u16 * 256 + low as u16, 7 - column)
    }

    fn pattern_table_pixel(&self, rom: &ROM, table: usize, palette: u8, x: usize, y: usize) -> (r: (
        u8,
        u8,
        u8,
    ))
        requires
            x < 128,
            y < 128,
        ensures
            r == self.spec_pattern_table_pixel(rom, table, palette, x as int, y as int),
    {
        let tile = ((table % 2) * 0x1000 + ((y / 8) * 16 + x / 8) * 16) as u16;
        let pixel = self.tile_pixel(rom, tile, (y % 8) as u16, (x % 8) as u16);
        convert_color(self.read_ppu_memory(rom, 0x3F00 + (palette % 8) as u16 * 4 + pixel as u16))
    }

    fn nametables_pixel(&self, rom: &ROM, x: usize, y: usize) -> (r: (u8, u8, u8))
        requires
            x < 512,
            y < 480,
        ensures
            r == self.spec_nametables_pixel(rom, x as int, y as int),
    {
        let base = 0x2000 + (y / 240) * 0x800 + (x / 256) * 0x400;
        let tile_x = (x % 256) / 8;
        let tile_y = (y % 240) / 8;
        let tile = self.read_ppu_memory(rom, (base + tile_y * 32 + tile_x) as u16);
        let attributes = self.read_ppu_memory(
            rom,
            (base + 0x3C0 + (tile_y / 4) * 8 + tile_x / 4) as u16,
        );
        let shift = (((tile_y % 4) / 2) * 4 + ((tile_x % 4) / 2) * 2) as u16;
        let palette = (attributes >> shift) % 4;
        let pixel = self.tile_pixel(
            rom,
            self.background_table() + tile as u16 * 16,
            (y % 8) as u16,
            (x % 8) as u16,
        );
        convert_color(self.read_ppu_memory(rom, 0x3F00 + palette as u16 * 4 + pixel as u16))
    }

    /// Draws one pattern table, 128 by 128 pixels, with one palette.
    pub fn debug_render_pattern_table(&self, rom: &ROM, pattern_table_index: usize, palette: u8) -> (r:
        Vec<u8>)
        ensures
            r@.len() == PATTERN_TABLE_BYTES,
            forall|at: int|
                0 <= at < PATTERN_TABLE_BYTES ==> r@[at] == spec_channel(
                    self.spec_pattern_table_pixel(
                        rom,
                        pattern_table_index,
                        palette,
                        (at / 3) % 128,
                        (at / 3) / 128,
                    ),
                    at % 3,
                ),
    {
        let mut buffer: Vec<u8> = Vec::with_capacity(PATTERN_TABLE_BYTES);
        let mut pixel: usize = 0;
        while pixel < PATTERN_TABLE_SIDE * PATTERN_TABLE_SIDE
            invariant
                pixel <= 128 * 128,
                buffer@.len() == 3 * pixel,
                forall|at: int|
                    0 <= at < 3 * pixel ==> buffer@[at] == spec_channel(
                        self.spec_pattern_table_pixel(
                            rom,
                            pattern_table_index,
                            palette,
                            (at / 3) % 128,
                            (at / 3) / 128,
                        ),
                        at % 3,
                    ),
            decreases 128 * 128 - pixel,
        {
            let rgb = self.pattern_table_pixel(
                rom,
                pattern_table_index,
                palette,
                pixel % PATTERN_TABLE_SIDE,
                pixel / PATTERN_TABLE_SIDE,
            );
            buffer.push(rgb.0);
            buffer.push(rgb.1);
            buffer.push(rgb.2);
            pixel = pixel + 1;
        }
        buffer
    }

    /// Draws the four nametables, 512 by 480 pixels.
    pub fn debug_render_nametables(&self, rom: &ROM) -> (r: Vec<u8>)
        ensures
            r@.len() == NAMETABLES_BYTES,
            forall|at: int|
                0 <= at < NAMETABLES_BYTES ==> r@[at] == spec_channel(
                    self.spec_nametables_pixel(rom, (at / 3) % 512, (at / 3) / 512),
                    at % 3,
                ),
    {
        let mut buffer: Vec<u8> = Vec::with_capacity(NAMETABLES_BYTES);
        let mut pixel: usize = 0;
        while pixel < NAMETABLES_WIDTH * NAMETABLES_HEIGHT
            invariant
                pixel <= 512 * 480,
                buffer@.len() == 3 * pixel,
                forall|at: int|
                    0 <= at < 3 * pixel ==> buffer@[at] == spec_channel(
                        self.spec_nametables_pixel(rom, (at / 3) % 512, (at / 3) / 512),
                        at % 3,
                    ),
            decreases 512 * 480 - pixel,
        {
            let rgb = self.nametables_pixel(rom, pixel % NAMETABLES_WIDTH, pixel / NAMETABLES_WIDTH);
            buffer.push(rgb.0);
            buffer.push(rgb.1);
            buffer.push(rgb.2);
            pixel = pixel + 1;
        }
        buffer
    }
}

} // verus!
