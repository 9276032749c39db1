//! The picture processing unit: registers, memory map, background and sprite
//! pipelines, and the dot clock that drives them.

pub mod colors;
pub mod debug;
pub mod frame_timing;
pub mod laws;
pub mod memory;
pub mod nmi;
pub mod registers;
pub mod rendering;
pub mod scrolling;
pub mod sprite;

use vstd::prelude::*;

verus! {

/// Bytes in the RGB888 frame: 256 x 240 pixels, three bytes each.
pub const FRAMEBUFFER_SIZE: usize = 184320;

/// Last dot of a scanline.
pub const LAST_CYCLE: u16 = 340;

/// The pre-render scanline, last of the frame.
pub const PRE_RENDER_LINE: u16 = 261;

/// First scanline of vertical blank.
pub const VBLANK_LINE: u16 = 241;

/// STATUS bit 7: vertical blank has started.
pub const STATUS_VBLANK: u8 = 0x80;

/// STATUS bit 6: sprite 0 overlapped the background.
pub const STATUS_SPRITE_ZERO_HIT: u8 = 0x40;

/// STATUS bit 5: more than eight sprites on a scanline.
pub const STATUS_SPRITE_OVERFLOW: u8 = 0x20;

pub struct PPU {
    /// `$2000` PPUCTRL.
    pub ctrl: u8,
    /// `$2001` PPUMASK.
    pub mask: u8,
    /// `$2002` PPUSTATUS.
    pub status: u8,
    /// `$2003` OAMADDR.
    pub oam_addr: u8,
    /// Primary object attribute memory: 64 sprites of four bytes.
    pub oam_data: [u8; 256],
    /// Last byte written to `$2005`.
    pub scroll: u8,
    /// The address assembled by the writes to `$2006`.
    pub addr: u16,
    /// Current VRAM address, 15 bits: `yyy NN YYYYY XXXXX`.
    pub v: u16,
    /// Temporary VRAM address, 15 bits.
    pub t: u16,
    /// Fine X scroll, 3 bits.
    pub x: u8,
    /// Write toggle shared by `$2005` and `$2006`.
    pub w: bool,
    /// The `$2007` read buffer.
    pub read_buffer: u8,
    /// Nametable RAM: four tables of 1 KiB, of which the mirroring picks.
    pub vram: [u8; 0x1000],
    /// Palette RAM.
    pub palette: [u8; 32],
    /// The sprites selected for the scanline being drawn.
    pub secondary_oam: [u8; 32],
    /// Dot within the scanline, 0 to 340.
    pub cycle: u16,
    /// Scanline within the frame, 0 to 261.
    pub scanline: u16,
    /// Frames completed, modulo 2^64.
    pub frame: u64,
    /// Dots elapsed since power-on.
    pub dots: Ghost<nat>,
    pub bg_shifter_pattern_lo: u16,
    pub bg_shifter_pattern_hi: u16,
    pub bg_shifter_attrib_lo: u16,
    pub bg_shifter_attrib_hi: u16,
    pub bg_next_tile_id: u8,
    pub bg_next_tile_attrib: u8,
    pub bg_next_tile_lsb: u8,
    pub bg_next_tile_msb: u8,
    /// How many slots of secondary OAM are in use, at most 8.
    pub sprite_count: usize,
    /// Per slot: pattern high byte in bits 15-8, low byte in bits 7-0.
    pub sprite_patterns: [u16; 8],
    pub sprite_positions: [u8; 8],
    pub sprite_priorities: [u8; 8],
    /// Per slot: the sprite's index in primary OAM.
    pub sprite_indexes: [u8; 8],
    /// Sprite 0 is among the selected sprites.
    pub sprite_zero_hit_possible: bool,
    /// RGB888, row-major, top-left origin.
    pub framebuffer: Box<[u8; FRAMEBUFFER_SIZE]>,
    /// Vertical blank has started and `$2002` has not been read since.
    pub nmi_occurred: bool,
    /// CTRL bit 7: the PPU may pull the NMI line.
    pub nmi_output: bool,
    /// An NMI edge raised by a register write, not yet taken by the CPU.
    pub nmi_pending: bool,
    pub odd_frame: bool,
}

/// What one dot reported.
#[derive(Clone, Copy, Debug, PartialEq, Eq, Structural)]
pub struct StepResult {
    /// The dot counter wrapped to dot 0 of scanline 0.
    pub new_frame: bool,
    /// Vertical blank started with NMI output enabled.
    pub vblank_nmi: bool,
}

impl PPU {
    /// The dot counter is on the grid, the loopy registers have their widths
    /// and no more than eight sprites are selected.
    pub open spec fn wf(&self) -> bool {
        &&& self.cycle <= LAST_CYCLE
        &&& self.scanline <= PRE_RENDER_LINE
        &&& self.sprite_count <= 8
        &&& self.v < 0x8000
        &&& self.t < 0x8000
        &&& self.x < 8
    }

    /// Tests `wf`, for callers that Verus does not check.
    pub fn is_wf(&self) -> (r: bool)
        ensures
            r == self.wf(),
    {
        self.cycle <= LAST_CYCLE && self.scanline <= PRE_RENDER_LINE && self.sprite_count <= 8
            && self.v < 0x8000
            && self.t < 0x8000 && self.x < 8
    }

    /// `after` stands on the same dot of the same frame as `self`.
    pub open spec fn spec_same_dot(&self, after: &PPU) -> bool {
        &&& after.cycle == self.cycle
        &&& after.scanline == self.scanline
        &&& after.odd_frame == self.odd_frame
        &&& after.frame == self.frame
        &&& after.dots@ == self.dots@
    }

    /// Dots between this one and the last dot of a full-length frame.
    pub open spec fn spec_dots_left(&self) -> int {
        (PRE_RENDER_LINE - self.scanline) * 341 + (LAST_CYCLE - self.cycle)
    }

    /// `self` and `after` are both well formed and on the same dot.
    pub open spec fn spec_kept(&self, after: &PPU) -> bool {
        after.wf() && self.spec_same_dot(after)
    }

    /// The power-on state: dot 0 of scanline 0 of an even frame, registers
    /// clear but for STATUS bits 7 and 5, OAM filled with `$FF`, all other
    /// memory and the frame zeroed.
    pub open spec fn is_power_on(&self) -> bool {
        &&& self.ctrl == 0
        &&& self.mask == 0
        &&& self.status == 0xA0
        &&& self.oam_addr == 0
        &&& self.scroll == 0
        &&& self.addr == 0
        &&& self.v == 0
        &&& self.t == 0
        &&& self.x == 0
        &&& !self.w
        &&& self.read_buffer == 0
        &&& self.cycle == 0
        &&& self.scanline == 0
        &&& self.frame == 0
        &&& self.dots@ == 0
        &&& self.bg_shifter_pattern_lo == 0
        &&& self.bg_shifter_pattern_hi == 0
        &&& self.bg_shifter_attrib_lo == 0
        &&& self.bg_shifter_attrib_hi == 0
        &&& self.bg_next_tile_id == 0
        &&& self.bg_next_tile_attrib == 0
        &&& self.bg_next_tile_lsb == 0
        &&& self.bg_next_tile_msb == 0
        &&& self.sprite_count == 0
        &&& !self.sprite_zero_hit_possible
        &&& !self.nmi_occurred
        &&& !self.nmi_output
        &&& !self.nmi_pending
        &&& !self.odd_frame
        &&& forall|i: int| 0 <= i < 256 ==> self.oam_data[i] == 0xFF
        &&& forall|i: int| 0 <= i < 0x1000 ==> self.vram[i] == 0
        &&& forall|i: int| 0 <= i < 32 ==> self.palette[i] == 0
        &&& forall|i: int| 0 <= i < 32 ==> self.secondary_oam[i] == 0
        &&& forall|i: int| 0 <= i < 8 ==> self.sprite_patterns[i] == 0
        &&& forall|i: int| 0 <= i < 8 ==> self.sprite_positions[i] == 0
        &&& forall|i: int| 0 <= i < 8 ==> self.sprite_priorities[i] == 0
        &&& forall|i: int| 0 <= i < 8 ==> self.sprite_indexes[i] == 0
        &&& forall|i: int| 0 <= i < FRAMEBUFFER_SIZE ==> self.framebuffer[i] == 0
    }

    pub fn new() -> (r: Self)
        ensures
            r.is_power_on(),
            r.wf(),
    {
        PPU {
            ctrl: 0,
            mask: 0,
            status: 0xA0,
            oam_addr: 0,
            oam_data: [0xFFu8; 256],
            scroll: 0,
            addr: 0,
            v: 0,
            t: 0,
            x: 0,
            w: false,
            read_buffer: 0,
            vram: [0u8; 0x1000],
            palette: [0u8; 32],
            secondary_oam: [0u8; 32],
            cycle: 0,
            scanline: 0,
            frame: 0,
            dots: Ghost(0),
            bg_shifter_pattern_lo: 0,
            bg_shifter_pattern_hi: 0,
            bg_shifter_attrib_lo: 0,
            bg_shifter_attrib_hi: 0,
            bg_next_tile_id: 0,
            bg_next_tile_attrib: 0,
            bg_next_tile_lsb: 0,
            bg_next_tile_msb: 0,
            sprite_count: 0,
            sprite_patterns: [0u16; 8],
            sprite_positions: [0u8; 8],
            sprite_priorities: [0u8; 8],
            sprite_indexes: [0u8; 8],
            sprite_zero_hit_possible: false,
            framebuffer: Box::new([0u8; FRAMEBUFFER_SIZE]),
            nmi_occurred: false,
            nmi_output: false,
            nmi_pending: false,
            odd_frame: false,
        }
    }

    /// The frame as the host reads it between frames.
    pub fn get_framebuffer(&self) -> (r: &[u8; FRAMEBUFFER_SIZE])
        ensures
            *r == *self.framebuffer,
    {
        &self.framebuffer
    }

    /// CTRL, MASK, STATUS, OAMADDR, the last `$2005` byte, the low byte of
    /// the `$2006` address, and `v`.
    pub fn get_all_registers(&self) -> (r: (u8, u8, u8, u8, u8, u8, u16))
        ensures
            r == (
                self.ctrl,
                self.mask,
                self.status,
                self.oam_addr,
                self.scroll,
                (self.addr % 256) as u8,
                self.v,
            ),
    {
        (
            self.ctrl,
            self.mask,
            self.status,
            self.oam_addr,
            self.scroll,
            (self.addr % 256) as u8,
            self.v,
        )
    }

    /// Background or sprites are switched on (MASK bit 3 or 4).
    #[verifier::allow_in_spec]
    pub fn is_rendering_enabled(&self) -> bool
        returns
            (self.mask & 0x18) != 0,
    {
        (self.mask & 0x18) != 0
    }
}

} // verus!
