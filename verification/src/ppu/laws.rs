//! What holds of the PPU whatever state it is in: the dot grid, the length of
//! frames, and the behaviour of its memory and registers under sequences of
//! accesses.

use vstd::prelude::*;
use crate::ppu::PPU;
use crate::ppu::STATUS_SPRITE_ZERO_HIT;
use crate::ppu::STATUS_VBLANK;
use crate::ppu::memory::palette_index;
use crate::rom::ROM;

verus! {

/// Dots in a frame of full length: 262 scanlines of 341 dots.
pub const FRAME_DOTS: u32 = 89342;

impl PPU {
    /// What the work of a dot leaves alone: the dot counter itself and the
    /// registers that only the CPU writes.
    pub open spec fn spec_worked(&self, after: &PPU) -> bool {
        &&& self.spec_kept(after)
        &&& after.ctrl == self.ctrl
        &&& after.mask == self.mask
    }

    /// The PPU after `n` dots with no CPU access in between, and whether the
    /// last of them began a new frame.
    pub open spec fn spec_steps(&self, rom: &ROM, n: nat) -> (bool, PPU)
        decreases n,
    {
        if n == 0 {
            (false, *self)
        } else {
            let (result, after) = self.spec_steps(rom, (n - 1) as nat).1.spec_step(rom);
            (result.new_frame, after)
        }
    }

    /// The PPU stands `n` dots into a frame that began odd or even as
    /// `odd`, with `mask` in MASK.
    pub open spec fn spec_at_dot(&self, n: nat, odd: bool, mask: u8) -> bool {
        &&& self.wf()
        &&& self.scanline == n / 341
        &&& self.cycle == n % 341
        &&& self.odd_frame == odd
        &&& self.mask == mask
    }
}

proof fn lemma_select_sprites(p: PPU, n: int)
    requires
        p.wf(),
        0 <= n <= 64,
    ensures
        p.spec_worked(&p.spec_select_sprites(n)),
    decreases n,
{
    if n > 0 {
        lemma_select_sprites(p, n - 1);
    }
}

proof fn lemma_fetch_sprites(p: PPU, rom: &ROM, n: int)
    requires
        p.wf(),
        0 <= n <= 8,
    ensures
        p.spec_worked(&p.spec_fetch_sprites(rom, n)),
        p.spec_fetch_sprites(rom, n).status == p.status,
    decreases n,
{
    if n > 0 {
        lemma_fetch_sprites(p, rom, n - 1);
    }
}

/// The work of a dot moves neither the dot counter nor CTRL or MASK, and
/// leaves the PPU well formed.
#[verifier::rlimit(30)]
pub proof fn lemma_dot_work(p: PPU, rom: &ROM)
    requires
        p.wf(),
    ensures
        p.spec_worked(&p.spec_dot(rom).1),
{
    let drawn = p.spec_render_pixel(rom);
    let cleared = drawn.spec_pre_render();
    let fetched = cleared.spec_background_cycle(rom);
    assert(p.spec_worked(&fetched));
    lemma_select_sprites(fetched, 64);
    lemma_fetch_sprites(
        fetched.spec_select_sprites(64),
        rom,
        fetched.spec_select_sprites(64).sprite_count as int,
    );
}

/// A step is the dot counter's advance followed by work that leaves the
/// counter where it is.
pub proof fn lemma_step(p: PPU, rom: &ROM)
    requires
        p.wf(),
    ensures
        p.spec_step(rom).0.new_frame == p.spec_advance().0,
        p.spec_advance().1.spec_worked(&p.spec_step(rom).1),
        p.spec_advance().1.mask == p.mask,
{
    reveal(PPU::spec_step);
    lemma_dot_work(p.spec_advance().1, rom);
}

/// On every dot the cycle stays within 0 to 340, the scanline within 0 to
/// 261, the loopy registers within their widths, and the dot count grows by
/// one.
pub proof fn law_step_stays_on_grid(p: PPU, rom: &ROM)
    requires
        p.wf(),
    ensures
        p.spec_step(rom).1.wf(),
        p.spec_step(rom).1.cycle <= 340,
        p.spec_step(rom).1.scanline <= 261,
        p.spec_step(rom).1.dots@ == p.dots@ + 1,
{
    lemma_step(p, rom);
}

/// The same of any number of dots.
pub proof fn law_steps_stay_on_grid(p: PPU, rom: &ROM, n: nat)
    requires
        p.wf(),
    ensures
        p.spec_steps(rom, n).1.wf(),
        p.spec_steps(rom, n).1.dots@ == p.dots@ + n,
    decreases n,
{
    if n > 0 {
        law_steps_stay_on_grid(p, rom, (n - 1) as nat);
        law_step_stays_on_grid(p.spec_steps(rom, (n - 1) as nat).1, rom);
    }
}

/// From the start of a frame, while no dot is skipped, `n` dots lead to dot
/// `n` of the frame without beginning a new one.
proof fn lemma_within_frame(p: PPU, rom: &ROM, n: nat)
    requires
        p.spec_at_dot(0, p.odd_frame, p.mask),
        n < FRAME_DOTS,
        p.is_rendering_enabled() && p.odd_frame ==> n < FRAME_DOTS - 1,
    ensures
        p.spec_steps(rom, n).1.spec_at_dot(n, p.odd_frame, p.mask),
        n > 0 ==> !p.spec_steps(rom, n).0,
    decreases n,
{
    if n > 0 {
        let k = (n - 1) as nat;
        lemma_within_frame(p, rom, k);
        let before = p.spec_steps(rom, k).1;
        lemma_step(before, rom);
    }
}

/// A frame that is odd while rendering is on has `262 * 341 - 1` dots: the
/// dot that begins the next frame is that many dots after the one that
/// began this frame, and no dot in between begins a frame.
pub proof fn law_odd_frame_is_one_dot_short(p: PPU, rom: &ROM)
    requires
        p.wf(),
        p.scanline == 0,
        p.cycle == 0,
        p.odd_frame,
        p.is_rendering_enabled(),
    ensures
        p.spec_steps(rom, (FRAME_DOTS - 1) as nat).0,
        p.spec_steps(rom, (FRAME_DOTS - 1) as nat).1.scanline == 0,
        p.spec_steps(rom, (FRAME_DOTS - 1) as nat).1.cycle == 0,
        forall|n: nat| 0 < n < FRAME_DOTS - 1 ==> !(#[trigger] p.spec_steps(rom, n)).0,
{
    let last = (FRAME_DOTS - 2) as nat;
    lemma_within_frame(p, rom, last);
    lemma_step(p.spec_steps(rom, last).1, rom);
    assert forall|n: nat| 0 < n < FRAME_DOTS - 1 implies !(#[trigger] p.spec_steps(rom, n)).0 by {
        lemma_within_frame(p, rom, n);
    }
}

/// On an odd frame with rendering on, the pre-render scanline ends at dot
/// 339: the dot after it is dot 0 of scanline 0.
pub proof fn law_short_pre_render_line(p: PPU, rom: &ROM)
    requires
        p.wf(),
        p.scanline == 261,
        p.cycle == 339,
        p.odd_frame,
        p.is_rendering_enabled(),
    ensures
        p.spec_step(rom).0.new_frame,
        p.spec_step(rom).1.scanline == 0,
        p.spec_step(rom).1.cycle == 0,
        !p.spec_step(rom).1.odd_frame,
{
    lemma_step(p, rom);
}

/// Every other frame has `262 * 341` dots.
pub proof fn law_full_frame_length(p: PPU, rom: &ROM)
    requires
        p.wf(),
        p.scanline == 0,
        p.cycle == 0,
        !(p.odd_frame && p.is_rendering_enabled()),
    ensures
        p.spec_steps(rom, FRAME_DOTS as nat).0,
        p.spec_steps(rom, FRAME_DOTS as nat).1.scanline == 0,
        p.spec_steps(rom, FRAME_DOTS as nat).1.cycle == 0,
        forall|n: nat| 0 < n < FRAME_DOTS ==> !(#[trigger] p.spec_steps(rom, n)).0,
{
    let last = (FRAME_DOTS - 1) as nat;
    lemma_within_frame(p, rom, last);
    lemma_step(p.spec_steps(rom, last).1, rom);
    assert forall|n: nat| 0 < n < FRAME_DOTS implies !(#[trigger] p.spec_steps(rom, n)).0 by {
        lemma_within_frame(p, rom, n);
    }
}

/// Vertical blank begins exactly `241 * 341 + 1` dots into a frame: that
/// dot sets STATUS bit 7 and, with NMI output on, raises the NMI line.
pub proof fn law_vblank_starts_on_time(p: PPU, rom: &ROM)
    requires
        p.wf(),
        p.scanline == 0,
        p.cycle == 0,
    ensures
        ({
            let (result, after) = p.spec_steps(rom, 82181).1.spec_step(rom);
            &&& after.scanline == 241
            &&& after.cycle == 1
            &&& after.nmi_occurred
            &&& after.status == p.spec_steps(rom, 82181).1.status | STATUS_VBLANK
            &&& result.vblank_nmi == p.spec_steps(rom, 82181).1.nmi_output
        }),
{
    lemma_within_frame(p, rom, 82181);
    let before = p.spec_steps(rom, 82181).1;
    lemma_step(before, rom);
    reveal(PPU::spec_step);
}

/// After a read of `$2002`, through any of its mirrors, the write toggle
/// is clear.
pub proof fn law_status_read_clears_toggle(p: PPU, rom: &ROM, address: u16)
    requires
        address % 8 == 2,
    ensures
        !p.spec_read_register(rom, address).1.w,
        p.spec_read_register(rom, address).0 == p.status,
{
}

/// A byte written to a palette address is read back from that address and
/// from every address that names the same palette cell, the aliases
/// `$3F10/$3F14/$3F18/$3F1C` of `$3F00/$3F04/$3F08/$3F0C` among them.
pub proof fn law_palette_round_trip(p: PPU, rom: &ROM, written: u16, read: u16, value: u8)
    requires
        written % 0x4000 >= 0x3F00,
        read % 0x4000 >= 0x3F00,
        palette_index((read % 0x4000) as u16) == palette_index((written % 0x4000) as u16),
    ensures
        ({
            let (ppu, cartridge) = p.spec_write_ppu_memory(rom, written, value);
            ppu.spec_read_ppu_memory(&cartridge, read) == value
        }),
{
}

/// The four aliased palette addresses name the cells of the backdrop
/// entries.
pub proof fn law_palette_aliases()
    ensures
        palette_index(0x3F10) == palette_index(0x3F00),
        palette_index(0x3F14) == palette_index(0x3F04),
        palette_index(0x3F18) == palette_index(0x3F08),
        palette_index(0x3F1C) == palette_index(0x3F0C),
{
}

/// Two writes to `$2006` followed by two reads of `$2007`, below the
/// palette: the first read returns what the buffer held before, the second
/// the byte at the address written, and the buffer is left holding the byte
/// one increment further.
#[verifier::rlimit(30)]
pub proof fn law_address_then_data(p: PPU, rom: &ROM, high: u8, low: u8)
    requires
        p.wf(),
        !p.w,
        (high % 64) * 256 + low + p.address_increment() < 0x3F00,
    ensures
        ({
            let address = ((high % 64) * 256 + low) as u16;
            let addressed = p.spec_write_address(high).spec_write_address(low);
            let (first, once) = addressed.spec_read_data(rom);
            let (second, twice) = once.spec_read_data(rom);
            &&& first == p.read_buffer
            &&& second == p.spec_read_ppu_memory(rom, address)
            &&& twice.read_buffer == p.spec_read_ppu_memory(
                rom,
                (address + p.address_increment()) as u16,
            )
        }),
{
    let address = ((high % 64) * 256 + low) as u16;
    let addressed = p.spec_write_address(high).spec_write_address(low);
    assert(addressed.v == address);
    assert(addressed.read_buffer == p.read_buffer);
    let once = addressed.spec_read_data(rom).1;
    assert(once.v == address + p.address_increment());
    assert(once.read_buffer == addressed.spec_read_ppu_memory(rom, address));
    assert(once.vram == p.vram && once.palette == p.palette);
}

/// Sprite 0 never hits on column 255: drawing that column leaves STATUS as
/// it was.
pub proof fn law_no_sprite_zero_hit_at_column_255(p: PPU, rom: &ROM)
    requires
        p.cycle == 256,
    ensures
        !p.spec_sprite_zero_hits(255),
        p.spec_render_pixel(rom).status == p.status,
{
}

/// Sprite 0 hits only where an opaque pixel of sprite 0 lies over an opaque
/// background pixel, left of column 255, on a visible dot: a dot that sets
/// STATUS bit 6 is such a dot, or the bit was set before.
pub proof fn law_sprite_zero_hit_needs_both_pixels(p: PPU, rom: &ROM)
    requires
        p.spec_render_pixel(rom).status != p.status,
    ensures
        p.scanline < 240,
        1 <= p.cycle <= 255,
        p.spec_background_pixel((p.cycle - 1) as u8).0 != 0,
        p.spec_visible_sprite_pixel((p.cycle - 1) as u8).0 != 0,
        p.spec_visible_sprite_pixel((p.cycle - 1) as u8).3,
        p.spec_render_pixel(rom).status == p.status | STATUS_SPRITE_ZERO_HIT,
{
}

/// Sprite evaluation selects at most eight sprites, and never moves the dot
/// counter.
pub proof fn law_at_most_eight_sprites(p: PPU, rom: &ROM)
    requires
        p.wf(),
    ensures
        p.spec_evaluate_sprites(rom).sprite_count <= 8,
        p.spec_worked(&p.spec_evaluate_sprites(rom)),
{
    lemma_select_sprites(p, 64);
    lemma_fetch_sprites(
        p.spec_select_sprites(64),
        rom,
        p.spec_select_sprites(64).sprite_count as int,
    );
}

} // verus!
