//! The dot counter: 262 scanlines of 341 dots, one dot shorter on odd frames
//! while rendering.

use vstd::prelude::*;
use crate::ppu::PPU;
use crate::ppu::LAST_CYCLE;
use crate::ppu::PRE_RENDER_LINE;

verus! {

impl PPU {
    /// The pre-render scanline of an odd frame ends at dot 339 while
    /// rendering is on: this is that dot.
    pub open spec fn spec_at_short_frame_end(&self) -> bool {
        self.is_rendering_enabled() && self.odd_frame && self.scanline == PRE_RENDER_LINE
            && self.cycle == LAST_CYCLE - 1
    }

    /// This is the last dot of the frame.
    pub open spec fn spec_at_frame_end(&self) -> bool {
        self.spec_at_short_frame_end() || (self.scanline == PRE_RENDER_LINE && self.cycle
            == LAST_CYCLE)
    }

    /// The PPU on dot 0 of scanline 0 of the next frame, one dot later.
    pub open spec fn spec_next_frame(&self) -> PPU {
        PPU {
            cycle: 0,
            scanline: 0,
            odd_frame: !self.odd_frame,
            frame: self.frame.wrapping_add(1),
            dots: Ghost(self.dots@ + 1),
            ..*self
        }
    }

    /// If this is the shortened end of an odd frame, the next frame begins.
    pub open spec fn spec_handle_frame_timing(&self) -> (bool, PPU) {
        if self.spec_at_short_frame_end() {
            (true, self.spec_next_frame())
        } else {
            (false, *self)
        }
    }

    /// The dot counter moved on by one dot; the first component tells
    /// whether a new frame began.
    pub open spec fn spec_advance(&self) -> (bool, PPU) {
        if self.spec_at_frame_end() {
            (true, self.spec_next_frame())
        } else if self.cycle >= LAST_CYCLE {
            (
                false,
                PPU {
                    cycle: 0,
                    scanline: (self.scanline + 1) as u16,
                    dots: Ghost(self.dots@ + 1),
                    ..*self
                },
            )
        } else {
            (false, PPU { cycle: (self.cycle + 1) as u16, dots: Ghost(self.dots@ + 1), ..*self })
        }
    }

    pub fn handle_frame_timing(&mut self) -> (r: bool)
        ensures
            (r, *final(self)) == old(self).spec_handle_frame_timing(),
    {
        if self.is_rendering_enabled() && self.odd_frame && self.scanline == PRE_RENDER_LINE
            && self.cycle == LAST_CYCLE - 1 {
            self.cycle = 0;
            self.scanline = 0;
            self.odd_frame = !self.odd_frame;
            self.frame = self.frame.wrapping_add(1);
            self.dots = Ghost(self.dots@ + 1);
            return true;
        }
        false
    }

    pub fn advance(&mut self) -> (r: bool)
        requires
            old(self).wf(),
        ensures
            (r, *final(self)) == old(self).spec_advance(),
            final(self).wf(),
            r ==> final(self).scanline == 0 && final(self).cycle == 0,
            !r ==> final(self).spec_dots_left() == old(self).spec_dots_left() - 1,
            final(self).dots@ == old(self).dots@ + 1,
    {
        if self.handle_frame_timing() {
            return true;
        }
        self.dots = Ghost(self.dots@ + 1);
        if self.cycle >= LAST_CYCLE {
            self.cycle = 0;
            if self.scanline >= PRE_RENDER_LINE {
                self.scanline = 0;
                self.odd_frame = !self.odd_frame;
                self.frame = self.frame.wrapping_add(1);
                return true;
            }
            self.scanline = self.scanline + 1;
        } else {
            self.cycle = self.cycle + 1;
        }
        false
    }
}

} // verus!
