//! The vertical-blank flag and the NMI it raises.

use vstd::prelude::*;
use crate::ppu::PPU;
use crate::ppu::PRE_RENDER_LINE;
use crate::ppu::STATUS_VBLANK;
use crate::ppu::VBLANK_LINE;

verus! {

impl PPU {
    /// On dot 1 of scanline 241 vertical blank begins: STATUS bit 7 and the
    /// NMI flag are set, and the NMI line rises if CTRL bit 7 allows it.
    pub open spec fn spec_check_nmi(&self) -> (bool, PPU) {
        if self.scanline == VBLANK_LINE && self.cycle == 1 {
            (
                self.nmi_output,
                PPU { status: self.status | STATUS_VBLANK, nmi_occurred: true, ..*self },
            )
        } else {
            (false, *self)
        }
    }

    /// On dot 1 of the pre-render scanline STATUS bits 7, 6 and 5 and the
    /// NMI flag are cleared.
    pub open spec fn spec_clear_nmi(&self) -> PPU {
        if self.scanline == PRE_RENDER_LINE && self.cycle == 1 {
            PPU { status: self.status & 0x1f, nmi_occurred: false, ..*self }
        } else {
            *self
        }
    }

    pub fn check_nmi(&mut self) -> (r: bool)
        ensures
            (r, *final(self)) == old(self).spec_check_nmi(),
            old(self).wf() ==> old(self).spec_kept(final(self)),
    {
        if self.scanline == VBLANK_LINE && self.cycle == 1 {
            self.status = self.status | STATUS_VBLANK;
            self.nmi_occurred = true;
            return self.nmi_output;
        }
        false
    }

    pub fn clear_nmi(&mut self)
        ensures
            *final(self) == old(self).spec_clear_nmi(),
            old(self).wf() ==> old(self).spec_kept(final(self)),
    {
        if self.scanline == PRE_RENDER_LINE && self.cycle == 1 {
            self.status = self.status & 0x1f;
            self.nmi_occurred = false;
        }
    }
}

} // verus!
