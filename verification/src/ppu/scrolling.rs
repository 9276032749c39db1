//! The scroll counters packed into the loopy registers `v` and `t`:
//! `yyy NN YYYYY XXXXX` is fine Y, nametable select, coarse Y, coarse X.

use vstd::prelude::*;
use crate::ppu::PPU;

verus! {

/// Coarse X: the tile column, bits 4-0.
#[verifier::allow_in_spec]
pub fn coarse_x(v: u16) -> u16
    returns
        v % 32,
{
    v % 32
}

/// Coarse Y: the tile row, bits 9-5.
#[verifier::allow_in_spec]
pub fn coarse_y(v: u16) -> u16
    returns
        (v / 32) % 32,
{
    (v / 32) % 32
}

/// Nametable select, bits 11-10: bit 0 is the horizontal table, bit 1 the
/// vertical one.
#[verifier::allow_in_spec]
pub fn nametable(v: u16) -> u16
    returns
        (v / 0x400) % 4,
{
    (v / 0x400) % 4
}

/// Fine Y: the pixel row within the tile, bits 14-12.
#[verifier::allow_in_spec]
pub fn fine_y(v: u16) -> u16
    returns
        (v / 0x1000) % 8,
{
    (v / 0x1000) % 8
}

/// The 15-bit register holding the four counters.
pub open spec fn spec_loopy(fine_y: u16, nametable: u16, coarse_y: u16, coarse_x: u16) -> u16 {
    (fine_y * 0x1000 + nametable * 0x400 + coarse_y * 32 + coarse_x) as u16
}

pub fn loopy(fine_y: u16, nametable: u16, coarse_y: u16, coarse_x: u16) -> (r: u16)
    requires
        fine_y < 8,
        nametable < 4,
        coarse_y < 32,
        coarse_x < 32,
    ensures
        r == spec_loopy(fine_y, nametable, coarse_y, coarse_x),
        r < 0x8000,
{
    fine_y * 0x1000 + nametable * 0x400 + coarse_y * 32 + coarse_x
}

/// `v` one tile to the right: coarse X counts modulo 32 and flips the
/// horizontal nametable when it wraps from 31 to 0.
pub open spec fn spec_next_coarse_x(v: u16) -> u16 {
    if coarse_x(v) == 31 {
        spec_loopy(
            fine_y(v),
            if nametable(v) % 2 == 0 {
                (nametable(v) + 1) as u16
            } else {
                (nametable(v) - 1) as u16
            },
            coarse_y(v),
            0,
        )
    } else {
        spec_loopy(fine_y(v), nametable(v), coarse_y(v), (coarse_x(v) + 1) as u16)
    }
}

/// `v` one pixel row down: fine Y counts modulo 8 and carries into coarse Y,
/// which wraps from 29 to 0 flipping the vertical nametable, and from 31 to
/// 0 without flipping.
pub open spec fn spec_next_fine_y(v: u16) -> u16 {
    if fine_y(v) < 7 {
        spec_loopy((fine_y(v) + 1) as u16, nametable(v), coarse_y(v), coarse_x(v))
    } else if coarse_y(v) == 29 {
        spec_loopy(
            0,
            if nametable(v) < 2 {
                (nametable(v) + 2) as u16
            } else {
                (nametable(v) - 2) as u16
            },
            0,
            coarse_x(v),
        )
    } else if coarse_y(v) == 31 {
        spec_loopy(0, nametable(v), 0, coarse_x(v))
    } else {
        spec_loopy(0, nametable(v), (coarse_y(v) + 1) as u16, coarse_x(v))
    }
}

/// `v` with the horizontal counters of `t`: coarse X and the horizontal
/// nametable bit.
pub open spec fn spec_with_horizontal(v: u16, t: u16) -> u16 {
    spec_loopy(
        fine_y(v),
        ((nametable(v) / 2) * 2 + nametable(t) % 2) as u16,
        coarse_y(v),
        coarse_x(t),
    )
}

/// `v` with the vertical counters of `t`: fine Y, coarse Y and the vertical
/// nametable bit.
pub open spec fn spec_with_vertical(v: u16, t: u16) -> u16 {
    spec_loopy(
        fine_y(t),
        ((nametable(t) / 2) * 2 + nametable(v) % 2) as u16,
        coarse_y(t),
        coarse_x(v),
    )
}

impl PPU {
    /// With rendering off the counters stand still.
    pub open spec fn spec_increment_scroll_x(&self) -> PPU {
        if self.is_rendering_enabled() {
            PPU { v: spec_next_coarse_x(self.v), ..*self }
        } else {
            *self
        }
    }

    pub open spec fn spec_increment_scroll_y(&self) -> PPU {
        if self.is_rendering_enabled() {
            PPU { v: spec_next_fine_y(self.v), ..*self }
        } else {
            *self
        }
    }

    pub open spec fn spec_transfer_address_x(&self) -> PPU {
        if self.is_rendering_enabled() {
            PPU { v: spec_with_horizontal(self.v, self.t), ..*self }
        } else {
            *self
        }
    }

    pub open spec fn spec_transfer_address_y(&self) -> PPU {
        if self.is_rendering_enabled() {
            PPU { v: spec_with_vertical(self.v, self.t), ..*self }
        } else {
            *self
        }
    }

    pub fn increment_scroll_x(&mut self)
        requires
            old(self).wf(),
        ensures
            *final(self) == old(self).spec_increment_scroll_x(),
            old(self).spec_kept(final(self)),
    {
        if self.is_rendering_enabled() {
            let v = self.v;
            if coarse_x(v) == 31 {
                let table = if nametable(v) % 2 == 0 {
                    nametable(v) + 1
                } else {
                    nametable(v) - 1
                };
                self.v = loopy(fine_y(v), table, coarse_y(v), 0);
            } else {
                self.v = loopy(fine_y(v), nametable(v), coarse_y(v), coarse_x(v) + 1);
            }
        }
    }

    pub fn increment_scroll_y(&mut self)
        requires
            old(self).wf(),
        ensures
            *final(self) == old(self).spec_increment_scroll_y(),
            old(self).spec_kept(final(self)),
    {
        if self.is_rendering_enabled() {
            let v = self.v;
            if fine_y(v) < 7 {
                self.v = loopy(fine_y(v) + 1, nametable(v), coarse_y(v), coarse_x(v));
            } else if coarse_y(v) == 29 {
                let table = if nametable(v) < 2 {
                    nametable(v) + 2
                } else {
                    nametable(v) - 2
                };
                self.v = loopy(0, table, 0, coarse_x(v));
            } else if coarse_y(v) == 31 {
                self.v = loopy(0, nametable(v), 0, coarse_x(v));
            } else {
                self.v = loopy(0, nametable(v), coarse_y(v) + 1, coarse_x(v));
            }
        }
    }

    pub fn transfer_address_x(&mut self)
        requires
            old(self).wf(),
        ensures
            *final(self) == old(self).spec_transfer_address_x(),
            old(self).spec_kept(final(self)),
    {
        if self.is_rendering_enabled() {
            let v = self.v;
            let t = self.t;
            self.v = loopy(
                fine_y(v),
                (nametable(v) / 2) * 2 + nametable(t) % 2,
                coarse_y(v),
                coarse_x(t),
            );
        }
    }

    pub fn transfer_address_y(&mut self)
        requires
            old(self).wf(),
        ensures
            *final(self) == old(self).spec_transfer_address_y(),
            old(self).spec_kept(final(self)),
    {
        if self.is_rendering_enabled() {
            let v = self.v;
            let t = self.t;
            self.v = loopy(
                fine_y(t),
                (nametable(t) / 2) * 2 + nametable(v) % 2,
                coarse_y(t),
                coarse_x(v),
            );
        }
    }
}

} // verus!
