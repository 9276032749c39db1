//! The eight CPU-visible registers, `$2000-$2007`, mirrored every 8 bytes.

use vstd::prelude::*;
use crate::ppu::PPU;
use crate::ppu::scrolling::coarse_x;
use crate::ppu::scrolling::coarse_y;
use crate::ppu::scrolling::fine_y;
use crate::ppu::scrolling::loopy;
use crate::ppu::scrolling::nametable;
use crate::ppu::scrolling::spec_loopy;
use crate::rom::ROM;

verus! {

impl PPU {
    /// How far `v` moves after a `$2007` access: 32 with CTRL bit 2, else 1.
    #[verifier::allow_in_spec]
    pub fn address_increment(&self) -> u16
        returns
            (if (self.ctrl & 0x04) != 0 {
                32u16
            } else {
                1u16
            }),
    {
        if (self.ctrl & 0x04) != 0 {
            32
        } else {
            1
        }
    }

    /// `v` after a `$2007` access, wrapped to 15 bits.
    pub open spec fn spec_advanced_v(&self) -> u16 {
        ((self.v + self.address_increment()) % 0x8000) as u16
    }

    /// `$2000`: CTRL is stored and its low two bits become the nametable
    /// select of `t`. Turning NMI output on while vertical blank is flagged
    /// raises an NMI edge.
    pub open spec fn spec_write_control(&self, value: u8) -> PPU {
        let nmi_output = (value & 0x80) != 0;
        PPU {
            ctrl: value,
            t: spec_loopy(fine_y(self.t), (value % 4) as u16, coarse_y(self.t), coarse_x(self.t)),
            nmi_output,
            nmi_pending: self.nmi_pending || (nmi_output && !self.nmi_output && self.nmi_occurred),
            ..*self
        }
    }

    /// `$2001`.
    pub open spec fn spec_write_mask(&self, value: u8) -> PPU {
        PPU { mask: value, ..*self }
    }

    /// `$2005`: the first write gives coarse X to `t` and fine X to `x`, the
    /// second gives fine Y and coarse Y to `t`; each flips `w`.
    pub open spec fn spec_write_scroll(&self, value: u8) -> PPU {
        if !self.w {
            PPU {
                scroll: value,
                t: spec_loopy(
                    fine_y(self.t),
                    nametable(self.t),
                    coarse_y(self.t),
                    (value / 8) as u16,
                ),
                x: value % 8,
                w: true,
                ..*self
            }
        } else {
            PPU {
                scroll: value,
                t: spec_loopy(
                    (value % 8) as u16,
                    nametable(self.t),
                    (value / 8) as u16,
                    coarse_x(self.t),
                ),
                w: false,
                ..*self
            }
        }
    }

    /// `$2006`: the first write gives the high six bits of `t` and clears
    /// the bits above them, the second gives the low eight bits and copies
    /// `t` to `v`; each flips `w`.
    pub open spec fn spec_write_address(&self, value: u8) -> PPU {
        if !self.w {
            let t = ((value % 64) * 256 + self.t % 256) as u16;
            PPU { t, addr: t, w: true, ..*self }
        } else {
            let t = ((self.t / 256) * 256 + value) as u16;
            PPU { t, addr: t, v: t, w: false, ..*self }
        }
    }

    /// `$2007` write: the byte goes to PPU memory at `v`, then `v` advances.
    pub open spec fn spec_write_data(&self, rom: &ROM, value: u8) -> (PPU, ROM) {
        let (ppu, rom) = self.spec_write_ppu_memory(rom, self.v, value);
        (PPU { v: self.spec_advanced_v(), ..ppu }, rom)
    }

    /// `$2007` read: below the palette the read returns the buffer and
    /// refills it from `v`; in the palette it returns the palette byte at
    /// once and refills the buffer from `v - $1000`. Then `v` advances.
    pub open spec fn spec_read_data(&self, rom: &ROM) -> (u8, PPU) {
        let a = self.v % 0x4000;
        if a >= 0x3F00 {
            (
                self.spec_read_ppu_memory(rom, a),
                PPU {
                    read_buffer: self.spec_read_ppu_memory(rom, (a - 0x1000) as u16),
                    v: self.spec_advanced_v(),
                    ..*self
                },
            )
        } else {
            (
                self.read_buffer,
                PPU {
                    read_buffer: self.spec_read_ppu_memory(rom, a),
                    v: self.spec_advanced_v(),
                    ..*self
                },
            )
        }
    }

    /// `$2002` read: returns STATUS, then clears the vertical-blank flag and
    /// the write toggle.
    pub open spec fn spec_read_status(&self) -> (u8, PPU) {
        (self.status, PPU { status: self.status & 0x7f, nmi_occurred: false, w: false, ..*self })
    }

    /// `$2004` write: the byte goes to OAM at OAMADDR, which then advances.
    pub open spec fn spec_write_oam_data(&self, value: u8) -> PPU {
        PPU {
            oam_data: vstd::array::spec_array_update(self.oam_data, self.oam_addr as int, value),
            oam_addr: self.oam_addr.wrapping_add(1),
            ..*self
        }
    }

    /// A CPU read of register `address mod 8`. Only STATUS, OAMDATA and
    /// PPUDATA can be read; the write-only registers read 0 and change
    /// nothing.
    pub open spec fn spec_read_register(&self, rom: &ROM, address: u16) -> (u8, PPU) {
        let register = address % 8;
        if register == 2 {
            self.spec_read_status()
        } else if register == 4 {
            (self.oam_data[self.oam_addr as int], *self)
        } else if register == 7 {
            self.spec_read_data(rom)
        } else {
            (0, *self)
        }
    }

    /// A CPU write to register `address mod 8`. A write to STATUS is
    /// discarded.
    pub open spec fn spec_write_register(&self, rom: &ROM, address: u16, value: u8) -> (PPU, ROM) {
        let register = address % 8;
        if register == 0 {
            (self.spec_write_control(value), *rom)
        } else if register == 1 {
            (self.spec_write_mask(value), *rom)
        } else if register == 2 {
            (*self, *rom)
        } else if register == 3 {
            (PPU { oam_addr: value, ..*self }, *rom)
        } else if register == 4 {
            (self.spec_write_oam_data(value), *rom)
        } else if register == 5 {
            (self.spec_write_scroll(value), *rom)
        } else if register == 6 {
            (self.spec_write_address(value), *rom)
        } else {
            self.spec_write_data(rom, value)
        }
    }

    pub fn write_control(&mut self, value: u8)
        requires
            old(self).wf(),
        ensures
            *final(self) == old(self).spec_write_control(value),
            old(self).spec_kept(final(self)),
    {
        let nmi_output = (value & 0x80) != 0;
        if nmi_output && !self.nmi_output && self.nmi_occurred {
            self.nmi_pending = true;
        }
        self.ctrl = value;
        self.t = loopy(fine_y(self.t), (value % 4) as u16, coarse_y(self.t), coarse_x(self.t));
        self.nmi_output = nmi_output;
    }

    pub fn write_mask(&mut self, value: u8)
        ensures
            *final(self) == old(self).spec_write_mask(value),
    {
        self.mask = value;
    }

    pub fn write_scroll(&mut self, value: u8)
        requires
            old(self).wf(),
        ensures
            *final(self) == old(self).spec_write_scroll(value),
            old(self).spec_kept(final(self)),
    {
        self.scroll = value;
        if !self.w {
            self.t = loopy(fine_y(self.t), nametable(self.t), coarse_y(self.t), (value / 8) as u16);
            self.x = value % 8;
            self.w = true;
        } else {
            self.t = loopy((value % 8) as u16, nametable(self.t), (value / 8) as u16, coarse_x(self.t));
            self.w = false;
        }
    }

    pub fn write_address(&mut self, value: u8)
        requires
            old(self).wf(),
        ensures
            *final(self) == old(self).spec_write_address(value),
            old(self).spec_kept(final(self)),
    {
        if !self.w {
            self.t = (value % 64) as u16 * 256 + self.t % 256;
            self.addr = self.t;
            self.w = true;
        } else {
            self.t = (self.t / 256) * 256 + value as u16;
            self.addr = self.t;
            self.v = self.t;
            self.w = false;
        }
    }

    fn advance_v(&mut self)
        requires
            old(self).wf(),
        ensures
            *final(self) == (PPU { v: old(self).spec_advanced_v(), ..*old(self) }),
            old(self).spec_kept(final(self)),
    {
        self.v = (self.v + self.address_increment()) % 0x8000;
    }

    pub fn write_data(&mut self, rom: &mut ROM, value: u8)
        requires
            old(self).wf(),
        ensures
            (*final(self), *final(rom)) == old(self).spec_write_data(old(rom), value),
            old(self).spec_kept(final(self)),
    {
        self.write_ppu_memory(rom, self.v, value);
        self.advance_v();
    }

    pub fn read_data(&mut self, rom: &ROM) -> (r: u8)
        requires
            old(self).wf(),
        ensures
            (r, *final(self)) == old(self).spec_read_data(rom),
            old(self).spec_kept(final(self)),
    {
        let a = self.v % 0x4000;
        let data = if a >= 0x3F00 {
            let immediate = self.read_ppu_memory(rom, a);
            self.read_buffer = self.read_ppu_memory(rom, a - 0x1000);
            immediate
        } else {
            let buffered = self.read_buffer;
            self.read_buffer = self.read_ppu_memory(rom, a);
            buffered
        };
        self.advance_v();
        data
    }

    pub fn read_register(&mut self, rom: &ROM, address: u16) -> (r: u8)
        requires
            old(self).wf(),
        ensures
            (r, *final(self)) == old(self).spec_read_register(rom, address),
            old(self).spec_kept(final(self)),
    {
        let register = address % 8;
        if register == 2 {
            let result = self.status;
            self.status = self.status & 0x7f;
            self.nmi_occurred = false;
            self.w = false;
            result
        } else if register == 4 {
            self.oam_data[self.oam_addr as usize]
        } else if register == 7 {
            self.read_data(rom)
        } else {
            0
        }
    }

    pub fn write_register(&mut self, rom: &mut ROM, address: u16, value: u8)
        requires
            old(self).wf(),
        ensures
            (*final(self), *final(rom)) == old(self).spec_write_register(old(rom), address, value),
            old(self).spec_kept(final(self)),
    {
        let register = address % 8;
        if register == 0 {
            self.write_control(value);
        } else if register == 1 {
            self.write_mask(value);
        } else if register == 2 {
        } else if register == 3 {
            self.oam_addr = value;
        } else if register == 4 {
            self.oam_data[self.oam_addr as usize] = value;
            self.oam_addr = self.oam_addr.wrapping_add(1);
        } else if register == 5 {
            self.write_scroll(value);
        } else if register == 6 {
            self.write_address(value);
        } else {
            self.write_data(rom, value);
        }
    }

    /// Tells whether the PPU holds the NMI line down: NMI output is on and
    /// vertical blank is flagged. The PPU does not change.
    pub fn trigger_nmi(&mut self) -> (r: bool)
        ensures
            r == (old(self).nmi_output && old(self).nmi_occurred),
            *final(self) == *old(self),
    {
        self.nmi_output && self.nmi_occurred
    }

    /// The NMI edge that a write to `$2000` raised, if there is one, and the
    /// PPU after handing it over.
    pub open spec fn spec_take_nmi_edge(&self) -> (bool, PPU) {
        (self.nmi_pending, PPU { nmi_pending: false, ..*self })
    }

    /// Hands over the NMI edge that a write to `$2000` raised, if there is
    /// one: an edge is handed over once.
    pub fn take_nmi_edge(&mut self) -> (r: bool)
        ensures
            (r, *final(self)) == old(self).spec_take_nmi_edge(),
    {
        let pending = self.nmi_pending;
        self.nmi_pending = false;
        pending
    }
}

} // verus!
