//! The CPU's 16-bit address space: system RAM, the PPU registers, the APU
//! and controller ports, OAM DMA, and the cartridge.

use vstd::prelude::*;
use crate::apu::APU;
use crate::input::Controller;
use crate::ppu::PPU;
use crate::rom::ROM;

verus! {

/// CPU cycles that one OAM DMA stalls the CPU for.
pub const OAM_DMA_CYCLES: u32 = 513;

pub struct BUS {
    pub ppu: PPU,
    /// 2 KiB of system RAM, mirrored four times over `$0000-$1FFF`.
    pub ram: [u8; 2048],
    pub rom: ROM,
    pub apu: APU,
    pub controller: Controller,
    /// CPU cycles owed for OAM DMA since the CPU last collected them.
    pub dma_stall: u32,
}

impl BUS {
    pub open spec fn wf(&self) -> bool {
        self.ppu.wf() && self.apu.wf() && self.dma_stall <= OAM_DMA_CYCLES
    }

    /// Tests `wf`, for callers that Verus does not check.
    pub fn is_wf(&self) -> (r: bool)
        ensures
            r == self.wf(),
    {
        self.ppu.is_wf() && self.apu.is_wf() && self.dma_stall <= OAM_DMA_CYCLES
    }

    /// `after` is well formed and its PPU stands on the same dot as that of
    /// `self`.
    pub open spec fn spec_kept(&self, after: &BUS) -> bool {
        after.wf() && self.ppu.spec_same_dot(&after.ppu)
    }

    /// A CPU read. RAM repeats every `$0800` and the PPU registers every 8;
    /// `$4015` is the APU's status, `$4016` the controller, `$4020` and up
    /// the cartridge. Every other address reads 0. Reading a PPU register or
    /// the controller changes them.
    #[verifier::opaque]
    pub open spec fn spec_read(&self, addr: u16) -> (u8, BUS) {
        if addr < 0x2000 {
            (self.ram[(addr % 0x0800) as int], *self)
        } else if addr < 0x4000 {
            let (value, ppu) = self.ppu.spec_read_register(&self.rom, addr);
            (value, BUS { ppu, ..*self })
        } else if addr == 0x4015 {
            (self.apu.spec_read_register(addr), *self)
        } else if addr == 0x4016 {
            let (value, controller) = self.controller.spec_read();
            (value, BUS { controller, ..*self })
        } else if addr >= 0x4020 {
            (self.rom.spec_read(addr), *self)
        } else {
            (0, *self)
        }
    }

    /// The bus after the first `count` bytes of an OAM DMA from page `page`:
    /// each byte is read from `page * $100 + i` and written to `$2004`.
    pub open spec fn spec_dma_copy(&self, page: u8, count: int) -> BUS
        decreases count,
    {
        if count <= 0 {
            *self
        } else {
            let before = self.spec_dma_copy(page, count - 1);
            let (data, read) = before.spec_read((page * 256 + (count - 1)) as u16);
            let (ppu, rom) = read.ppu.spec_write_register(&read.rom, 0x2004, data);
            BUS { ppu, rom, ..read }
        }
    }

    /// A write to `$4014`: 256 bytes go from page `page` to OAM, and the CPU
    /// owes the cycles of the transfer.
    pub open spec fn spec_oam_dma(&self, page: u8) -> BUS {
        BUS { dma_stall: OAM_DMA_CYCLES, ..self.spec_dma_copy(page, 256) }
    }

    /// A CPU write. `$4014` starts an OAM DMA, `$4016` strobes the
    /// controller, the rest of `$4000-$4017` belongs to the APU, `$4020` and
    /// up to the cartridge. A write to any other address is discarded.
    #[verifier::opaque]
    pub open spec fn spec_write(&self, addr: u16, value: u8) -> BUS {
        if addr < 0x2000 {
            BUS {
                ram: vstd::array::spec_array_update(self.ram, (addr % 0x0800) as int, value),
                ..*self
            }
        } else if addr < 0x4000 {
            let (ppu, rom) = self.ppu.spec_write_register(&self.rom, addr, value);
            BUS { ppu, rom, ..*self }
        } else if addr == 0x4014 {
            self.spec_oam_dma(value)
        } else if addr == 0x4016 {
            BUS { controller: self.controller.spec_write(value), ..*self }
        } else if addr < 0x4018 {
            BUS { apu: self.apu.spec_write_register(addr, value), ..*self }
        } else if addr >= 0x4020 {
            BUS { rom: self.rom.spec_write(addr, value), ..*self }
        } else {
            *self
        }
    }

    /// The bus with the DMA cycles collected.
    pub open spec fn spec_take_dma_stall(&self) -> (u32, BUS) {
        (self.dma_stall, BUS { dma_stall: 0, ..*self })
    }

    /// A bus around the given parts, with RAM zeroed, no button pressed and
    /// no DMA cycles owed.
    pub fn new(ppu: PPU, rom: ROM, apu: APU) -> (r: Self)
        ensures
            r.ppu == ppu,
            r.rom == rom,
            r.apu == apu,
            r.controller == Controller::spec_new(),
            r.dma_stall == 0,
            forall|i: int| 0 <= i < 2048 ==> r.ram[i] == 0,
    {
        BUS { ppu, ram: [0u8; 2048], rom, apu, controller: Controller::new(), dma_stall: 0 }
    }

    pub fn read(&mut self, addr: u16) -> (r: u8)
        requires
            old(self).wf(),
        ensures
            (r, *final(self)) == old(self).spec_read(addr),
            old(self).spec_kept(final(self)),
    {
        reveal(BUS::spec_read);
        if addr < 0x2000 {
            self.ram[(addr % 0x0800) as usize]
        } else if addr < 0x4000 {
            self.ppu.read_register(&self.rom, addr)
        } else if addr == 0x4015 {
            self.apu.read_register(addr)
        } else if addr == 0x4016 {
            self.controller.read()
        } else if addr >= 0x4020 {
            self.rom.read(addr)
        } else {
            0
        }
    }

    fn oam_dma(&mut self, page: u8)
        requires
            old(self).wf(),
        ensures
            *final(self) == old(self).spec_oam_dma(page),
            old(self).spec_kept(final(self)),
    {
        let base: u16 = page as u16 * 256;
        let mut i: u16 = 0;
        while i < 256
            invariant
                i <= 256,
                base == page * 256,
                old(self).spec_kept(self),
                *self == old(self).spec_dma_copy(page, i as int),
            decreases 256 - i,
        {
            let data = self.read(base + i);
            self.ppu.write_register(&mut self.rom, 0x2004, data);
            i = i + 1;
        }
        self.dma_stall = OAM_DMA_CYCLES;
    }

    pub fn write(&mut self, addr: u16, value: u8)
        requires
            old(self).wf(),
        ensures
            *final(self) == old(self).spec_write(addr, value),
            old(self).spec_kept(final(self)),
    {
        reveal(BUS::spec_write);
        if addr < 0x2000 {
            self.ram[(addr % 0x0800) as usize] = value;
        } else if addr < 0x4000 {
            self.ppu.write_register(&mut self.rom, addr, value);
        } else if addr == 0x4014 {
            self.oam_dma(value);
        } else if addr == 0x4016 {
            self.controller.write(value);
        } else if addr < 0x4018 {
            self.apu.write_register(addr, value);
        } else if addr >= 0x4020 {
            self.rom.write(addr, value);
        }
    }

    /// Collects the CPU cycles owed for OAM DMA.
    pub fn take_dma_stall(&mut self) -> (r: u32)
        requires
            old(self).wf(),
        ensures
            (r, *final(self)) == old(self).spec_take_dma_stall(),
            old(self).spec_kept(final(self)),
            r <= OAM_DMA_CYCLES,
    {
        let stall = self.dma_stall;
        self.dma_stall = 0;
        stall
    }
}

} // verus!
