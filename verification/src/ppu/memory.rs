//! The PPU's 14-bit address space: pattern tables on the cartridge,
//! nametables in VRAM under the cartridge's mirroring, and palette RAM.

use vstd::prelude::*;
use crate::ppu::PPU;
use crate::rom::Mirroring;
use crate::rom::ROM;

verus! {

/// The physical nametable that logical nametable `table` (0 to 3) lands on.
pub open spec fn spec_physical_table(table: u16, mirroring: Mirroring) -> u16 {
    match mirroring {
        Mirroring::Horizontal => if table < 2 {
            0
        } else {
            2
        },
        Mirroring::Vertical => table % 2,
        Mirroring::FourScreen => table,
        Mirroring::OneScreenLo => 0,
        Mirroring::OneScreenHi => 1,
    }
}

/// Where a nametable address in `$2000-$3EFF` lives after mirroring: an
/// address in `$2000-$2FFF`, a function of the address and the mirroring
/// alone.
pub open spec fn spec_mirror_nametable_address(addr: u16, mirroring: Mirroring) -> u16 {
    let within = addr % 0x1000;
    (0x2000 + spec_physical_table(within / 0x400, mirroring) * 0x400 + within % 0x400) as u16
}

pub fn mirror_nametable_address(addr: u16, mirroring: Mirroring) -> (r: u16)
    ensures
        r == spec_mirror_nametable_address(addr, mirroring),
        0x2000 <= r < 0x3000,
{
    let within = addr % 0x1000;
    let table = within / 0x400;
    let offset = within % 0x400;
    let physical: u16 = match mirroring {
        Mirroring::Horizontal => if table < 2 {
            0
        } else {
            2
        },
        Mirroring::Vertical => table % 2,
        Mirroring::FourScreen => table,
        Mirroring::OneScreenLo => 0,
        Mirroring::OneScreenHi => 1,
    };
    0x2000 + physical * 0x400 + offset
}

/// The palette RAM cell behind a palette address: the low five bits, with
/// `$10/$14/$18/$1C` folded onto `$00/$04/$08/$0C`.
#[verifier::allow_in_spec]
pub fn palette_index(addr: u16) -> usize
    returns
        (if addr % 32 >= 16 && addr % 4 == 0 {
            addr % 32 - 16
        } else {
            (addr % 32) as int
        }) as usize,
{
    let low = addr % 32;
    if low >= 16 && addr % 4 == 0 {
        (low - 16) as usize
    } else {
        low as usize
    }
}

impl PPU {
    /// The byte at PPU address `addr`, taken modulo `$4000`.
    pub open spec fn spec_read_ppu_memory(&self, rom: &ROM, addr: u16) -> u8 {
        let a = addr % 0x4000;
        if a < 0x2000 {
            rom.spec_read_chr(a)
        } else if a < 0x3F00 {
            self.vram[spec_mirror_nametable_address(a, rom.spec_get_mirroring()) - 0x2000]
        } else {
            self.palette[palette_index(a) as int]
        }
    }

    /// The PPU and the cartridge after storing `data` at PPU address `addr`:
    /// one cell of CHR memory, of VRAM or of palette RAM changes.
    pub open spec fn spec_write_ppu_memory(&self, rom: &ROM, addr: u16, data: u8) -> (PPU, ROM) {
        let a = addr % 0x4000;
        if a < 0x2000 {
            (*self, rom.spec_write_chr(a, data))
        } else if a < 0x3F00 {
            (
                PPU {
                    vram: vstd::array::spec_array_update(
                        self.vram,
                        spec_mirror_nametable_address(a, rom.spec_get_mirroring()) - 0x2000,
                        data,
                    ),
                    ..*self
                },
                *rom,
            )
        } else {
            (
                PPU {
                    palette: vstd::array::spec_array_update(
                        self.palette,
                        palette_index(a) as int,
                        data,
                    ),
                    ..*self
                },
                *rom,
            )
        }
    }

    pub fn read_ppu_memory(&self, rom: &ROM, addr: u16) -> (r: u8)
        ensures
            r == self.spec_read_ppu_memory(rom, addr),
    {
        let a = addr % 0x4000;
        if a < 0x2000 {
            rom.read_chr(a)
        } else if a < 0x3F00 {
            let mirrored = mirror_nametable_address(a, rom.get_mirroring());
            self.vram[(mirrored - 0x2000) as usize]
        } else {
            self.palette[palette_index(a)]
        }
    }

    pub fn write_ppu_memory(&mut self, rom: &mut ROM, addr: u16, data: u8)
        ensures
            (*final(self), *final(rom)) == old(self).spec_write_ppu_memory(old(rom), addr, data),
    {
        let a = addr % 0x4000;
        if a < 0x2000 {
            rom.write_chr(a, data);
        } else if a < 0x3F00 {
            let mirrored = mirror_nametable_address(a, rom.get_mirroring());
            self.vram[(mirrored - 0x2000) as usize] = data;
        } else {
            self.palette[palette_index(a)] = data;
        }
    }
}

} // verus!
