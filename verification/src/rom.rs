//! The cartridge image: iNES parsing and the cartridge seen from the buses.

use vstd::prelude::*;
use vstd::slice::slice_subrange;
use vstd::slice::slice_to_vec;
use crate::mapper::Mapper;
use crate::mapper::Mapper0;
use crate::mapper::Mapper1;

verus! {

/// How the four logical nametables fold onto physical nametable RAM.
#[derive(Clone, Copy, Debug, PartialEq, Eq, Structural)]
pub enum Mirroring {
    Horizontal,
    Vertical,
    OneScreenLo,
    OneScreenHi,
    FourScreen,
}

/// Why an image was refused.
#[derive(Clone, Copy, Debug, PartialEq, Eq, Structural)]
pub enum RomError {
    /// Fewer than 16 bytes, or the first four are not `N E S 0x1A`.
    InvalidHeader,
    /// Shorter than the header, trainer, PRG and CHR sizes add up to.
    Truncated,
    /// A mapper number other than 0 or 1.
    UnsupportedMapper,
}

impl RomError {
    /// What to tell the user.
    pub open spec fn spec_message(&self) -> Seq<char> {
        match self {
            RomError::InvalidHeader => "Invalid iNES header"@,
            RomError::Truncated => "ROM too small"@,
            RomError::UnsupportedMapper => "Unsupported mapper"@,
        }
    }

    pub fn message(&self) -> (r: &'static str)
        ensures
            r@ == self.spec_message(),
    {
        match self {
            RomError::InvalidHeader => "Invalid iNES header",
            RomError::Truncated => "ROM too small",
            RomError::UnsupportedMapper => "Unsupported mapper",
        }
    }
}

/// The board inside the cartridge, one case per supported mapper.
pub enum MapperKind {
    Nrom(Mapper0),
    Mmc1(Mapper1),
}

/// A parsed cartridge.
pub struct ROM {
    pub header: Vec<u8>,
    pub mapper: MapperKind,
    pub mirroring: Mirroring,
    pub battery_backed: bool,
    pub mapper_number: u8,
}

pub const HEADER_SIZE: usize = 16;

pub const TRAINER_SIZE: usize = 512;

pub const PRG_UNIT: usize = 0x4000;

pub const CHR_UNIT: usize = 0x2000;

/// The image begins with `N E S 0x1A` inside a full 16-byte header.
pub open spec fn has_header(bytes: Seq<u8>) -> bool {
    &&& bytes.len() >= 16
    &&& bytes[0] == 0x4E
    &&& bytes[1] == 0x45
    &&& bytes[2] == 0x53
    &&& bytes[3] == 0x1A
}

/// Bit `bit` of flag byte 6.
pub open spec fn flag6(bytes: Seq<u8>, bit: int) -> bool {
    if bit == 0 {
        bytes[6] % 2 == 1
    } else if bit == 1 {
        (bytes[6] / 2) % 2 == 1
    } else if bit == 2 {
        (bytes[6] / 4) % 2 == 1
    } else {
        (bytes[6] / 8) % 2 == 1
    }
}

/// Where PRG-ROM starts: after the header and the trainer, if there is one.
pub open spec fn prg_start(bytes: Seq<u8>) -> int {
    if flag6(bytes, 2) {
        528
    } else {
        16
    }
}

pub open spec fn prg_len(bytes: Seq<u8>) -> int {
    bytes[4] * 0x4000
}

pub open spec fn chr_len(bytes: Seq<u8>) -> int {
    bytes[5] * 0x2000
}

/// The length the header promises.
pub open spec fn image_len(bytes: Seq<u8>) -> int {
    prg_start(bytes) + prg_len(bytes) + chr_len(bytes)
}

/// Low nibble from flag byte 6, high nibble from flag byte 7.
pub open spec fn header_mapper(bytes: Seq<u8>) -> int {
    bytes[6] / 16 + (bytes[7] / 16) * 16
}

/// Four-screen wins over the vertical bit.
pub open spec fn header_mirroring(bytes: Seq<u8>) -> Mirroring {
    if flag6(bytes, 3) {
        Mirroring::FourScreen
    } else if flag6(bytes, 0) {
        Mirroring::Vertical
    } else {
        Mirroring::Horizontal
    }
}

/// The error an image is refused with, if it is refused: the checks run in
/// this order.
pub open spec fn rejection(bytes: Seq<u8>) -> Option<RomError> {
    if !has_header(bytes) {
        Some(RomError::InvalidHeader)
    } else if bytes.len() < image_len(bytes) {
        Some(RomError::Truncated)
    } else if header_mapper(bytes) > 1 {
        Some(RomError::UnsupportedMapper)
    } else {
        None
    }
}

pub open spec fn prg_bytes(bytes: Seq<u8>) -> Seq<u8> {
    bytes.subrange(prg_start(bytes), prg_start(bytes) + prg_len(bytes))
}

pub open spec fn chr_bytes(bytes: Seq<u8>) -> Seq<u8> {
    bytes.subrange(
        prg_start(bytes) + prg_len(bytes),
        prg_start(bytes) + prg_len(bytes) + chr_len(bytes),
    )
}

impl ROM {
    /// `self` is the cartridge that an accepted image describes: the board of
    /// the header's mapper number in its power-on state, holding the image's
    /// PRG and CHR bytes, with zeroed CHR-RAM.
    pub open spec fn describes(&self, bytes: Seq<u8>) -> bool {
        &&& self.header@ == bytes.subrange(0, 16)
        &&& self.mapper_number == header_mapper(bytes)
        &&& self.mirroring == header_mirroring(bytes)
        &&& self.battery_backed == flag6(bytes, 1)
        &&& match self.mapper {
            MapperKind::Nrom(m) => {
                &&& header_mapper(bytes) == 0
                &&& m.prg_rom@ == prg_bytes(bytes)
                &&& m.chr_rom@ == chr_bytes(bytes)
                &&& m.prg_banks == bytes[4]
                &&& m.chr_banks == bytes[5]
                &&& m.mirroring == header_mirroring(bytes)
                &&& forall|i: int| 0 <= i < 0x2000 ==> m.chr_ram[i] == 0
            },
            MapperKind::Mmc1(m) => {
                &&& header_mapper(bytes) == 1
                &&& m.prg_rom@ == prg_bytes(bytes)
                &&& m.chr_rom@ == chr_bytes(bytes)
                &&& m.prg_banks == bytes[4]
                &&& m.chr_banks == bytes[5]
                &&& m.shift_register == 0x10
                &&& m.shift_count == 0
                &&& m.control == 0x0c
                &&& m.chr_bank_0 == 0
                &&& m.chr_bank_1 == 0
                &&& m.prg_bank == 0
                &&& forall|i: int| 0 <= i < 0x2000 ==> m.chr_ram[i] == 0
            },
        }
    }

    /// Parses an iNES image. An image is accepted exactly when `rejection`
    /// finds nothing, and is otherwise refused with the error it names.
    pub fn from_bytes(contents: &[u8]) -> (r: Result<ROM, RomError>)
        ensures
            match r {
                Ok(rom) => rejection(contents@) is None && rom.describes(contents@),
                Err(e) => rejection(contents@) == Some(e),
            },
    {
        if contents.len() < HEADER_SIZE || contents[0] != 0x4E || contents[1] != 0x45
            || contents[2] != 0x53 || contents[3] != 0x1A {
            return Err(RomError::InvalidHeader);
        }
        let prg_rom_size: usize = contents[4] as usize * PRG_UNIT;
        let chr_rom_size: usize = contents[5] as usize * CHR_UNIT;
        let mapper_number: u8 = contents[6] / 16 + (contents[7] / 16) * 16;
        let vertical_mirroring = contents[6] % 2 == 1;
        let battery_backed = (contents[6] / 2) % 2 == 1;
        let has_trainer = (contents[6] / 4) % 2 == 1;
        let four_screen = (contents[6] / 8) % 2 == 1;

        let prg_rom_start: usize = if has_trainer {
            HEADER_SIZE + TRAINER_SIZE
        } else {
            HEADER_SIZE
        };
        let prg_rom_end: usize = prg_rom_start + prg_rom_size;
        let chr_rom_end: usize = prg_rom_end + chr_rom_size;
        if contents.len() < chr_rom_end {
            return Err(RomError::Truncated);
        }
        if mapper_number > 1 {
            return Err(RomError::UnsupportedMapper);
        }
        let header = slice_to_vec(slice_subrange(contents, 0, HEADER_SIZE));
        let prg_rom = slice_to_vec(slice_subrange(contents, prg_rom_start, prg_rom_end));
        let chr_rom = slice_to_vec(slice_subrange(contents, prg_rom_end, chr_rom_end));
        let mirroring = if four_screen {
            Mirroring::FourScreen
        } else if vertical_mirroring {
            Mirroring::Vertical
        } else {
            Mirroring::Horizontal
        };
        let mapper = if mapper_number == 0 {
            MapperKind::Nrom(Mapper0::new(prg_rom, chr_rom, contents[4], contents[5], mirroring))
        } else {
            MapperKind::Mmc1(Mapper1::new(prg_rom, chr_rom, contents[4], contents[5]))
        };
        Ok(ROM { header, mapper, mirroring, battery_backed, mapper_number })
    }

    /// What a CPU read of `address` returns.
    pub open spec fn spec_read(&self, address: u16) -> u8 {
        match self.mapper {
            MapperKind::Nrom(m) => m.spec_read_prg(address),
            MapperKind::Mmc1(m) => m.spec_read_prg(address),
        }
    }

    /// The cartridge after a CPU write.
    pub open spec fn spec_write(&self, address: u16, value: u8) -> ROM {
        match self.mapper {
            MapperKind::Nrom(m) => ROM {
                mapper: MapperKind::Nrom(m.spec_write_prg(address, value)),
                ..*self
            },
            MapperKind::Mmc1(m) => ROM {
                mapper: MapperKind::Mmc1(m.spec_write_prg(address, value)),
                ..*self
            },
        }
    }

    /// What a PPU read of pattern-table `address` returns.
    pub open spec fn spec_read_chr(&self, address: u16) -> u8 {
        match self.mapper {
            MapperKind::Nrom(m) => m.spec_read_chr(address),
            MapperKind::Mmc1(m) => m.spec_read_chr(address),
        }
    }

    /// The cartridge after a PPU write into the pattern tables.
    pub open spec fn spec_write_chr(&self, address: u16, value: u8) -> ROM {
        match self.mapper {
            MapperKind::Nrom(m) => ROM {
                mapper: MapperKind::Nrom(m.spec_write_chr(address, value)),
                ..*self
            },
            MapperKind::Mmc1(m) => ROM {
                mapper: MapperKind::Mmc1(m.spec_write_chr(address, value)),
                ..*self
            },
        }
    }

    /// The mirroring in force: the board's, which MMC1 can change at run time.
    pub open spec fn spec_get_mirroring(&self) -> Mirroring {
        match self.mapper {
            MapperKind::Nrom(m) => m.spec_get_mirroring(),
            MapperKind::Mmc1(m) => m.spec_get_mirroring(),
        }
    }

    pub fn read(&self, address: u16) -> (r: u8)
        ensures
            r == self.spec_read(address),
    {
        match &self.mapper {
            MapperKind::Nrom(m) => m.read_prg(address),
            MapperKind::Mmc1(m) => m.read_prg(address),
        }
    }

    pub fn write(&mut self, address: u16, value: u8)
        ensures
            *final(self) == old(self).spec_write(address, value),
    {
        match &mut self.mapper {
            MapperKind::Nrom(m) => m.write_prg(address, value),
            MapperKind::Mmc1(m) => m.write_prg(address, value),
        }
    }

    pub fn read_chr(&self, address: u16) -> (r: u8)
        ensures
            r == self.spec_read_chr(address),
    {
        match &self.mapper {
            MapperKind::Nrom(m) => m.read_chr(address),
            MapperKind::Mmc1(m) => m.read_chr(address),
        }
    }

    pub fn write_chr(&mut self, address: u16, value: u8)
        ensures
            *final(self) == old(self).spec_write_chr(address, value),
    {
        match &mut self.mapper {
            MapperKind::Nrom(m) => m.write_chr(address, value),
            MapperKind::Mmc1(m) => m.write_chr(address, value),
        }
    }

    pub fn get_mirroring(&self) -> (r: Mirroring)
        ensures
            r == self.spec_get_mirroring(),
    {
        match &self.mapper {
            MapperKind::Nrom(m) => m.get_mirroring(),
            MapperKind::Mmc1(m) => m.get_mirroring(),
        }
    }
}

} // verus!
