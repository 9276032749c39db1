//! Cartridge-side logic: the mapper capability set and the two supported
//! boards, NROM (mapper 0) and MMC1 (mapper 1).

use vstd::prelude::*;
use crate::rom::Mirroring;

verus! {

/// Size of the CHR-RAM a cartridge carries when its image holds no CHR-ROM.
pub const CHR_RAM_SIZE: usize = 0x2000;

/// What every cartridge board answers: PRG and CHR accesses and the current
/// nametable mirroring. Each executable method is tied to its `spec_` twin.
pub trait Mapper: Sized {
    spec fn spec_read_prg(&self, address: u16) -> u8;

    spec fn spec_write_prg(&self, address: u16, value: u8) -> Self;

    spec fn spec_read_chr(&self, address: u16) -> u8;

    spec fn spec_write_chr(&self, address: u16, value: u8) -> Self;

    spec fn spec_get_mirroring(&self) -> Mirroring;

    fn read_prg(&self, address: u16) -> (r: u8)
        ensures
            r == self.spec_read_prg(address),
    ;

    fn write_prg(&mut self, address: u16, value: u8)
        ensures
            *final(self) == old(self).spec_write_prg(address, value),
    ;

    fn read_chr(&self, address: u16) -> (r: u8)
        ensures
            r == self.spec_read_chr(address),
    ;

    fn write_chr(&mut self, address: u16, value: u8)
        ensures
            *final(self) == old(self).spec_write_chr(address, value),
    ;

    fn get_mirroring(&self) -> (r: Mirroring)
        ensures
            r == self.spec_get_mirroring(),
    ;
}

/// NROM: fixed PRG banks, fixed CHR, mirroring soldered on the board.
pub struct Mapper0 {
    pub prg_rom: Vec<u8>,
    pub chr_rom: Vec<u8>,
    pub chr_ram: [u8; CHR_RAM_SIZE],
    pub prg_banks: u8,
    pub chr_banks: u8,
    pub mirroring: Mirroring,
}

impl Mapper0 {
    /// Builds the board. With `chr_banks == 0` the cartridge has 8 KiB of
    /// CHR-RAM, zeroed, and `chr_rom` is not consulted.
    pub fn new(
        prg_rom: Vec<u8>,
        chr_rom: Vec<u8>,
        prg_banks: u8,
        chr_banks: u8,
        mirroring: Mirroring,
    ) -> (r: Self)
        ensures
            r.prg_rom == prg_rom,
            r.chr_rom == chr_rom,
            r.prg_banks == prg_banks,
            r.chr_banks == chr_banks,
            r.mirroring == mirroring,
            forall|i: int| 0 <= i < 0x2000 ==> r.chr_ram[i] == 0,
    {
        Mapper0 { prg_rom, chr_rom, chr_ram: [0u8; CHR_RAM_SIZE], prg_banks, chr_banks, mirroring }
    }

    /// Whether CHR accesses go to the on-board RAM.
    #[verifier::allow_in_spec]
    pub fn has_chr_ram(&self) -> bool
        returns
            self.chr_banks == 0,
    {
        self.chr_banks == 0
    }
}

impl Mapper for Mapper0 {
    /// `$8000-$FFFF` mirrors the PRG-ROM over its length; everything below
    /// reads 0, and so does a cartridge without PRG-ROM.
    open spec fn spec_read_prg(&self, address: u16) -> u8 {
        if address < 0x8000 || self.prg_rom@.len() == 0 {
            0
        } else {
            self.prg_rom@[(address - 0x8000) % (self.prg_rom@.len() as int)]
        }
    }

    /// NROM has no registers: PRG writes leave the board as it was.
    open spec fn spec_write_prg(&self, address: u16, value: u8) -> Self {
        *self
    }

    /// CHR maps `address mod 0x2000` directly.
    open spec fn spec_read_chr(&self, address: u16) -> u8 {
        let index = (address % 0x2000) as int;
        if self.has_chr_ram() {
            self.chr_ram[index]
        } else if index < self.chr_rom@.len() {
            self.chr_rom@[index]
        } else {
            0
        }
    }

    /// Only CHR-RAM takes writes; CHR-ROM discards them.
    open spec fn spec_write_chr(&self, address: u16, value: u8) -> Self {
        if self.has_chr_ram() {
            Mapper0 {
                chr_ram: vstd::array::spec_array_update(
                    self.chr_ram,
                    (address % 0x2000) as int,
                    value,
                ),
                ..*self
            }
        } else {
            *self
        }
    }

    open spec fn spec_get_mirroring(&self) -> Mirroring {
        self.mirroring
    }

    fn read_prg(&self, address: u16) -> (r: u8) {
        let len = self.prg_rom.len();
        if address < 0x8000 || len == 0 {
            0
        } else {
            self.prg_rom[(address as usize - 0x8000) % len]
        }
    }

    fn write_prg(&mut self, address: u16, value: u8) {
    }

    fn read_chr(&self, address: u16) -> (r: u8) {
        let index = (address % 0x2000) as usize;
        if self.has_chr_ram() {
            self.chr_ram[index]
        } else if index < self.chr_rom.len() {
            self.chr_rom[index]
        } else {
            0
        }
    }

    fn write_chr(&mut self, address: u16, value: u8) {
        if self.has_chr_ram() {
            self.chr_ram[(address % 0x2000) as usize] = value;
        }
    }

    fn get_mirroring(&self) -> (r: Mirroring) {
        self.mirroring
    }
}

/// MMC1: a five-bit serial port in front of four registers that select PRG
/// and CHR banks and the mirroring.
pub struct Mapper1 {
    pub prg_rom: Vec<u8>,
    pub chr_rom: Vec<u8>,
    pub chr_ram: [u8; CHR_RAM_SIZE],
    pub shift_register: u8,
    pub control: u8,
    pub chr_bank_0: u8,
    pub chr_bank_1: u8,
    pub prg_bank: u8,
    pub prg_banks: u8,
    pub chr_banks: u8,
    pub shift_count: u8,
}

impl Mapper1 {
    /// Builds the board in its power-on state: empty serial port, PRG mode
    /// "fix last bank". With `chr_banks == 0` the cartridge has 8 KiB of
    /// CHR-RAM, zeroed, and `chr_rom` is not consulted.
    pub fn new(prg_rom: Vec<u8>, chr_rom: Vec<u8>, prg_banks: u8, chr_banks: u8) -> (r: Self)
        ensures
            r.prg_rom == prg_rom,
            r.chr_rom == chr_rom,
            r.prg_banks == prg_banks,
            r.chr_banks == chr_banks,
            r.shift_register == 0x10,
            r.control == 0x0c,
            r.chr_bank_0 == 0,
            r.chr_bank_1 == 0,
            r.prg_bank == 0,
            r.shift_count == 0,
            forall|i: int| 0 <= i < 0x2000 ==> r.chr_ram[i] == 0,
    {
        Mapper1 {
            prg_rom,
            chr_rom,
            chr_ram: [0u8; CHR_RAM_SIZE],
            shift_register: 0x10,
            control: 0x0c,
            chr_bank_0: 0,
            chr_bank_1: 0,
            prg_bank: 0,
            prg_banks,
            chr_banks,
            shift_count: 0,
        }
    }

    /// Whether CHR accesses go to the on-board RAM.
    #[verifier::allow_in_spec]
    pub fn has_chr_ram(&self) -> bool
        returns
            self.chr_banks == 0,
    {
        self.chr_banks == 0
    }

    /// Control bits 3-2: 0 and 1 switch 32 KiB at once, 2 fixes the first
    /// 16 KiB bank, 3 fixes the last.
    #[verifier::allow_in_spec]
    pub fn prg_mode(&self) -> u8
        returns
            (self.control / 4) % 4,
    {
        (self.control / 4) % 4
    }

    /// Control bit 4: two independent 4 KiB CHR banks instead of one 8 KiB bank.
    #[verifier::allow_in_spec]
    pub fn chr_split(&self) -> bool
        returns
            (self.control / 16) % 2 == 1,
    {
        (self.control / 16) % 2 == 1
    }

    /// Offset into PRG-ROM selected by a CPU address in `$8000-$FFFF`, before
    /// the reduction modulo the ROM's length.
    pub open spec fn spec_prg_offset(&self, address: u16) -> int {
        let switched = (self.prg_bank % 16) * 0x4000 + address % 0x4000;
        let last = if self.prg_banks == 0 {
            0
        } else {
            self.prg_banks - 1
        };
        if self.prg_mode() <= 1 {
            ((self.prg_bank % 16) / 2 * 2) * 0x8000 + address % 0x8000
        } else if self.prg_mode() == 2 {
            if address < 0xC000 {
                (address % 0x4000) as int
            } else {
                switched
            }
        } else {
            if address >= 0xC000 {
                last * 0x4000 + address % 0x4000
            } else {
                switched
            }
        }
    }

    fn prg_offset(&self, address: u16) -> (r: usize)
        ensures
            r == self.spec_prg_offset(address),
    {
        let bank: usize = (self.prg_bank % 16) as usize;
        let low: usize = (address % 0x4000) as usize;
        let mode = self.prg_mode();
        if mode <= 1 {
            (bank / 2 * 2) * 0x8000 + (address % 0x8000) as usize
        } else if mode == 2 {
            if address < 0xC000 {
                low
            } else {
                bank * 0x4000 + low
            }
        } else {
            if address >= 0xC000 {
                let last: usize = if self.prg_banks == 0 {
                    0
                } else {
                    (self.prg_banks - 1) as usize
                };
                last * 0x4000 + low
            } else {
                bank * 0x4000 + low
            }
        }
    }

    /// Offset into CHR memory selected by a PPU address, before the reduction
    /// modulo the memory's length.
    pub open spec fn spec_chr_offset(&self, address: u16) -> int {
        let window = address % 0x2000;
        if !self.chr_split() {
            ((self.chr_bank_0 % 32) / 2 * 2) * 0x1000 + window
        } else if window < 0x1000 {
            self.chr_bank_0 * 0x1000 + window
        } else {
            self.chr_bank_1 * 0x1000 + window % 0x1000
        }
    }

    fn chr_offset(&self, address: u16) -> (r: usize)
        ensures
            r == self.spec_chr_offset(address),
    {
        let window: usize = (address % 0x2000) as usize;
        if !self.chr_split() {
            ((self.chr_bank_0 % 32) as usize / 2 * 2) * 0x1000 + window
        } else if window < 0x1000 {
            (self.chr_bank_0 as usize) * 0x1000 + window
        } else {
            (self.chr_bank_1 as usize) * 0x1000 + window % 0x1000
        }
    }

    /// The serial port after one more data bit: the register moves right and
    /// the bit enters at position 4.
    #[verifier::allow_in_spec]
    pub fn shifted_in(shift_register: u8, value: u8) -> u8
        returns
            (shift_register >> 1) | ((value & 1) << 4),
    {
        (shift_register >> 1) | ((value & 1) << 4)
    }

    /// The board after latching `loaded` into the register that address bits
    /// 14-13 select, with the serial port emptied.
    pub open spec fn spec_latch(&self, address: u16, loaded: u8) -> Self {
        let target = (address / 0x2000) % 4;
        let emptied = Mapper1 { shift_register: 0x10, shift_count: 0, ..*self };
        if target == 0 {
            Mapper1 { control: loaded, ..emptied }
        } else if target == 1 {
            Mapper1 { chr_bank_0: loaded, ..emptied }
        } else if target == 2 {
            Mapper1 { chr_bank_1: loaded, ..emptied }
        } else {
            Mapper1 { prg_bank: loaded, ..emptied }
        }
    }
}

impl Mapper for Mapper1 {
    /// `$8000-$FFFF` reads the PRG-ROM at the banked offset, reduced modulo
    /// its length; everything below reads 0, and so does an empty PRG-ROM.
    open spec fn spec_read_prg(&self, address: u16) -> u8 {
        if address < 0x8000 || self.prg_rom@.len() == 0 {
            0
        } else {
            self.prg_rom@[self.spec_prg_offset(address) % (self.prg_rom@.len() as int)]
        }
    }

    /// A write below `$8000` does nothing. A write with bit 7 set empties the
    /// serial port and sets control bits 3-2. Any other write shifts bit 0 in;
    /// the fifth such write latches the five bits and empties the port.
    open spec fn spec_write_prg(&self, address: u16, value: u8) -> Self {
        if address < 0x8000 {
            *self
        } else if value >= 0x80 {
            Mapper1 {
                shift_register: 0x10,
                shift_count: 0,
                control: self.control | 0x0c,
                ..*self
            }
        } else if self.shift_count >= 4 {
            self.spec_latch(address, Self::shifted_in(self.shift_register, value) & 0x1f)
        } else {
            Mapper1 {
                shift_register: Self::shifted_in(self.shift_register, value),
                shift_count: (self.shift_count + 1) as u8,
                ..*self
            }
        }
    }

    /// CHR reads the banked offset reduced modulo the length of the CHR
    /// memory in use; an empty CHR-ROM reads 0.
    open spec fn spec_read_chr(&self, address: u16) -> u8 {
        if self.has_chr_ram() {
            self.chr_ram[self.spec_chr_offset(address) % 0x2000]
        } else if self.chr_rom@.len() == 0 {
            0
        } else {
            self.chr_rom@[self.spec_chr_offset(address) % (self.chr_rom@.len() as int)]
        }
    }

    /// Only CHR-RAM takes writes; CHR-ROM discards them.
    open spec fn spec_write_chr(&self, address: u16, value: u8) -> Self {
        if self.has_chr_ram() {
            Mapper1 {
                chr_ram: vstd::array::spec_array_update(
                    self.chr_ram,
                    self.spec_chr_offset(address) % 0x2000,
                    value,
                ),
                ..*self
            }
        } else {
            *self
        }
    }

    /// Control bits 1-0 pick the mirroring.
    open spec fn spec_get_mirroring(&self) -> Mirroring {
        let select = self.control % 4;
        if select == 0 {
            Mirroring::OneScreenLo
        } else if select == 1 {
            Mirroring::OneScreenHi
        } else if select == 2 {
            Mirroring::Vertical
        } else {
            Mirroring::Horizontal
        }
    }

    fn read_prg(&self, address: u16) -> (r: u8) {
        let len = self.prg_rom.len();
        if address < 0x8000 || len == 0 {
            0
        } else {
            self.prg_rom[self.prg_offset(address) % len]
        }
    }

    fn write_prg(&mut self, address: u16, value: u8) {
        if address < 0x8000 {
            return ;
        }
        if value >= 0x80 {
            self.shift_register = 0x10;
            self.shift_count = 0;
            self.control = self.control | 0x0c;
            return ;
        }
        let shifted = Self::shifted_in(self.shift_register, value);
        if self.shift_count >= 4 {
            let loaded = shifted & 0x1f;
            let target = (address / 0x2000) % 4;
            if target == 0 {
                self.control = loaded;
            } else if target == 1 {
                self.chr_bank_0 = loaded;
            } else if target == 2 {
                self.chr_bank_1 = loaded;
            } else {
                self.prg_bank = loaded;
            }
            self.shift_register = 0x10;
            self.shift_count = 0;
        } else {
            self.shift_register = shifted;
            self.shift_count = self.shift_count + 1;
        }
    }

    fn read_chr(&self, address: u16) -> (r: u8) {
        if self.has_chr_ram() {
            self.chr_ram[self.chr_offset(address) % 0x2000]
        } else if self.chr_rom.len() == 0 {
            0
        } else {
            self.chr_rom[self.chr_offset(address) % self.chr_rom.len()]
        }
    }

    fn write_chr(&mut self, address: u16, value: u8) {
        if self.has_chr_ram() {
            let index = self.chr_offset(address) % 0x2000;
            self.chr_ram[index] = value;
        }
    }

    fn get_mirroring(&self) -> (r: Mirroring) {
        let select = self.control % 4;
        if select == 0 {
            Mirroring::OneScreenLo
        } else if select == 1 {
            Mirroring::OneScreenHi
        } else if select == 2 {
            Mirroring::Vertical
        } else {
            Mirroring::Horizontal
        }
    }
}

} // verus!
