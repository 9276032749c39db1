use nes_core::mapper::Mapper;
use nes_core::mapper::Mapper0;
use nes_core::mapper::Mapper1;
use nes_core::rom::Mirroring;
use nes_core::rom::RomError;
use nes_core::rom::ROM;

fn image(prg_units: u8, chr_units: u8, flags6: u8, flags7: u8) -> Vec<u8> {
    let mut bytes = vec![0x4E, 0x45, 0x53, 0x1A, prg_units, chr_units, flags6, flags7];
    bytes.resize(16, 0);
    if flags6 & 0x04 != 0 {
        bytes.resize(16 + 512, 0xEE);
    }
    for i in 0..(prg_units as usize * 0x4000) {
        bytes.push((i % 251) as u8);
    }
    for i in 0..(chr_units as usize * 0x2000) {
        bytes.push((i % 241) as u8);
    }
    bytes
}

#[test]
fn short_or_wrong_magic_is_invalid_header() {
    assert_eq!(ROM::from_bytes(&[]).err(), Some(RomError::InvalidHeader));
    assert_eq!(ROM::from_bytes(&[0x4E, 0x45, 0x53, 0x1A]).err(), Some(RomError::InvalidHeader));
    let mut bytes = image(1, 1, 0, 0);
    bytes[3] = 0x1B;
    assert_eq!(ROM::from_bytes(&bytes).err(), Some(RomError::InvalidHeader));
}

#[test]
fn image_shorter_than_header_says_is_truncated() {
    let mut bytes = image(2, 1, 0, 0);
    bytes.pop();
    assert_eq!(ROM::from_bytes(&bytes).err(), Some(RomError::Truncated));
    let mut with_trainer = image(1, 0, 0x04, 0);
    with_trainer.truncate(16 + 0x4000 + 511);
    assert_eq!(ROM::from_bytes(&with_trainer).err(), Some(RomError::Truncated));
}

#[test]
fn truncation_is_reported_before_an_unknown_mapper() {
    let mut bytes = image(1, 1, 0x40, 0);
    bytes.pop();
    assert_eq!(ROM::from_bytes(&bytes).err(), Some(RomError::Truncated));
}

#[test]
fn mapper_other_than_zero_or_one_is_unsupported() {
    assert_eq!(ROM::from_bytes(&image(1, 1, 0x20, 0)).err(), Some(RomError::UnsupportedMapper));
    assert_eq!(ROM::from_bytes(&image(1, 1, 0x00, 0x10)).err(), Some(RomError::UnsupportedMapper));
    assert_eq!(ROM::from_bytes(&image(1, 1, 0x40, 0x00)).err(), Some(RomError::UnsupportedMapper));
}

#[test]
fn header_fields_are_decoded() {
    let rom = ROM::from_bytes(&image(2, 1, 0x13, 0x00)).ok().unwrap();
    assert_eq!(rom.mapper_number, 1);
    assert_eq!(rom.mirroring, Mirroring::Vertical);
    assert!(rom.battery_backed);
    assert_eq!(rom.header.len(), 16);
    let four = ROM::from_bytes(&image(1, 1, 0x09, 0x00)).ok().unwrap();
    assert_eq!(four.mirroring, Mirroring::FourScreen);
    assert_eq!(four.get_mirroring(), Mirroring::FourScreen);
    let horizontal = ROM::from_bytes(&image(1, 1, 0x00, 0x00)).ok().unwrap();
    assert_eq!(horizontal.get_mirroring(), Mirroring::Horizontal);
}

#[test]
fn trainer_is_skipped() {
    let rom = ROM::from_bytes(&image(1, 1, 0x04, 0)).ok().unwrap();
    assert_eq!(rom.read(0x8000), 0);
    assert_eq!(rom.read(0x8001), 1);
    assert_eq!(rom.read_chr(0x0005), 5);
}

#[test]
fn nrom_mirrors_sixteen_kib_of_prg() {
    let rom = ROM::from_bytes(&image(1, 1, 0, 0)).ok().unwrap();
    assert_eq!(rom.read(0x8000), 0);
    assert_eq!(rom.read(0x8123), (0x123 % 251) as u8);
    assert_eq!(rom.read(0xC123), (0x123 % 251) as u8);
    assert_eq!(rom.read(0xFFFF), (0x3FFF % 251) as u8);
    assert_eq!(rom.read(0x7FFF), 0);
    assert_eq!(rom.read(0x4020), 0);
}

#[test]
fn nrom_maps_thirty_two_kib_of_prg_directly() {
    let rom = ROM::from_bytes(&image(2, 1, 0, 0)).ok().unwrap();
    assert_eq!(rom.read(0xC123), (0x4123 % 251) as u8);
    assert_eq!(rom.read(0xFFFF), (0x7FFF % 251) as u8);
}

#[test]
fn nrom_ignores_prg_writes_and_chr_rom_writes() {
    let mut rom = ROM::from_bytes(&image(1, 1, 0, 0)).ok().unwrap();
    rom.write(0x8000, 0x55);
    assert_eq!(rom.read(0x8000), 0);
    rom.write_chr(0x0010, 0x55);
    assert_eq!(rom.read_chr(0x0010), 0x10);
}

#[test]
fn missing_chr_rom_means_eight_kib_of_chr_ram() {
    let mut rom = ROM::from_bytes(&image(1, 0, 0, 0)).ok().unwrap();
    assert_eq!(rom.read_chr(0x1FFF), 0);
    rom.write_chr(0x1FFF, 0xAB);
    assert_eq!(rom.read_chr(0x1FFF), 0xAB);
    assert_eq!(rom.read_chr(0x3FFF), 0xAB);
    let mut mmc1 = ROM::from_bytes(&image(1, 0, 0x10, 0)).ok().unwrap();
    mmc1.write_chr(0x0123, 0x77);
    assert_eq!(mmc1.read_chr(0x0123), 0x77);
}

#[test]
fn empty_prg_reads_zero() {
    let nrom = Mapper0::new(Vec::new(), Vec::new(), 0, 1, Mirroring::Horizontal);
    assert_eq!(nrom.read_prg(0x8000), 0);
    assert_eq!(nrom.read_chr(0x0000), 0);
    let mmc1 = Mapper1::new(Vec::new(), Vec::new(), 0, 1);
    assert_eq!(mmc1.read_prg(0xFFFC), 0);
    assert_eq!(mmc1.read_chr(0x0000), 0);
}

fn load(m: &mut Mapper1, address: u16, value: u8) {
    for bit in 0..5 {
        m.write_prg(address, (value >> bit) & 1);
    }
}

#[test]
fn mmc1_serial_load_latches_on_fifth_write() {
    let mut m = Mapper1::new(vec![0u8; 0x8000], vec![0u8; 0x2000], 2, 1);
    let expected_register = [0x08u8, 0x04, 0x02, 0x01];
    for n in 0..4 {
        m.write_prg(0xE000, 0x00);
        assert_eq!(m.shift_count as usize, n + 1);
        assert_eq!(m.shift_register, expected_register[n]);
        assert_eq!(m.prg_bank, 0);
    }
    m.write_prg(0xE000, 0x01);
    assert_eq!(m.prg_bank, 0x10);
    assert_eq!(m.shift_count, 0);
    assert_eq!(m.shift_register, 0x10);
}

#[test]
fn mmc1_targets_follow_address_bits() {
    let mut m = Mapper1::new(vec![0u8; 0x8000], vec![0u8; 0x2000], 2, 1);
    load(&mut m, 0x8000, 0x1F);
    assert_eq!(m.control, 0x1F);
    load(&mut m, 0xA000, 0x05);
    assert_eq!(m.chr_bank_0, 0x05);
    load(&mut m, 0xC000, 0x0A);
    assert_eq!(m.chr_bank_1, 0x0A);
    load(&mut m, 0xFFFF, 0x03);
    assert_eq!(m.prg_bank, 0x03);
}

#[test]
fn mmc1_reset_write_empties_the_port_and_sets_prg_mode() {
    let mut m = Mapper1::new(vec![0u8; 0x8000], vec![0u8; 0x2000], 2, 1);
    load(&mut m, 0x8000, 0x00);
    assert_eq!(m.control, 0x00);
    m.write_prg(0x8000, 1);
    m.write_prg(0x8000, 1);
    assert_eq!(m.shift_count, 2);
    m.write_prg(0x8000, 0x80);
    assert_eq!(m.shift_count, 0);
    assert_eq!(m.shift_register, 0x10);
    assert_eq!(m.control, 0x0C);
}

#[test]
fn mmc1_writes_below_the_prg_window_do_nothing() {
    let mut m = Mapper1::new(vec![0u8; 0x8000], vec![0u8; 0x2000], 2, 1);
    m.write_prg(0x6000, 1);
    assert_eq!(m.shift_count, 0);
    assert_eq!(m.shift_register, 0x10);
    assert_eq!(m.read_prg(0x6000), 0);
}

#[test]
fn mmc1_mirroring_follows_control() {
    let mut m = Mapper1::new(vec![0u8; 0x8000], vec![0u8; 0x2000], 2, 1);
    load(&mut m, 0x8000, 0x0C);
    assert_eq!(m.get_mirroring(), Mirroring::OneScreenLo);
    load(&mut m, 0x8000, 0x0D);
    assert_eq!(m.get_mirroring(), Mirroring::OneScreenHi);
    load(&mut m, 0x8000, 0x0E);
    assert_eq!(m.get_mirroring(), Mirroring::Vertical);
    load(&mut m, 0x8000, 0x0F);
    assert_eq!(m.get_mirroring(), Mirroring::Horizontal);
}

fn banked_prg(banks: usize) -> Vec<u8> {
    let mut prg = vec![0u8; banks * 0x4000];
    for bank in 0..banks {
        for i in 0..0x4000 {
            prg[bank * 0x4000 + i] = (bank as u8) << 4 | (i % 16) as u8;
        }
    }
    prg
}

#[test]
fn mmc1_fix_last_mode_switches_the_first_bank() {
    let mut m = Mapper1::new(banked_prg(8), vec![0u8; 0x2000], 8, 1);
    assert_eq!(m.read_prg(0xC000), 0x70);
    assert_eq!(m.read_prg(0x8003), 0x03);
    load(&mut m, 0xE000, 0x05);
    assert_eq!(m.read_prg(0x8003), 0x53);
    assert_eq!(m.read_prg(0xFFFF), 0x7F);
}

#[test]
fn mmc1_fix_first_mode_switches_the_last_bank() {
    let mut m = Mapper1::new(banked_prg(8), vec![0u8; 0x2000], 8, 1);
    load(&mut m, 0x8000, 0x08);
    load(&mut m, 0xE000, 0x06);
    assert_eq!(m.read_prg(0x8001), 0x01);
    assert_eq!(m.read_prg(0xC001), 0x61);
}

#[test]
fn mmc1_offsets_wrap_around_the_rom() {
    let mut m = Mapper1::new(banked_prg(2), vec![0u8; 0x2000], 2, 1);
    load(&mut m, 0xE000, 0x03);
    assert_eq!(m.read_prg(0x8002), 0x12);
    load(&mut m, 0x8000, 0x00);
    load(&mut m, 0xE000, 0x02);
    assert_eq!(m.read_prg(0x8002), 0x02);
    assert_eq!(m.read_prg(0xC002), 0x12);
}

#[test]
fn mmc1_chr_banks_in_both_modes() {
    let mut chr = vec![0u8; 0x8000];
    for (i, byte) in chr.iter_mut().enumerate() {
        *byte = (i / 0x1000) as u8;
    }
    let mut m = Mapper1::new(vec![0u8; 0x4000], chr, 1, 4);
    load(&mut m, 0xA000, 0x03);
    assert_eq!(m.read_chr(0x0000), 2);
    assert_eq!(m.read_chr(0x1000), 3);
    load(&mut m, 0x8000, 0x1C);
    load(&mut m, 0xC000, 0x05);
    assert_eq!(m.read_chr(0x0FFF), 3);
    assert_eq!(m.read_chr(0x1000), 5);
    load(&mut m, 0xC000, 0x09);
    assert_eq!(m.read_chr(0x1000), 1);
}

#[test]
fn errors_have_messages() {
    assert_eq!(RomError::InvalidHeader.message(), "Invalid iNES header");
    assert_eq!(RomError::Truncated.message(), "ROM too small");
    assert_eq!(RomError::UnsupportedMapper.message(), "Unsupported mapper");
}
