use nes_core::apu::APU;
use nes_core::bus::BUS;
use nes_core::cpu::chip::CPU;
use nes_core::emulator::map_key;
use nes_core::emulator::Emulator;
use nes_core::input::Key;
use nes_core::nes::Nes;
use nes_core::ppu::PPU;
use nes_core::rom::RomError;
use nes_core::rom::ROM;

fn image(mapper: u8, program: &[u8]) -> Vec<u8> {
    let mut bytes = vec![0x4E, 0x45, 0x53, 0x1A, 2, 0, mapper << 4, 0];
    bytes.resize(16, 0);
    let mut prg = vec![0xEAu8; 0x8000];
    prg[..program.len()].copy_from_slice(program);
    prg[0x7FFA] = 0x00;
    prg[0x7FFB] = 0x90;
    prg[0x7FFC] = 0x00;
    prg[0x7FFD] = 0x80;
    prg[0x7FFE] = 0x00;
    prg[0x7FFF] = 0xA0;
    bytes.extend_from_slice(&prg);
    bytes
}

fn bus() -> BUS {
    BUS::new(PPU::new(), ROM::from_bytes(&image(0, &[])).ok().unwrap(), APU::new())
}

#[test]
fn new_emulator_is_reset() {
    let emulator = Emulator::new(&image(0, &[])).ok().unwrap();
    assert_eq!(emulator.get_registers_cpu(), (0, 0, 0, 0x8000, 0xFD, 0x24));
    assert_eq!(emulator.get_registers_ppu(), (0, 0, 0xA0, 0, 0, 0, 0));
    assert_eq!(emulator.cpu.remaining_cycles, 7);
}

#[test]
fn new_emulator_reports_image_errors() {
    assert_eq!(Emulator::new(&[]).err(), Some(RomError::InvalidHeader));
    let mut short = image(0, &[]);
    short.truncate(1000);
    assert_eq!(Emulator::new(&short).err(), Some(RomError::Truncated));
    assert_eq!(Emulator::new(&image(4, &[])).err(), Some(RomError::UnsupportedMapper));
    assert!(Emulator::new(&image(1, &[])).is_ok());
}

#[test]
fn ram_is_mirrored_every_two_kib() {
    let mut bus = bus();
    bus.write(0x0001, 0x11);
    assert_eq!(bus.read(0x0801), 0x11);
    assert_eq!(bus.read(0x1001), 0x11);
    assert_eq!(bus.read(0x1801), 0x11);
    bus.write(0x1FFF, 0x22);
    assert_eq!(bus.read(0x07FF), 0x22);
}

#[test]
fn ppu_registers_are_mirrored_every_eight_bytes() {
    let mut bus = bus();
    bus.write(0x2008, 0x90);
    assert_eq!(bus.ppu.ctrl, 0x90);
    bus.write(0x3FF9, 0x1E);
    assert_eq!(bus.ppu.mask, 0x1E);
    bus.write(0x2005, 0x08);
    assert!(bus.ppu.w);
    assert_eq!(bus.read(0x3FFA) & 0xE0, 0xA0);
    assert!(!bus.ppu.w);
}

#[test]
fn cartridge_answers_from_4020_up_and_unmapped_reads_are_zero() {
    let mut bus = bus();
    assert_eq!(bus.read(0x8000), 0xEA);
    assert_eq!(bus.read(0xFFFD), 0x80);
    assert_eq!(bus.read(0x4020), 0);
    assert_eq!(bus.read(0x4000), 0);
    assert_eq!(bus.read(0x4014), 0);
    assert_eq!(bus.read(0x4017), 0);
    assert_eq!(bus.read(0x4018), 0);
    bus.write(0x4018, 0xFF);
    bus.write(0x8000, 0xFF);
    assert_eq!(bus.read(0x8000), 0xEA);
}

#[test]
fn mapper_writes_reach_the_cartridge() {
    let rom = ROM::from_bytes(&image(1, &[])).ok().unwrap();
    let mut bus = BUS::new(PPU::new(), rom, APU::new());
    for bit in [0u8, 1, 1, 1, 0] {
        bus.write(0x8000, bit);
    }
    assert_eq!(bus.rom.get_mirroring(), nes_core::rom::Mirroring::Vertical);
    bus.ppu.write_ppu_memory(&mut bus.rom, 0x2005, 0x12);
    assert_eq!(bus.ppu.read_ppu_memory(&bus.rom, 0x2805), 0x12);
    for bit in [1u8, 1, 1, 1, 0] {
        bus.write(0x8000, bit);
    }
    assert_eq!(bus.rom.get_mirroring(), nes_core::rom::Mirroring::Horizontal);
    assert_eq!(bus.ppu.read_ppu_memory(&bus.rom, 0x2405), 0x12);
    assert_eq!(bus.ppu.read_ppu_memory(&bus.rom, 0x2805), 0x00);
}

#[test]
fn apu_and_controller_ports() {
    let mut bus = bus();
    bus.write(0x4015, 0x01);
    bus.write(0x4003, 0x08);
    assert_eq!(bus.read(0x4015), 0x01);
    bus.write(0x4017, 0x80);
    assert!(bus.apu.five_step);
    bus.controller.update(Key::Start, true);
    bus.write(0x4016, 1);
    bus.write(0x4016, 0);
    let bits: Vec<u8> = (0..8).map(|_| bus.read(0x4016) & 1).collect();
    assert_eq!(bits, vec![0, 0, 0, 1, 0, 0, 0, 0]);
}

#[test]
fn oam_dma_copies_a_page_from_the_current_oam_address() {
    let mut bus = bus();
    for i in 0..256u16 {
        bus.write(0x0300 + i, (i as u8).wrapping_mul(3));
    }
    bus.write(0x2003, 0x10);
    bus.write(0x4014, 0x03);
    assert_eq!(bus.dma_stall, 513);
    assert_eq!(bus.ppu.oam_addr, 0x10);
    for i in 0..256usize {
        assert_eq!(bus.ppu.oam_data[(i + 0x10) % 256], (i as u8).wrapping_mul(3));
    }
    assert_eq!(bus.take_dma_stall(), 513);
    assert_eq!(bus.take_dma_stall(), 0);
}

#[test]
fn tick_runs_to_the_end_of_the_frame() {
    let mut emulator = Emulator::new(&image(0, &[0x4C, 0x00, 0x80])).ok().unwrap();
    emulator.tick();
    assert_eq!(emulator.cpu.bus.ppu.frame, 1);
    assert_eq!(emulator.cpu.bus.ppu.scanline, 0);
    assert!(emulator.cpu.bus.ppu.cycle < 3);
    emulator.tick();
    assert_eq!(emulator.cpu.bus.ppu.frame, 2);
    let mut stepped = Emulator::new(&image(0, &[0x4C, 0x00, 0x80])).ok().unwrap();
    let mut cycles = 1;
    while !stepped.clock() {
        cycles += 1;
    }
    assert_eq!(cycles, 29781);
    assert_eq!(stepped.cpu.bus.ppu.frame, 1);
}

#[test]
fn reset_returns_to_the_reset_vector() {
    let mut emulator = Emulator::new(&image(0, &[0xA9, 0x55, 0x4C, 0x02, 0x80])).ok().unwrap();
    for _ in 0..20 {
        emulator.clock();
    }
    assert_eq!(emulator.get_registers_cpu().0, 0x55);
    emulator.reset();
    assert_eq!(emulator.get_registers_cpu(), (0, 0, 0, 0x8000, 0xFD, 0x24));
}

#[test]
fn host_keys_map_to_buttons() {
    assert_eq!(map_key("z"), Some(Key::A));
    assert_eq!(map_key("x"), Some(Key::B));
    assert_eq!(map_key("Control"), Some(Key::Select));
    assert_eq!(map_key("Enter"), Some(Key::Start));
    assert_eq!(map_key("ArrowUp"), Some(Key::Up));
    assert_eq!(map_key("ArrowDown"), Some(Key::Down));
    assert_eq!(map_key("ArrowLeft"), Some(Key::Left));
    assert_eq!(map_key("ArrowRight"), Some(Key::Right));
    assert_eq!(map_key("Z"), None);
    assert_eq!(map_key(""), None);
    assert_eq!(map_key("ArrowUpp"), None);
    assert_eq!(map_key("Arrow"), None);
}

#[test]
fn key_events_press_and_release_buttons() {
    let mut emulator = Emulator::new(&image(0, &[])).ok().unwrap();
    emulator.key_down("z");
    emulator.key_down("ArrowLeft");
    emulator.key_down("q");
    assert_eq!(emulator.cpu.bus.controller.buttons(), 0x41);
    emulator.key_up("z");
    assert_eq!(emulator.cpu.bus.controller.buttons(), 0x40);
    emulator.set_button(Key::Select, true);
    assert_eq!(emulator.cpu.bus.controller.buttons(), 0x44);
    emulator.set_button(Key::Left, false);
    assert_eq!(emulator.cpu.bus.controller.buttons(), 0x04);
}

#[test]
fn render_adds_an_opaque_alpha_channel() {
    let mut emulator = Emulator::new(&image(0, &[])).ok().unwrap();
    emulator.cpu.bus.ppu.framebuffer[0] = 1;
    emulator.cpu.bus.ppu.framebuffer[1] = 2;
    emulator.cpu.bus.ppu.framebuffer[2] = 3;
    emulator.cpu.bus.ppu.framebuffer[3] = 4;
    emulator.cpu.bus.ppu.framebuffer[184319] = 9;
    let rgba = emulator.render();
    assert_eq!(rgba.len(), 256 * 240 * 4);
    assert_eq!(&rgba[0..8], &[1, 2, 3, 255, 4, 0, 0, 255]);
    assert_eq!(&rgba[245756..], &[0, 0, 9, 255]);
    assert_eq!(emulator.get_framebuffer()[184319], 9);
}

#[test]
fn nes_wraps_the_processor() {
    let rom = ROM::from_bytes(&image(0, &[0xA9, 0x42])).ok().unwrap();
    let mut cpu = CPU::new(BUS::new(PPU::new(), rom, APU::new()));
    cpu.reset();
    let mut nes = Nes::new(cpu);
    for _ in 0..8 {
        nes.tick();
    }
    assert_eq!(nes.cpu.registers.acc, 0x42);
    nes.reset();
    assert_eq!(nes.cpu.registers.acc, 0);
    assert_eq!(nes.cpu.registers.program_counter, 0x8000);
}
