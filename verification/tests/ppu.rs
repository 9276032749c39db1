use nes_core::mapper::Mapper0;
use nes_core::ppu::colors::convert_color;
use nes_core::ppu::memory::mirror_nametable_address;
use nes_core::ppu::memory::palette_index;
use nes_core::ppu::scrolling::coarse_x;
use nes_core::ppu::scrolling::coarse_y;
use nes_core::ppu::scrolling::fine_y;
use nes_core::ppu::scrolling::loopy;
use nes_core::ppu::scrolling::nametable;
use nes_core::ppu::sprite::pattern_pixel;
use nes_core::ppu::StepResult;
use nes_core::ppu::PPU;
use nes_core::rom::MapperKind;
use nes_core::rom::Mirroring;
use nes_core::rom::ROM;

/// A cartridge with 8 KiB of CHR-RAM and the given mirroring.
fn cartridge(mirroring: Mirroring) -> ROM {
    ROM {
        header: vec![0; 16],
        mapper: MapperKind::Nrom(Mapper0::new(vec![0; 0x4000], Vec::new(), 1, 0, mirroring)),
        mirroring,
        battery_backed: false,
        mapper_number: 0,
    }
}

fn set_address(ppu: &mut PPU, rom: &mut ROM, address: u16) {
    ppu.read_register(rom, 0x2002);
    ppu.write_register(rom, 0x2006, (address >> 8) as u8);
    ppu.write_register(rom, 0x2006, (address & 0xFF) as u8);
}

fn poke(ppu: &mut PPU, rom: &mut ROM, address: u16, value: u8) {
    set_address(ppu, rom, address);
    ppu.write_register(rom, 0x2007, value);
}

fn run(ppu: &mut PPU, rom: &ROM, dots: u64) -> (u64, u64) {
    let mut frames = 0;
    let mut nmis = 0;
    for _ in 0..dots {
        let result = ppu.step(rom);
        if result.new_frame {
            frames += 1;
        }
        if result.vblank_nmi {
            nmis += 1;
        }
    }
    (frames, nmis)
}

fn run_to(ppu: &mut PPU, rom: &ROM, scanline: u16, cycle: u16) {
    while !(ppu.scanline == scanline && ppu.cycle == cycle) {
        ppu.step(rom);
    }
}

fn pixel(ppu: &PPU, x: usize, y: usize) -> (u8, u8, u8) {
    let frame = ppu.get_framebuffer();
    let at = (y * 256 + x) * 3;
    (frame[at], frame[at + 1], frame[at + 2])
}

#[test]
fn power_on_state() {
    let ppu = PPU::new();
    assert_eq!(ppu.get_all_registers(), (0, 0, 0xA0, 0, 0, 0, 0));
    assert_eq!((ppu.scanline, ppu.cycle), (0, 0));
    assert!(!ppu.w);
    assert!(!ppu.odd_frame);
    assert!(ppu.oam_data.iter().all(|b| *b == 0xFF));
    assert!(ppu.get_framebuffer().iter().all(|b| *b == 0));
    assert_eq!(ppu.get_framebuffer().len(), 256 * 240 * 3);
}

#[test]
fn palette_table_has_the_2c02_colours() {
    assert_eq!(convert_color(0x00), (84, 84, 84));
    assert_eq!(convert_color(0x01), (0, 30, 116));
    assert_eq!(convert_color(0x0F), (0, 0, 0));
    assert_eq!(convert_color(0x16), (152, 34, 32));
    assert_eq!(convert_color(0x20), (236, 238, 236));
    assert_eq!(convert_color(0x3D), (160, 162, 160));
    assert_eq!(convert_color(0x41), convert_color(0x01));
    assert_eq!(convert_color(0xFF), convert_color(0x3F));
}

#[test]
fn status_read_clears_vblank_and_the_write_toggle() {
    let mut rom = cartridge(Mirroring::Horizontal);
    let mut ppu = PPU::new();
    ppu.write_register(&mut rom, 0x2005, 0x10);
    assert!(ppu.w);
    assert_eq!(ppu.read_register(&rom, 0x2002), 0xA0);
    assert!(!ppu.w);
    assert_eq!(ppu.status, 0x20);
    ppu.write_register(&mut rom, 0x2006, 0x21);
    assert!(ppu.w);
    assert_eq!(ppu.read_register(&rom, 0x3FFA), 0x20);
    assert!(!ppu.w);
}

#[test]
fn writes_to_status_are_ignored_and_write_only_registers_read_zero() {
    let mut rom = cartridge(Mirroring::Horizontal);
    let mut ppu = PPU::new();
    ppu.write_register(&mut rom, 0x2002, 0x00);
    assert_eq!(ppu.status, 0xA0);
    ppu.write_register(&mut rom, 0x2000, 0x1F);
    ppu.write_register(&mut rom, 0x2001, 0x1E);
    for register in [0x2000u16, 0x2001, 0x2003, 0x2005, 0x2006] {
        assert_eq!(ppu.read_register(&rom, register), 0);
    }
    assert_eq!(ppu.ctrl, 0x1F);
    assert_eq!(ppu.mask, 0x1E);
}

#[test]
fn scroll_and_address_writes_fill_the_loopy_registers() {
    let mut rom = cartridge(Mirroring::Horizontal);
    let mut ppu = PPU::new();
    ppu.write_register(&mut rom, 0x2000, 0x00);
    ppu.write_register(&mut rom, 0x2005, 0x7D);
    assert_eq!(ppu.t, 0x000F);
    assert_eq!(ppu.x, 5);
    assert!(ppu.w);
    ppu.write_register(&mut rom, 0x2005, 0x5E);
    assert_eq!(ppu.t, 0x616F);
    assert!(!ppu.w);
    assert_eq!(ppu.scroll, 0x5E);
    ppu.write_register(&mut rom, 0x2006, 0x3D);
    assert_eq!(ppu.t, 0x3D6F);
    assert!(ppu.w);
    assert_eq!(ppu.v, 0);
    ppu.write_register(&mut rom, 0x2006, 0xF0);
    assert_eq!(ppu.t, 0x3DF0);
    assert_eq!(ppu.v, 0x3DF0);
    assert!(!ppu.w);
    assert_eq!(ppu.get_all_registers().5, 0xF0);
    assert_eq!(ppu.get_all_registers().6, 0x3DF0);
}

#[test]
fn control_write_selects_the_nametable_in_t() {
    let mut rom = cartridge(Mirroring::Horizontal);
    let mut ppu = PPU::new();
    ppu.write_register(&mut rom, 0x2000, 0x03);
    assert_eq!(ppu.t, 0x0C00);
    ppu.write_register(&mut rom, 0x2000, 0x01);
    assert_eq!(ppu.t, 0x0400);
    ppu.write_register(&mut rom, 0x2006, 0xFF);
    assert_eq!(ppu.t, 0x3F00);
}

#[test]
fn loopy_fields_pack_and_unpack() {
    let v = loopy(6, 2, 11, 15);
    assert_eq!(v, 0x696F);
    assert_eq!(fine_y(v), 6);
    assert_eq!(nametable(v), 2);
    assert_eq!(coarse_y(v), 11);
    assert_eq!(coarse_x(v), 15);
    assert_eq!(loopy(7, 3, 31, 31), 0x7FFF);
}

#[test]
fn data_port_steps_by_one_or_thirty_two() {
    let mut rom = cartridge(Mirroring::Vertical);
    let mut ppu = PPU::new();
    set_address(&mut ppu, &mut rom, 0x2000);
    ppu.write_register(&mut rom, 0x2007, 1);
    assert_eq!(ppu.v, 0x2001);
    ppu.write_register(&mut rom, 0x2000, 0x04);
    ppu.write_register(&mut rom, 0x2007, 2);
    assert_eq!(ppu.v, 0x2021);
    ppu.read_register(&rom, 0x2007);
    assert_eq!(ppu.v, 0x2041);
    set_address(&mut ppu, &mut rom, 0x3FFF);
    ppu.read_register(&rom, 0x2007);
    assert_eq!(ppu.v, 0x401F);
    ppu.v = 0x7FFF;
    ppu.write_register(&mut rom, 0x2000, 0x00);
    ppu.read_register(&rom, 0x2007);
    assert_eq!(ppu.v, 0x0000);
}

#[test]
fn data_reads_below_the_palette_are_buffered() {
    for increment in [1u16, 32] {
        let mut rom = cartridge(Mirroring::FourScreen);
        let mut ppu = PPU::new();
        poke(&mut ppu, &mut rom, 0x2100, 0xAA);
        poke(&mut ppu, &mut rom, 0x2100 + increment, 0xBB);
        ppu.write_register(&mut rom, 0x2000, if increment == 32 { 0x04 } else { 0x00 });
        ppu.read_buffer = 0x5C;
        set_address(&mut ppu, &mut rom, 0x2100);
        assert_eq!(ppu.read_register(&rom, 0x2007), 0x5C);
        assert_eq!(ppu.read_register(&rom, 0x2007), 0xAA);
        assert_eq!(ppu.read_buffer, 0xBB);
    }
}

#[test]
fn data_reads_in_the_palette_are_immediate() {
    let mut rom = cartridge(Mirroring::Horizontal);
    let mut ppu = PPU::new();
    poke(&mut ppu, &mut rom, 0x2F05, 0x77);
    poke(&mut ppu, &mut rom, 0x3F05, 0x2A);
    ppu.read_buffer = 0x11;
    set_address(&mut ppu, &mut rom, 0x3F05);
    assert_eq!(ppu.read_register(&rom, 0x2007), 0x2A);
    assert_eq!(ppu.read_buffer, 0x77);
}

#[test]
fn pattern_tables_live_on_the_cartridge() {
    let mut rom = cartridge(Mirroring::Horizontal);
    let mut ppu = PPU::new();
    poke(&mut ppu, &mut rom, 0x0123, 0x99);
    assert_eq!(rom.read_chr(0x0123), 0x99);
    assert_eq!(ppu.read_ppu_memory(&rom, 0x0123), 0x99);
    assert_eq!(ppu.read_ppu_memory(&rom, 0x4123), 0x99);
}

#[test]
fn palette_entries_round_trip_through_their_aliases() {
    let mut rom = cartridge(Mirroring::Horizontal);
    let mut ppu = PPU::new();
    for (n, (written, read)) in [(0x3F10u16, 0x3F00u16), (0x3F04, 0x3F14), (0x3F18, 0x3F08), (0x3F0C, 0x3F1C)]
        .iter()
        .enumerate()
    {
        ppu.write_ppu_memory(&mut rom, *written, 0x20 + n as u8);
        assert_eq!(ppu.read_ppu_memory(&rom, *read), 0x20 + n as u8);
        assert_eq!(ppu.read_ppu_memory(&rom, *written), 0x20 + n as u8);
    }
    for address in 0x3F00..0x3F20u16 {
        ppu.write_ppu_memory(&mut rom, address, address as u8);
        assert_eq!(ppu.read_ppu_memory(&rom, address), address as u8);
        assert_eq!(ppu.read_ppu_memory(&rom, address + 0x20), address as u8);
        assert_eq!(ppu.read_ppu_memory(&rom, address + 0xE0), address as u8);
    }
    ppu.write_ppu_memory(&mut rom, 0x3F11, 0x01);
    ppu.write_ppu_memory(&mut rom, 0x3F01, 0x02);
    assert_eq!(ppu.read_ppu_memory(&rom, 0x3F11), 0x01);
    assert_eq!(palette_index(0x3F10), 0);
    assert_eq!(palette_index(0x3F1C), 12);
    assert_eq!(palette_index(0x3F1D), 29);
}

#[test]
fn nametables_fold_by_the_mirroring() {
    assert_eq!(mirror_nametable_address(0x2000, Mirroring::Horizontal), 0x2000);
    assert_eq!(mirror_nametable_address(0x2400, Mirroring::Horizontal), 0x2000);
    assert_eq!(mirror_nametable_address(0x2800, Mirroring::Horizontal), 0x2800);
    assert_eq!(mirror_nametable_address(0x2C05, Mirroring::Horizontal), 0x2805);
    assert_eq!(mirror_nametable_address(0x2400, Mirroring::Vertical), 0x2400);
    assert_eq!(mirror_nametable_address(0x2800, Mirroring::Vertical), 0x2000);
    assert_eq!(mirror_nametable_address(0x2C05, Mirroring::Vertical), 0x2405);
    assert_eq!(mirror_nametable_address(0x2C05, Mirroring::OneScreenLo), 0x2005);
    assert_eq!(mirror_nametable_address(0x2805, Mirroring::OneScreenHi), 0x2405);
    assert_eq!(mirror_nametable_address(0x2C05, Mirroring::FourScreen), 0x2C05);
    assert_eq!(mirror_nametable_address(0x3C05, Mirroring::FourScreen), 0x2C05);
    assert_eq!(mirror_nametable_address(0x3EFF, Mirroring::Vertical), 0x26FF);
}

#[test]
fn nametable_writes_show_through_their_mirrors() {
    let mut rom = cartridge(Mirroring::Vertical);
    let mut ppu = PPU::new();
    ppu.write_ppu_memory(&mut rom, 0x2005, 0x12);
    assert_eq!(ppu.read_ppu_memory(&rom, 0x2805), 0x12);
    assert_eq!(ppu.read_ppu_memory(&rom, 0x3005), 0x12);
    assert_eq!(ppu.read_ppu_memory(&rom, 0x2405), 0x00);
    let mut horizontal = cartridge(Mirroring::Horizontal);
    ppu.write_ppu_memory(&mut horizontal, 0x2406, 0x34);
    assert_eq!(ppu.read_ppu_memory(&horizontal, 0x2006), 0x34);
    assert_eq!(ppu.read_ppu_memory(&horizontal, 0x2806), 0x00);
}

#[test]
fn oam_port_writes_and_advances() {
    let mut rom = cartridge(Mirroring::Horizontal);
    let mut ppu = PPU::new();
    ppu.write_register(&mut rom, 0x2003, 0xFE);
    ppu.write_register(&mut rom, 0x2004, 0x11);
    ppu.write_register(&mut rom, 0x2004, 0x22);
    ppu.write_register(&mut rom, 0x2004, 0x33);
    assert_eq!(ppu.oam_addr, 0x01);
    assert_eq!(ppu.oam_data[0xFE], 0x11);
    assert_eq!(ppu.oam_data[0xFF], 0x22);
    assert_eq!(ppu.oam_data[0x00], 0x33);
    ppu.write_register(&mut rom, 0x2003, 0xFF);
    assert_eq!(ppu.read_register(&rom, 0x2004), 0x22);
    assert_eq!(ppu.oam_addr, 0xFF);
}

#[test]
fn dot_counter_stays_on_the_grid() {
    let rom = cartridge(Mirroring::Horizontal);
    let mut ppu = PPU::new();
    ppu.mask = 0x18;
    for n in 1..=(3 * 89342u64) {
        ppu.step(&rom);
        assert!(ppu.cycle <= 340 && ppu.scanline <= 261, "after {} dots", n);
    }
}

#[test]
fn a_step_moves_one_dot() {
    let rom = cartridge(Mirroring::Horizontal);
    let mut ppu = PPU::new();
    assert_eq!(ppu.step(&rom), StepResult { new_frame: false, vblank_nmi: false });
    assert_eq!((ppu.scanline, ppu.cycle), (0, 1));
    run(&mut ppu, &rom, 339);
    assert_eq!((ppu.scanline, ppu.cycle), (0, 340));
    ppu.step(&rom);
    assert_eq!((ppu.scanline, ppu.cycle), (1, 0));
}

#[test]
fn frames_without_rendering_have_full_length() {
    let rom = cartridge(Mirroring::Horizontal);
    let mut ppu = PPU::new();
    for frame in 1..=3u64 {
        assert_eq!(run(&mut ppu, &rom, 89341).0, 0);
        let last = ppu.step(&rom);
        assert!(last.new_frame);
        assert_eq!((ppu.scanline, ppu.cycle), (0, 0));
        assert_eq!(ppu.frame, frame);
        assert_eq!(ppu.odd_frame, frame % 2 == 1);
    }
}

#[test]
fn odd_frames_with_rendering_are_one_dot_short() {
    let rom = cartridge(Mirroring::Horizontal);
    let mut ppu = PPU::new();
    ppu.mask = 0x08;
    assert_eq!(run(&mut ppu, &rom, 89341).0, 0);
    assert!(ppu.step(&rom).new_frame);
    assert!(ppu.odd_frame);
    assert_eq!(run(&mut ppu, &rom, 89340).0, 0);
    assert_eq!((ppu.scanline, ppu.cycle), (261, 339));
    assert!(ppu.step(&rom).new_frame);
    assert_eq!((ppu.scanline, ppu.cycle), (0, 0));
    assert!(!ppu.odd_frame);
    assert_eq!(run(&mut ppu, &rom, 89341).0, 0);
    assert_eq!((ppu.scanline, ppu.cycle), (261, 340));
}

#[test]
fn vblank_begins_after_exactly_241_lines_and_one_dot() {
    let mut rom = cartridge(Mirroring::Horizontal);
    let mut ppu = PPU::new();
    ppu.read_register(&rom, 0x2002);
    ppu.write_register(&mut rom, 0x2000, 0x80);
    assert_eq!(run(&mut ppu, &rom, 241 * 341), (0, 0));
    assert_eq!(ppu.status & 0x80, 0);
    assert!(!ppu.nmi_occurred);
    let result = ppu.step(&rom);
    assert!(result.vblank_nmi);
    assert_eq!(ppu.status & 0x80, 0x80);
    assert!(ppu.nmi_occurred);
    assert_eq!((ppu.scanline, ppu.cycle), (241, 1));
    assert_eq!(run(&mut ppu, &rom, 89342 - 241 * 341 - 1), (1, 0));
}

#[test]
fn vblank_without_nmi_output_sets_the_flag_only() {
    let rom = cartridge(Mirroring::Horizontal);
    let mut ppu = PPU::new();
    assert_eq!(run(&mut ppu, &rom, 241 * 341 + 1), (0, 0));
    assert_eq!(ppu.status & 0x80, 0x80);
    assert!(ppu.nmi_occurred);
}

#[test]
fn pre_render_line_clears_the_flags() {
    let rom = cartridge(Mirroring::Horizontal);
    let mut ppu = PPU::new();
    run_to(&mut ppu, &rom, 261, 0);
    ppu.status = 0xFF;
    ppu.step(&rom);
    assert_eq!(ppu.status, 0x1F);
    assert!(!ppu.nmi_occurred);
}

#[test]
fn enabling_nmi_output_during_vblank_raises_an_edge_once() {
    let mut rom = cartridge(Mirroring::Horizontal);
    let mut ppu = PPU::new();
    run_to(&mut ppu, &rom, 245, 0);
    assert!(!ppu.take_nmi_edge());
    ppu.write_register(&mut rom, 0x2000, 0x80);
    assert!(ppu.nmi_pending);
    assert!(ppu.take_nmi_edge());
    assert!(!ppu.take_nmi_edge());
    ppu.write_register(&mut rom, 0x2000, 0x80);
    assert!(!ppu.take_nmi_edge());
    ppu.write_register(&mut rom, 0x2000, 0x00);
    ppu.read_register(&rom, 0x2002);
    ppu.write_register(&mut rom, 0x2000, 0x80);
    assert!(!ppu.take_nmi_edge());
}

#[test]
fn nmi_line_is_down_while_output_is_on_and_vblank_is_flagged() {
    let mut rom = cartridge(Mirroring::Horizontal);
    let mut ppu = PPU::new();
    assert!(!ppu.trigger_nmi());
    ppu.write_register(&mut rom, 0x2000, 0x80);
    assert!(!ppu.trigger_nmi());
    run_to(&mut ppu, &rom, 241, 1);
    assert!(ppu.nmi_output && ppu.nmi_occurred);
    assert!(!ppu.nmi_pending);
    let before = ppu.get_all_registers();
    assert!(ppu.trigger_nmi());
    assert!(ppu.trigger_nmi());
    assert!(ppu.nmi_output && ppu.nmi_occurred && !ppu.nmi_pending);
    assert_eq!(ppu.get_all_registers(), before);
    ppu.write_register(&mut rom, 0x2000, 0x00);
    assert!(!ppu.trigger_nmi());
    ppu.write_register(&mut rom, 0x2000, 0x80);
    assert!(ppu.nmi_pending);
    assert!(ppu.trigger_nmi());
    assert!(ppu.nmi_pending);
    ppu.read_register(&rom, 0x2002);
    assert!(!ppu.trigger_nmi());
    run_to(&mut ppu, &rom, 261, 1);
    assert!(!ppu.trigger_nmi());
}

#[test]
fn coarse_x_wraps_into_the_next_nametable() {
    let mut ppu = PPU::new();
    ppu.mask = 0x08;
    ppu.v = loopy(3, 0, 5, 30);
    ppu.increment_scroll_x();
    assert_eq!(ppu.v, loopy(3, 0, 5, 31));
    ppu.increment_scroll_x();
    assert_eq!(ppu.v, loopy(3, 1, 5, 0));
    ppu.v = loopy(0, 3, 0, 31);
    ppu.increment_scroll_x();
    assert_eq!(ppu.v, loopy(0, 2, 0, 0));
    ppu.mask = 0x00;
    ppu.increment_scroll_x();
    assert_eq!(ppu.v, loopy(0, 2, 0, 0));
}

#[test]
fn fine_y_carries_into_coarse_y() {
    let mut ppu = PPU::new();
    ppu.mask = 0x10;
    ppu.v = loopy(6, 0, 4, 9);
    ppu.increment_scroll_y();
    assert_eq!(ppu.v, loopy(7, 0, 4, 9));
    ppu.increment_scroll_y();
    assert_eq!(ppu.v, loopy(0, 0, 5, 9));
    ppu.v = loopy(7, 1, 29, 9);
    ppu.increment_scroll_y();
    assert_eq!(ppu.v, loopy(0, 3, 0, 9));
    ppu.v = loopy(7, 2, 29, 9);
    ppu.increment_scroll_y();
    assert_eq!(ppu.v, loopy(0, 0, 0, 9));
    ppu.v = loopy(7, 1, 31, 9);
    ppu.increment_scroll_y();
    assert_eq!(ppu.v, loopy(0, 1, 0, 9));
    ppu.v = loopy(7, 1, 30, 9);
    ppu.increment_scroll_y();
    assert_eq!(ppu.v, loopy(0, 1, 31, 9));
}

#[test]
fn scroll_transfers_copy_their_half_of_t() {
    let mut ppu = PPU::new();
    ppu.mask = 0x08;
    ppu.v = loopy(1, 0, 2, 3);
    ppu.t = loopy(7, 3, 30, 29);
    ppu.transfer_address_x();
    assert_eq!(ppu.v, loopy(1, 1, 2, 29));
    ppu.v = loopy(1, 0, 2, 3);
    ppu.transfer_address_y();
    assert_eq!(ppu.v, loopy(7, 2, 30, 3));
    ppu.mask = 0x00;
    ppu.v = 0x1234;
    ppu.transfer_address_x();
    ppu.transfer_address_y();
    assert_eq!(ppu.v, 0x1234);
}

#[test]
fn pattern_pixel_combines_the_planes() {
    assert_eq!(pattern_pixel(0x8001, 0), 1);
    assert_eq!(pattern_pixel(0x8001, 7), 2);
    assert_eq!(pattern_pixel(0x8181, 7), 3);
    assert_eq!(pattern_pixel(0x8181, 3), 0);
}

fn place_sprite(ppu: &mut PPU, index: usize, y: u8, tile: u8, attributes: u8, x: u8) {
    ppu.oam_data[index * 4] = y;
    ppu.oam_data[index * 4 + 1] = tile;
    ppu.oam_data[index * 4 + 2] = attributes;
    ppu.oam_data[index * 4 + 3] = x;
}

#[test]
fn eight_sprites_are_selected_and_the_ninth_sets_overflow() {
    let rom = cartridge(Mirroring::Horizontal);
    let mut ppu = PPU::new();
    ppu.status = 0;
    ppu.scanline = 50;
    for index in 0..8 {
        place_sprite(&mut ppu, index * 2 + 1, 45, index as u8, 0, (index * 10) as u8);
    }
    ppu.evaluate_sprites(&rom);
    assert_eq!(ppu.sprite_count, 8);
    assert_eq!(ppu.status & 0x20, 0);
    assert!(!ppu.sprite_zero_hit_possible);
    assert_eq!(&ppu.sprite_indexes, &[1, 3, 5, 7, 9, 11, 13, 15]);
    assert_eq!(&ppu.secondary_oam[4..8], &[45, 1, 0, 10]);
    place_sprite(&mut ppu, 40, 50, 9, 0, 200);
    ppu.evaluate_sprites(&rom);
    assert_eq!(ppu.sprite_count, 8);
    assert_eq!(ppu.status & 0x20, 0x20);
    assert_eq!(&ppu.sprite_indexes, &[1, 3, 5, 7, 9, 11, 13, 15]);
}

#[test]
fn sprites_cover_height_rows_from_their_y() {
    let rom = cartridge(Mirroring::Horizontal);
    let mut ppu = PPU::new();
    place_sprite(&mut ppu, 0, 100, 0, 0, 0);
    for (scanline, tall, selected) in
        [(99u16, false, 0usize), (100, false, 1), (107, false, 1), (108, false, 0), (108, true, 1), (115, true, 1), (116, true, 0)]
    {
        ppu.scanline = scanline;
        ppu.ctrl = if tall { 0x20 } else { 0x00 };
        ppu.evaluate_sprites(&rom);
        assert_eq!(ppu.sprite_count, selected, "scanline {} tall {}", scanline, tall);
        assert_eq!(ppu.sprite_zero_hit_possible, selected == 1);
    }
}

#[test]
fn sprite_rows_follow_size_table_and_vertical_flip() {
    let mut rom = cartridge(Mirroring::Horizontal);
    let mut ppu = PPU::new();
    for address in 0..0x2000u16 {
        ppu.write_ppu_memory(&mut rom, address, (address >> 3) as u8 ^ (address as u8) << 5);
    }
    let byte = |address: u16| ((address >> 3) as u8 ^ (address as u8) << 5) as u16;
    let pattern = |address: u16| byte(address + 8) << 8 | byte(address);
    place_sprite(&mut ppu, 0, 10, 0x21, 0x00, 7);
    ppu.scanline = 13;
    ppu.evaluate_sprites(&rom);
    assert_eq!(ppu.sprite_patterns[0], pattern(0x0213));
    assert_eq!(ppu.sprite_positions[0], 7);
    assert_eq!(ppu.sprite_priorities[0], 0);
    ppu.ctrl = 0x08;
    ppu.evaluate_sprites(&rom);
    assert_eq!(ppu.sprite_patterns[0], pattern(0x1213));
    place_sprite(&mut ppu, 0, 10, 0x21, 0xA0, 7);
    ppu.evaluate_sprites(&rom);
    assert_eq!(ppu.sprite_patterns[0], pattern(0x1214));
    assert_eq!(ppu.sprite_priorities[0], 1);
    ppu.ctrl = 0x20;
    place_sprite(&mut ppu, 0, 10, 0x21, 0x00, 7);
    ppu.evaluate_sprites(&rom);
    assert_eq!(ppu.sprite_patterns[0], pattern(0x1203));
    ppu.scanline = 21;
    ppu.evaluate_sprites(&rom);
    assert_eq!(ppu.sprite_patterns[0], pattern(0x1213));
    place_sprite(&mut ppu, 0, 10, 0x20, 0x80, 7);
    ppu.evaluate_sprites(&rom);
    assert_eq!(ppu.sprite_patterns[0], pattern(0x0204));
}

#[test]
fn first_opaque_sprite_pixel_wins_and_flips_horizontally() {
    let mut ppu = PPU::new();
    ppu.sprite_count = 2;
    ppu.sprite_positions[0] = 10;
    ppu.sprite_patterns[0] = 0x0080;
    ppu.secondary_oam[2] = 0x01;
    ppu.sprite_priorities[0] = 0;
    ppu.sprite_indexes[0] = 0;
    ppu.sprite_positions[1] = 10;
    ppu.sprite_patterns[1] = 0xFF00;
    ppu.secondary_oam[6] = 0x22;
    ppu.sprite_priorities[1] = 1;
    ppu.sprite_indexes[1] = 5;
    assert_eq!(ppu.get_sprite_pixel(10), (1, 5, true, true));
    assert_eq!(ppu.get_sprite_pixel(11), (2, 6, false, false));
    assert_eq!(ppu.get_sprite_pixel(17), (2, 6, false, false));
    assert_eq!(ppu.get_sprite_pixel(18), (0, 0, false, false));
    assert_eq!(ppu.get_sprite_pixel(9), (0, 0, false, false));
    ppu.secondary_oam[2] = 0x41;
    assert_eq!(ppu.get_sprite_pixel(17), (1, 5, true, true));
    assert_eq!(ppu.get_sprite_pixel(10), (2, 6, false, false));
}

/// A PPU showing tile 1 (solid colour 1) at the top left of nametable 0 and
/// tile 0 (transparent) elsewhere, with backdrop `$0F` and colour 1 = `$01`.
fn with_background(rom: &mut ROM) -> PPU {
    let mut ppu = PPU::new();
    for row in 0..8u16 {
        ppu.write_ppu_memory(rom, 0x0010 + row, 0xFF);
    }
    ppu.write_ppu_memory(rom, 0x2000, 0x01);
    ppu.write_ppu_memory(rom, 0x3F00, 0x0F);
    ppu.write_ppu_memory(rom, 0x3F01, 0x01);
    ppu.write_ppu_memory(rom, 0x3F11, 0x16);
    ppu.write_ppu_memory(rom, 0x3F12, 0x2A);
    ppu
}

#[test]
fn background_tiles_are_drawn_where_the_nametable_puts_them() {
    let mut rom = cartridge(Mirroring::Horizontal);
    let mut ppu = with_background(&mut rom);
    ppu.write_ppu_memory(&mut rom, 0x2000 + 2 * 32 + 3, 0x01);
    ppu.write_ppu_memory(&mut rom, 0x3F09, 0x30);
    ppu.write_ppu_memory(&mut rom, 0x23C0 + 8, 0x02);
    ppu.write_ppu_memory(&mut rom, 0x2000 + 4 * 32, 0x01);
    ppu.write_register(&mut rom, 0x2001, 0x0A);
    assert_eq!(run(&mut ppu, &rom, 2 * 89342 - 1).0, 2);
    for y in 0..8 {
        for x in 0..8 {
            assert_eq!(pixel(&ppu, x, y), (0, 30, 116), "({}, {})", x, y);
        }
        assert_eq!(pixel(&ppu, 8, y), (0, 0, 0));
    }
    assert_eq!(pixel(&ppu, 0, 8), (0, 0, 0));
    assert_eq!(pixel(&ppu, 23, 16), (0, 0, 0));
    assert_eq!(pixel(&ppu, 24, 16), (0, 30, 116));
    assert_eq!(pixel(&ppu, 31, 23), (0, 30, 116));
    assert_eq!(pixel(&ppu, 32, 23), (0, 0, 0));
    assert_eq!(pixel(&ppu, 0, 32), convert_color(0x30));
    assert_eq!(pixel(&ppu, 255, 239), (0, 0, 0));
}

#[test]
fn fine_x_scroll_shifts_the_picture_left() {
    let mut rom = cartridge(Mirroring::Horizontal);
    let mut ppu = with_background(&mut rom);
    ppu.write_register(&mut rom, 0x2001, 0x0A);
    ppu.read_register(&rom, 0x2002);
    ppu.write_register(&mut rom, 0x2005, 0x03);
    ppu.write_register(&mut rom, 0x2005, 0x00);
    run(&mut ppu, &rom, 2 * 89342 - 1);
    assert_eq!(pixel(&ppu, 4, 0), (0, 30, 116));
    assert_eq!(pixel(&ppu, 5, 0), (0, 0, 0));
}

#[test]
fn left_column_clipping_hides_the_background() {
    let mut rom = cartridge(Mirroring::Horizontal);
    let mut ppu = with_background(&mut rom);
    ppu.write_ppu_memory(&mut rom, 0x2001, 0x01);
    ppu.write_register(&mut rom, 0x2001, 0x08);
    run(&mut ppu, &rom, 2 * 89342 - 1);
    assert_eq!(pixel(&ppu, 7, 0), (0, 0, 0));
    assert_eq!(pixel(&ppu, 8, 0), (0, 30, 116));
}

#[test]
fn sprites_are_drawn_one_line_below_their_y_with_priority() {
    let mut rom = cartridge(Mirroring::Horizontal);
    let mut ppu = with_background(&mut rom);
    for row in 0..8u16 {
        ppu.write_ppu_memory(&mut rom, 0x0020 + row, 0xFF);
    }
    place_sprite(&mut ppu, 0, 2, 0x02, 0x00, 4);
    place_sprite(&mut ppu, 1, 19, 0x02, 0x20, 20);
    ppu.write_ppu_memory(&mut rom, 0x2000 + 2 * 32 + 2, 0x01);
    ppu.write_register(&mut rom, 0x2001, 0x1E);
    run(&mut ppu, &rom, 2 * 89342 - 1);
    assert_eq!(pixel(&ppu, 4, 2), (0, 30, 116));
    assert_eq!(pixel(&ppu, 4, 3), convert_color(0x16));
    assert_eq!(pixel(&ppu, 11, 10), convert_color(0x16));
    assert_eq!(pixel(&ppu, 12, 10), (0, 0, 0));
    assert_eq!(pixel(&ppu, 8, 11), (0, 0, 0));
    assert_eq!(pixel(&ppu, 20, 20), (0, 30, 116));
    assert_eq!(pixel(&ppu, 24, 20), convert_color(0x16));
    assert_eq!(ppu.status & 0x40, 0);
    run_to(&mut ppu, &rom, 3, 4);
    assert_eq!(ppu.status & 0x40, 0);
    ppu.step(&rom);
    assert_eq!(ppu.status & 0x40, 0x40);
}

#[test]
fn sprite_zero_hit_needs_both_pixels_opaque() {
    let mut rom = cartridge(Mirroring::Horizontal);
    let mut ppu = with_background(&mut rom);
    for row in 0..8u16 {
        ppu.write_ppu_memory(&mut rom, 0x0020 + row, 0xFF);
    }
    place_sprite(&mut ppu, 0, 50, 0x02, 0x00, 100);
    ppu.write_register(&mut rom, 0x2001, 0x1E);
    run(&mut ppu, &rom, 2 * 89342 - 1);
    assert_eq!(ppu.status & 0x40, 0);
    assert_eq!(pixel(&ppu, 100, 51), convert_color(0x16));
    ppu.write_ppu_memory(&mut rom, 0x2000 + 6 * 32 + 12, 0x01);
    run_to(&mut ppu, &rom, 51, 100);
    assert_eq!(ppu.status & 0x40, 0);
    ppu.step(&rom);
    assert_eq!(ppu.status & 0x40, 0x40);
}

#[test]
fn sprite_zero_hit_does_not_fire_in_the_last_column() {
    let mut rom = cartridge(Mirroring::Horizontal);
    let mut ppu = with_background(&mut rom);
    for row in 0..8u16 {
        ppu.write_ppu_memory(&mut rom, 0x0020 + row, 0x80);
    }
    for column in 0..32u16 {
        ppu.write_ppu_memory(&mut rom, 0x2000 + 6 * 32 + column, 0x01);
    }
    place_sprite(&mut ppu, 0, 50, 0x02, 0x00, 255);
    ppu.write_register(&mut rom, 0x2001, 0x1E);
    run(&mut ppu, &rom, 2 * 89342 - 1);
    assert_eq!(pixel(&ppu, 255, 51), convert_color(0x16));
    assert_eq!(pixel(&ppu, 254, 51), (0, 30, 116));
    run_to(&mut ppu, &rom, 240, 0);
    assert_eq!(ppu.status & 0x40, 0);
    place_sprite(&mut ppu, 0, 50, 0x02, 0x00, 254);
    run_to(&mut ppu, &rom, 239, 0);
    run_to(&mut ppu, &rom, 240, 0);
    assert_eq!(ppu.status & 0x40, 0x40);
}

#[test]
fn a_whole_scanline_can_be_drawn_at_once() {
    let mut rom = cartridge(Mirroring::Horizontal);
    let mut ppu = with_background(&mut rom);
    ppu.mask = 0x0A;
    ppu.scanline = 7;
    ppu.bg_shifter_pattern_lo = 0xFFFF;
    ppu.render_scanline(&rom);
    assert_eq!(ppu.cycle, 256);
    for x in 0..256 {
        assert_eq!(pixel(&ppu, x, 7), (0, 30, 116));
    }
    assert_eq!(pixel(&ppu, 0, 6), (0, 0, 0));
    assert_eq!(pixel(&ppu, 0, 8), (0, 0, 0));
    ppu.scanline = 240;
    ppu.render_scanline(&rom);
    assert_eq!(ppu.cycle, 256);
}
