use nes_core::apu::APU;
use nes_core::bus::BUS;
use nes_core::cpu::chip::AddressingModes;
use nes_core::cpu::chip::FlagUpdate;
use nes_core::cpu::chip::CPU;
use nes_core::cpu::map_instructions::Instruction;
use nes_core::ppu::PPU;
use nes_core::rom::ROM;

const C: u8 = 0x01;
const Z: u8 = 0x02;
const I: u8 = 0x04;
const D: u8 = 0x08;
const B: u8 = 0x10;
const U: u8 = 0x20;
const V: u8 = 0x40;
const N: u8 = 0x80;

/// A 32 KiB NROM image with `program` at `$8000`, reset to `$8000`, NMI to
/// `$9000` and IRQ/BRK to `$A000`.
fn image(program: &[u8]) -> Vec<u8> {
    let mut bytes = vec![0x4E, 0x45, 0x53, 0x1A, 2, 1, 0, 0];
    bytes.resize(16, 0);
    let mut prg = vec![0xEAu8; 0x8000];
    prg[..program.len()].copy_from_slice(program);
    prg[0x7FFA] = 0x00;
    prg[0x7FFB] = 0x90;
    prg[0x7FFC] = 0x00;
    prg[0x7FFD] = 0x80;
    prg[0x7FFE] = 0x00;
    prg[0x7FFF] = 0xA0;
    bytes.extend_from_slice(&prg);
    bytes.extend_from_slice(&vec![0u8; 0x2000]);
    bytes
}

fn machine(program: &[u8]) -> CPU {
    let rom = ROM::from_bytes(&image(program)).ok().unwrap();
    let mut cpu = CPU::new(BUS::new(PPU::new(), rom, APU::new()));
    cpu.reset();
    cpu
}

/// A machine whose PC points at `operand`, placed in RAM at `$0200`.
fn with_operand(operand: &[u8]) -> CPU {
    let mut cpu = machine(&[]);
    for (i, byte) in operand.iter().enumerate() {
        cpu.bus.write(0x0200 + i as u16, *byte);
    }
    cpu.registers.program_counter = 0x0200;
    cpu
}

fn flag(cpu: &CPU, mask: u8) -> bool {
    cpu.registers.status_register & mask != 0
}

#[test]
fn reset_loads_the_vector_and_the_power_on_registers() {
    let mut bytes = image(&[]);
    bytes[16 + 0x7FFC] = 0x34;
    bytes[16 + 0x7FFD] = 0x12;
    let rom = ROM::from_bytes(&bytes).ok().unwrap();
    let mut cpu = CPU::new(BUS::new(PPU::new(), rom, APU::new()));
    cpu.registers.acc = 9;
    cpu.registers.index_x = 9;
    cpu.registers.index_y = 9;
    cpu.reset();
    assert_eq!(cpu.registers.program_counter, 0x1234);
    assert_eq!(cpu.registers.stack_pointer, 0xFD);
    assert_eq!(cpu.registers.status_register, 0x24);
    assert_eq!(cpu.registers.acc, 0);
    assert_eq!(cpu.registers.index_x, 0);
    assert_eq!(cpu.registers.index_y, 0);
    assert_eq!(cpu.remaining_cycles, 7);
}

#[test]
fn new_processor_has_only_the_unused_flag() {
    let rom = ROM::from_bytes(&image(&[])).ok().unwrap();
    let cpu = CPU::new(BUS::new(PPU::new(), rom, APU::new()));
    assert_eq!(cpu.get_all_registers(), (0, 0, 0, 0, 0, U));
    assert_eq!(cpu.remaining_cycles, 0);
}

#[test]
fn adc_with_carry_out() {
    let mut cpu = with_operand(&[0xD0]);
    cpu.registers.acc = 0x50;
    cpu.adc(AddressingModes::Immediate);
    assert_eq!(cpu.registers.acc, 0x20);
    assert!(flag(&cpu, C));
    assert!(!flag(&cpu, V));
    assert!(!flag(&cpu, Z));
    assert!(!flag(&cpu, N));
    assert_eq!(cpu.remaining_cycles, 2);
}

#[test]
fn adc_with_signed_overflow() {
    let mut cpu = with_operand(&[0x50]);
    cpu.registers.acc = 0x50;
    cpu.adc(AddressingModes::Immediate);
    assert_eq!(cpu.registers.acc, 0xA0);
    assert!(!flag(&cpu, C));
    assert!(flag(&cpu, V));
    assert!(flag(&cpu, N));
}

#[test]
fn adc_overflow_truth_table() {
    let cases = [
        (0x50u8, 0x10u8, false),
        (0x50, 0x50, true),
        (0x50, 0x90, false),
        (0x50, 0xD0, false),
        (0xD0, 0x10, false),
        (0xD0, 0x50, false),
        (0xD0, 0x90, true),
        (0xD0, 0xD0, false),
    ];
    for (a, m, overflow) in cases {
        let mut cpu = with_operand(&[m]);
        cpu.registers.acc = a;
        cpu.adc(AddressingModes::Immediate);
        assert_eq!(flag(&cpu, V), overflow, "{:02X} + {:02X}", a, m);
        assert_eq!(cpu.registers.acc, a.wrapping_add(m));
    }
}

#[test]
fn adc_adds_the_carry_in() {
    let mut cpu = with_operand(&[0xFF]);
    cpu.registers.acc = 0x00;
    cpu.registers.status_register |= C;
    cpu.adc(AddressingModes::Immediate);
    assert_eq!(cpu.registers.acc, 0x00);
    assert!(flag(&cpu, C));
    assert!(flag(&cpu, Z));
}

#[test]
fn sbc_is_adc_of_the_complement() {
    let mut cpu = with_operand(&[0x30]);
    cpu.registers.acc = 0x50;
    cpu.registers.status_register |= C;
    cpu.sbc(AddressingModes::Immediate);
    assert_eq!(cpu.registers.acc, 0x20);
    assert!(flag(&cpu, C));
    assert!(!flag(&cpu, V));
    let mut borrow = with_operand(&[0x01]);
    borrow.registers.acc = 0x00;
    borrow.registers.status_register |= C;
    borrow.sbc(AddressingModes::Immediate);
    assert_eq!(borrow.registers.acc, 0xFF);
    assert!(!flag(&borrow, C));
    assert!(flag(&borrow, N));
    let mut overflow = with_operand(&[0xB0]);
    overflow.registers.acc = 0x50;
    overflow.registers.status_register |= C;
    overflow.sbc(AddressingModes::Immediate);
    assert_eq!(overflow.registers.acc, 0xA0);
    assert!(flag(&overflow, V));
}

#[test]
fn loads_set_zero_and_negative() {
    let mut cpu = with_operand(&[0x00]);
    cpu.lda(AddressingModes::Immediate);
    assert!(flag(&cpu, Z));
    assert!(!flag(&cpu, N));
    let mut cpu = with_operand(&[0x80]);
    cpu.ldx(AddressingModes::Immediate);
    assert_eq!(cpu.registers.index_x, 0x80);
    assert!(flag(&cpu, N));
    assert!(!flag(&cpu, Z));
    let mut cpu = with_operand(&[0x7F]);
    cpu.ldy(AddressingModes::Immediate);
    assert_eq!(cpu.registers.index_y, 0x7F);
    assert!(!flag(&cpu, N));
    assert_eq!(cpu.registers.program_counter, 0x0201);
}

#[test]
fn zero_page_indexing_wraps_within_the_zero_page() {
    let mut cpu = with_operand(&[0xF0]);
    cpu.registers.index_x = 0x20;
    cpu.bus.write(0x0010, 0x77);
    cpu.bus.write(0x0110, 0x99);
    cpu.lda(AddressingModes::ZeroPageIndexedX);
    assert_eq!(cpu.registers.acc, 0x77);
    assert_eq!(cpu.remaining_cycles, 4);
    let mut cpu = with_operand(&[0xFF]);
    cpu.registers.index_y = 0x02;
    cpu.bus.write(0x0001, 0x55);
    cpu.ldx(AddressingModes::ZeroPageIndexedY);
    assert_eq!(cpu.registers.index_x, 0x55);
}

#[test]
fn absolute_indexing_charges_a_cycle_for_a_page_crossing() {
    let mut cpu = with_operand(&[0xF0, 0x02]);
    cpu.registers.index_x = 0x05;
    cpu.bus.write(0x02F5, 0x11);
    cpu.lda(AddressingModes::AbsoluteIndexedX);
    assert_eq!(cpu.registers.acc, 0x11);
    assert_eq!(cpu.remaining_cycles, 4);
    assert!(!cpu.page_crossed);
    let mut cpu = with_operand(&[0xF0, 0x02]);
    cpu.registers.index_x = 0x20;
    cpu.bus.write(0x0310, 0x22);
    cpu.lda(AddressingModes::AbsoluteIndexedX);
    assert_eq!(cpu.registers.acc, 0x22);
    assert_eq!(cpu.remaining_cycles, 5);
    assert!(cpu.page_crossed);
    let mut cpu = with_operand(&[0xFF, 0x02]);
    cpu.registers.index_y = 0x01;
    cpu.bus.write(0x0300, 0x33);
    cpu.lda(AddressingModes::AbsoluteIndexedY);
    assert_eq!(cpu.registers.acc, 0x33);
    assert_eq!(cpu.remaining_cycles, 5);
}

#[test]
fn absolute_indexing_wraps_at_sixteen_bits() {
    let mut cpu = with_operand(&[0xFF, 0xFF]);
    cpu.registers.index_x = 0x11;
    cpu.bus.write(0x0010, 0x66);
    assert_eq!(cpu.get_operand_address(AddressingModes::AbsoluteIndexedX), 0x0010);
}

#[test]
fn indexed_indirect_reads_its_pointer_with_zero_page_wrap() {
    let mut cpu = with_operand(&[0xFE]);
    cpu.registers.index_x = 0x01;
    cpu.bus.write(0x00FF, 0x34);
    cpu.bus.write(0x0000, 0x03);
    cpu.bus.write(0x0100, 0x07);
    cpu.bus.write(0x0334, 0xAB);
    cpu.lda(AddressingModes::IndexedIndirect);
    assert_eq!(cpu.registers.acc, 0xAB);
    assert_eq!(cpu.remaining_cycles, 6);
}

#[test]
fn indirect_indexed_adds_y_after_the_pointer() {
    let mut cpu = with_operand(&[0x40]);
    cpu.registers.index_y = 0x10;
    cpu.bus.write(0x0040, 0xF8);
    cpu.bus.write(0x0041, 0x03);
    cpu.bus.write(0x0408, 0xCD);
    cpu.lda(AddressingModes::IndirectIndexed);
    assert_eq!(cpu.registers.acc, 0xCD);
    assert_eq!(cpu.remaining_cycles, 6);
    let mut cpu = with_operand(&[0xFF]);
    cpu.registers.index_y = 0x01;
    cpu.bus.write(0x00FF, 0x00);
    cpu.bus.write(0x0000, 0x03);
    cpu.bus.write(0x0301, 0xEF);
    cpu.lda(AddressingModes::IndirectIndexed);
    assert_eq!(cpu.registers.acc, 0xEF);
    assert_eq!(cpu.remaining_cycles, 5);
}

#[test]
fn addressing_modes_have_their_lengths() {
    assert_eq!(AddressingModes::Implicit.bytes(), 1);
    assert_eq!(AddressingModes::Accumulator.bytes(), 1);
    assert_eq!(AddressingModes::Immediate.bytes(), 2);
    assert_eq!(AddressingModes::ZeroPage.bytes(), 2);
    assert_eq!(AddressingModes::ZeroPageIndexedX.bytes(), 2);
    assert_eq!(AddressingModes::ZeroPageIndexedY.bytes(), 2);
    assert_eq!(AddressingModes::Relative.bytes(), 2);
    assert_eq!(AddressingModes::IndexedIndirect.bytes(), 2);
    assert_eq!(AddressingModes::IndirectIndexed.bytes(), 2);
    assert_eq!(AddressingModes::Absolute.bytes(), 3);
    assert_eq!(AddressingModes::AbsoluteIndexedX.bytes(), 3);
    assert_eq!(AddressingModes::AbsoluteIndexedY.bytes(), 3);
    assert_eq!(AddressingModes::Indirect.bytes(), 3);
}

#[test]
fn stores_write_without_touching_flags() {
    let mut cpu = with_operand(&[0x10]);
    cpu.registers.acc = 0x00;
    let before = cpu.registers.status_register;
    cpu.sta(AddressingModes::ZeroPage);
    assert_eq!(cpu.bus.read(0x0010), 0x00);
    assert_eq!(cpu.registers.status_register, before);
    assert_eq!(cpu.remaining_cycles, 3);
    let mut cpu = with_operand(&[0x00, 0x03]);
    cpu.registers.index_x = 0x44;
    cpu.stx(AddressingModes::Absolute);
    assert_eq!(cpu.bus.read(0x0300), 0x44);
    assert_eq!(cpu.remaining_cycles, 4);
    let mut cpu = with_operand(&[0xF0, 0x02]);
    cpu.registers.acc = 0x12;
    cpu.registers.index_x = 0x20;
    cpu.sta(AddressingModes::AbsoluteIndexedX);
    assert_eq!(cpu.bus.read(0x0310), 0x12);
    assert_eq!(cpu.remaining_cycles, 5);
    let mut cpu = with_operand(&[0x20]);
    cpu.registers.index_y = 0x09;
    cpu.registers.index_x = 0x01;
    cpu.sty(AddressingModes::ZeroPageIndexedX);
    assert_eq!(cpu.bus.read(0x0021), 0x09);
}

#[test]
fn transfers_copy_and_set_flags_except_txs() {
    let mut cpu = with_operand(&[]);
    cpu.registers.acc = 0x80;
    cpu.tax(AddressingModes::Implicit);
    assert_eq!(cpu.registers.index_x, 0x80);
    assert!(flag(&cpu, N));
    cpu.registers.acc = 0;
    cpu.tay(AddressingModes::Implicit);
    assert!(flag(&cpu, Z));
    cpu.registers.index_x = 0x01;
    cpu.txa(AddressingModes::Implicit);
    assert_eq!(cpu.registers.acc, 0x01);
    assert!(!flag(&cpu, Z));
    cpu.registers.index_y = 0x90;
    cpu.tya(AddressingModes::Implicit);
    assert_eq!(cpu.registers.acc, 0x90);
    let before = cpu.registers.status_register;
    cpu.registers.index_x = 0x00;
    cpu.txs(AddressingModes::Implicit);
    assert_eq!(cpu.registers.stack_pointer, 0x00);
    assert_eq!(cpu.registers.status_register, before);
    cpu.registers.stack_pointer = 0xFF;
    cpu.tsx(AddressingModes::Implicit);
    assert_eq!(cpu.registers.index_x, 0xFF);
    assert!(flag(&cpu, N));
    assert_eq!(cpu.remaining_cycles, 2);
}

#[test]
fn increments_and_decrements_wrap() {
    let mut cpu = with_operand(&[0x10]);
    cpu.bus.write(0x0010, 0xFF);
    cpu.inc(AddressingModes::ZeroPage);
    assert_eq!(cpu.bus.read(0x0010), 0x00);
    assert!(flag(&cpu, Z));
    assert_eq!(cpu.remaining_cycles, 5);
    let mut cpu = with_operand(&[0x10, 0x03]);
    cpu.dec(AddressingModes::Absolute);
    assert_eq!(cpu.bus.read(0x0310), 0xFF);
    assert!(flag(&cpu, N));
    assert_eq!(cpu.remaining_cycles, 6);
    cpu.registers.index_x = 0xFF;
    cpu.inx(AddressingModes::Implicit);
    assert_eq!(cpu.registers.index_x, 0);
    cpu.dex(AddressingModes::Implicit);
    assert_eq!(cpu.registers.index_x, 0xFF);
    cpu.registers.index_y = 0x7F;
    cpu.iny(AddressingModes::Implicit);
    assert_eq!(cpu.registers.index_y, 0x80);
    assert!(flag(&cpu, N));
    cpu.dey(AddressingModes::Implicit);
    assert_eq!(cpu.registers.index_y, 0x7F);
    assert!(!flag(&cpu, N));
}

#[test]
fn shifts_and_rotates_on_the_accumulator() {
    let mut cpu = with_operand(&[]);
    cpu.registers.acc = 0x81;
    cpu.asl(AddressingModes::Accumulator);
    assert_eq!(cpu.registers.acc, 0x02);
    assert!(flag(&cpu, C));
    cpu.registers.acc = 0x01;
    cpu.lsr(AddressingModes::Accumulator);
    assert_eq!(cpu.registers.acc, 0x00);
    assert!(flag(&cpu, C));
    assert!(flag(&cpu, Z));
    cpu.registers.acc = 0x40;
    cpu.rol(AddressingModes::Accumulator);
    assert_eq!(cpu.registers.acc, 0x81);
    assert!(!flag(&cpu, C));
    assert!(flag(&cpu, N));
    cpu.registers.status_register |= C;
    cpu.registers.acc = 0x02;
    cpu.ror(AddressingModes::Accumulator);
    assert_eq!(cpu.registers.acc, 0x81);
    assert!(!flag(&cpu, C));
    assert_eq!(cpu.remaining_cycles, 2);
}

#[test]
fn shifts_and_rotates_on_memory() {
    let mut cpu = with_operand(&[0x10]);
    cpu.bus.write(0x0010, 0xC0);
    cpu.asl(AddressingModes::ZeroPage);
    assert_eq!(cpu.bus.read(0x0010), 0x80);
    assert!(flag(&cpu, C));
    assert_eq!(cpu.remaining_cycles, 5);
    let mut cpu = with_operand(&[0x10, 0x03]);
    cpu.registers.index_x = 1;
    cpu.bus.write(0x0311, 0x03);
    cpu.registers.status_register |= C;
    cpu.ror(AddressingModes::AbsoluteIndexedX);
    assert_eq!(cpu.bus.read(0x0311), 0x81);
    assert!(flag(&cpu, C));
    assert_eq!(cpu.remaining_cycles, 7);
}

#[test]
fn logic_sets_zero_and_negative() {
    let mut cpu = with_operand(&[0x0F]);
    cpu.registers.acc = 0xF0;
    cpu.and(AddressingModes::Immediate);
    assert_eq!(cpu.registers.acc, 0x00);
    assert!(flag(&cpu, Z));
    let mut cpu = with_operand(&[0x0F]);
    cpu.registers.acc = 0xF0;
    cpu.ora(AddressingModes::Immediate);
    assert_eq!(cpu.registers.acc, 0xFF);
    assert!(flag(&cpu, N));
    let mut cpu = with_operand(&[0xFF]);
    cpu.registers.acc = 0x0F;
    cpu.eor(AddressingModes::Immediate);
    assert_eq!(cpu.registers.acc, 0xF0);
    assert!(flag(&cpu, N));
}

#[test]
fn bit_copies_bits_six_and_seven() {
    let mut cpu = with_operand(&[0x10]);
    cpu.bus.write(0x0010, 0xC0);
    cpu.registers.acc = 0x0F;
    cpu.bit(AddressingModes::ZeroPage);
    assert!(flag(&cpu, Z));
    assert!(flag(&cpu, V));
    assert!(flag(&cpu, N));
    assert_eq!(cpu.registers.acc, 0x0F);
    assert_eq!(cpu.remaining_cycles, 3);
    let mut cpu = with_operand(&[0x10]);
    cpu.bus.write(0x0010, 0x01);
    cpu.registers.acc = 0x01;
    cpu.bit(AddressingModes::ZeroPage);
    assert!(!flag(&cpu, Z));
    assert!(!flag(&cpu, V));
    assert!(!flag(&cpu, N));
}

#[test]
fn compares_set_carry_when_the_register_is_not_below() {
    let mut cpu = with_operand(&[0x10]);
    cpu.registers.acc = 0x10;
    cpu.cmp(AddressingModes::Immediate);
    assert!(flag(&cpu, C));
    assert!(flag(&cpu, Z));
    assert_eq!(cpu.registers.acc, 0x10);
    let mut cpu = with_operand(&[0x11]);
    cpu.registers.index_x = 0x10;
    cpu.cpx(AddressingModes::Immediate);
    assert!(!flag(&cpu, C));
    assert!(flag(&cpu, N));
    let mut cpu = with_operand(&[0x01]);
    cpu.registers.index_y = 0x80;
    cpu.cpy(AddressingModes::Immediate);
    assert!(flag(&cpu, C));
    assert!(!flag(&cpu, Z));
    assert!(!flag(&cpu, N));
}

#[test]
fn branch_not_taken_consumes_the_offset() {
    let mut cpu = with_operand(&[0x10]);
    cpu.registers.status_register |= C;
    cpu.bcc(AddressingModes::Relative);
    assert_eq!(cpu.registers.program_counter, 0x0201);
    assert_eq!(cpu.remaining_cycles, 2);
}

#[test]
fn branch_taken_costs_three_cycles_and_four_across_a_page() {
    let mut cpu = with_operand(&[0x10]);
    cpu.bcc(AddressingModes::Relative);
    assert_eq!(cpu.registers.program_counter, 0x0211);
    assert_eq!(cpu.remaining_cycles, 3);
    let mut cpu = with_operand(&[0xFD]);
    cpu.bcc(AddressingModes::Relative);
    assert_eq!(cpu.registers.program_counter, 0x01FE);
    assert_eq!(cpu.remaining_cycles, 4);
    let mut cpu = machine(&[]);
    cpu.bus.write(0x02F0, 0x7F);
    cpu.registers.program_counter = 0x02F0;
    cpu.bne(AddressingModes::Relative);
    assert_eq!(cpu.registers.program_counter, 0x0370);
    assert_eq!(cpu.remaining_cycles, 4);
}

#[test]
fn each_branch_tests_its_flag() {
    let taken = |cpu: &CPU| cpu.registers.program_counter == 0x0205;
    let mut cpu = with_operand(&[0x04]);
    cpu.registers.status_register |= C;
    cpu.bcs(AddressingModes::Relative);
    assert!(taken(&cpu));
    let mut cpu = with_operand(&[0x04]);
    cpu.registers.status_register |= Z;
    cpu.beq(AddressingModes::Relative);
    assert!(taken(&cpu));
    let mut cpu = with_operand(&[0x04]);
    cpu.registers.status_register |= Z;
    cpu.bne(AddressingModes::Relative);
    assert!(!taken(&cpu));
    let mut cpu = with_operand(&[0x04]);
    cpu.registers.status_register |= N;
    cpu.bmi(AddressingModes::Relative);
    assert!(taken(&cpu));
    let mut cpu = with_operand(&[0x04]);
    cpu.registers.status_register |= N;
    cpu.bpl(AddressingModes::Relative);
    assert!(!taken(&cpu));
    let mut cpu = with_operand(&[0x04]);
    cpu.registers.status_register |= V;
    cpu.bvs(AddressingModes::Relative);
    assert!(taken(&cpu));
    let mut cpu = with_operand(&[0x04]);
    cpu.registers.status_register |= V;
    cpu.bvc(AddressingModes::Relative);
    assert!(!taken(&cpu));
}

#[test]
fn jmp_absolute_and_indirect() {
    let mut cpu = with_operand(&[0x34, 0x12]);
    cpu.jmp(AddressingModes::Absolute);
    assert_eq!(cpu.registers.program_counter, 0x1234);
    assert_eq!(cpu.remaining_cycles, 3);
    let mut cpu = with_operand(&[0x10, 0x03]);
    cpu.bus.write(0x0310, 0x78);
    cpu.bus.write(0x0311, 0x56);
    cpu.jmp(AddressingModes::Indirect);
    assert_eq!(cpu.registers.program_counter, 0x5678);
    assert_eq!(cpu.remaining_cycles, 5);
}

#[test]
fn indirect_jmp_wraps_within_the_pointer_page() {
    let mut cpu = with_operand(&[0xFF, 0x02]);
    cpu.bus.write(0x02FF, 0x00);
    cpu.bus.write(0x0200, 0x80);
    cpu.bus.write(0x0300, 0x12);
    cpu.bus.write(0x0400, 0xFF);
    cpu.bus.write(0x0401, 0x02);
    cpu.registers.program_counter = 0x0400;
    cpu.jmp(AddressingModes::Indirect);
    assert_eq!(cpu.registers.program_counter, 0x8000);
}

#[test]
fn jsr_pushes_the_last_byte_of_the_instruction_and_rts_returns_after_it() {
    let mut cpu = with_operand(&[0x00, 0x03]);
    cpu.registers.stack_pointer = 0xFD;
    cpu.jsr(AddressingModes::Absolute);
    assert_eq!(cpu.registers.program_counter, 0x0300);
    assert_eq!(cpu.registers.stack_pointer, 0xFB);
    assert_eq!(cpu.bus.read(0x01FD), 0x02);
    assert_eq!(cpu.bus.read(0x01FC), 0x01);
    assert_eq!(cpu.remaining_cycles, 6);
    cpu.rts(AddressingModes::Implicit);
    assert_eq!(cpu.registers.program_counter, 0x0202);
    assert_eq!(cpu.registers.stack_pointer, 0xFD);
    assert_eq!(cpu.remaining_cycles, 6);
}

#[test]
fn brk_pushes_return_address_and_status_with_break_set() {
    let mut cpu = machine(&[]);
    cpu.registers.program_counter = 0x0201;
    cpu.registers.status_register = U | C;
    cpu.brk(AddressingModes::Implicit);
    assert_eq!(cpu.registers.program_counter, 0xA000);
    assert_eq!(cpu.bus.read(0x01FD), 0x02);
    assert_eq!(cpu.bus.read(0x01FC), 0x02);
    assert_eq!(cpu.bus.read(0x01FB), U | C | B);
    assert_eq!(cpu.registers.status_register, U | C | I);
    assert_eq!(cpu.registers.stack_pointer, 0xFA);
    assert_eq!(cpu.remaining_cycles, 7);
}

#[test]
fn rti_restores_status_without_break_and_returns_exactly() {
    let mut cpu = machine(&[]);
    cpu.registers.stack_pointer = 0xFA;
    cpu.bus.write(0x01FB, N | B | C);
    cpu.bus.write(0x01FC, 0x34);
    cpu.bus.write(0x01FD, 0x12);
    cpu.rti(AddressingModes::Implicit);
    assert_eq!(cpu.registers.status_register, N | C | U);
    assert_eq!(cpu.registers.program_counter, 0x1234);
    assert_eq!(cpu.registers.stack_pointer, 0xFD);
    assert_eq!(cpu.remaining_cycles, 6);
}

#[test]
fn pha_then_pla_preserves_a_and_sets_flags() {
    for a in [0x00u8, 0x01, 0x7F, 0x80, 0xFF] {
        let mut cpu = machine(&[]);
        cpu.registers.acc = a;
        cpu.pha(AddressingModes::Implicit);
        assert_eq!(cpu.registers.stack_pointer, 0xFC);
        assert_eq!(cpu.remaining_cycles, 3);
        cpu.registers.acc = a ^ 0x55;
        cpu.pla(AddressingModes::Implicit);
        assert_eq!(cpu.registers.acc, a);
        assert_eq!(cpu.registers.stack_pointer, 0xFD);
        assert_eq!(flag(&cpu, Z), a == 0);
        assert_eq!(flag(&cpu, N), a >= 0x80);
        assert_eq!(cpu.remaining_cycles, 4);
    }
}

#[test]
fn stack_pointer_wraps() {
    let mut cpu = machine(&[]);
    cpu.registers.stack_pointer = 0x00;
    cpu.push(0xAA);
    assert_eq!(cpu.registers.stack_pointer, 0xFF);
    assert_eq!(cpu.bus.read(0x0100), 0xAA);
    assert_eq!(cpu.pull(), 0xAA);
    assert_eq!(cpu.registers.stack_pointer, 0x00);
    cpu.push_u16(0x1234);
    assert_eq!(cpu.bus.read(0x0100), 0x12);
    assert_eq!(cpu.bus.read(0x01FF), 0x34);
    assert_eq!(cpu.pull_u16(), 0x1234);
}

#[test]
fn php_sets_break_in_the_pushed_copy_only() {
    let mut cpu = machine(&[]);
    cpu.registers.status_register = U | Z;
    cpu.php(AddressingModes::Implicit);
    assert_eq!(cpu.bus.read(0x01FD), U | Z | B);
    assert_eq!(cpu.registers.status_register, U | Z);
    assert_eq!(cpu.remaining_cycles, 3);
}

#[test]
fn plp_keeps_break_and_unused_of_the_live_register() {
    let mut cpu = machine(&[]);
    cpu.registers.status_register = U;
    cpu.registers.stack_pointer = 0xFC;
    cpu.bus.write(0x01FD, N | V | B | D | C);
    cpu.plp(AddressingModes::Implicit);
    assert_eq!(cpu.registers.status_register, N | V | D | C | U);
    assert_eq!(cpu.remaining_cycles, 4);
}

#[test]
fn flag_instructions() {
    let mut cpu = machine(&[]);
    cpu.sec(AddressingModes::Implicit);
    assert!(flag(&cpu, C));
    cpu.clc(AddressingModes::Implicit);
    assert!(!flag(&cpu, C));
    cpu.sed(AddressingModes::Implicit);
    assert!(flag(&cpu, D));
    cpu.cld(AddressingModes::Implicit);
    assert!(!flag(&cpu, D));
    cpu.cli(AddressingModes::Implicit);
    assert!(!flag(&cpu, I));
    cpu.sei(AddressingModes::Implicit);
    assert!(flag(&cpu, I));
    cpu.registers.status_register |= V;
    cpu.clv(AddressingModes::Implicit);
    assert!(!flag(&cpu, V));
    assert_eq!(cpu.remaining_cycles, 2);
    let before = cpu.get_all_registers();
    cpu.nop(AddressingModes::Implicit);
    assert_eq!(cpu.get_all_registers(), before);
}

#[test]
fn update_flags_applies_in_order() {
    let mut cpu = machine(&[]);
    cpu.registers.status_register = U;
    cpu.update_flags(
        &[
            FlagUpdate::Zero(0),
            FlagUpdate::Negative(0x80),
            FlagUpdate::Carry(true),
            FlagUpdate::Overflow(true),
            FlagUpdate::Decimal(true),
            FlagUpdate::InterruptDisable(true),
            FlagUpdate::Carry(false),
        ],
    );
    assert_eq!(cpu.registers.status_register, U | Z | N | V | D | I);
    cpu.update_flags(&[FlagUpdate::Zero(1), FlagUpdate::Break(true)]);
    assert_eq!(cpu.registers.status_register, U | N | V | D | I | B);
}

#[test]
fn opcode_table_covers_the_official_set() {
    let mut known = 0;
    for opcode in 0..=255u8 {
        if CPU::map_instructions(opcode).is_some() {
            known += 1;
        }
    }
    assert_eq!(known, 151);
    assert_eq!(CPU::map_instructions(0xA9), Some((Instruction::Lda, AddressingModes::Immediate)));
    assert_eq!(CPU::map_instructions(0x6C), Some((Instruction::Jmp, AddressingModes::Indirect)));
    assert_eq!(CPU::map_instructions(0x96), Some((Instruction::Stx, AddressingModes::ZeroPageIndexedY)));
    assert_eq!(CPU::map_instructions(0x00), Some((Instruction::Brk, AddressingModes::Implicit)));
    assert_eq!(CPU::map_instructions(0x02), None);
    assert_eq!(CPU::map_instructions(0xFF), None);
}

#[test]
fn unknown_opcode_is_a_two_cycle_no_op() {
    let mut cpu = with_operand(&[0x02, 0xA9, 0x01]);
    let before = cpu.get_all_registers();
    cpu.execute();
    assert_eq!(cpu.registers.program_counter, 0x0201);
    assert_eq!(cpu.remaining_cycles, 2);
    assert_eq!(cpu.registers.acc, before.0);
    assert_eq!(cpu.registers.status_register, before.5);
}

#[test]
fn execute_runs_the_instruction_at_pc() {
    let mut cpu = machine(&[0xA9, 0x80, 0xAA, 0x8E, 0x00, 0x03]);
    cpu.execute();
    assert_eq!(cpu.registers.acc, 0x80);
    assert_eq!(cpu.remaining_cycles, 2);
    cpu.execute();
    assert_eq!(cpu.registers.index_x, 0x80);
    cpu.execute();
    assert_eq!(cpu.bus.read(0x0300), 0x80);
    assert_eq!(cpu.registers.program_counter, 0x8006);
    assert_eq!(cpu.remaining_cycles, 4);
}

#[test]
fn clock_spends_the_cycles_of_each_instruction() {
    let mut cpu = machine(&[0xA9, 0x01, 0x8D, 0x00, 0x03]);
    for _ in 0..7 {
        cpu.clock();
    }
    assert_eq!(cpu.remaining_cycles, 0);
    assert_eq!(cpu.registers.program_counter, 0x8000);
    cpu.clock();
    assert_eq!(cpu.registers.acc, 0x01);
    assert_eq!(cpu.remaining_cycles, 1);
    cpu.clock();
    assert_eq!(cpu.remaining_cycles, 0);
    cpu.clock();
    assert_eq!(cpu.registers.program_counter, 0x8005);
    assert_eq!(cpu.remaining_cycles, 3);
}

#[test]
fn clock_advances_the_ppu_three_dots() {
    let mut cpu = machine(&[]);
    cpu.clock();
    assert_eq!((cpu.bus.ppu.scanline, cpu.bus.ppu.cycle), (0, 3));
    cpu.clock();
    cpu.clock();
    assert_eq!((cpu.bus.ppu.scanline, cpu.bus.ppu.cycle), (0, 9));
    for _ in 0..111 {
        cpu.clock();
    }
    assert_eq!((cpu.bus.ppu.scanline, cpu.bus.ppu.cycle), (1, 1));
}

#[test]
fn oam_dma_stalls_the_processor_for_513_cycles() {
    let mut cpu = machine(&[0xA9, 0x02, 0x8D, 0x14, 0x40, 0xA2, 0x07]);
    for i in 0..256u16 {
        cpu.bus.write(0x0200 + i, i as u8);
    }
    for _ in 0..7 {
        cpu.clock();
    }
    cpu.clock();
    cpu.clock();
    cpu.clock();
    assert_eq!(cpu.remaining_cycles, 4 + 513 - 1);
    assert_eq!(cpu.bus.ppu.oam_data[0], 0);
    assert_eq!(cpu.bus.ppu.oam_data[255], 255);
    assert_eq!(cpu.bus.ppu.oam_data[100], 100);
    for _ in 0..516 {
        cpu.clock();
    }
    assert_eq!(cpu.remaining_cycles, 0);
    assert_eq!(cpu.registers.index_x, 0);
    cpu.clock();
    assert_eq!(cpu.registers.index_x, 7);
}

#[test]
fn nmi_pushes_state_and_sets_interrupt_disable() {
    let mut cpu = machine(&[]);
    cpu.registers.program_counter = 0x1234;
    cpu.registers.status_register = U | C;
    cpu.trigger_nmi();
    assert_eq!(cpu.registers.program_counter, 0x9000);
    assert_eq!(cpu.bus.read(0x01FD), 0x12);
    assert_eq!(cpu.bus.read(0x01FC), 0x34);
    assert_eq!(cpu.bus.read(0x01FB), U | C);
    assert_eq!(cpu.registers.status_register, U | C | I);
    assert_eq!(cpu.remaining_cycles, 7);
}

#[test]
fn irq_is_ignored_while_interrupts_are_disabled() {
    let mut cpu = machine(&[]);
    let before = cpu.get_all_registers();
    cpu.trigger_irq();
    assert_eq!(cpu.get_all_registers(), before);
    cpu.registers.status_register = U;
    cpu.registers.program_counter = 0x4321;
    cpu.trigger_irq();
    assert_eq!(cpu.registers.program_counter, 0xA000);
    assert_eq!(cpu.bus.read(0x01FD), 0x43);
    assert_eq!(cpu.bus.read(0x01FC), 0x21);
    assert_eq!(cpu.registers.status_register, U | I);
}

#[test]
fn vblank_nmi_is_taken_before_the_next_instruction() {
    // LDA #$80; STA $2000; loop: JMP loop
    let mut cpu = machine(&[0xA9, 0x80, 0x8D, 0x00, 0x20, 0x4C, 0x05, 0x80]);
    let vblank_dot: u64 = 241 * 341 + 1;
    let mut dots: u64 = 0;
    while dots + 3 < vblank_dot {
        cpu.clock();
        dots += 3;
        assert!(!cpu.nmi_pending);
        assert!(cpu.registers.program_counter >= 0x8000 && cpu.registers.program_counter < 0x8008);
    }
    cpu.clock();
    assert!(cpu.nmi_pending);
    assert_eq!(cpu.bus.ppu.status & 0x80, 0x80);
    while cpu.remaining_cycles != 0 {
        cpu.clock();
        assert!(cpu.registers.program_counter < 0x8008);
    }
    let stacked = cpu.registers.program_counter;
    let flags = cpu.registers.status_register;
    let s = cpu.registers.stack_pointer;
    assert_eq!(s, 0xFD);
    cpu.clock();
    assert!(!cpu.nmi_pending);
    assert_eq!(cpu.registers.program_counter, 0x9000);
    assert_eq!(cpu.remaining_cycles, 6);
    assert_eq!(cpu.bus.read(0x01FD), (stacked >> 8) as u8);
    assert_eq!(cpu.bus.read(0x01FC), (stacked & 0xFF) as u8);
    assert_eq!(cpu.bus.read(0x01FB), flags & !B);
    assert_eq!(cpu.registers.stack_pointer, s.wrapping_sub(3));
    assert_eq!(cpu.registers.status_register, flags | I);
}

#[test]
fn clock_leaves_the_stack_pointer_to_the_stack_instructions() {
    // LDX #$10; STX $0300; INC $0300; LDA $0300,X; CMP #$00; BNE +0; JMP $8000
    let mut cpu = machine(&[
        0xA2, 0x10, 0x8E, 0x00, 0x03, 0xEE, 0x00, 0x03, 0xBD, 0x00, 0x03, 0xC9, 0x00, 0xD0, 0x00,
        0x4C, 0x00, 0x80,
    ]);
    cpu.bus.write(0x01FD, 0xC3);
    for _ in 0..2000 {
        cpu.clock();
        assert_eq!(cpu.registers.stack_pointer, 0xFD);
        assert_eq!(cpu.bus.read(0x01FD), 0xC3);
    }
    assert_eq!(cpu.bus.read(0x0300) != 0x10, true);
    // TXS moves it, and so does a push.
    let mut cpu = machine(&[0xA2, 0x80, 0x9A, 0x48]);
    for _ in 0..7 {
        cpu.clock();
    }
    cpu.clock();
    cpu.clock();
    assert_eq!(cpu.registers.stack_pointer, 0xFD);
    cpu.clock();
    assert_eq!(cpu.registers.stack_pointer, 0x80);
    cpu.clock();
    cpu.clock();
    assert_eq!(cpu.registers.stack_pointer, 0x7F);
}

#[test]
fn enabling_nmi_during_vblank_raises_it_at_once() {
    // loop: JMP loop, later patched through RAM
    let mut cpu = machine(&[0x4C, 0x00, 0x80]);
    for _ in 0..(241 * 341 / 3 + 10) {
        cpu.clock();
    }
    assert!(cpu.bus.ppu.nmi_occurred);
    assert!(!cpu.nmi_pending);
    // STA $2000 with A = $80, run from RAM
    cpu.bus.write(0x0000, 0x8D);
    cpu.bus.write(0x0001, 0x00);
    cpu.bus.write(0x0002, 0x20);
    cpu.registers.acc = 0x80;
    while cpu.remaining_cycles != 0 {
        cpu.clock();
    }
    cpu.registers.program_counter = 0x0000;
    cpu.clock();
    assert!(cpu.nmi_pending);
}

#[test]
fn stack_top_is_written_by_pushes_and_by_stores_aimed_at_it_only() {
    // LDA #$7F; TAX; ADC #$01; CMP #$80; BEQ +0; LDA $01FD; NOP
    let mut cpu = machine(&[0xA9, 0x7F, 0xAA, 0x69, 0x01, 0xC9, 0x80, 0xF0, 0x00, 0xAD, 0xFD, 0x01, 0xEA]);
    cpu.bus.write(0x01FD, 0x5A);
    for _ in 0..7 {
        cpu.execute();
        assert_eq!(cpu.registers.stack_pointer, 0xFD);
        assert_eq!(cpu.bus.read(0x01FD), 0x5A);
    }
    assert_eq!(cpu.registers.acc, 0x5A);
    cpu.pha(AddressingModes::Implicit);
    assert_eq!(cpu.bus.read(0x01FD), 0x5A);
    cpu.registers.acc = 0x11;
    cpu.registers.stack_pointer = 0xFD;
    cpu.pha(AddressingModes::Implicit);
    assert_eq!(cpu.bus.read(0x01FD), 0x11);
    // STA $01FD with S = $FD
    let mut cpu = with_operand(&[0xFD, 0x01]);
    cpu.registers.acc = 0x77;
    cpu.sta(AddressingModes::Absolute);
    assert_eq!(cpu.registers.stack_pointer, 0xFD);
    assert_eq!(cpu.bus.read(0x01FD), 0x77);
    assert_eq!(cpu.bus.read(0x09FD), 0x77);
}

#[test]
fn run_charges_the_documented_cycles() {
    let cases = [
        (Instruction::Lda, AddressingModes::Immediate, 2),
        (Instruction::Lda, AddressingModes::ZeroPage, 3),
        (Instruction::Lda, AddressingModes::IndexedIndirect, 6),
        (Instruction::Sta, AddressingModes::IndirectIndexed, 6),
        (Instruction::Sta, AddressingModes::AbsoluteIndexedY, 5),
        (Instruction::Inc, AddressingModes::AbsoluteIndexedX, 7),
        (Instruction::Asl, AddressingModes::Accumulator, 2),
        (Instruction::Lsr, AddressingModes::ZeroPageIndexedX, 6),
        (Instruction::Bit, AddressingModes::Absolute, 4),
        (Instruction::Jmp, AddressingModes::Absolute, 3),
        (Instruction::Jmp, AddressingModes::Indirect, 5),
        (Instruction::Jsr, AddressingModes::Absolute, 6),
        (Instruction::Rts, AddressingModes::Implicit, 6),
        (Instruction::Rti, AddressingModes::Implicit, 6),
        (Instruction::Brk, AddressingModes::Implicit, 7),
        (Instruction::Pha, AddressingModes::Implicit, 3),
        (Instruction::Php, AddressingModes::Implicit, 3),
        (Instruction::Pla, AddressingModes::Implicit, 4),
        (Instruction::Plp, AddressingModes::Implicit, 4),
        (Instruction::Nop, AddressingModes::Implicit, 2),
        (Instruction::Tax, AddressingModes::Implicit, 2),
        (Instruction::Cpx, AddressingModes::ZeroPage, 3),
    ];
    for (instruction, mode, cycles) in cases {
        let mut cpu = with_operand(&[0x10, 0x03]);
        cpu.run(instruction, mode);
        assert_eq!(cpu.remaining_cycles, cycles, "{:?} {:?}", instruction, mode);
    }
}
