//! What holds of the processor whatever state it is in: what its own work
//! can and cannot touch, how the PPU keeps pace with it, and the documented
//! corners of the instruction set.

use vstd::prelude::*;
use crate::apu::APU;
use crate::bus::BUS;
use crate::cpu::chip::AddressingModes;
use crate::cpu::chip::CPU;
use crate::cpu::chip::displaced;
use crate::cpu::chip::has_flag;
use crate::cpu::chip::next_in_page;
use crate::cpu::chip::page;
use crate::cpu::chip::with_flag;
use crate::cpu::chip::word;
use crate::cpu::chip::BREAK;
use crate::cpu::chip::CARRY;
use crate::cpu::chip::IRQ_VECTOR;
use crate::cpu::chip::NEGATIVE;
use crate::cpu::chip::NMI_VECTOR;
use crate::cpu::chip::OVERFLOW;
use crate::cpu::chip::ZERO;
use crate::cpu::instructions::spec_add_with_carry;
use crate::cpu::instructions::spec_shifted_left;
use crate::cpu::instructions::spec_shifted_right;
use crate::cpu::instructions::PUSHED_ONLY;
use crate::cpu::map_instructions::Instruction;
use crate::ppu::laws::lemma_step;

verus! {

/// A flag written reads back as written, and the other flags read as before.
pub proof fn lemma_flag_reads_back(p: u8, mask: u8, other: u8)
    by (bit_vector)
    requires
        mask == 0x01 || mask == 0x02 || mask == 0x04 || mask == 0x08 || mask == 0x10 || mask
            == 0x20 || mask == 0x40 || mask == 0x80,
        other == 0x01 || other == 0x02 || other == 0x04 || other == 0x08 || other == 0x10
            || other == 0x20 || other == 0x40 || other == 0x80,
        mask != other,
    ensures
        (p | mask) & mask != 0,
        (p & !mask) & mask == 0,
        (p | mask) & other == p & other,
        (p & !mask) & other == p & other,
{
}

impl BUS {
    /// What a read leaves alone: system RAM and the cartridge.
    pub open spec fn spec_only_read(&self, after: &BUS) -> bool {
        &&& self.spec_kept(after)
        &&& after.ram == self.ram
        &&& after.rom == self.rom
    }
}

impl CPU {
    /// What the processor's reads leave alone: system RAM and the cartridge,
    /// and with them the dot counter.
    pub open spec fn spec_only_read(&self, after: &CPU) -> bool {
        self.bus.spec_only_read(&after.bus)
    }

    /// `after` differs from `self` in the byte of RAM that `address` names at
    /// most; an address outside `$0000-$1FFF` names none.
    pub open spec fn spec_touched_only(&self, after: &CPU, address: u16) -> bool {
        if address < 0x2000 {
            after.bus.ram =~= vstd::array::spec_array_update(
                self.bus.ram,
                (address % 0x0800) as int,
                after.bus.ram[(address % 0x0800) as int],
            )
        } else {
            after.bus.ram == self.bus.ram
        }
    }

    /// `after` differs from `self` in the byte at RAM address `address` at
    /// most, which then holds `value`.
    pub open spec fn spec_stored(&self, after: &CPU, address: u16, value: u8) -> bool {
        after.bus.ram == vstd::array::spec_array_update(
            self.bus.ram,
            (address % 0x0800) as int,
            value,
        )
    }
}

/// An instruction that stores to memory or pushes on the stack.
pub open spec fn spec_writes_memory(instruction: Instruction) -> bool {
    match instruction {
        Instruction::Sta
        | Instruction::Stx
        | Instruction::Sty
        | Instruction::Inc
        | Instruction::Dec
        | Instruction::Asl
        | Instruction::Lsr
        | Instruction::Rol
        | Instruction::Ror
        | Instruction::Jsr
        | Instruction::Brk
        | Instruction::Pha
        | Instruction::Php => true,
        _ => false,
    }
}

/// A bus read never writes system RAM or the cartridge, and never moves the
/// PPU's dot counter.
pub proof fn lemma_bus_read(bus: BUS, addr: u16)
    requires
        bus.wf(),
    ensures
        bus.spec_only_read(&bus.spec_read(addr).1),
{
    reveal(BUS::spec_read);
}

/// A read of system RAM or of the cartridge changes nothing on the bus.
pub proof fn lemma_bus_read_of_memory(bus: BUS, addr: u16)
    requires
        addr < 0x2000 || addr >= 0x4020,
    ensures
        bus.spec_read(addr).1 == bus,
        addr < 0x2000 ==> bus.spec_read(addr).0 == bus.ram[(addr % 0x0800) as int],
        addr >= 0x4020 ==> bus.spec_read(addr).0 == bus.rom.spec_read(addr),
{
    reveal(BUS::spec_read);
}

proof fn lemma_dma_copy(bus: BUS, page: u8, count: int)
    requires
        bus.wf(),
        0 <= count <= 256,
    ensures
        bus.spec_kept(&bus.spec_dma_copy(page, count)),
        bus.spec_dma_copy(page, count).ram == bus.ram,
    decreases count,
{
    if count > 0 {
        lemma_dma_copy(bus, page, count - 1);
        lemma_bus_read(bus.spec_dma_copy(page, count - 1), (page * 256 + (count - 1)) as u16);
    }
}

/// A write to system RAM changes the byte addressed and nothing else on the
/// bus.
pub proof fn lemma_bus_write_to_ram(bus: BUS, addr: u16, value: u8)
    requires
        addr < 0x2000,
    ensures
        bus.spec_write(addr, value) == (BUS {
            ram: vstd::array::spec_array_update(bus.ram, (addr % 0x0800) as int, value),
            ..bus
        }),
{
    reveal(BUS::spec_write);
}

/// A bus write never moves the PPU's dot counter, and changes system RAM
/// only when it addresses it: then the one byte addressed.
pub proof fn lemma_bus_write(bus: BUS, addr: u16, value: u8)
    requires
        bus.wf(),
    ensures
        bus.spec_kept(&bus.spec_write(addr, value)),
        addr < 0x2000 ==> bus.spec_write(addr, value).ram == vstd::array::spec_array_update(
            bus.ram,
            (addr % 0x0800) as int,
            value,
        ),
        addr >= 0x2000 ==> bus.spec_write(addr, value).ram == bus.ram,
{
    reveal(BUS::spec_write);
    if addr == 0x4014 {
        lemma_dma_copy(bus, value, 256);
    }
}

pub proof fn lemma_read(c: CPU, address: u16)
    requires
        c.wf(),
    ensures
        c.spec_only_read(&c.spec_read(address).1),
{
    lemma_bus_read(c.bus, address);
}

pub proof fn lemma_write(c: CPU, address: u16, value: u8)
    requires
        c.wf(),
    ensures
        c.spec_kept(&c.spec_write(address, value)),
        address < 0x2000 ==> c.spec_stored(&c.spec_write(address, value), address, value),
        address >= 0x2000 ==> c.spec_write(address, value).bus.ram == c.bus.ram,
{
    lemma_bus_write(c.bus, address, value);
}

pub proof fn lemma_fetch(c: CPU)
    requires
        c.wf(),
    ensures
        c.spec_only_read(&c.spec_fetch().1),
{
    lemma_read(c, c.registers.program_counter);
}

pub proof fn lemma_fetch_word(c: CPU)
    requires
        c.wf(),
    ensures
        c.spec_only_read(&c.spec_fetch_word().1),
{
    lemma_fetch(c);
    lemma_fetch(c.spec_fetch().1);
}

pub proof fn lemma_read_u16(c: CPU, addr: u16)
    requires
        c.wf(),
    ensures
        c.spec_only_read(&c.spec_read_u16(addr).1),
{
    lemma_read(c, addr);
    lemma_read(c.spec_read(addr).1, addr.wrapping_add(1));
}

pub proof fn lemma_read_zero_page_word(c: CPU, pointer: u8)
    requires
        c.wf(),
    ensures
        c.spec_only_read(&c.spec_read_zero_page_word(pointer).1),
{
    lemma_read(c, pointer as u16);
    lemma_read(c.spec_read(pointer as u16).1, pointer.wrapping_add(1) as u16);
}

/// A push writes the byte at `$0100 + S` and no other byte of RAM.
pub proof fn lemma_push(c: CPU, value: u8)
    requires
        c.wf(),
    ensures
        c.spec_kept(&c.spec_push(value)),
        c.spec_stored(&c.spec_push(value), c.spec_stack_address(), value),
        c.spec_push(value).registers.stack_pointer == c.registers.stack_pointer.wrapping_sub(1),
        c.spec_push(value).bus.dma_stall == c.bus.dma_stall,
{
    lemma_write(c, c.spec_stack_address(), value);
    lemma_bus_write_to_ram(c.bus, c.spec_stack_address(), value);
}

pub proof fn lemma_push_u16(c: CPU, value: u16)
    requires
        c.wf(),
    ensures
        c.spec_kept(&c.spec_push_u16(value)),
{
    lemma_push(c, (value / 256) as u8);
    lemma_push(c.spec_push((value / 256) as u8), (value % 256) as u8);
}

/// A pull reads the byte at `$0100 + S + 1` and writes nothing.
pub proof fn lemma_pull(c: CPU)
    requires
        c.wf(),
    ensures
        c.spec_only_read(&c.spec_pull().1),
        c.spec_pull().1.registers.stack_pointer == c.registers.stack_pointer.wrapping_add(1),
        c.spec_pull().0 == c.bus.ram[0x0100 + c.registers.stack_pointer.wrapping_add(1)],
{
    let raised = c.spec_with_sp(c.registers.stack_pointer.wrapping_add(1));
    lemma_read(raised, raised.spec_stack_address());
    reveal(BUS::spec_read);
}

pub proof fn lemma_pull_u16(c: CPU)
    requires
        c.wf(),
    ensures
        c.spec_only_read(&c.spec_pull_u16().1),
{
    lemma_pull(c);
    lemma_pull(c.spec_pull().1);
}

#[verifier::rlimit(30)]
pub proof fn lemma_operand_address(c: CPU, mode: AddressingModes)
    requires
        c.wf(),
    ensures
        c.spec_only_read(&c.spec_get_operand_address(mode).1),
{
    reveal(CPU::spec_get_operand_address);
    lemma_fetch(c);
    lemma_fetch_word(c);
    let fetched = c.spec_fetch().1;
    lemma_read_zero_page_word(fetched, c.spec_fetch().0);
    lemma_read_zero_page_word(fetched, c.spec_fetch().0.wrapping_add(c.registers.index_x));
    let pointed = c.spec_fetch_word().1;
    let pointer = c.spec_fetch_word().0;
    lemma_read(pointed, pointer);
    lemma_read(pointed.spec_read(pointer).1, next_in_page(pointer));
}

pub proof fn lemma_execute_mode(c: CPU, mode: AddressingModes)
    requires
        c.wf(),
    ensures
        c.spec_only_read(&c.spec_execute_mode(mode).1),
{
    reveal(CPU::spec_execute_mode);
    lemma_operand_address(c, mode);
    lemma_read(c.spec_get_operand_address(mode).1, c.spec_get_operand_address(mode).0);
}

proof fn lemma_branch_if(c: CPU, condition: bool)
    requires
        c.wf(),
    ensures
        c.spec_only_read(&c.spec_branch_if(condition)),
        c.spec_branch_if(condition).remaining_cycles <= 4,
{
    lemma_operand_address(c, AddressingModes::Relative);
}

proof fn lemma_modify(c: CPU, mode: AddressingModes, result: u8)
    requires
        c.wf(),
    ensures
        ({
            let (address, resolved) = c.spec_get_operand_address(mode);
            let (value, read) = resolved.spec_read(address);
            &&& c.spec_kept(&read.spec_write(address, result))
            &&& c.spec_touched_only(&read.spec_write(address, result), address)
        }),
{
    lemma_operand_address(c, mode);
    let (address, resolved) = c.spec_get_operand_address(mode);
    lemma_read(resolved, address);
    lemma_write(resolved.spec_read(address).1, address, result);
}

pub proof fn lemma_interrupt(c: CPU, vector: u16)
    requires
        c.wf(),
    ensures
        c.spec_kept(&c.spec_interrupt(vector)),
        c.spec_interrupt(vector).remaining_cycles == 7,
{
    let p = c.registers.status_register;
    lemma_push_u16(c, c.registers.program_counter);
    let pushed = c.spec_push_u16(c.registers.program_counter);
    lemma_push(pushed, with_flag(p, BREAK, false));
    lemma_read_u16(pushed.spec_push(with_flag(p, BREAK, false)), vector);
}

proof fn lemma_lda(c: CPU, mode: AddressingModes)
    requires
        c.wf(),
    ensures
        c.spec_kept(&c.spec_lda(mode)),
        c.spec_lda(mode).remaining_cycles <= 8,
        c.spec_lda(mode).bus.ram == c.bus.ram,
{
    reveal(CPU::spec_lda);
    lemma_execute_mode(c, mode);
}

proof fn lemma_ldx(c: CPU, mode: AddressingModes)
    requires
        c.wf(),
    ensures
        c.spec_kept(&c.spec_ldx(mode)),
        c.spec_ldx(mode).remaining_cycles <= 8,
        c.spec_ldx(mode).bus.ram == c.bus.ram,
{
    reveal(CPU::spec_ldx);
    lemma_execute_mode(c, mode);
}

proof fn lemma_ldy(c: CPU, mode: AddressingModes)
    requires
        c.wf(),
    ensures
        c.spec_kept(&c.spec_ldy(mode)),
        c.spec_ldy(mode).remaining_cycles <= 8,
        c.spec_ldy(mode).bus.ram == c.bus.ram,
{
    reveal(CPU::spec_ldy);
    lemma_execute_mode(c, mode);
}

proof fn lemma_adc(c: CPU, mode: AddressingModes)
    requires
        c.wf(),
    ensures
        c.spec_kept(&c.spec_adc(mode)),
        c.spec_adc(mode).remaining_cycles <= 8,
        c.spec_adc(mode).bus.ram == c.bus.ram,
{
    reveal(CPU::spec_adc);
    lemma_execute_mode(c, mode);
}

proof fn lemma_sbc(c: CPU, mode: AddressingModes)
    requires
        c.wf(),
    ensures
        c.spec_kept(&c.spec_sbc(mode)),
        c.spec_sbc(mode).remaining_cycles <= 8,
        c.spec_sbc(mode).bus.ram == c.bus.ram,
{
    reveal(CPU::spec_sbc);
    lemma_execute_mode(c, mode);
}

proof fn lemma_and(c: CPU, mode: AddressingModes)
    requires
        c.wf(),
    ensures
        c.spec_kept(&c.spec_and(mode)),
        c.spec_and(mode).remaining_cycles <= 8,
        c.spec_and(mode).bus.ram == c.bus.ram,
{
    reveal(CPU::spec_and);
    lemma_execute_mode(c, mode);
}

proof fn lemma_ora(c: CPU, mode: AddressingModes)
    requires
        c.wf(),
    ensures
        c.spec_kept(&c.spec_ora(mode)),
        c.spec_ora(mode).remaining_cycles <= 8,
        c.spec_ora(mode).bus.ram == c.bus.ram,
{
    reveal(CPU::spec_ora);
    lemma_execute_mode(c, mode);
}

proof fn lemma_eor(c: CPU, mode: AddressingModes)
    requires
        c.wf(),
    ensures
        c.spec_kept(&c.spec_eor(mode)),
        c.spec_eor(mode).remaining_cycles <= 8,
        c.spec_eor(mode).bus.ram == c.bus.ram,
{
    reveal(CPU::spec_eor);
    lemma_execute_mode(c, mode);
}

proof fn lemma_bit(c: CPU, mode: AddressingModes)
    requires
        c.wf(),
    ensures
        c.spec_kept(&c.spec_bit(mode)),
        c.spec_bit(mode).remaining_cycles <= 8,
        c.spec_bit(mode).bus.ram == c.bus.ram,
{
    reveal(CPU::spec_bit);
    lemma_execute_mode(c, mode);
}

proof fn lemma_cmp(c: CPU, mode: AddressingModes)
    requires
        c.wf(),
    ensures
        c.spec_kept(&c.spec_cmp(mode)),
        c.spec_cmp(mode).remaining_cycles <= 8,
        c.spec_cmp(mode).bus.ram == c.bus.ram,
{
    reveal(CPU::spec_cmp);
    lemma_execute_mode(c, mode);
}

proof fn lemma_cpx(c: CPU, mode: AddressingModes)
    requires
        c.wf(),
    ensures
        c.spec_kept(&c.spec_cpx(mode)),
        c.spec_cpx(mode).remaining_cycles <= 8,
        c.spec_cpx(mode).bus.ram == c.bus.ram,
{
    reveal(CPU::spec_cpx);
    lemma_execute_mode(c, mode);
}

proof fn lemma_cpy(c: CPU, mode: AddressingModes)
    requires
        c.wf(),
    ensures
        c.spec_kept(&c.spec_cpy(mode)),
        c.spec_cpy(mode).remaining_cycles <= 8,
        c.spec_cpy(mode).bus.ram == c.bus.ram,
{
    reveal(CPU::spec_cpy);
    lemma_execute_mode(c, mode);
}

proof fn lemma_sta(c: CPU, mode: AddressingModes)
    requires
        c.wf(),
    ensures
        c.spec_kept(&c.spec_sta(mode)),
        c.spec_sta(mode).remaining_cycles <= 8,
        c.spec_touched_only(&c.spec_sta(mode), c.spec_get_operand_address(mode).0),
{
    reveal(CPU::spec_sta);
    lemma_operand_address(c, mode);
    lemma_write(
        c.spec_get_operand_address(mode).1,
        c.spec_get_operand_address(mode).0,
        c.registers.acc,
    );
}

proof fn lemma_stx(c: CPU, mode: AddressingModes)
    requires
        c.wf(),
    ensures
        c.spec_kept(&c.spec_stx(mode)),
        c.spec_stx(mode).remaining_cycles <= 8,
        c.spec_touched_only(&c.spec_stx(mode), c.spec_get_operand_address(mode).0),
{
    reveal(CPU::spec_stx);
    lemma_operand_address(c, mode);
    lemma_write(
        c.spec_get_operand_address(mode).1,
        c.spec_get_operand_address(mode).0,
        c.registers.index_x,
    );
}

proof fn lemma_sty(c: CPU, mode: AddressingModes)
    requires
        c.wf(),
    ensures
        c.spec_kept(&c.spec_sty(mode)),
        c.spec_sty(mode).remaining_cycles <= 8,
        c.spec_touched_only(&c.spec_sty(mode), c.spec_get_operand_address(mode).0),
{
    reveal(CPU::spec_sty);
    lemma_operand_address(c, mode);
    lemma_write(
        c.spec_get_operand_address(mode).1,
        c.spec_get_operand_address(mode).0,
        c.registers.index_y,
    );
}

proof fn lemma_tax(c: CPU, mode: AddressingModes)
    requires
        c.wf(),
    ensures
        c.spec_kept(&c.spec_tax(mode)),
        c.spec_tax(mode).remaining_cycles <= 8,
        c.spec_tax(mode).bus.ram == c.bus.ram,
{
    reveal(CPU::spec_tax);
}

proof fn lemma_txa(c: CPU, mode: AddressingModes)
    requires
        c.wf(),
    ensures
        c.spec_kept(&c.spec_txa(mode)),
        c.spec_txa(mode).remaining_cycles <= 8,
        c.spec_txa(mode).bus.ram == c.bus.ram,
{
    reveal(CPU::spec_txa);
}

proof fn lemma_tay(c: CPU, mode: AddressingModes)
    requires
        c.wf(),
    ensures
        c.spec_kept(&c.spec_tay(mode)),
        c.spec_tay(mode).remaining_cycles <= 8,
        c.spec_tay(mode).bus.ram == c.bus.ram,
{
    reveal(CPU::spec_tay);
}

proof fn lemma_tya(c: CPU, mode: AddressingModes)
    requires
        c.wf(),
    ensures
        c.spec_kept(&c.spec_tya(mode)),
        c.spec_tya(mode).remaining_cycles <= 8,
        c.spec_tya(mode).bus.ram == c.bus.ram,
{
    reveal(CPU::spec_tya);
}

proof fn lemma_inx(c: CPU, mode: AddressingModes)
    requires
        c.wf(),
    ensures
        c.spec_kept(&c.spec_inx(mode)),
        c.spec_inx(mode).remaining_cycles <= 8,
        c.spec_inx(mode).bus.ram == c.bus.ram,
{
    reveal(CPU::spec_inx);
}

proof fn lemma_dex(c: CPU, mode: AddressingModes)
    requires
        c.wf(),
    ensures
        c.spec_kept(&c.spec_dex(mode)),
        c.spec_dex(mode).remaining_cycles <= 8,
        c.spec_dex(mode).bus.ram == c.bus.ram,
{
    reveal(CPU::spec_dex);
}

proof fn lemma_iny(c: CPU, mode: AddressingModes)
    requires
        c.wf(),
    ensures
        c.spec_kept(&c.spec_iny(mode)),
        c.spec_iny(mode).remaining_cycles <= 8,
        c.spec_iny(mode).bus.ram == c.bus.ram,
{
    reveal(CPU::spec_iny);
}

proof fn lemma_dey(c: CPU, mode: AddressingModes)
    requires
        c.wf(),
    ensures
        c.spec_kept(&c.spec_dey(mode)),
        c.spec_dey(mode).remaining_cycles <= 8,
        c.spec_dey(mode).bus.ram == c.bus.ram,
{
    reveal(CPU::spec_dey);
}

proof fn lemma_txs(c: CPU, mode: AddressingModes)
    requires
        c.wf(),
    ensures
        c.spec_kept(&c.spec_txs(mode)),
        c.spec_txs(mode).remaining_cycles <= 8,
        c.spec_txs(mode).bus.ram == c.bus.ram,
{
    reveal(CPU::spec_txs);
}

proof fn lemma_tsx(c: CPU, mode: AddressingModes)
    requires
        c.wf(),
    ensures
        c.spec_kept(&c.spec_tsx(mode)),
        c.spec_tsx(mode).remaining_cycles <= 8,
        c.spec_tsx(mode).bus.ram == c.bus.ram,
{
    reveal(CPU::spec_tsx);
}

proof fn lemma_clc(c: CPU, mode: AddressingModes)
    requires
        c.wf(),
    ensures
        c.spec_kept(&c.spec_clc(mode)),
        c.spec_clc(mode).remaining_cycles <= 8,
        c.spec_clc(mode).bus.ram == c.bus.ram,
{
    reveal(CPU::spec_clc);
}

proof fn lemma_sec(c: CPU, mode: AddressingModes)
    requires
        c.wf(),
    ensures
        c.spec_kept(&c.spec_sec(mode)),
        c.spec_sec(mode).remaining_cycles <= 8,
        c.spec_sec(mode).bus.ram == c.bus.ram,
{
    reveal(CPU::spec_sec);
}

proof fn lemma_cli(c: CPU, mode: AddressingModes)
    requires
        c.wf(),
    ensures
        c.spec_kept(&c.spec_cli(mode)),
        c.spec_cli(mode).remaining_cycles <= 8,
        c.spec_cli(mode).bus.ram == c.bus.ram,
{
    reveal(CPU::spec_cli);
}

proof fn lemma_sei(c: CPU, mode: AddressingModes)
    requires
        c.wf(),
    ensures
        c.spec_kept(&c.spec_sei(mode)),
        c.spec_sei(mode).remaining_cycles <= 8,
        c.spec_sei(mode).bus.ram == c.bus.ram,
{
    reveal(CPU::spec_sei);
}

proof fn lemma_cld(c: CPU, mode: AddressingModes)
    requires
        c.wf(),
    ensures
        c.spec_kept(&c.spec_cld(mode)),
        c.spec_cld(mode).remaining_cycles <= 8,
        c.spec_cld(mode).bus.ram == c.bus.ram,
{
    reveal(CPU::spec_cld);
}

proof fn lemma_sed(c: CPU, mode: AddressingModes)
    requires
        c.wf(),
    ensures
        c.spec_kept(&c.spec_sed(mode)),
        c.spec_sed(mode).remaining_cycles <= 8,
        c.spec_sed(mode).bus.ram == c.bus.ram,
{
    reveal(CPU::spec_sed);
}

proof fn lemma_clv(c: CPU, mode: AddressingModes)
    requires
        c.wf(),
    ensures
        c.spec_kept(&c.spec_clv(mode)),
        c.spec_clv(mode).remaining_cycles <= 8,
        c.spec_clv(mode).bus.ram == c.bus.ram,
{
    reveal(CPU::spec_clv);
}

proof fn lemma_nop(c: CPU, mode: AddressingModes)
    requires
        c.wf(),
    ensures
        c.spec_kept(&c.spec_nop(mode)),
        c.spec_nop(mode).remaining_cycles <= 8,
        c.spec_nop(mode).bus.ram == c.bus.ram,
{
    reveal(CPU::spec_nop);
}

proof fn lemma_inc(c: CPU, mode: AddressingModes)
    requires
        c.wf(),
    ensures
        c.spec_kept(&c.spec_inc(mode)),
        c.spec_inc(mode).remaining_cycles <= 8,
        c.spec_touched_only(&c.spec_inc(mode), c.spec_get_operand_address(mode).0),
{
    reveal(CPU::spec_inc);
    let (address, resolved) = c.spec_get_operand_address(mode);
    lemma_modify(c, mode, resolved.spec_read(address).0.wrapping_add(1));
}

proof fn lemma_dec(c: CPU, mode: AddressingModes)
    requires
        c.wf(),
    ensures
        c.spec_kept(&c.spec_dec(mode)),
        c.spec_dec(mode).remaining_cycles <= 8,
        c.spec_touched_only(&c.spec_dec(mode), c.spec_get_operand_address(mode).0),
{
    reveal(CPU::spec_dec);
    let (address, resolved) = c.spec_get_operand_address(mode);
    lemma_modify(c, mode, resolved.spec_read(address).0.wrapping_sub(1));
}

proof fn lemma_asl(c: CPU, mode: AddressingModes)
    requires
        c.wf(),
    ensures
        c.spec_kept(&c.spec_asl(mode)),
        c.spec_asl(mode).remaining_cycles <= 8,
        c.spec_touched_only(&c.spec_asl(mode), c.spec_get_operand_address(mode).0),
{
    reveal(CPU::spec_asl);
    let (address, resolved) = c.spec_get_operand_address(mode);
    lemma_modify(
        c,
        mode,
        spec_shifted_left(resolved.spec_read(address).0, false).0,
    );
}

proof fn lemma_lsr(c: CPU, mode: AddressingModes)
    requires
        c.wf(),
    ensures
        c.spec_kept(&c.spec_lsr(mode)),
        c.spec_lsr(mode).remaining_cycles <= 8,
        c.spec_touched_only(&c.spec_lsr(mode), c.spec_get_operand_address(mode).0),
{
    reveal(CPU::spec_lsr);
    let (address, resolved) = c.spec_get_operand_address(mode);
    lemma_modify(
        c,
        mode,
        spec_shifted_right(resolved.spec_read(address).0, false).0,
    );
}

proof fn lemma_rol(c: CPU, mode: AddressingModes)
    requires
        c.wf(),
    ensures
        c.spec_kept(&c.spec_rol(mode)),
        c.spec_rol(mode).remaining_cycles <= 8,
        c.spec_touched_only(&c.spec_rol(mode), c.spec_get_operand_address(mode).0),
{
    reveal(CPU::spec_rol);
    let (address, resolved) = c.spec_get_operand_address(mode);
    lemma_modify(
        c,
        mode,
        spec_shifted_left(resolved.spec_read(address).0, has_flag(c.registers.status_register, CARRY)).0,
    );
}

proof fn lemma_ror(c: CPU, mode: AddressingModes)
    requires
        c.wf(),
    ensures
        c.spec_kept(&c.spec_ror(mode)),
        c.spec_ror(mode).remaining_cycles <= 8,
        c.spec_touched_only(&c.spec_ror(mode), c.spec_get_operand_address(mode).0),
{
    reveal(CPU::spec_ror);
    let (address, resolved) = c.spec_get_operand_address(mode);
    lemma_modify(
        c,
        mode,
        spec_shifted_right(resolved.spec_read(address).0, has_flag(c.registers.status_register, CARRY)).0,
    );
}

proof fn lemma_bcc(c: CPU, mode: AddressingModes)
    requires
        c.wf(),
    ensures
        c.spec_kept(&c.spec_bcc(mode)),
        c.spec_bcc(mode).remaining_cycles <= 8,
        c.spec_bcc(mode).bus.ram == c.bus.ram,
{
    reveal(CPU::spec_bcc);
    lemma_branch_if(c, true);
    lemma_branch_if(c, false);
}

proof fn lemma_bcs(c: CPU, mode: AddressingModes)
    requires
        c.wf(),
    ensures
        c.spec_kept(&c.spec_bcs(mode)),
        c.spec_bcs(mode).remaining_cycles <= 8,
        c.spec_bcs(mode).bus.ram == c.bus.ram,
{
    reveal(CPU::spec_bcs);
    lemma_branch_if(c, true);
    lemma_branch_if(c, false);
}

proof fn lemma_beq(c: CPU, mode: AddressingModes)
    requires
        c.wf(),
    ensures
        c.spec_kept(&c.spec_beq(mode)),
        c.spec_beq(mode).remaining_cycles <= 8,
        c.spec_beq(mode).bus.ram == c.bus.ram,
{
    reveal(CPU::spec_beq);
    lemma_branch_if(c, true);
    lemma_branch_if(c, false);
}

proof fn lemma_bne(c: CPU, mode: AddressingModes)
    requires
        c.wf(),
    ensures
        c.spec_kept(&c.spec_bne(mode)),
        c.spec_bne(mode).remaining_cycles <= 8,
        c.spec_bne(mode).bus.ram == c.bus.ram,
{
    reveal(CPU::spec_bne);
    lemma_branch_if(c, true);
    lemma_branch_if(c, false);
}

proof fn lemma_bpl(c: CPU, mode: AddressingModes)
    requires
        c.wf(),
    ensures
        c.spec_kept(&c.spec_bpl(mode)),
        c.spec_bpl(mode).remaining_cycles <= 8,
        c.spec_bpl(mode).bus.ram == c.bus.ram,
{
    reveal(CPU::spec_bpl);
    lemma_branch_if(c, true);
    lemma_branch_if(c, false);
}

proof fn lemma_bmi(c: CPU, mode: AddressingModes)
    requires
        c.wf(),
    ensures
        c.spec_kept(&c.spec_bmi(mode)),
        c.spec_bmi(mode).remaining_cycles <= 8,
        c.spec_bmi(mode).bus.ram == c.bus.ram,
{
    reveal(CPU::spec_bmi);
    lemma_branch_if(c, true);
    lemma_branch_if(c, false);
}

proof fn lemma_bvc(c: CPU, mode: AddressingModes)
    requires
        c.wf(),
    ensures
        c.spec_kept(&c.spec_bvc(mode)),
        c.spec_bvc(mode).remaining_cycles <= 8,
        c.spec_bvc(mode).bus.ram == c.bus.ram,
{
    reveal(CPU::spec_bvc);
    lemma_branch_if(c, true);
    lemma_branch_if(c, false);
}

proof fn lemma_bvs(c: CPU, mode: AddressingModes)
    requires
        c.wf(),
    ensures
        c.spec_kept(&c.spec_bvs(mode)),
        c.spec_bvs(mode).remaining_cycles <= 8,
        c.spec_bvs(mode).bus.ram == c.bus.ram,
{
    reveal(CPU::spec_bvs);
    lemma_branch_if(c, true);
    lemma_branch_if(c, false);
}

proof fn lemma_jmp(c: CPU, mode: AddressingModes)
    requires
        c.wf(),
    ensures
        c.spec_kept(&c.spec_jmp(mode)),
        c.spec_jmp(mode).remaining_cycles <= 8,
        c.spec_jmp(mode).bus.ram == c.bus.ram,
{
    reveal(CPU::spec_jmp);
    lemma_operand_address(c, mode);
}

proof fn lemma_jsr(c: CPU, mode: AddressingModes)
    requires
        c.wf(),
    ensures
        c.spec_kept(&c.spec_jsr(mode)),
        c.spec_jsr(mode).remaining_cycles <= 8,
{
    reveal(CPU::spec_jsr);
    lemma_push_u16(c, c.registers.program_counter.wrapping_add(1));
    lemma_fetch_word(c.spec_push_u16(c.registers.program_counter.wrapping_add(1)));
}

proof fn lemma_rts(c: CPU, mode: AddressingModes)
    requires
        c.wf(),
    ensures
        c.spec_kept(&c.spec_rts(mode)),
        c.spec_rts(mode).remaining_cycles <= 8,
        c.spec_rts(mode).bus.ram == c.bus.ram,
{
    reveal(CPU::spec_rts);
    lemma_pull_u16(c);
}

proof fn lemma_brk(c: CPU, mode: AddressingModes)
    requires
        c.wf(),
    ensures
        c.spec_kept(&c.spec_brk(mode)),
        c.spec_brk(mode).remaining_cycles <= 8,
{
    reveal(CPU::spec_brk);
    let p = c.registers.status_register;
    let pushed = c.spec_push_u16(c.registers.program_counter.wrapping_add(1));
    lemma_push_u16(c, c.registers.program_counter.wrapping_add(1));
    lemma_push(pushed, with_flag(p, PUSHED_ONLY, true));
    lemma_read_u16(
        pushed.spec_push(with_flag(p, PUSHED_ONLY, true)),
        IRQ_VECTOR,
    );
}

proof fn lemma_rti(c: CPU, mode: AddressingModes)
    requires
        c.wf(),
    ensures
        c.spec_kept(&c.spec_rti(mode)),
        c.spec_rti(mode).remaining_cycles <= 8,
        c.spec_rti(mode).bus.ram == c.bus.ram,
{
    reveal(CPU::spec_rti);
    lemma_pull(c);
    lemma_pull_u16(c.spec_pull().1);
}

proof fn lemma_pha(c: CPU, mode: AddressingModes)
    requires
        c.wf(),
    ensures
        c.spec_kept(&c.spec_pha(mode)),
        c.spec_pha(mode).remaining_cycles <= 8,
{
    reveal(CPU::spec_pha);
    lemma_push(c, c.registers.acc);
}

proof fn lemma_pla(c: CPU, mode: AddressingModes)
    requires
        c.wf(),
    ensures
        c.spec_kept(&c.spec_pla(mode)),
        c.spec_pla(mode).remaining_cycles <= 8,
        c.spec_pla(mode).bus.ram == c.bus.ram,
{
    reveal(CPU::spec_pla);
    lemma_pull(c);
}

proof fn lemma_php(c: CPU, mode: AddressingModes)
    requires
        c.wf(),
    ensures
        c.spec_kept(&c.spec_php(mode)),
        c.spec_php(mode).remaining_cycles <= 8,
{
    reveal(CPU::spec_php);
    lemma_push(
        c,
        with_flag(c.registers.status_register, PUSHED_ONLY, true),
    );
}

proof fn lemma_plp(c: CPU, mode: AddressingModes)
    requires
        c.wf(),
    ensures
        c.spec_kept(&c.spec_plp(mode)),
        c.spec_plp(mode).remaining_cycles <= 8,
        c.spec_plp(mode).bus.ram == c.bus.ram,
{
    reveal(CPU::spec_plp);
    lemma_pull(c);
}

/// Whatever instruction runs, in whatever mode, the machine stays well
/// formed, the PPU's dot counter stays where it is, and the instruction
/// costs at most 8 cycles. System RAM changes only under the instructions
/// that store or push.
pub proof fn law_instruction_effects(c: CPU, instruction: Instruction, mode: AddressingModes)
    requires
        c.wf(),
    ensures
        c.spec_kept(&c.spec_run(instruction, mode)),
        c.spec_run(instruction, mode).remaining_cycles <= 8,
        !spec_writes_memory(instruction) ==> c.spec_run(instruction, mode).bus.ram == c.bus.ram,
{
    match instruction {
        Instruction::Adc => lemma_adc(c, mode),
        Instruction::And => lemma_and(c, mode),
        Instruction::Asl => lemma_asl(c, mode),
        Instruction::Bcc => lemma_bcc(c, mode),
        Instruction::Bcs => lemma_bcs(c, mode),
        Instruction::Beq => lemma_beq(c, mode),
        Instruction::Bit => lemma_bit(c, mode),
        Instruction::Bmi => lemma_bmi(c, mode),
        Instruction::Bne => lemma_bne(c, mode),
        Instruction::Bpl => lemma_bpl(c, mode),
        Instruction::Brk => lemma_brk(c, mode),
        Instruction::Bvc => lemma_bvc(c, mode),
        Instruction::Bvs => lemma_bvs(c, mode),
        Instruction::Clc => lemma_clc(c, mode),
        Instruction::Cld => lemma_cld(c, mode),
        Instruction::Cli => lemma_cli(c, mode),
        Instruction::Clv => lemma_clv(c, mode),
        Instruction::Cmp => lemma_cmp(c, mode),
        Instruction::Cpx => lemma_cpx(c, mode),
        Instruction::Cpy => lemma_cpy(c, mode),
        Instruction::Dec => lemma_dec(c, mode),
        Instruction::Dex => lemma_dex(c, mode),
        Instruction::Dey => lemma_dey(c, mode),
        Instruction::Eor => lemma_eor(c, mode),
        Instruction::Inc => lemma_inc(c, mode),
        Instruction::Inx => lemma_inx(c, mode),
        Instruction::Iny => lemma_iny(c, mode),
        Instruction::Jmp => lemma_jmp(c, mode),
        Instruction::Jsr => lemma_jsr(c, mode),
        Instruction::Lda => lemma_lda(c, mode),
        Instruction::Ldx => lemma_ldx(c, mode),
        Instruction::Ldy => lemma_ldy(c, mode),
        Instruction::Lsr => lemma_lsr(c, mode),
        Instruction::Nop => lemma_nop(c, mode),
        Instruction::Ora => lemma_ora(c, mode),
        Instruction::Pha => lemma_pha(c, mode),
        Instruction::Php => lemma_php(c, mode),
        Instruction::Pla => lemma_pla(c, mode),
        Instruction::Plp => lemma_plp(c, mode),
        Instruction::Rol => lemma_rol(c, mode),
        Instruction::Ror => lemma_ror(c, mode),
        Instruction::Rti => lemma_rti(c, mode),
        Instruction::Rts => lemma_rts(c, mode),
        Instruction::Sbc => lemma_sbc(c, mode),
        Instruction::Sec => lemma_sec(c, mode),
        Instruction::Sed => lemma_sed(c, mode),
        Instruction::Sei => lemma_sei(c, mode),
        Instruction::Sta => lemma_sta(c, mode),
        Instruction::Stx => lemma_stx(c, mode),
        Instruction::Sty => lemma_sty(c, mode),
        Instruction::Tax => lemma_tax(c, mode),
        Instruction::Tay => lemma_tay(c, mode),
        Instruction::Tsx => lemma_tsx(c, mode),
        Instruction::Txa => lemma_txa(c, mode),
        Instruction::Txs => lemma_txs(c, mode),
        Instruction::Tya => lemma_tya(c, mode),
    }
}

/// The same of a whole fetch-decode-execute step.
pub proof fn law_execute_effects(c: CPU)
    requires
        c.wf(),
    ensures
        c.spec_kept(&c.spec_execute()),
        c.spec_execute().remaining_cycles <= 8,
{
    reveal(CPU::spec_execute);
    lemma_fetch(c);
    match c.spec_decode().0 {
        Some((instruction, mode)) => law_instruction_effects(c.spec_fetch().1, instruction, mode),
        None => {},
    }
}

proof fn lemma_tick_ppu_times(c: CPU, dots: nat)
    requires
        c.wf(),
    ensures
        c.spec_tick_ppu_times(dots).1.wf(),
        c.spec_tick_ppu_times(dots).1.bus.ppu.dots@ == c.bus.ppu.dots@ + dots,
    decreases dots,
{
    if dots > 0 {
        lemma_tick_ppu_times(c, (dots - 1) as nat);
        let before = c.spec_tick_ppu_times((dots - 1) as nat).1;
        lemma_step(before.bus.ppu, &before.bus.rom);
    }
}

/// Reaching the edge of an instruction, and taking an interrupt or running
/// an instruction there, leaves the PPU's dot counter where it is.
pub proof fn lemma_begin_instruction(c: CPU)
    requires
        c.wf(),
    ensures
        c.spec_kept(&c.spec_begin_instruction()),
{
    if c.remaining_cycles == 0 {
        if c.nmi_pending {
            lemma_interrupt(CPU { nmi_pending: false, ..c }, NMI_VECTOR);
        } else {
            law_execute_effects(c);
        }
    }
}

proof fn lemma_apu_tick(apu: APU)
    requires
        apu.wf(),
    ensures
        apu.spec_tick().wf(),
{
    reveal(APU::spec_tick);
}

/// In every CPU cycle, whatever the processor does in it, the PPU advances
/// by exactly three dots, and the machine stays well formed.
pub proof fn law_three_dots_per_cycle(c: CPU)
    requires
        c.wf(),
    ensures
        c.spec_clock().1.wf(),
        c.spec_clock().1.bus.ppu.dots@ == c.bus.ppu.dots@ + 3,
{
    lemma_begin_instruction(c);
    let spent = c.spec_begin_instruction().spec_spend_cycle();
    lemma_tick_ppu_times(spent, 3);
    lemma_apu_tick(spent.spec_tick_ppu_times(3).1.bus.apu);
}

/// The same of any number of CPU cycles: after `n` of them the PPU has
/// advanced by exactly `3 * n` dots.
pub proof fn law_dots_per_cycles(c: CPU, n: nat)
    requires
        c.wf(),
    ensures
        c.spec_clocks(n).1.wf(),
        c.spec_clocks(n).1.bus.ppu.dots@ == c.bus.ppu.dots@ + 3 * n,
    decreases n,
{
    if n > 0 {
        law_dots_per_cycles(c, (n - 1) as nat);
        law_three_dots_per_cycle(c.spec_clocks((n - 1) as nat).1);
    }
}

/// Over any three CPU cycles exactly nine PPU dots elapse.
pub proof fn law_nine_dots_per_three_cycles(c: CPU)
    requires
        c.wf(),
    ensures
        c.spec_clocks(3).1.bus.ppu.dots@ == c.bus.ppu.dots@ + 9,
{
    law_dots_per_cycles(c, 3);
}

/// The stack lives in page 1: S is a byte, and the address it points at is
/// `$0100 + S`, between `$0100` and `$01FF`.
pub proof fn law_stack_page(c: CPU)
    ensures
        0 <= c.registers.stack_pointer <= 255,
        0x0100 <= c.spec_stack_address() <= 0x01FF,
        c.spec_stack_address() == 0x0100 + c.registers.stack_pointer,
{
}

/// The byte at `$0100 + S` survives every instruction that neither stores
/// nor pushes.
pub proof fn law_stack_top_survives(c: CPU, instruction: Instruction, mode: AddressingModes)
    requires
        c.wf(),
        !spec_writes_memory(instruction),
    ensures
        c.spec_run(instruction, mode).bus.ram[c.spec_stack_address() as int] == c.bus.ram[
            c.spec_stack_address() as int],
{
    law_instruction_effects(c, instruction, mode);
}

/// A store changes the byte at its operand's address and no other byte of
/// RAM, so it changes the byte at `$0100 + S` only when it addresses it.
pub proof fn law_stores_touch_their_operand_only(c: CPU, mode: AddressingModes)
    requires
        c.wf(),
    ensures
        c.spec_touched_only(&c.spec_sta(mode), c.spec_get_operand_address(mode).0),
        c.spec_touched_only(&c.spec_stx(mode), c.spec_get_operand_address(mode).0),
        c.spec_touched_only(&c.spec_sty(mode), c.spec_get_operand_address(mode).0),
{
    lemma_sta(c, mode);
    lemma_stx(c, mode);
    lemma_sty(c, mode);
}

/// The same of the read-modify-write instructions.
pub proof fn law_modifies_touch_their_operand_only(c: CPU, mode: AddressingModes)
    requires
        c.wf(),
    ensures
        c.spec_touched_only(&c.spec_inc(mode), c.spec_get_operand_address(mode).0),
        c.spec_touched_only(&c.spec_dec(mode), c.spec_get_operand_address(mode).0),
        c.spec_touched_only(&c.spec_asl(mode), c.spec_get_operand_address(mode).0),
        c.spec_touched_only(&c.spec_lsr(mode), c.spec_get_operand_address(mode).0),
        c.spec_touched_only(&c.spec_rol(mode), c.spec_get_operand_address(mode).0),
        c.spec_touched_only(&c.spec_ror(mode), c.spec_get_operand_address(mode).0),
{
    lemma_inc(c, mode);
    lemma_dec(c, mode);
    lemma_asl(c, mode);
    lemma_lsr(c, mode);
    lemma_rol(c, mode);
    lemma_ror(c, mode);
}

/// `PHA` then `PLA` leaves A and S as they were, with Z and N following A.
pub proof fn law_push_then_pull(c: CPU, mode: AddressingModes)
    requires
        c.wf(),
    ensures
        ({
            let after = c.spec_pha(mode).spec_pla(mode);
            &&& after.registers.acc == c.registers.acc
            &&& after.registers.stack_pointer == c.registers.stack_pointer
            &&& has_flag(after.registers.status_register, ZERO) == (c.registers.acc == 0)
            &&& has_flag(after.registers.status_register, NEGATIVE) == (c.registers.acc >= 0x80)
        }),
{
    reveal(CPU::spec_pha);
    reveal(CPU::spec_pla);
    lemma_push(c, c.registers.acc);
    let pushed = c.spec_pha(mode);
    lemma_pull(pushed);
    let p = pushed.registers.status_register;
    let zeroed = with_flag(p, ZERO, c.registers.acc == 0);
    lemma_flag_reads_back(p, ZERO, NEGATIVE);
    lemma_flag_reads_back(zeroed, NEGATIVE, ZERO);
}

/// An indirect jump through a pointer `$xxFF` takes the high byte of its
/// target from `$xx00`, not from the next page.
pub proof fn law_indirect_jump_stays_in_page(c: CPU)
    requires
        c.wf(),
        c.spec_fetch_word().0 % 256 == 255,
    ensures
        ({
            let (pointer, fetched) = c.spec_fetch_word();
            let (low, first) = fetched.spec_read(pointer);
            let (high, second) = first.spec_read((pointer - 255) as u16);
            c.spec_jmp(AddressingModes::Indirect).registers.program_counter == word(low, high)
        }),
{
    reveal(CPU::spec_jmp);
    reveal(CPU::spec_get_operand_address);
}

/// A branch not taken costs 2 cycles. A branch taken costs 3, and one more
/// when its target lies in another page than the instruction after it.
pub proof fn law_branch_cost(c: CPU, condition: bool)
    requires
        c.wf(),
    ensures
        ({
            let next = c.spec_fetch().1.registers.program_counter;
            let target = displaced(next, c.spec_fetch().0);
            let after = c.spec_branch_if(condition);
            &&& !condition ==> after.remaining_cycles == 2 && after.registers.program_counter
                == next
            &&& condition ==> after.registers.program_counter == target
            &&& condition && page(target) == page(next) ==> after.remaining_cycles == 3
            &&& condition && page(target) != page(next) ==> after.remaining_cycles == 4
        }),
{
    reveal(CPU::spec_get_operand_address);
}

/// The overflow of an addition by the signs of its operands: operands of
/// different signs never overflow, two non-negative operands overflow when
/// the result is negative, two negative ones when it is not.
pub proof fn law_adc_overflow_by_signs(a: u8, m: u8, carry: bool)
    ensures
        ({
            let (result, carry_out, overflow) = spec_add_with_carry(a, m, carry);
            &&& a < 0x80 && m < 0x80 ==> overflow == (result >= 0x80)
            &&& a < 0x80 && m >= 0x80 ==> !overflow
            &&& a >= 0x80 && m < 0x80 ==> !overflow
            &&& a >= 0x80 && m >= 0x80 ==> overflow == (result < 0x80)
        }),
{
}

/// The same overflow as bits: `(~(A ^ M) & (A ^ R)) & $80`.
pub proof fn law_adc_overflow_by_bits(a: u8, m: u8, carry: bool)
    ensures
        spec_add_with_carry(a, m, carry).2 == ((!(a ^ m) & (a ^ spec_add_with_carry(
            a,
            m,
            carry,
        ).0)) & 0x80 != 0),
{
    let result = spec_add_with_carry(a, m, carry).0;
    assert(((!(a ^ m) & (a ^ result)) & 0x80 != 0) == ((a >= 0x80) == (m >= 0x80) && (result
        >= 0x80) != (a >= 0x80))) by (bit_vector);
}

/// `ADC` leaves in V the overflow of its addition.
pub proof fn law_adc_sets_overflow(c: CPU, mode: AddressingModes)
    requires
        c.wf(),
    ensures
        has_flag(c.spec_adc(mode).registers.status_register, OVERFLOW) == spec_add_with_carry(
            c.registers.acc,
            c.spec_execute_mode(mode).0,
            has_flag(c.registers.status_register, CARRY),
        ).2,
{
    reveal(CPU::spec_adc);
    let (value, read) = c.spec_execute_mode(mode);
    let (result, carry, overflow) = spec_add_with_carry(
        c.registers.acc,
        value,
        has_flag(c.registers.status_register, CARRY),
    );
    let before = read.spec_with_acc(result).spec_set_carry_zero_negative(carry, result);
    lemma_flag_reads_back(before.registers.status_register, OVERFLOW, ZERO);
}

/// An NMI seen during an instruction is taken at the next instruction
/// boundary, before any instruction runs: PC and P are pushed as they stand
/// and execution continues at the vector in `$FFFA/B`, after 7 cycles and
/// whatever an OAM DMA still owes.
pub proof fn law_pending_nmi_is_taken_first(c: CPU)
    requires
        c.wf(),
        c.remaining_cycles == 0,
        c.nmi_pending,
    ensures
        ({
            let taken = (CPU { nmi_pending: false, ..c }).spec_interrupt(NMI_VECTOR);
            let begun = c.spec_begin_instruction();
            &&& begun.registers == taken.registers
            &&& begun.bus.ram == taken.bus.ram
            &&& begun.remaining_cycles == 7 + c.bus.dma_stall
            &&& begun.registers.stack_pointer == c.registers.stack_pointer.wrapping_sub(
                1,
            ).wrapping_sub(1).wrapping_sub(1)
        }),
{
    let cleared = CPU { nmi_pending: false, ..c };
    lemma_interrupt(cleared, NMI_VECTOR);
    let p = c.registers.status_register;
    lemma_push(cleared, (c.registers.program_counter / 256) as u8);
    let first = cleared.spec_push((c.registers.program_counter / 256) as u8);
    lemma_push(first, (c.registers.program_counter % 256) as u8);
    let second = first.spec_push((c.registers.program_counter % 256) as u8);
    lemma_push(second, with_flag(p, BREAK, false));
    let third = second.spec_push(with_flag(p, BREAK, false));
    lemma_bus_read_of_memory(third.bus, NMI_VECTOR);
    lemma_bus_read_of_memory(third.bus, NMI_VECTOR.wrapping_add(1));
}

/// While an instruction is in progress the processor does nothing but
/// count: an NMI is never taken mid-instruction.
pub proof fn law_nothing_happens_mid_instruction(c: CPU)
    requires
        c.remaining_cycles > 0,
    ensures
        c.spec_begin_instruction() == c,
{
}

/// A read of `$2002` through the bus, at any of its mirrors in
/// `$2000-$3FFF`, returns STATUS and leaves the write toggle clear.
pub proof fn law_status_read_through_the_bus(bus: BUS, addr: u16)
    requires
        0x2000 <= addr < 0x4000,
        addr % 8 == 2,
    ensures
        bus.spec_read(addr).0 == bus.ppu.status,
        !bus.spec_read(addr).1.ppu.w,
{
    reveal(BUS::spec_read);
}

} // verus!
