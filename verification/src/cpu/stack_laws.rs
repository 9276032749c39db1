//! What holds of the stack pointer, and of the way an NMI takes through the
//! stack from the dot that reports it to the handler.

use vstd::prelude::*;
use crate::cpu::chip::AddressingModes;
use crate::cpu::chip::CPU;
use crate::cpu::chip::has_flag;
use crate::cpu::chip::with_flag;
use crate::cpu::chip::word;
use crate::cpu::chip::BREAK;
use crate::cpu::chip::INTERRUPT_DISABLE;
use crate::cpu::chip::NMI_VECTOR;
use crate::cpu::laws::law_dots_per_cycles;
use crate::cpu::laws::law_instruction_effects;
use crate::cpu::laws::lemma_bus_read_of_memory;
use crate::cpu::laws::lemma_bus_write_to_ram;
use crate::cpu::laws::lemma_fetch;
use crate::cpu::laws::lemma_flag_reads_back;
use crate::cpu::laws::spec_writes_memory;
use crate::cpu::map_instructions::Instruction;

verus! {

/// An instruction that moves the stack pointer: the pushes and pulls, the
/// calls and returns, and TXS.
pub open spec fn spec_moves_stack_pointer(instruction: Instruction) -> bool {
    match instruction {
        Instruction::Pha
        | Instruction::Php
        | Instruction::Pla
        | Instruction::Plp
        | Instruction::Jsr
        | Instruction::Rts
        | Instruction::Brk
        | Instruction::Rti
        | Instruction::Txs => true,
        _ => false,
    }
}

/// Resolving an operand moves PC and no other register.
pub proof fn lemma_operand_address_moves_pc_only(c: CPU, mode: AddressingModes)
    ensures
        c.registers.spec_moved_pc(&c.spec_get_operand_address(mode).1.registers),
{
    reveal(CPU::spec_get_operand_address);
}

/// Reading an operand moves PC and no other register.
pub proof fn lemma_execute_mode_moves_pc_only(c: CPU, mode: AddressingModes)
    ensures
        c.registers.spec_moved_pc(&c.spec_execute_mode(mode).1.registers),
{
    reveal(CPU::spec_execute_mode);
    lemma_operand_address_moves_pc_only(c, mode);
}

proof fn lemma_lda_keeps_s(c: CPU, mode: AddressingModes)
    ensures
        c.spec_lda(mode).registers.stack_pointer == c.registers.stack_pointer,
{
    reveal(CPU::spec_lda);
    lemma_execute_mode_moves_pc_only(c, mode);
}

proof fn lemma_ldx_keeps_s(c: CPU, mode: AddressingModes)
    ensures
        c.spec_ldx(mode).registers.stack_pointer == c.registers.stack_pointer,
{
    reveal(CPU::spec_ldx);
    lemma_execute_mode_moves_pc_only(c, mode);
}

proof fn lemma_ldy_keeps_s(c: CPU, mode: AddressingModes)
    ensures
        c.spec_ldy(mode).registers.stack_pointer == c.registers.stack_pointer,
{
    reveal(CPU::spec_ldy);
    lemma_execute_mode_moves_pc_only(c, mode);
}

proof fn lemma_adc_keeps_s(c: CPU, mode: AddressingModes)
    ensures
        c.spec_adc(mode).registers.stack_pointer == c.registers.stack_pointer,
{
    reveal(CPU::spec_adc);
    lemma_execute_mode_moves_pc_only(c, mode);
}

proof fn lemma_sbc_keeps_s(c: CPU, mode: AddressingModes)
    ensures
        c.spec_sbc(mode).registers.stack_pointer == c.registers.stack_pointer,
{
    reveal(CPU::spec_sbc);
    lemma_execute_mode_moves_pc_only(c, mode);
}

proof fn lemma_and_keeps_s(c: CPU, mode: AddressingModes)
    ensures
        c.spec_and(mode).registers.stack_pointer == c.registers.stack_pointer,
{
    reveal(CPU::spec_and);
    lemma_execute_mode_moves_pc_only(c, mode);
}

proof fn lemma_ora_keeps_s(c: CPU, mode: AddressingModes)
    ensures
        c.spec_ora(mode).registers.stack_pointer == c.registers.stack_pointer,
{
    reveal(CPU::spec_ora);
    lemma_execute_mode_moves_pc_only(c, mode);
}

proof fn lemma_eor_keeps_s(c: CPU, mode: AddressingModes)
    ensures
        c.spec_eor(mode).registers.stack_pointer == c.registers.stack_pointer,
{
    reveal(CPU::spec_eor);
    lemma_execute_mode_moves_pc_only(c, mode);
}

proof fn lemma_bit_keeps_s(c: CPU, mode: AddressingModes)
    ensures
        c.spec_bit(mode).registers.stack_pointer == c.registers.stack_pointer,
{
    reveal(CPU::spec_bit);
    lemma_execute_mode_moves_pc_only(c, mode);
}

proof fn lemma_cmp_keeps_s(c: CPU, mode: AddressingModes)
    ensures
        c.spec_cmp(mode).registers.stack_pointer == c.registers.stack_pointer,
{
    reveal(CPU::spec_cmp);
    lemma_execute_mode_moves_pc_only(c, mode);
}

proof fn lemma_cpx_keeps_s(c: CPU, mode: AddressingModes)
    ensures
        c.spec_cpx(mode).registers.stack_pointer == c.registers.stack_pointer,
{
    reveal(CPU::spec_cpx);
    lemma_execute_mode_moves_pc_only(c, mode);
}

proof fn lemma_cpy_keeps_s(c: CPU, mode: AddressingModes)
    ensures
        c.spec_cpy(mode).registers.stack_pointer == c.registers.stack_pointer,
{
    reveal(CPU::spec_cpy);
    lemma_execute_mode_moves_pc_only(c, mode);
}

proof fn lemma_sta_keeps_s(c: CPU, mode: AddressingModes)
    ensures
        c.spec_sta(mode).registers.stack_pointer == c.registers.stack_pointer,
{
    reveal(CPU::spec_sta);
    lemma_operand_address_moves_pc_only(c, mode);
}

proof fn lemma_stx_keeps_s(c: CPU, mode: AddressingModes)
    ensures
        c.spec_stx(mode).registers.stack_pointer == c.registers.stack_pointer,
{
    reveal(CPU::spec_stx);
    lemma_operand_address_moves_pc_only(c, mode);
}

proof fn lemma_sty_keeps_s(c: CPU, mode: AddressingModes)
    ensures
        c.spec_sty(mode).registers.stack_pointer == c.registers.stack_pointer,
{
    reveal(CPU::spec_sty);
    lemma_operand_address_moves_pc_only(c, mode);
}

proof fn lemma_tax_keeps_s(c: CPU, mode: AddressingModes)
    ensures
        c.spec_tax(mode).registers.stack_pointer == c.registers.stack_pointer,
{
    reveal(CPU::spec_tax);
}

proof fn lemma_txa_keeps_s(c: CPU, mode: AddressingModes)
    ensures
        c.spec_txa(mode).registers.stack_pointer == c.registers.stack_pointer,
{
    reveal(CPU::spec_txa);
}

proof fn lemma_tay_keeps_s(c: CPU, mode: AddressingModes)
    ensures
        c.spec_tay(mode).registers.stack_pointer == c.registers.stack_pointer,
{
    reveal(CPU::spec_tay);
}

proof fn lemma_tya_keeps_s(c: CPU, mode: AddressingModes)
    ensures
        c.spec_tya(mode).registers.stack_pointer == c.registers.stack_pointer,
{
    reveal(CPU::spec_tya);
}

proof fn lemma_inx_keeps_s(c: CPU, mode: AddressingModes)
    ensures
        c.spec_inx(mode).registers.stack_pointer == c.registers.stack_pointer,
{
    reveal(CPU::spec_inx);
}

proof fn lemma_dex_keeps_s(c: CPU, mode: AddressingModes)
    ensures
        c.spec_dex(mode).registers.stack_pointer == c.registers.stack_pointer,
{
    reveal(CPU::spec_dex);
}

proof fn lemma_iny_keeps_s(c: CPU, mode: AddressingModes)
    ensures
        c.spec_iny(mode).registers.stack_pointer == c.registers.stack_pointer,
{
    reveal(CPU::spec_iny);
}

proof fn lemma_dey_keeps_s(c: CPU, mode: AddressingModes)
    ensures
        c.spec_dey(mode).registers.stack_pointer == c.registers.stack_pointer,
{
    reveal(CPU::spec_dey);
}

proof fn lemma_tsx_keeps_s(c: CPU, mode: AddressingModes)
    ensures
        c.spec_tsx(mode).registers.stack_pointer == c.registers.stack_pointer,
{
    reveal(CPU::spec_tsx);
}

proof fn lemma_clc_keeps_s(c: CPU, mode: AddressingModes)
    ensures
        c.spec_clc(mode).registers.stack_pointer == c.registers.stack_pointer,
{
    reveal(CPU::spec_clc);
}

proof fn lemma_sec_keeps_s(c: CPU, mode: AddressingModes)
    ensures
        c.spec_sec(mode).registers.stack_pointer == c.registers.stack_pointer,
{
    reveal(CPU::spec_sec);
}

proof fn lemma_cli_keeps_s(c: CPU, mode: AddressingModes)
    ensures
        c.spec_cli(mode).registers.stack_pointer == c.registers.stack_pointer,
{
    reveal(CPU::spec_cli);
}

proof fn lemma_sei_keeps_s(c: CPU, mode: AddressingModes)
    ensures
        c.spec_sei(mode).registers.stack_pointer == c.registers.stack_pointer,
{
    reveal(CPU::spec_sei);
}

proof fn lemma_cld_keeps_s(c: CPU, mode: AddressingModes)
    ensures
        c.spec_cld(mode).registers.stack_pointer == c.registers.stack_pointer,
{
    reveal(CPU::spec_cld);
}

proof fn lemma_sed_keeps_s(c: CPU, mode: AddressingModes)
    ensures
        c.spec_sed(mode).registers.stack_pointer == c.registers.stack_pointer,
{
    reveal(CPU::spec_sed);
}

proof fn lemma_clv_keeps_s(c: CPU, mode: AddressingModes)
    ensures
        c.spec_clv(mode).registers.stack_pointer == c.registers.stack_pointer,
{
    reveal(CPU::spec_clv);
}

proof fn lemma_nop_keeps_s(c: CPU, mode: AddressingModes)
    ensures
        c.spec_nop(mode).registers.stack_pointer == c.registers.stack_pointer,
{
    reveal(CPU::spec_nop);
}

proof fn lemma_inc_keeps_s(c: CPU, mode: AddressingModes)
    ensures
        c.spec_inc(mode).registers.stack_pointer == c.registers.stack_pointer,
{
    reveal(CPU::spec_inc);
    lemma_operand_address_moves_pc_only(c, mode);
}

proof fn lemma_dec_keeps_s(c: CPU, mode: AddressingModes)
    ensures
        c.spec_dec(mode).registers.stack_pointer == c.registers.stack_pointer,
{
    reveal(CPU::spec_dec);
    lemma_operand_address_moves_pc_only(c, mode);
}

proof fn lemma_asl_keeps_s(c: CPU, mode: AddressingModes)
    ensures
        c.spec_asl(mode).registers.stack_pointer == c.registers.stack_pointer,
{
    reveal(CPU::spec_asl);
    lemma_operand_address_moves_pc_only(c, mode);
}

proof fn lemma_lsr_keeps_s(c: CPU, mode: AddressingModes)
    ensures
        c.spec_lsr(mode).registers.stack_pointer == c.registers.stack_pointer,
{
    reveal(CPU::spec_lsr);
    lemma_operand_address_moves_pc_only(c, mode);
}

proof fn lemma_rol_keeps_s(c: CPU, mode: AddressingModes)
    ensures
        c.spec_rol(mode).registers.stack_pointer == c.registers.stack_pointer,
{
    reveal(CPU::spec_rol);
    lemma_operand_address_moves_pc_only(c, mode);
}

proof fn lemma_ror_keeps_s(c: CPU, mode: AddressingModes)
    ensures
        c.spec_ror(mode).registers.stack_pointer == c.registers.stack_pointer,
{
    reveal(CPU::spec_ror);
    lemma_operand_address_moves_pc_only(c, mode);
}

proof fn lemma_bcc_keeps_s(c: CPU, mode: AddressingModes)
    ensures
        c.spec_bcc(mode).registers.stack_pointer == c.registers.stack_pointer,
{
    reveal(CPU::spec_bcc);
    lemma_operand_address_moves_pc_only(c, AddressingModes::Relative);
}

proof fn lemma_bcs_keeps_s(c: CPU, mode: AddressingModes)
    ensures
        c.spec_bcs(mode).registers.stack_pointer == c.registers.stack_pointer,
{
    reveal(CPU::spec_bcs);
    lemma_operand_address_moves_pc_only(c, AddressingModes::Relative);
}

proof fn lemma_beq_keeps_s(c: CPU, mode: AddressingModes)
    ensures
        c.spec_beq(mode).registers.stack_pointer == c.registers.stack_pointer,
{
    reveal(CPU::spec_beq);
    lemma_operand_address_moves_pc_only(c, AddressingModes::Relative);
}

proof fn lemma_bne_keeps_s(c: CPU, mode: AddressingModes)
    ensures
        c.spec_bne(mode).registers.stack_pointer == c.registers.stack_pointer,
{
    reveal(CPU::spec_bne);
    lemma_operand_address_moves_pc_only(c, AddressingModes::Relative);
}

proof fn lemma_bpl_keeps_s(c: CPU, mode: AddressingModes)
    ensures
        c.spec_bpl(mode).registers.stack_pointer == c.registers.stack_pointer,
{
    reveal(CPU::spec_bpl);
    lemma_operand_address_moves_pc_only(c, AddressingModes::Relative);
}

proof fn lemma_bmi_keeps_s(c: CPU, mode: AddressingModes)
    ensures
        c.spec_bmi(mode).registers.stack_pointer == c.registers.stack_pointer,
{
    reveal(CPU::spec_bmi);
    lemma_operand_address_moves_pc_only(c, AddressingModes::Relative);
}

proof fn lemma_bvc_keeps_s(c: CPU, mode: AddressingModes)
    ensures
        c.spec_bvc(mode).registers.stack_pointer == c.registers.stack_pointer,
{
    reveal(CPU::spec_bvc);
    lemma_operand_address_moves_pc_only(c, AddressingModes::Relative);
}

proof fn lemma_bvs_keeps_s(c: CPU, mode: AddressingModes)
    ensures
        c.spec_bvs(mode).registers.stack_pointer == c.registers.stack_pointer,
{
    reveal(CPU::spec_bvs);
    lemma_operand_address_moves_pc_only(c, AddressingModes::Relative);
}

proof fn lemma_jmp_keeps_s(c: CPU, mode: AddressingModes)
    ensures
        c.spec_jmp(mode).registers.stack_pointer == c.registers.stack_pointer,
{
    reveal(CPU::spec_jmp);
    lemma_operand_address_moves_pc_only(c, mode);
}

/// Every instruction but the pushes and pulls, the calls and returns, and
/// TXS leaves S as it was.
pub proof fn law_stack_pointer_stays(c: CPU, instruction: Instruction, mode: AddressingModes)
    requires
        !spec_moves_stack_pointer(instruction),
    ensures
        c.spec_run(instruction, mode).registers.stack_pointer == c.registers.stack_pointer,
{
    match instruction {
        Instruction::Adc => lemma_adc_keeps_s(c, mode),
        Instruction::And => lemma_and_keeps_s(c, mode),
        Instruction::Asl => lemma_asl_keeps_s(c, mode),
        Instruction::Bcc => lemma_bcc_keeps_s(c, mode),
        Instruction::Bcs => lemma_bcs_keeps_s(c, mode),
        Instruction::Beq => lemma_beq_keeps_s(c, mode),
        Instruction::Bit => lemma_bit_keeps_s(c, mode),
        Instruction::Bmi => lemma_bmi_keeps_s(c, mode),
        Instruction::Bne => lemma_bne_keeps_s(c, mode),
        Instruction::Bpl => lemma_bpl_keeps_s(c, mode),
        Instruction::Brk => {},
        Instruction::Bvc => lemma_bvc_keeps_s(c, mode),
        Instruction::Bvs => lemma_bvs_keeps_s(c, mode),
        Instruction::Clc => lemma_clc_keeps_s(c, mode),
        Instruction::Cld => lemma_cld_keeps_s(c, mode),
        Instruction::Cli => lemma_cli_keeps_s(c, mode),
        Instruction::Clv => lemma_clv_keeps_s(c, mode),
        Instruction::Cmp => lemma_cmp_keeps_s(c, mode),
        Instruction::Cpx => lemma_cpx_keeps_s(c, mode),
        Instruction::Cpy => lemma_cpy_keeps_s(c, mode),
        Instruction::Dec => lemma_dec_keeps_s(c, mode),
        Instruction::Dex => lemma_dex_keeps_s(c, mode),
        Instruction::Dey => lemma_dey_keeps_s(c, mode),
        Instruction::Eor => lemma_eor_keeps_s(c, mode),
        Instruction::Inc => lemma_inc_keeps_s(c, mode),
        Instruction::Inx => lemma_inx_keeps_s(c, mode),
        Instruction::Iny => lemma_iny_keeps_s(c, mode),
        Instruction::Jmp => lemma_jmp_keeps_s(c, mode),
        Instruction::Jsr => {},
        Instruction::Lda => lemma_lda_keeps_s(c, mode),
        Instruction::Ldx => lemma_ldx_keeps_s(c, mode),
        Instruction::Ldy => lemma_ldy_keeps_s(c, mode),
        Instruction::Lsr => lemma_lsr_keeps_s(c, mode),
        Instruction::Nop => lemma_nop_keeps_s(c, mode),
        Instruction::Ora => lemma_ora_keeps_s(c, mode),
        Instruction::Pha => {},
        Instruction::Php => {},
        Instruction::Pla => {},
        Instruction::Plp => {},
        Instruction::Rol => lemma_rol_keeps_s(c, mode),
        Instruction::Ror => lemma_ror_keeps_s(c, mode),
        Instruction::Rti => {},
        Instruction::Rts => {},
        Instruction::Sbc => lemma_sbc_keeps_s(c, mode),
        Instruction::Sec => lemma_sec_keeps_s(c, mode),
        Instruction::Sed => lemma_sed_keeps_s(c, mode),
        Instruction::Sei => lemma_sei_keeps_s(c, mode),
        Instruction::Sta => lemma_sta_keeps_s(c, mode),
        Instruction::Stx => lemma_stx_keeps_s(c, mode),
        Instruction::Sty => lemma_sty_keeps_s(c, mode),
        Instruction::Tax => lemma_tax_keeps_s(c, mode),
        Instruction::Tay => lemma_tay_keeps_s(c, mode),
        Instruction::Tsx => lemma_tsx_keeps_s(c, mode),
        Instruction::Txa => lemma_txa_keeps_s(c, mode),
        Instruction::Txs => {},
        Instruction::Tya => lemma_tya_keeps_s(c, mode),
    }
}

impl CPU {
    /// The byte of RAM that S points at.
    pub open spec fn spec_stack_top(&self) -> u8 {
        self.bus.ram[self.spec_stack_address() as int]
    }

    /// The opcode at PC is one that moves the stack pointer.
    pub open spec fn spec_about_to_move_stack_pointer(&self) -> bool {
        match self.spec_decode().0 {
            Some((instruction, mode)) => spec_moves_stack_pointer(instruction),
            None => false,
        }
    }

    /// The opcode at PC is one that stores to memory or pushes.
    pub open spec fn spec_about_to_write_memory(&self) -> bool {
        match self.spec_decode().0 {
            Some((instruction, mode)) => spec_writes_memory(instruction),
            None => false,
        }
    }

    /// One of the first `dots` PPU dots from here reports the start of
    /// vertical blank with NMI output on.
    pub open spec fn spec_vblank_nmi_within(&self, dots: nat) -> bool
        decreases dots,
    {
        if dots == 0 {
            false
        } else {
            let before = self.spec_tick_ppu_times((dots - 1) as nat).1;
            self.spec_vblank_nmi_within((dots - 1) as nat) || before.bus.ppu.spec_step(
                &before.bus.rom,
            ).0.vblank_nmi
        }
    }

    /// What PPU dots and idle cycles leave alone: the registers, RAM, the
    /// cartridge, and what an OAM DMA owes.
    pub open spec fn spec_same_processor(&self, after: &CPU) -> bool {
        &&& after.registers == self.registers
        &&& after.bus.ram == self.bus.ram
        &&& after.bus.rom == self.bus.rom
        &&& after.bus.dma_stall == self.bus.dma_stall
    }
}

/// A fetch-decode-execute step that runs none of the pushes and pulls, calls
/// and returns, or TXS leaves S as it was; if it runs no store and no
/// read-modify-write instruction either, it leaves the byte at `$0100 + S`
/// as it was.
pub proof fn law_execute_keeps_the_stack(c: CPU)
    requires
        c.wf(),
        !c.spec_about_to_move_stack_pointer(),
    ensures
        c.spec_execute().registers.stack_pointer == c.registers.stack_pointer,
        !c.spec_about_to_write_memory() ==> c.spec_execute().spec_stack_top()
            == c.spec_stack_top(),
{
    reveal(CPU::spec_execute);
    lemma_fetch(c);
    let fetched = c.spec_fetch().1;
    match c.spec_decode().0 {
        Some((instruction, mode)) => {
            law_stack_pointer_stays(fetched, instruction, mode);
            law_instruction_effects(fetched, instruction, mode);
        },
        None => {},
    }
}

/// PPU dots change nothing in the processor or in RAM; an NMI that one of
/// them reports is noted, and one noted before stays noted.
pub proof fn lemma_dots_keep_the_processor(c: CPU, dots: nat)
    ensures
        c.spec_same_processor(&c.spec_tick_ppu_times(dots).1),
        c.spec_tick_ppu_times(dots).1.remaining_cycles == c.remaining_cycles,
        c.spec_tick_ppu_times(dots).1.nmi_pending == (c.nmi_pending || c.spec_vblank_nmi_within(
            dots,
        )),
    decreases dots,
{
    if dots > 0 {
        lemma_dots_keep_the_processor(c, (dots - 1) as nat);
    }
}

/// A CPU cycle in which no NMI is taken, and which runs none of the pushes
/// and pulls, calls and returns, or TXS, leaves S as it was; if it runs no
/// store and no read-modify-write instruction either, it leaves the byte at
/// `$0100 + S` as it was. A cycle in the middle of an instruction runs
/// nothing.
pub proof fn law_clock_keeps_the_stack(c: CPU)
    requires
        c.wf(),
        c.remaining_cycles == 0 ==> !c.nmi_pending && !c.spec_about_to_move_stack_pointer(),
    ensures
        c.spec_clock().1.registers.stack_pointer == c.registers.stack_pointer,
        c.remaining_cycles > 0 || !c.spec_about_to_write_memory()
            ==> c.spec_clock().1.spec_stack_top() == c.spec_stack_top(),
{
    if c.remaining_cycles == 0 {
        law_execute_keeps_the_stack(c);
    }
    lemma_dots_keep_the_processor(c.spec_begin_instruction().spec_spend_cycle(), 3);
}

/// An NMI that a dot of this cycle reports is noted by the end of the cycle.
pub proof fn law_vblank_nmi_is_noted(c: CPU)
    requires
        c.spec_begin_instruction().spec_spend_cycle().spec_vblank_nmi_within(3),
    ensures
        c.spec_clock().1.nmi_pending,
{
    lemma_dots_keep_the_processor(c.spec_begin_instruction().spec_spend_cycle(), 3);
}

/// While the instruction in progress has cycles left, the cycles spend them
/// and nothing else happens in the processor: no instruction runs, and a
/// noted NMI stays noted.
pub proof fn law_cycles_run_out(c: CPU, n: nat)
    requires
        c.wf(),
        n <= c.remaining_cycles,
    ensures
        c.spec_clocks(n).1.wf(),
        c.spec_same_processor(&c.spec_clocks(n).1),
        c.spec_clocks(n).1.remaining_cycles == c.remaining_cycles - n,
        c.nmi_pending ==> c.spec_clocks(n).1.nmi_pending,
    decreases n,
{
    if n > 0 {
        law_cycles_run_out(c, (n - 1) as nat);
        law_dots_per_cycles(c, (n - 1) as nat);
        let before = c.spec_clocks((n - 1) as nat).1;
        lemma_dots_keep_the_processor(before.spec_begin_instruction().spec_spend_cycle(), 3);
    }
    law_dots_per_cycles(c, n);
}

/// The entry into the NMI handler at an instruction boundary: PC comes from
/// `$FFFA/B`; the old PC, high byte first, and the old P with B clear lie
/// on the stack from `$0100 + S` down; S is three lower; I is set. The NMI
/// taken is noted no longer: only an edge that a write to `$2000` has raised
/// meanwhile is.
#[verifier::rlimit(30)]
pub proof fn law_nmi_entry(c: CPU)
    requires
        c.wf(),
        c.remaining_cycles == 0,
        c.nmi_pending,
    ensures
        ({
            let s = c.registers.stack_pointer;
            let entered = c.spec_begin_instruction();
            &&& entered.registers.program_counter == word(
                c.bus.rom.spec_read(0xFFFA),
                c.bus.rom.spec_read(0xFFFB),
            )
            &&& entered.bus.ram[0x0100 + s] == c.registers.program_counter / 256
            &&& entered.bus.ram[0x0100 + s.wrapping_sub(1)] == c.registers.program_counter % 256
            &&& entered.bus.ram[0x0100 + s.wrapping_sub(2)] == with_flag(
                c.registers.status_register,
                BREAK,
                false,
            )
            &&& entered.registers.stack_pointer == s.wrapping_sub(3)
            &&& has_flag(entered.registers.status_register, INTERRUPT_DISABLE)
            &&& entered.nmi_pending == c.bus.ppu.nmi_pending
        }),
{
    let cleared = CPU { nmi_pending: false, ..c };
    let p = c.registers.status_register;
    let high = (c.registers.program_counter / 256) as u8;
    let low = (c.registers.program_counter % 256) as u8;
    let flags = with_flag(p, BREAK, false);
    let first = cleared.spec_push(high);
    lemma_bus_write_to_ram(cleared.bus, cleared.spec_stack_address(), high);
    let second = first.spec_push(low);
    lemma_bus_write_to_ram(first.bus, first.spec_stack_address(), low);
    let third = second.spec_push(flags);
    lemma_bus_write_to_ram(second.bus, second.spec_stack_address(), flags);
    lemma_bus_read_of_memory(third.bus, NMI_VECTOR);
    lemma_bus_read_of_memory(third.bus, NMI_VECTOR.wrapping_add(1));
    lemma_flag_reads_back(p, INTERRUPT_DISABLE, BREAK);
}

/// An NMI that a dot reports is taken at the next instruction boundary and
/// not before. From the end of the cycle of that dot, the cycles that the
/// instruction in progress still owes pass without any instruction running:
/// PC, P and S are then as they were. The cycle after them enters the
/// handler, from those very registers.
pub proof fn law_vblank_nmi_is_taken_at_the_next_boundary(c: CPU)
    requires
        c.wf(),
        c.spec_begin_instruction().spec_spend_cycle().spec_vblank_nmi_within(3),
    ensures
        ({
            let reported = c.spec_clock().1;
            let boundary = reported.spec_clocks(reported.remaining_cycles as nat).1;
            let s = reported.registers.stack_pointer;
            let entered = boundary.spec_begin_instruction();
            &&& reported.nmi_pending
            &&& boundary.registers == reported.registers
            &&& boundary.bus.ram == reported.bus.ram
            &&& boundary.remaining_cycles == 0
            &&& boundary.nmi_pending
            &&& entered.registers.program_counter == word(
                reported.bus.rom.spec_read(0xFFFA),
                reported.bus.rom.spec_read(0xFFFB),
            )
            &&& entered.bus.ram[0x0100 + s] == reported.registers.program_counter / 256
            &&& entered.bus.ram[0x0100 + s.wrapping_sub(1)] == reported.registers.program_counter
                % 256
            &&& entered.bus.ram[0x0100 + s.wrapping_sub(2)] == with_flag(
                reported.registers.status_register,
                BREAK,
                false,
            )
            &&& entered.registers.stack_pointer == s.wrapping_sub(3)
            &&& has_flag(entered.registers.status_register, INTERRUPT_DISABLE)
        }),
{
    law_vblank_nmi_is_noted(c);
    law_dots_per_cycles(c, 1);
    assert(c.spec_clocks(1).1 == c.spec_clock().1) by {
        assert(c.spec_clocks(0).1 == c);
    }
    let reported = c.spec_clock().1;
    law_cycles_run_out(reported, reported.remaining_cycles as nat);
    law_nmi_entry(reported.spec_clocks(reported.remaining_cycles as nat).1);
}

} // verus!
