//! The opcode table and the fetch-decode-execute step.

use vstd::prelude::*;
use crate::cpu::chip::AddressingModes;
use crate::bus::BUS;
use crate::cpu::chip::CPU;
use crate::cpu::chip::has_flag;
use crate::cpu::chip::CARRY;
use crate::cpu::chip::NEGATIVE;
use crate::cpu::chip::OVERFLOW;
use crate::cpu::chip::ZERO;
use crate::cpu::instructions::spec_modify_cycles;
use crate::cpu::instructions::spec_read_cycles;
use crate::cpu::instructions::spec_store_cycles;

verus! {

/// The 56 mnemonics of the official instruction set.
#[derive(Clone, Copy, Debug, PartialEq, Eq, Structural)]
pub enum Instruction {
    Adc,
    And,
    Asl,
    Bcc,
    Bcs,
    Beq,
    Bit,
    Bmi,
    Bne,
    Bpl,
    Brk,
    Bvc,
    Bvs,
    Clc,
    Cld,
    Cli,
    Clv,
    Cmp,
    Cpx,
    Cpy,
    Dec,
    Dex,
    Dey,
    Eor,
    Inc,
    Inx,
    Iny,
    Jmp,
    Jsr,
    Lda,
    Ldx,
    Ldy,
    Lsr,
    Nop,
    Ora,
    Pha,
    Php,
    Pla,
    Plp,
    Rol,
    Ror,
    Rti,
    Rts,
    Sbc,
    Sec,
    Sed,
    Sei,
    Sta,
    Stx,
    Sty,
    Tax,
    Tay,
    Tsx,
    Txa,
    Txs,
    Tya,
}

/// What an opcode decodes to.
pub type OpcodeFunction = (Instruction, AddressingModes);

/// Cycles charged for a byte that is no official opcode.
pub const UNKNOWN_OPCODE_CYCLES: u32 = 2;

/// The opcode table: the instruction and addressing mode of each of the 151
/// official opcodes, and `None` for every other byte.
pub open spec fn spec_map_instructions(opcode: u8) -> Option<OpcodeFunction> {
    match opcode {
        // ADC
        0x69 => Some((Instruction::Adc, AddressingModes::Immediate)),
        0x65 => Some((Instruction::Adc, AddressingModes::ZeroPage)),
        0x75 => Some((Instruction::Adc, AddressingModes::ZeroPageIndexedX)),
        0x6d => Some((Instruction::Adc, AddressingModes::Absolute)),
        0x7d => Some((Instruction::Adc, AddressingModes::AbsoluteIndexedX)),
        0x79 => Some((Instruction::Adc, AddressingModes::AbsoluteIndexedY)),
        0x61 => Some((Instruction::Adc, AddressingModes::IndexedIndirect)),
        0x71 => Some((Instruction::Adc, AddressingModes::IndirectIndexed)),
        // AND
        0x29 => Some((Instruction::And, AddressingModes::Immediate)),
        0x25 => Some((Instruction::And, AddressingModes::ZeroPage)),
        0x35 => Some((Instruction::And, AddressingModes::ZeroPageIndexedX)),
        0x2d => Some((Instruction::And, AddressingModes::Absolute)),
        0x3d => Some((Instruction::And, AddressingModes::AbsoluteIndexedX)),
        0x39 => Some((Instruction::And, AddressingModes::AbsoluteIndexedY)),
        0x21 => Some((Instruction::And, AddressingModes::IndexedIndirect)),
        0x31 => Some((Instruction::And, AddressingModes::IndirectIndexed)),
        // ASL
        0x0a => Some((Instruction::Asl, AddressingModes::Accumulator)),
        0x06 => Some((Instruction::Asl, AddressingModes::ZeroPage)),
        0x16 => Some((Instruction::Asl, AddressingModes::ZeroPageIndexedX)),
        0x0e => Some((Instruction::Asl, AddressingModes::Absolute)),
        0x1e => Some((Instruction::Asl, AddressingModes::AbsoluteIndexedX)),
        // BCC
        0x90 => Some((Instruction::Bcc, AddressingModes::Relative)),
        // BCS
        0xb0 => Some((Instruction::Bcs, AddressingModes::Relative)),
        // BEQ
        0xf0 => Some((Instruction::Beq, AddressingModes::Relative)),
        // BIT
        0x24 => Some((Instruction::Bit, AddressingModes::ZeroPage)),
        0x2c => Some((Instruction::Bit, AddressingModes::Absolute)),
        // BMI
        0x30 => Some((Instruction::Bmi, AddressingModes::Relative)),
        // BNE
        0xd0 => Some((Instruction::Bne, AddressingModes::Relative)),
        // BPL
        0x10 => Some((Instruction::Bpl, AddressingModes::Relative)),
        // BVC
        0x50 => Some((Instruction::Bvc, AddressingModes::Relative)),
        // BVS
        0x70 => Some((Instruction::Bvs, AddressingModes::Relative)),
        // BRK
        0x00 => Some((Instruction::Brk, AddressingModes::Implicit)),
        // CLC
        0x18 => Some((Instruction::Clc, AddressingModes::Implicit)),
        // CLD
        0xd8 => Some((Instruction::Cld, AddressingModes::Implicit)),
        // CLI
        0x58 => Some((Instruction::Cli, AddressingModes::Implicit)),
        // CLV
        0xb8 => Some((Instruction::Clv, AddressingModes::Implicit)),
        // CMP
        0xc9 => Some((Instruction::Cmp, AddressingModes::Immediate)),
        0xc5 => Some((Instruction::Cmp, AddressingModes::ZeroPage)),
        0xd5 => Some((Instruction::Cmp, AddressingModes::ZeroPageIndexedX)),
        0xcd => Some((Instruction::Cmp, AddressingModes::Absolute)),
        0xdd => Some((Instruction::Cmp, AddressingModes::AbsoluteIndexedX)),
        0xd9 => Some((Instruction::Cmp, AddressingModes::AbsoluteIndexedY)),
        0xc1 => Some((Instruction::Cmp, AddressingModes::IndexedIndirect)),
        0xd1 => Some((Instruction::Cmp, AddressingModes::IndirectIndexed)),
        // CPX
        0xe0 => Some((Instruction::Cpx, AddressingModes::Immediate)),
        0xe4 => Some((Instruction::Cpx, AddressingModes::ZeroPage)),
        0xec => Some((Instruction::Cpx, AddressingModes::Absolute)),
        // CPY
        0xc0 => Some((Instruction::Cpy, AddressingModes::Immediate)),
        0xc4 => Some((Instruction::Cpy, AddressingModes::ZeroPage)),
        0xcc => Some((Instruction::Cpy, AddressingModes::Absolute)),
        // DEC
        0xc6 => Some((Instruction::Dec, AddressingModes::ZeroPage)),
        0xd6 => Some((Instruction::Dec, AddressingModes::ZeroPageIndexedX)),
        0xce => Some((Instruction::Dec, AddressingModes::Absolute)),
        0xde => Some((Instruction::Dec, AddressingModes::AbsoluteIndexedX)),
        // DEX
        0xca => Some((Instruction::Dex, AddressingModes::Implicit)),
        // DEY
        0x88 => Some((Instruction::Dey, AddressingModes::Implicit)),
        // EOR
        0x49 => Some((Instruction::Eor, AddressingModes::Immediate)),
        0x45 => Some((Instruction::Eor, AddressingModes::ZeroPage)),
        0x55 => Some((Instruction::Eor, AddressingModes::ZeroPageIndexedX)),
        0x4d => Some((Instruction::Eor, AddressingModes::Absolute)),
        0x5d => Some((Instruction::Eor, AddressingModes::AbsoluteIndexedX)),
        0x59 => Some((Instruction::Eor, AddressingModes::AbsoluteIndexedY)),
        0x41 => Some((Instruction::Eor, AddressingModes::IndexedIndirect)),
        0x51 => Some((Instruction::Eor, AddressingModes::IndirectIndexed)),
        // INC
        0xe6 => Some((Instruction::Inc, AddressingModes::ZeroPage)),
        0xf6 => Some((Instruction::Inc, AddressingModes::ZeroPageIndexedX)),
        0xee => Some((Instruction::Inc, AddressingModes::Absolute)),
        0xfe => Some((Instruction::Inc, AddressingModes::AbsoluteIndexedX)),
        // INX
        0xe8 => Some((Instruction::Inx, AddressingModes::Implicit)),
        // INY
        0xc8 => Some((Instruction::Iny, AddressingModes::Implicit)),
        // JMP
        0x4c => Some((Instruction::Jmp, AddressingModes::Absolute)),
        0x6c => Some((Instruction::Jmp, AddressingModes::Indirect)),
        // JSR
        0x20 => Some((Instruction::Jsr, AddressingModes::Absolute)),
        // LDA
        0xa9 => Some((Instruction::Lda, AddressingModes::Immediate)),
        0xa5 => Some((Instruction::Lda, AddressingModes::ZeroPage)),
        0xb5 => Some((Instruction::Lda, AddressingModes::ZeroPageIndexedX)),
        0xad => Some((Instruction::Lda, AddressingModes::Absolute)),
        0xbd => Some((Instruction::Lda, AddressingModes::AbsoluteIndexedX)),
        0xb9 => Some((Instruction::Lda, AddressingModes::AbsoluteIndexedY)),
        0xa1 => Some((Instruction::Lda, AddressingModes::IndexedIndirect)),
        0xb1 => Some((Instruction::Lda, AddressingModes::IndirectIndexed)),
        // LDX
        0xa2 => Some((Instruction::Ldx, AddressingModes::Immediate)),
        0xa6 => Some((Instruction::Ldx, AddressingModes::ZeroPage)),
        0xb6 => Some((Instruction::Ldx, AddressingModes::ZeroPageIndexedY)),
        0xae => Some((Instruction::Ldx, AddressingModes::Absolute)),
        0xbe => Some((Instruction::Ldx, AddressingModes::AbsoluteIndexedY)),
        // LDY
        0xa0 => Some((Instruction::Ldy, AddressingModes::Immediate)),
        0xa4 => Some((Instruction::Ldy, AddressingModes::ZeroPage)),
        0xb4 => Some((Instruction::Ldy, AddressingModes::ZeroPageIndexedX)),
        0xac => Some((Instruction::Ldy, AddressingModes::Absolute)),
        0xbc => Some((Instruction::Ldy, AddressingModes::AbsoluteIndexedX)),
        // LSR
        0x4a => Some((Instruction::Lsr, AddressingModes::Accumulator)),
        0x46 => Some((Instruction::Lsr, AddressingModes::ZeroPage)),
        0x56 => Some((Instruction::Lsr, AddressingModes::ZeroPageIndexedX)),
        0x4e => Some((Instruction::Lsr, AddressingModes::Absolute)),
        0x5e => Some((Instruction::Lsr, AddressingModes::AbsoluteIndexedX)),
        // NOP
        0xea => Some((Instruction::Nop, AddressingModes::Implicit)),
        // ORA
        0x09 => Some((Instruction::Ora, AddressingModes::Immediate)),
        0x05 => Some((Instruction::Ora, AddressingModes::ZeroPage)),
        0x15 => Some((Instruction::Ora, AddressingModes::ZeroPageIndexedX)),
        0x0d => Some((Instruction::Ora, AddressingModes::Absolute)),
        0x1d => Some((Instruction::Ora, AddressingModes::AbsoluteIndexedX)),
        0x19 => Some((Instruction::Ora, AddressingModes::AbsoluteIndexedY)),
        0x01 => Some((Instruction::Ora, AddressingModes::IndexedIndirect)),
        0x11 => Some((Instruction::Ora, AddressingModes::IndirectIndexed)),
        // PHA
        0x48 => Some((Instruction::Pha, AddressingModes::Implicit)),
        // PHP
        0x08 => Some((Instruction::Php, AddressingModes::Implicit)),
        // PLA
        0x68 => Some((Instruction::Pla, AddressingModes::Implicit)),
        // PLP
        0x28 => Some((Instruction::Plp, AddressingModes::Implicit)),
        // ROL
        0x2a => Some((Instruction::Rol, AddressingModes::Accumulator)),
        0x26 => Some((Instruction::Rol, AddressingModes::ZeroPage)),
        0x36 => Some((Instruction::Rol, AddressingModes::ZeroPageIndexedX)),
        0x2e => Some((Instruction::Rol, AddressingModes::Absolute)),
        0x3e => Some((Instruction::Rol, AddressingModes::AbsoluteIndexedX)),
        // ROR
        0x6a => Some((Instruction::Ror, AddressingModes::Accumulator)),
        0x66 => Some((Instruction::Ror, AddressingModes::ZeroPage)),
        0x76 => Some((Instruction::Ror, AddressingModes::ZeroPageIndexedX)),
        0x6e => Some((Instruction::Ror, AddressingModes::Absolute)),
        0x7e => Some((Instruction::Ror, AddressingModes::AbsoluteIndexedX)),
        // RTI
        0x40 => Some((Instruction::Rti, AddressingModes::Implicit)),
        // RTS
        0x60 => Some((Instruction::Rts, AddressingModes::Implicit)),
        // SBC
        0xe9 => Some((Instruction::Sbc, AddressingModes::Immediate)),
        0xe5 => Some((Instruction::Sbc, AddressingModes::ZeroPage)),
        0xf5 => Some((Instruction::Sbc, AddressingModes::ZeroPageIndexedX)),
        0xed => Some((Instruction::Sbc, AddressingModes::Absolute)),
        0xfd => Some((Instruction::Sbc, AddressingModes::AbsoluteIndexedX)),
        0xf9 => Some((Instruction::Sbc, AddressingModes::AbsoluteIndexedY)),
        0xe1 => Some((Instruction::Sbc, AddressingModes::IndexedIndirect)),
        0xf1 => Some((Instruction::Sbc, AddressingModes::IndirectIndexed)),
        // SEC
        0x38 => Some((Instruction::Sec, AddressingModes::Implicit)),
        // SED
        0xf8 => Some((Instruction::Sed, AddressingModes::Implicit)),
        // SEI
        0x78 => Some((Instruction::Sei, AddressingModes::Implicit)),
        // STA
        0x85 => Some((Instruction::Sta, AddressingModes::ZeroPage)),
        0x95 => Some((Instruction::Sta, AddressingModes::ZeroPageIndexedX)),
        0x8d => Some((Instruction::Sta, AddressingModes::Absolute)),
        0x9d => Some((Instruction::Sta, AddressingModes::AbsoluteIndexedX)),
        0x99 => Some((Instruction::Sta, AddressingModes::AbsoluteIndexedY)),
        0x81 => Some((Instruction::Sta, AddressingModes::IndexedIndirect)),
        0x91 => Some((Instruction::Sta, AddressingModes::IndirectIndexed)),
        // STX
        0x86 => Some((Instruction::Stx, AddressingModes::ZeroPage)),
        0x96 => Some((Instruction::Stx, AddressingModes::ZeroPageIndexedY)),
        0x8e => Some((Instruction::Stx, AddressingModes::Absolute)),
        // STY
        0x84 => Some((Instruction::Sty, AddressingModes::ZeroPage)),
        0x94 => Some((Instruction::Sty, AddressingModes::ZeroPageIndexedX)),
        0x8c => Some((Instruction::Sty, AddressingModes::Absolute)),
        // TAX
        0xaa => Some((Instruction::Tax, AddressingModes::Implicit)),
        // TAY
        0xa8 => Some((Instruction::Tay, AddressingModes::Implicit)),
        // TSX
        0xba => Some((Instruction::Tsx, AddressingModes::Implicit)),
        // TXA
        0x8a => Some((Instruction::Txa, AddressingModes::Implicit)),
        // TXS
        0x9a => Some((Instruction::Txs, AddressingModes::Implicit)),
        // TYA
        0x98 => Some((Instruction::Tya, AddressingModes::Implicit)),
        _ => None,
    }
}

/// The documented cost of an instruction in a mode, before penalties.
pub open spec fn spec_base_cycles(instruction: Instruction, mode: AddressingModes) -> u32 {
    match instruction {
        Instruction::Lda
        | Instruction::Ldx
        | Instruction::Ldy
        | Instruction::Adc
        | Instruction::Sbc
        | Instruction::And
        | Instruction::Ora
        | Instruction::Eor
        | Instruction::Bit
        | Instruction::Cmp
        | Instruction::Cpx
        | Instruction::Cpy => spec_read_cycles(mode),
        Instruction::Sta | Instruction::Stx | Instruction::Sty => spec_store_cycles(mode),
        Instruction::Inc
        | Instruction::Dec
        | Instruction::Asl
        | Instruction::Lsr
        | Instruction::Rol
        | Instruction::Ror => spec_modify_cycles(mode),
        Instruction::Jmp => if mode == AddressingModes::Indirect {
            5
        } else {
            3
        },
        Instruction::Jsr | Instruction::Rts | Instruction::Rti => 6,
        Instruction::Brk => 7,
        Instruction::Pha | Instruction::Php => 3,
        Instruction::Pla | Instruction::Plp => 4,
        _ => 2,
    }
}

/// Whether a branch instruction branches under the flags `p`; `None` for
/// every other instruction.
pub open spec fn spec_branch_taken(instruction: Instruction, p: u8) -> Option<bool> {
    match instruction {
        Instruction::Bcc => Some(!has_flag(p, CARRY)),
        Instruction::Bcs => Some(has_flag(p, CARRY)),
        Instruction::Bne => Some(!has_flag(p, ZERO)),
        Instruction::Beq => Some(has_flag(p, ZERO)),
        Instruction::Bpl => Some(!has_flag(p, NEGATIVE)),
        Instruction::Bmi => Some(has_flag(p, NEGATIVE)),
        Instruction::Bvc => Some(!has_flag(p, OVERFLOW)),
        Instruction::Bvs => Some(has_flag(p, OVERFLOW)),
        _ => None,
    }
}

/// An instruction that pays one cycle more when its operand crosses a page:
/// the loads, the arithmetic and logic on A, and the compares.
pub open spec fn spec_pays_page_crossing(instruction: Instruction) -> bool {
    match instruction {
        Instruction::Lda
        | Instruction::Ldx
        | Instruction::Ldy
        | Instruction::Adc
        | Instruction::Sbc
        | Instruction::And
        | Instruction::Ora
        | Instruction::Eor
        | Instruction::Cmp
        | Instruction::Cpx
        | Instruction::Cpy => true,
        _ => false,
    }
}

/// The cost of `instruction` in `mode` from the flags `p`, when its operand
/// crossed a page or not: the base cost, plus one for a read across a page,
/// plus, for a branch taken, one and one more across a page.
pub open spec fn spec_documented_cycles(
    instruction: Instruction,
    mode: AddressingModes,
    p: u8,
    crossed: bool,
) -> int {
    let penalty = if crossed {
        1int
    } else {
        0int
    };
    match spec_branch_taken(instruction, p) {
        Some(true) => spec_base_cycles(instruction, mode) + 1 + penalty,
        Some(false) => spec_base_cycles(instruction, mode) + 0,
        None => if spec_pays_page_crossing(instruction) {
            spec_base_cycles(instruction, mode) + penalty
        } else {
            spec_base_cycles(instruction, mode) + 0
        },
    }
}

impl CPU {
    /// Looks an opcode up in the table.
    pub fn map_instructions(opcode: u8) -> (r: Option<OpcodeFunction>)
        ensures
            r == spec_map_instructions(opcode),
    {
        match opcode {
            // ADC
            0x69 => Some((Instruction::Adc, AddressingModes::Immediate)),
            0x65 => Some((Instruction::Adc, AddressingModes::ZeroPage)),
            0x75 => Some((Instruction::Adc, AddressingModes::ZeroPageIndexedX)),
            0x6d => Some((Instruction::Adc, AddressingModes::Absolute)),
            0x7d => Some((Instruction::Adc, AddressingModes::AbsoluteIndexedX)),
            0x79 => Some((Instruction::Adc, AddressingModes::AbsoluteIndexedY)),
            0x61 => Some((Instruction::Adc, AddressingModes::IndexedIndirect)),
            0x71 => Some((Instruction::Adc, AddressingModes::IndirectIndexed)),
            // AND
            0x29 => Some((Instruction::And, AddressingModes::Immediate)),
            0x25 => Some((Instruction::And, AddressingModes::ZeroPage)),
            0x35 => Some((Instruction::And, AddressingModes::ZeroPageIndexedX)),
            0x2d => Some((Instruction::And, AddressingModes::Absolute)),
            0x3d => Some((Instruction::And, AddressingModes::AbsoluteIndexedX)),
            0x39 => Some((Instruction::And, AddressingModes::AbsoluteIndexedY)),
            0x21 => Some((Instruction::And, AddressingModes::IndexedIndirect)),
            0x31 => Some((Instruction::And, AddressingModes::IndirectIndexed)),
            // ASL
            0x0a => Some((Instruction::Asl, AddressingModes::Accumulator)),
            0x06 => Some((Instruction::Asl, AddressingModes::ZeroPage)),
            0x16 => Some((Instruction::Asl, AddressingModes::ZeroPageIndexedX)),
            0x0e => Some((Instruction::Asl, AddressingModes::Absolute)),
            0x1e => Some((Instruction::Asl, AddressingModes::AbsoluteIndexedX)),
            // BCC
            0x90 => Some((Instruction::Bcc, AddressingModes::Relative)),
            // BCS
            0xb0 => Some((Instruction::Bcs, AddressingModes::Relative)),
            // BEQ
            0xf0 => Some((Instruction::Beq, AddressingModes::Relative)),
            // BIT
            0x24 => Some((Instruction::Bit, AddressingModes::ZeroPage)),
            0x2c => Some((Instruction::Bit, AddressingModes::Absolute)),
            // BMI
            0x30 => Some((Instruction::Bmi, AddressingModes::Relative)),
            // BNE
            0xd0 => Some((Instruction::Bne, AddressingModes::Relative)),
            // BPL
            0x10 => Some((Instruction::Bpl, AddressingModes::Relative)),
            // BVC
            0x50 => Some((Instruction::Bvc, AddressingModes::Relative)),
            // BVS
            0x70 => Some((Instruction::Bvs, AddressingModes::Relative)),
            // BRK
            0x00 => Some((Instruction::Brk, AddressingModes::Implicit)),
            // CLC
            0x18 => Some((Instruction::Clc, AddressingModes::Implicit)),
            // CLD
            0xd8 => Some((Instruction::Cld, AddressingModes::Implicit)),
            // CLI
            0x58 => Some((Instruction::Cli, AddressingModes::Implicit)),
            // CLV
            0xb8 => Some((Instruction::Clv, AddressingModes::Implicit)),
            // CMP
            0xc9 => Some((Instruction::Cmp, AddressingModes::Immediate)),
            0xc5 => Some((Instruction::Cmp, AddressingModes::ZeroPage)),
            0xd5 => Some((Instruction::Cmp, AddressingModes::ZeroPageIndexedX)),
            0xcd => Some((Instruction::Cmp, AddressingModes::Absolute)),
            0xdd => Some((Instruction::Cmp, AddressingModes::AbsoluteIndexedX)),
            0xd9 => Some((Instruction::Cmp, AddressingModes::AbsoluteIndexedY)),
            0xc1 => Some((Instruction::Cmp, AddressingModes::IndexedIndirect)),
            0xd1 => Some((Instruction::Cmp, AddressingModes::IndirectIndexed)),
            // CPX
            0xe0 => Some((Instruction::Cpx, AddressingModes::Immediate)),
            0xe4 => Some((Instruction::Cpx, AddressingModes::ZeroPage)),
            0xec => Some((Instruction::Cpx, AddressingModes::Absolute)),
            // CPY
            0xc0 => Some((Instruction::Cpy, AddressingModes::Immediate)),
            0xc4 => Some((Instruction::Cpy, AddressingModes::ZeroPage)),
            0xcc => Some((Instruction::Cpy, AddressingModes::Absolute)),
            // DEC
            0xc6 => Some((Instruction::Dec, AddressingModes::ZeroPage)),
            0xd6 => Some((Instruction::Dec, AddressingModes::ZeroPageIndexedX)),
            0xce => Some((Instruction::Dec, AddressingModes::Absolute)),
            0xde => Some((Instruction::Dec, AddressingModes::AbsoluteIndexedX)),
            // DEX
            0xca => Some((Instruction::Dex, AddressingModes::Implicit)),
            // DEY
            0x88 => Some((Instruction::Dey, AddressingModes::Implicit)),
            // EOR
            0x49 => Some((Instruction::Eor, AddressingModes::Immediate)),
            0x45 => Some((Instruction::Eor, AddressingModes::ZeroPage)),
            0x55 => Some((Instruction::Eor, AddressingModes::ZeroPageIndexedX)),
            0x4d => Some((Instruction::Eor, AddressingModes::Absolute)),
            0x5d => Some((Instruction::Eor, AddressingModes::AbsoluteIndexedX)),
            0x59 => Some((Instruction::Eor, AddressingModes::AbsoluteIndexedY)),
            0x41 => Some((Instruction::Eor, AddressingModes::IndexedIndirect)),
            0x51 => Some((Instruction::Eor, AddressingModes::IndirectIndexed)),
            // INC
            0xe6 => Some((Instruction::Inc, AddressingModes::ZeroPage)),
            0xf6 => Some((Instruction::Inc, AddressingModes::ZeroPageIndexedX)),
            0xee => Some((Instruction::Inc, AddressingModes::Absolute)),
            0xfe => Some((Instruction::Inc, AddressingModes::AbsoluteIndexedX)),
            // INX
            0xe8 => Some((Instruction::Inx, AddressingModes::Implicit)),
            // INY
            0xc8 => Some((Instruction::Iny, AddressingModes::Implicit)),
            // JMP
            0x4c => Some((Instruction::Jmp, AddressingModes::Absolute)),
            0x6c => Some((Instruction::Jmp, AddressingModes::Indirect)),
            // JSR
            0x20 => Some((Instruction::Jsr, AddressingModes::Absolute)),
            // LDA
            0xa9 => Some((Instruction::Lda, AddressingModes::Immediate)),
            0xa5 => Some((Instruction::Lda, AddressingModes::ZeroPage)),
            0xb5 => Some((Instruction::Lda, AddressingModes::ZeroPageIndexedX)),
            0xad => Some((Instruction::Lda, AddressingModes::Absolute)),
            0xbd => Some((Instruction::Lda, AddressingModes::AbsoluteIndexedX)),
            0xb9 => Some((Instruction::Lda, AddressingModes::AbsoluteIndexedY)),
            0xa1 => Some((Instruction::Lda, AddressingModes::IndexedIndirect)),
            0xb1 => Some((Instruction::Lda, AddressingModes::IndirectIndexed)),
            // LDX
            0xa2 => Some((Instruction::Ldx, AddressingModes::Immediate)),
            0xa6 => Some((Instruction::Ldx, AddressingModes::ZeroPage)),
            0xb6 => Some((Instruction::Ldx, AddressingModes::ZeroPageIndexedY)),
            0xae => Some((Instruction::Ldx, AddressingModes::Absolute)),
            0xbe => Some((Instruction::Ldx, AddressingModes::AbsoluteIndexedY)),
            // LDY
            0xa0 => Some((Instruction::Ldy, AddressingModes::Immediate)),
            0xa4 => Some((Instruction::Ldy, AddressingModes::ZeroPage)),
            0xb4 => Some((Instruction::Ldy, AddressingModes::ZeroPageIndexedX)),
            0xac => Some((Instruction::Ldy, AddressingModes::Absolute)),
            0xbc => Some((Instruction::Ldy, AddressingModes::AbsoluteIndexedX)),
            // LSR
            0x4a => Some((Instruction::Lsr, AddressingModes::Accumulator)),
            0x46 => Some((Instruction::Lsr, AddressingModes::ZeroPage)),
            0x56 => Some((Instruction::Lsr, AddressingModes::ZeroPageIndexedX)),
            0x4e => Some((Instruction::Lsr, AddressingModes::Absolute)),
            0x5e => Some((Instruction::Lsr, AddressingModes::AbsoluteIndexedX)),
            // NOP
            0xea => Some((Instruction::Nop, AddressingModes::Implicit)),
            // ORA
            0x09 => Some((Instruction::Ora, AddressingModes::Immediate)),
            0x05 => Some((Instruction::Ora, AddressingModes::ZeroPage)),
            0x15 => Some((Instruction::Ora, AddressingModes::ZeroPageIndexedX)),
            0x0d => Some((Instruction::Ora, AddressingModes::Absolute)),
            0x1d => Some((Instruction::Ora, AddressingModes::AbsoluteIndexedX)),
            0x19 => Some((Instruction::Ora, AddressingModes::AbsoluteIndexedY)),
            0x01 => Some((Instruction::Ora, AddressingModes::IndexedIndirect)),
            0x11 => Some((Instruction::Ora, AddressingModes::IndirectIndexed)),
            // PHA
            0x48 => Some((Instruction::Pha, AddressingModes::Implicit)),
            // PHP
            0x08 => Some((Instruction::Php, AddressingModes::Implicit)),
            // PLA
            0x68 => Some((Instruction::Pla, AddressingModes::Implicit)),
            // PLP
            0x28 => Some((Instruction::Plp, AddressingModes::Implicit)),
            // ROL
            0x2a => Some((Instruction::Rol, AddressingModes::Accumulator)),
            0x26 => Some((Instruction::Rol, AddressingModes::ZeroPage)),
            0x36 => Some((Instruction::Rol, AddressingModes::ZeroPageIndexedX)),
            0x2e => Some((Instruction::Rol, AddressingModes::Absolute)),
            0x3e => Some((Instruction::Rol, AddressingModes::AbsoluteIndexedX)),
            // ROR
            0x6a => Some((Instruction::Ror, AddressingModes::Accumulator)),
            0x66 => Some((Instruction::Ror, AddressingModes::ZeroPage)),
            0x76 => Some((Instruction::Ror, AddressingModes::ZeroPageIndexedX)),
            0x6e => Some((Instruction::Ror, AddressingModes::Absolute)),
            0x7e => Some((Instruction::Ror, AddressingModes::AbsoluteIndexedX)),
            // RTI
            0x40 => Some((Instruction::Rti, AddressingModes::Implicit)),
            // RTS
            0x60 => Some((Instruction::Rts, AddressingModes::Implicit)),
            // SBC
            0xe9 => Some((Instruction::Sbc, AddressingModes::Immediate)),
            0xe5 => Some((Instruction::Sbc, AddressingModes::ZeroPage)),
            0xf5 => Some((Instruction::Sbc, AddressingModes::ZeroPageIndexedX)),
            0xed => Some((Instruction::Sbc, AddressingModes::Absolute)),
            0xfd => Some((Instruction::Sbc, AddressingModes::AbsoluteIndexedX)),
            0xf9 => Some((Instruction::Sbc, AddressingModes::AbsoluteIndexedY)),
            0xe1 => Some((Instruction::Sbc, AddressingModes::IndexedIndirect)),
            0xf1 => Some((Instruction::Sbc, AddressingModes::IndirectIndexed)),
            // SEC
            0x38 => Some((Instruction::Sec, AddressingModes::Implicit)),
            // SED
            0xf8 => Some((Instruction::Sed, AddressingModes::Implicit)),
            // SEI
            0x78 => Some((Instruction::Sei, AddressingModes::Implicit)),
            // STA
            0x85 => Some((Instruction::Sta, AddressingModes::ZeroPage)),
            0x95 => Some((Instruction::Sta, AddressingModes::ZeroPageIndexedX)),
            0x8d => Some((Instruction::Sta, AddressingModes::Absolute)),
            0x9d => Some((Instruction::Sta, AddressingModes::AbsoluteIndexedX)),
            0x99 => Some((Instruction::Sta, AddressingModes::AbsoluteIndexedY)),
            0x81 => Some((Instruction::Sta, AddressingModes::IndexedIndirect)),
            0x91 => Some((Instruction::Sta, AddressingModes::IndirectIndexed)),
            // STX
            0x86 => Some((Instruction::Stx, AddressingModes::ZeroPage)),
            0x96 => Some((Instruction::Stx, AddressingModes::ZeroPageIndexedY)),
            0x8e => Some((Instruction::Stx, AddressingModes::Absolute)),
            // STY
            0x84 => Some((Instruction::Sty, AddressingModes::ZeroPage)),
            0x94 => Some((Instruction::Sty, AddressingModes::ZeroPageIndexedX)),
            0x8c => Some((Instruction::Sty, AddressingModes::Absolute)),
            // TAX
            0xaa => Some((Instruction::Tax, AddressingModes::Implicit)),
            // TAY
            0xa8 => Some((Instruction::Tay, AddressingModes::Implicit)),
            // TSX
            0xba => Some((Instruction::Tsx, AddressingModes::Implicit)),
            // TXA
            0x8a => Some((Instruction::Txa, AddressingModes::Implicit)),
            // TXS
            0x9a => Some((Instruction::Txs, AddressingModes::Implicit)),
            // TYA
            0x98 => Some((Instruction::Tya, AddressingModes::Implicit)),
            _ => None,
        }
    }

    /// The processor after running `instruction` in `mode`, PC standing
    /// behind the opcode. Whatever the instruction, it is charged its
    /// documented cost.
    pub open spec fn spec_run(&self, instruction: Instruction, mode: AddressingModes) -> CPU {
        match instruction {
            Instruction::Adc => self.spec_adc(mode),
            Instruction::And => self.spec_and(mode),
            Instruction::Asl => self.spec_asl(mode),
            Instruction::Bcc => self.spec_bcc(mode),
            Instruction::Bcs => self.spec_bcs(mode),
            Instruction::Beq => self.spec_beq(mode),
            Instruction::Bit => self.spec_bit(mode),
            Instruction::Bmi => self.spec_bmi(mode),
            Instruction::Bne => self.spec_bne(mode),
            Instruction::Bpl => self.spec_bpl(mode),
            Instruction::Brk => self.spec_brk(mode),
            Instruction::Bvc => self.spec_bvc(mode),
            Instruction::Bvs => self.spec_bvs(mode),
            Instruction::Clc => self.spec_clc(mode),
            Instruction::Cld => self.spec_cld(mode),
            Instruction::Cli => self.spec_cli(mode),
            Instruction::Clv => self.spec_clv(mode),
            Instruction::Cmp => self.spec_cmp(mode),
            Instruction::Cpx => self.spec_cpx(mode),
            Instruction::Cpy => self.spec_cpy(mode),
            Instruction::Dec => self.spec_dec(mode),
            Instruction::Dex => self.spec_dex(mode),
            Instruction::Dey => self.spec_dey(mode),
            Instruction::Eor => self.spec_eor(mode),
            Instruction::Inc => self.spec_inc(mode),
            Instruction::Inx => self.spec_inx(mode),
            Instruction::Iny => self.spec_iny(mode),
            Instruction::Jmp => self.spec_jmp(mode),
            Instruction::Jsr => self.spec_jsr(mode),
            Instruction::Lda => self.spec_lda(mode),
            Instruction::Ldx => self.spec_ldx(mode),
            Instruction::Ldy => self.spec_ldy(mode),
            Instruction::Lsr => self.spec_lsr(mode),
            Instruction::Nop => self.spec_nop(mode),
            Instruction::Ora => self.spec_ora(mode),
            Instruction::Pha => self.spec_pha(mode),
            Instruction::Php => self.spec_php(mode),
            Instruction::Pla => self.spec_pla(mode),
            Instruction::Plp => self.spec_plp(mode),
            Instruction::Rol => self.spec_rol(mode),
            Instruction::Ror => self.spec_ror(mode),
            Instruction::Rti => self.spec_rti(mode),
            Instruction::Rts => self.spec_rts(mode),
            Instruction::Sbc => self.spec_sbc(mode),
            Instruction::Sec => self.spec_sec(mode),
            Instruction::Sed => self.spec_sed(mode),
            Instruction::Sei => self.spec_sei(mode),
            Instruction::Sta => self.spec_sta(mode),
            Instruction::Stx => self.spec_stx(mode),
            Instruction::Sty => self.spec_sty(mode),
            Instruction::Tax => self.spec_tax(mode),
            Instruction::Tay => self.spec_tay(mode),
            Instruction::Tsx => self.spec_tsx(mode),
            Instruction::Txa => self.spec_txa(mode),
            Instruction::Txs => self.spec_txs(mode),
            Instruction::Tya => self.spec_tya(mode),
        }
    }

    /// `after` carries the documented cost of `instruction` run from `self`.
    pub open spec fn spec_costs(
        &self,
        after: &CPU,
        instruction: Instruction,
        mode: AddressingModes,
    ) -> bool {
        after.remaining_cycles == spec_documented_cycles(
            instruction,
            mode,
            self.registers.status_register,
            after.page_crossed,
        )
    }

    /// The opcode at PC decoded, with PC moved past it.
    pub open spec fn spec_decode(&self) -> (Option<OpcodeFunction>, CPU) {
        let (opcode, fetched) = self.spec_fetch();
        (spec_map_instructions(opcode), fetched)
    }

    /// One instruction fetched, decoded and run. A byte that is no official
    /// opcode moves PC by one and costs 2 cycles.
    #[verifier::opaque]
    pub open spec fn spec_execute(&self) -> CPU {
        let (decoded, fetched) = self.spec_decode();
        match decoded {
            Some((instruction, mode)) => fetched.spec_run(instruction, mode),
            None => fetched.spec_charged(UNKNOWN_OPCODE_CYCLES),
        }
    }

    #[verifier::rlimit(30)]
    pub fn run(&mut self, instruction: Instruction, mode: AddressingModes)
        requires
            old(self).wf(),
        ensures
            *final(self) == old(self).spec_run(instruction, mode),
            old(self).spec_completes(final(self)),
            old(self).spec_costs(final(self), instruction, mode),
    {
        match instruction {
            Instruction::Adc => {
                self.adc(mode);
                return ;
            },
            Instruction::And => {
                self.and(mode);
                return ;
            },
            Instruction::Asl => {
                self.asl(mode);
                return ;
            },
            Instruction::Bcc => {
                self.bcc(mode);
                return ;
            },
            Instruction::Bcs => {
                self.bcs(mode);
                return ;
            },
            Instruction::Beq => {
                self.beq(mode);
                return ;
            },
            Instruction::Bit => {
                self.bit(mode);
                return ;
            },
            Instruction::Bmi => {
                self.bmi(mode);
                return ;
            },
            Instruction::Bne => {
                self.bne(mode);
                return ;
            },
            Instruction::Bpl => {
                self.bpl(mode);
                return ;
            },
            Instruction::Brk => {
                self.brk(mode);
                return ;
            },
            Instruction::Bvc => {
                self.bvc(mode);
                return ;
            },
            Instruction::Bvs => {
                self.bvs(mode);
                return ;
            },
            Instruction::Clc => {
                self.clc(mode);
                return ;
            },
            Instruction::Cld => {
                self.cld(mode);
                return ;
            },
            Instruction::Cli => {
                self.cli(mode);
                return ;
            },
            Instruction::Clv => {
                self.clv(mode);
                return ;
            },
            Instruction::Cmp => {
                self.cmp(mode);
                return ;
            },
            Instruction::Cpx => {
                self.cpx(mode);
                return ;
            },
            Instruction::Cpy => {
                self.cpy(mode);
                return ;
            },
            Instruction::Dec => {
                self.dec(mode);
                return ;
            },
            Instruction::Dex => {
                self.dex(mode);
                return ;
            },
            Instruction::Dey => {
                self.dey(mode);
                return ;
            },
            Instruction::Eor => {
                self.eor(mode);
                return ;
            },
            Instruction::Inc => {
                self.inc(mode);
                return ;
            },
            Instruction::Inx => {
                self.inx(mode);
                return ;
            },
            Instruction::Iny => {
                self.iny(mode);
                return ;
            },
            Instruction::Jmp => {
                self.jmp(mode);
                return ;
            },
            Instruction::Jsr => {
                self.jsr(mode);
                return ;
            },
            Instruction::Lda => {
                self.lda(mode);
                return ;
            },
            Instruction::Ldx => {
                self.ldx(mode);
                return ;
            },
            Instruction::Ldy => {
                self.ldy(mode);
                return ;
            },
            Instruction::Lsr => {
                self.lsr(mode);
                return ;
            },
            Instruction::Nop => {
                self.nop(mode);
                return ;
            },
            Instruction::Ora => {
                self.ora(mode);
                return ;
            },
            Instruction::Pha => {
                self.pha(mode);
                return ;
            },
            Instruction::Php => {
                self.php(mode);
                return ;
            },
            Instruction::Pla => {
                self.pla(mode);
                return ;
            },
            Instruction::Plp => {
                self.plp(mode);
                return ;
            },
            Instruction::Rol => {
                self.rol(mode);
                return ;
            },
            Instruction::Ror => {
                self.ror(mode);
                return ;
            },
            Instruction::Rti => {
                self.rti(mode);
                return ;
            },
            Instruction::Rts => {
                self.rts(mode);
                return ;
            },
            Instruction::Sbc => {
                self.sbc(mode);
                return ;
            },
            Instruction::Sec => {
                self.sec(mode);
                return ;
            },
            Instruction::Sed => {
                self.sed(mode);
                return ;
            },
            Instruction::Sei => {
                self.sei(mode);
                return ;
            },
            Instruction::Sta => {
                self.sta(mode);
                return ;
            },
            Instruction::Stx => {
                self.stx(mode);
                return ;
            },
            Instruction::Sty => {
                self.sty(mode);
                return ;
            },
            Instruction::Tax => {
                self.tax(mode);
                return ;
            },
            Instruction::Tay => {
                self.tay(mode);
                return ;
            },
            Instruction::Tsx => {
                self.tsx(mode);
                return ;
            },
            Instruction::Txa => {
                self.txa(mode);
                return ;
            },
            Instruction::Txs => {
                self.txs(mode);
                return ;
            },
            Instruction::Tya => {
                self.tya(mode);
                return ;
            },
        }
    }

    pub fn decode(&mut self) -> (r: Option<OpcodeFunction>)
        requires
            old(self).wf(),
        ensures
            (r, *final(self)) == old(self).spec_decode(),
            old(self).spec_kept(final(self)),
            final(self).registers.status_register == old(self).registers.status_register,
    {
        let opcode: u8 = self.fetch();
        Self::map_instructions(opcode)
    }

    pub fn execute(&mut self)
        requires
            old(self).wf(),
        ensures
            *final(self) == old(self).spec_execute(),
            old(self).spec_completes(final(self)),
            match old(self).spec_decode().0 {
                Some((instruction, mode)) => old(self).spec_decode().1.spec_costs(
                    final(self),
                    instruction,
                    mode,
                ),
                None => final(self).remaining_cycles == UNKNOWN_OPCODE_CYCLES,
            },
    {
        reveal(CPU::spec_execute);
        match self.decode() {
            Some((instruction, mode)) => self.run(instruction, mode),
            None => {
                self.remaining_cycles = UNKNOWN_OPCODE_CYCLES;
            },
        }
    }
}

impl CPU {
    /// The edge of an instruction. With cycles still owed nothing happens.
    /// Otherwise a pending NMI is taken, or else one instruction runs; then
    /// the cycles of an OAM DMA it started are added, and an NMI edge that
    /// one of its PPU writes raised is noted for the next boundary.
    pub open spec fn spec_begin_instruction(&self) -> CPU {
        if self.remaining_cycles != 0 {
            *self
        } else {
            let ran = if self.nmi_pending {
                CPU { nmi_pending: false, ..*self }.spec_trigger_nmi()
            } else {
                self.spec_execute()
            };
            let (stall, bus) = ran.bus.spec_take_dma_stall();
            let (edge, ppu) = bus.ppu.spec_take_nmi_edge();
            CPU {
                bus: BUS { ppu, ..bus },
                remaining_cycles: (ran.remaining_cycles + stall) as u32,
                nmi_pending: ran.nmi_pending || edge,
                ..ran
            }
        }
    }

    /// One cycle of the instruction in progress is spent.
    pub open spec fn spec_spend_cycle(&self) -> CPU {
        if self.remaining_cycles > 0 {
            CPU { remaining_cycles: (self.remaining_cycles - 1) as u32, ..*self }
        } else {
            *self
        }
    }

    /// One PPU dot: the first component tells whether a frame was completed,
    /// and an NMI at the start of vertical blank is noted for the next
    /// instruction boundary.
    pub open spec fn spec_tick_ppu(&self) -> (bool, CPU) {
        let (result, ppu) = self.bus.ppu.spec_step(&self.bus.rom);
        (
            result.new_frame,
            CPU {
                bus: BUS { ppu, ..self.bus },
                nmi_pending: self.nmi_pending || result.vblank_nmi,
                ..*self
            },
        )
    }

    /// `dots` PPU dots in a row: whether any of them completed a frame, and
    /// the machine after them.
    pub open spec fn spec_tick_ppu_times(&self, dots: nat) -> (bool, CPU)
        decreases dots,
    {
        if dots == 0 {
            (false, *self)
        } else {
            let (earlier, before) = self.spec_tick_ppu_times((dots - 1) as nat);
            let (last, after) = before.spec_tick_ppu();
            (earlier || last, after)
        }
    }

    /// One APU cycle.
    pub open spec fn spec_tick_apu(&self) -> CPU {
        CPU { bus: BUS { apu: self.bus.apu.spec_tick(), ..self.bus }, ..*self }
    }

    /// One CPU cycle of the whole machine: the processor reaches the edge of
    /// an instruction or spends a cycle of the one in progress, the PPU
    /// advances exactly three dots, the APU one cycle. The first component
    /// tells whether a frame was completed.
    pub open spec fn spec_clock(&self) -> (bool, CPU) {
        let (frame_complete, drawn) =
            self.spec_begin_instruction().spec_spend_cycle().spec_tick_ppu_times(3);
        (frame_complete, drawn.spec_tick_apu())
    }

    fn begin_instruction(&mut self)
        requires
            old(self).wf(),
        ensures
            *final(self) == old(self).spec_begin_instruction(),
            old(self).spec_kept(final(self)),
            old(self).flags_wf() ==> final(self).flags_wf(),
    {
        if self.remaining_cycles != 0 {
            return ;
        }
        if self.nmi_pending {
            self.nmi_pending = false;
            self.trigger_nmi();
        } else {
            self.execute();
        }
        let stall = self.bus.take_dma_stall();
        if self.bus.ppu.take_nmi_edge() {
            self.nmi_pending = true;
        }
        self.remaining_cycles = self.remaining_cycles + stall;
    }

    fn tick_ppu(&mut self) -> (r: bool)
        requires
            old(self).wf(),
        ensures
            (r, *final(self)) == old(self).spec_tick_ppu(),
            final(self).wf(),
            final(self).registers == old(self).registers,
            r ==> final(self).bus.ppu.scanline == 0 && final(self).bus.ppu.cycle == 0,
            !r ==> final(self).bus.ppu.spec_dots_left() == old(self).bus.ppu.spec_dots_left() - 1,
            final(self).bus.ppu.dots@ == old(self).bus.ppu.dots@ + 1,
    {
        let result = self.bus.ppu.step(&self.bus.rom);
        if result.vblank_nmi {
            self.nmi_pending = true;
        }
        result.new_frame
    }

    /// Advances the machine by one CPU cycle and tells whether the PPU
    /// completed a frame. Whatever the processor does in the cycle, the PPU
    /// advances by exactly three dots.
    pub fn clock(&mut self) -> (r: bool)
        requires
            old(self).wf(),
        ensures
            (r, *final(self)) == old(self).spec_clock(),
            final(self).wf(),
            old(self).flags_wf() ==> final(self).flags_wf(),
            !r ==> final(self).bus.ppu.spec_dots_left() < old(self).bus.ppu.spec_dots_left(),
            final(self).bus.ppu.dots@ == old(self).bus.ppu.dots@ + 3,
    {
        self.begin_instruction();
        if self.remaining_cycles > 0 {
            self.remaining_cycles = self.remaining_cycles - 1;
        }
        let ghost spent = *self;
        let mut frame_complete = false;
        let mut dots: u8 = 0;
        while dots < 3
            invariant
                dots <= 3,
                self.wf(),
                self.registers == spent.registers,
                self.bus.ppu.dots@ == spent.bus.ppu.dots@ + dots,
                !frame_complete ==> self.bus.ppu.spec_dots_left() == spent.bus.ppu.spec_dots_left()
                    - dots,
                (frame_complete, *self) == spent.spec_tick_ppu_times(dots as nat),
            decreases 3 - dots,
        {
            if self.tick_ppu() {
                frame_complete = true;
            }
            dots = dots + 1;
        }
        self.bus.apu.tick();
        frame_complete
    }
}

} // verus!
