//! The 56 official instructions. Each is a `spec` function from the
//! processor before to the processor after, and the method proved equal to it.

use vstd::prelude::*;
use crate::cpu::chip::AddressingModes;
use crate::cpu::chip::CPU;
use crate::cpu::chip::BREAK;
use crate::cpu::chip::CARRY;
use crate::cpu::chip::DECIMAL;
use crate::cpu::chip::INTERRUPT_CYCLES;
use crate::cpu::chip::INTERRUPT_DISABLE;
use crate::cpu::chip::IRQ_VECTOR;
use crate::cpu::chip::NEGATIVE;
use crate::cpu::chip::OVERFLOW;
use crate::cpu::chip::UNUSED;
use crate::cpu::chip::ZERO;
use crate::cpu::chip::has_flag;
use crate::cpu::chip::with_flag;
use crate::cpu::map_instructions::Instruction;

verus! {

/// B and U: the bits that exist only in a pushed copy of P.
pub const PUSHED_ONLY: u8 = 0x30;

/// Base cost of an instruction that reads its operand.
pub open spec fn spec_read_cycles(mode: AddressingModes) -> u32 {
    match mode {
        AddressingModes::ZeroPage => 3,
        AddressingModes::ZeroPageIndexedX
        | AddressingModes::ZeroPageIndexedY
        | AddressingModes::Absolute
        | AddressingModes::AbsoluteIndexedX
        | AddressingModes::AbsoluteIndexedY => 4,
        AddressingModes::IndirectIndexed => 5,
        AddressingModes::IndexedIndirect => 6,
        _ => 2,
    }
}

/// Cost of an instruction that stores a register.
pub open spec fn spec_store_cycles(mode: AddressingModes) -> u32 {
    match mode {
        AddressingModes::ZeroPage => 3,
        AddressingModes::ZeroPageIndexedX
        | AddressingModes::ZeroPageIndexedY
        | AddressingModes::Absolute => 4,
        AddressingModes::AbsoluteIndexedX | AddressingModes::AbsoluteIndexedY => 5,
        AddressingModes::IndexedIndirect | AddressingModes::IndirectIndexed => 6,
        _ => 2,
    }
}

/// Cost of an instruction that reads, changes and writes back its operand.
pub open spec fn spec_modify_cycles(mode: AddressingModes) -> u32 {
    match mode {
        AddressingModes::ZeroPage => 5,
        AddressingModes::ZeroPageIndexedX | AddressingModes::Absolute => 6,
        AddressingModes::AbsoluteIndexedX => 7,
        _ => 2,
    }
}

pub fn read_cycles(mode: AddressingModes) -> (r: u32)
    ensures
        r == spec_read_cycles(mode),
        r <= 6,
{
    match mode {
        AddressingModes::Immediate => 2,
        AddressingModes::ZeroPage => 3,
        AddressingModes::ZeroPageIndexedX => 4,
        AddressingModes::ZeroPageIndexedY => 4,
        AddressingModes::Absolute => 4,
        AddressingModes::AbsoluteIndexedX => 4,
        AddressingModes::AbsoluteIndexedY => 4,
        AddressingModes::IndexedIndirect => 6,
        AddressingModes::IndirectIndexed => 5,
        _ => 2,
    }
}

pub fn store_cycles(mode: AddressingModes) -> (r: u32)
    ensures
        r == spec_store_cycles(mode),
        r <= 6,
{
    match mode {
        AddressingModes::ZeroPage => 3,
        AddressingModes::ZeroPageIndexedX => 4,
        AddressingModes::ZeroPageIndexedY => 4,
        AddressingModes::Absolute => 4,
        AddressingModes::AbsoluteIndexedX => 5,
        AddressingModes::AbsoluteIndexedY => 5,
        AddressingModes::IndexedIndirect => 6,
        AddressingModes::IndirectIndexed => 6,
        _ => 2,
    }
}

pub fn modify_cycles(mode: AddressingModes) -> (r: u32)
    ensures
        r == spec_modify_cycles(mode),
        r <= 7,
{
    match mode {
        AddressingModes::ZeroPage => 5,
        AddressingModes::ZeroPageIndexedX => 6,
        AddressingModes::Absolute => 6,
        AddressingModes::AbsoluteIndexedX => 7,
        _ => 2,
    }
}

/// `a + m + carry` as nine bits: the low eight, the ninth as carry out, and
/// the signed overflow, which is set when both operands have the same sign
/// and the result has the other.
pub open spec fn spec_add_with_carry(a: u8, m: u8, carry: bool) -> (u8, bool, bool) {
    let sum = a + m + if carry {
        1int
    } else {
        0int
    };
    let result = (sum % 256) as u8;
    (result, sum > 255, (a >= 0x80) == (m >= 0x80) && (result >= 0x80) != (a >= 0x80))
}

pub fn add_with_carry(a: u8, m: u8, carry: bool) -> (r: (u8, bool, bool))
    ensures
        r == spec_add_with_carry(a, m, carry),
{
    let carry_in: u16 = if carry {
        1
    } else {
        0
    };
    let sum: u16 = a as u16 + m as u16 + carry_in;
    let result = (sum % 256) as u8;
    (result, sum > 255, (a >= 0x80) == (m >= 0x80) && (result >= 0x80) != (a >= 0x80))
}

/// A left shift by one: bit 7 leaves as carry, `carry_in` enters at bit 0.
pub open spec fn spec_shifted_left(value: u8, carry_in: bool) -> (u8, bool) {
    (
        ((value * 2) % 256 + if carry_in {
            1int
        } else {
            0int
        }) as u8,
        value >= 0x80,
    )
}

/// A right shift by one: bit 0 leaves as carry, `carry_in` enters at bit 7.
pub open spec fn spec_shifted_right(value: u8, carry_in: bool) -> (u8, bool) {
    (
        (value / 2 + if carry_in {
            128int
        } else {
            0int
        }) as u8,
        value % 2 == 1,
    )
}

pub fn shifted_left(value: u8, carry_in: bool) -> (r: (u8, bool))
    ensures
        r == spec_shifted_left(value, carry_in),
{
    let low: u8 = if carry_in {
        1
    } else {
        0
    };
    ((value % 128) * 2 + low, value >= 0x80)
}

pub fn shifted_right(value: u8, carry_in: bool) -> (r: (u8, bool))
    ensures
        r == spec_shifted_right(value, carry_in),
{
    let high: u8 = if carry_in {
        128
    } else {
        0
    };
    (value / 2 + high, value % 2 == 1)
}

impl CPU {
    /// Charged like an instruction that read its operand: the base cost of
    /// the mode, and one more cycle if the operand crossed a page.
    pub open spec fn spec_charged_read(&self, mode: AddressingModes) -> CPU {
        self.spec_charged((spec_read_cycles(mode) + self.spec_page_penalty()) as u32)
    }

    /// P with C, Z and N after a shift or a comparison.
    pub open spec fn spec_set_carry_zero_negative(&self, carry: bool, value: u8) -> CPU {
        self.spec_set_zero_negative(value).spec_set_flag(CARRY, carry)
    }

    fn charge_read(&mut self, mode: AddressingModes)
        ensures
            *final(self) == old(self).spec_charged_read(mode),
            final(self).remaining_cycles == spec_read_cycles(mode) + old(self).spec_page_penalty(),
    {
        self.remaining_cycles = read_cycles(mode) + self.page_penalty();
    }

    fn set_carry_zero_negative(&mut self, carry: bool, value: u8)
        ensures
            *final(self) == old(self).spec_set_carry_zero_negative(carry, value),
            final(self).registers.status_register & 0x30 == old(self).registers.status_register
                & 0x30,
    {
        self.set_zero_negative(value);
        self.set_flag(CARRY, carry);
    }

    /// Loads A with the operand; Z and N follow it.
    #[verifier::opaque]
    pub open spec fn spec_lda(&self, mode: AddressingModes) -> CPU {
        let (value, read) = self.spec_execute_mode(mode);
        read.spec_with_acc(value).spec_set_zero_negative(value).spec_charged_read(mode)
    }

    pub fn lda(&mut self, mode: AddressingModes)
        requires
            old(self).wf(),
        ensures
            *final(self) == old(self).spec_lda(mode),
            old(self).spec_completes(final(self)),
            old(self).spec_costs(final(self), Instruction::Lda, mode),
    {
        reveal(CPU::spec_lda);
        let value = self.execute_mode(mode);
        self.registers.acc = value;
        self.set_zero_negative(value);
        self.charge_read(mode);
    }

    /// Loads X with the operand; Z and N follow it.
    #[verifier::opaque]
    pub open spec fn spec_ldx(&self, mode: AddressingModes) -> CPU {
        let (value, read) = self.spec_execute_mode(mode);
        read.spec_with_x(value).spec_set_zero_negative(value).spec_charged_read(mode)
    }

    pub fn ldx(&mut self, mode: AddressingModes)
        requires
            old(self).wf(),
        ensures
            *final(self) == old(self).spec_ldx(mode),
            old(self).spec_completes(final(self)),
            old(self).spec_costs(final(self), Instruction::Ldx, mode),
    {
        reveal(CPU::spec_ldx);
        let value = self.execute_mode(mode);
        self.registers.index_x = value;
        self.set_zero_negative(value);
        self.charge_read(mode);
    }

    /// Loads Y with the operand; Z and N follow it.
    #[verifier::opaque]
    pub open spec fn spec_ldy(&self, mode: AddressingModes) -> CPU {
        let (value, read) = self.spec_execute_mode(mode);
        read.spec_with_y(value).spec_set_zero_negative(value).spec_charged_read(mode)
    }

    pub fn ldy(&mut self, mode: AddressingModes)
        requires
            old(self).wf(),
        ensures
            *final(self) == old(self).spec_ldy(mode),
            old(self).spec_completes(final(self)),
            old(self).spec_costs(final(self), Instruction::Ldy, mode),
    {
        reveal(CPU::spec_ldy);
        let value = self.execute_mode(mode);
        self.registers.index_y = value;
        self.set_zero_negative(value);
        self.charge_read(mode);
    }

    /// Stores A at the operand's address; no flag changes.
    #[verifier::opaque]
    pub open spec fn spec_sta(&self, mode: AddressingModes) -> CPU {
        let (address, resolved) = self.spec_get_operand_address(mode);
        resolved.spec_write(address, self.registers.acc).spec_charged(spec_store_cycles(mode))
    }

    pub fn sta(&mut self, mode: AddressingModes)
        requires
            old(self).wf(),
        ensures
            *final(self) == old(self).spec_sta(mode),
            old(self).spec_completes(final(self)),
            old(self).spec_costs(final(self), Instruction::Sta, mode),
    {
        reveal(CPU::spec_sta);
        let address = self.get_operand_address(mode);
        self.write(address, self.registers.acc);
        self.remaining_cycles = store_cycles(mode);
    }

    /// Stores X at the operand's address; no flag changes.
    #[verifier::opaque]
    pub open spec fn spec_stx(&self, mode: AddressingModes) -> CPU {
        let (address, resolved) = self.spec_get_operand_address(mode);
        resolved.spec_write(address, self.registers.index_x).spec_charged(spec_store_cycles(mode))
    }

    pub fn stx(&mut self, mode: AddressingModes)
        requires
            old(self).wf(),
        ensures
            *final(self) == old(self).spec_stx(mode),
            old(self).spec_completes(final(self)),
            old(self).spec_costs(final(self), Instruction::Stx, mode),
    {
        reveal(CPU::spec_stx);
        let address = self.get_operand_address(mode);
        self.write(address, self.registers.index_x);
        self.remaining_cycles = store_cycles(mode);
    }

    /// Stores Y at the operand's address; no flag changes.
    #[verifier::opaque]
    pub open spec fn spec_sty(&self, mode: AddressingModes) -> CPU {
        let (address, resolved) = self.spec_get_operand_address(mode);
        resolved.spec_write(address, self.registers.index_y).spec_charged(spec_store_cycles(mode))
    }

    pub fn sty(&mut self, mode: AddressingModes)
        requires
            old(self).wf(),
        ensures
            *final(self) == old(self).spec_sty(mode),
            old(self).spec_completes(final(self)),
            old(self).spec_costs(final(self), Instruction::Sty, mode),
    {
        reveal(CPU::spec_sty);
        let address = self.get_operand_address(mode);
        self.write(address, self.registers.index_y);
        self.remaining_cycles = store_cycles(mode);
    }

    /// Copies A to X; Z and N follow it.
    #[verifier::opaque]
    pub open spec fn spec_tax(&self, mode: AddressingModes) -> CPU {
        self.spec_with_x(self.registers.acc).spec_set_zero_negative(self.registers.acc).spec_charged(2)
    }

    pub fn tax(&mut self, mode: AddressingModes)
        requires
            old(self).wf(),
        ensures
            *final(self) == old(self).spec_tax(mode),
            old(self).spec_completes(final(self)),
            old(self).spec_costs(final(self), Instruction::Tax, mode),
    {
        reveal(CPU::spec_tax);
        let value = self.registers.acc;
        self.registers.index_x = value;
        self.set_zero_negative(value);
        self.remaining_cycles = 2;
    }

    /// Copies X to A; Z and N follow it.
    #[verifier::opaque]
    pub open spec fn spec_txa(&self, mode: AddressingModes) -> CPU {
        self.spec_with_acc(self.registers.index_x).spec_set_zero_negative(self.registers.index_x).spec_charged(2)
    }

    pub fn txa(&mut self, mode: AddressingModes)
        requires
            old(self).wf(),
        ensures
            *final(self) == old(self).spec_txa(mode),
            old(self).spec_completes(final(self)),
            old(self).spec_costs(final(self), Instruction::Txa, mode),
    {
        reveal(CPU::spec_txa);
        let value = self.registers.index_x;
        self.registers.acc = value;
        self.set_zero_negative(value);
        self.remaining_cycles = 2;
    }

    /// Copies A to Y; Z and N follow it.
    #[verifier::opaque]
    pub open spec fn spec_tay(&self, mode: AddressingModes) -> CPU {
        self.spec_with_y(self.registers.acc).spec_set_zero_negative(self.registers.acc).spec_charged(2)
    }

    pub fn tay(&mut self, mode: AddressingModes)
        requires
            old(self).wf(),
        ensures
            *final(self) == old(self).spec_tay(mode),
            old(self).spec_completes(final(self)),
            old(self).spec_costs(final(self), Instruction::Tay, mode),
    {
        reveal(CPU::spec_tay);
        let value = self.registers.acc;
        self.registers.index_y = value;
        self.set_zero_negative(value);
        self.remaining_cycles = 2;
    }

    /// Copies Y to A; Z and N follow it.
    #[verifier::opaque]
    pub open spec fn spec_tya(&self, mode: AddressingModes) -> CPU {
        self.spec_with_acc(self.registers.index_y).spec_set_zero_negative(self.registers.index_y).spec_charged(2)
    }

    pub fn tya(&mut self, mode: AddressingModes)
        requires
            old(self).wf(),
        ensures
            *final(self) == old(self).spec_tya(mode),
            old(self).spec_completes(final(self)),
            old(self).spec_costs(final(self), Instruction::Tya, mode),
    {
        reveal(CPU::spec_tya);
        let value = self.registers.index_y;
        self.registers.acc = value;
        self.set_zero_negative(value);
        self.remaining_cycles = 2;
    }

    /// Adds the operand and C to A. C is the ninth bit of the sum, V the signed
    /// overflow; Z and N follow the result.
    #[verifier::opaque]
    pub open spec fn spec_adc(&self, mode: AddressingModes) -> CPU {
        let (value, read) = self.spec_execute_mode(mode);
        let (result, carry, overflow) = spec_add_with_carry(
            self.registers.acc,
            value,
            has_flag(self.registers.status_register, CARRY),
        );
        read.spec_with_acc(result).spec_set_carry_zero_negative(carry, result).spec_set_flag(
            OVERFLOW,
            overflow,
        ).spec_charged_read(mode)
    }

    pub fn adc(&mut self, mode: AddressingModes)
        requires
            old(self).wf(),
        ensures
            *final(self) == old(self).spec_adc(mode),
            old(self).spec_completes(final(self)),
            old(self).spec_costs(final(self), Instruction::Adc, mode),
    {
        reveal(CPU::spec_adc);
        let value = self.execute_mode(mode);
        let (result, carry, overflow) = add_with_carry(
            self.registers.acc,
            value,
            has_flag(self.registers.status_register, CARRY),
        );
        self.registers.acc = result;
        self.set_carry_zero_negative(carry, result);
        self.set_flag(OVERFLOW, overflow);
        self.charge_read(mode);
    }

    /// Subtracts the operand and the borrow from A: ADC of the operand's
    /// complement.
    #[verifier::opaque]
    pub open spec fn spec_sbc(&self, mode: AddressingModes) -> CPU {
        let (value, read) = self.spec_execute_mode(mode);
        let (result, carry, overflow) = spec_add_with_carry(
            self.registers.acc,
            (255 - value) as u8,
            has_flag(self.registers.status_register, CARRY),
        );
        read.spec_with_acc(result).spec_set_carry_zero_negative(carry, result).spec_set_flag(
            OVERFLOW,
            overflow,
        ).spec_charged_read(mode)
    }

    pub fn sbc(&mut self, mode: AddressingModes)
        requires
            old(self).wf(),
        ensures
            *final(self) == old(self).spec_sbc(mode),
            old(self).spec_completes(final(self)),
            old(self).spec_costs(final(self), Instruction::Sbc, mode),
    {
        reveal(CPU::spec_sbc);
        let value = self.execute_mode(mode);
        let (result, carry, overflow) = add_with_carry(
            self.registers.acc,
            255 - value,
            has_flag(self.registers.status_register, CARRY),
        );
        self.registers.acc = result;
        self.set_carry_zero_negative(carry, result);
        self.set_flag(OVERFLOW, overflow);
        self.charge_read(mode);
    }

    /// Adds 1 to the byte at the operand's address, modulo 256; Z and N follow
    /// the result.
    #[verifier::opaque]
    pub open spec fn spec_inc(&self, mode: AddressingModes) -> CPU {
        let (address, resolved) = self.spec_get_operand_address(mode);
        let (value, read) = resolved.spec_read(address);
        let result = value.wrapping_add(1);
        read.spec_write(address, result).spec_set_zero_negative(result).spec_charged(
            spec_modify_cycles(mode),
        )
    }

    pub fn inc(&mut self, mode: AddressingModes)
        requires
            old(self).wf(),
        ensures
            *final(self) == old(self).spec_inc(mode),
            old(self).spec_completes(final(self)),
            old(self).spec_costs(final(self), Instruction::Inc, mode),
    {
        reveal(CPU::spec_inc);
        let address = self.get_operand_address(mode);
        let value = self.read(address);
        let result = value.wrapping_add(1);
        self.write(address, result);
        self.set_zero_negative(result);
        self.remaining_cycles = modify_cycles(mode);
    }

    /// Subtracts 1 from the byte at the operand's address, modulo 256; Z and N follow
    /// the result.
    #[verifier::opaque]
    pub open spec fn spec_dec(&self, mode: AddressingModes) -> CPU {
        let (address, resolved) = self.spec_get_operand_address(mode);
        let (value, read) = resolved.spec_read(address);
        let result = value.wrapping_sub(1);
        read.spec_write(address, result).spec_set_zero_negative(result).spec_charged(
            spec_modify_cycles(mode),
        )
    }

    pub fn dec(&mut self, mode: AddressingModes)
        requires
            old(self).wf(),
        ensures
            *final(self) == old(self).spec_dec(mode),
            old(self).spec_completes(final(self)),
            old(self).spec_costs(final(self), Instruction::Dec, mode),
    {
        reveal(CPU::spec_dec);
        let address = self.get_operand_address(mode);
        let value = self.read(address);
        let result = value.wrapping_sub(1);
        self.write(address, result);
        self.set_zero_negative(result);
        self.remaining_cycles = modify_cycles(mode);
    }

    /// Adds 1 to X, modulo 256; Z and N follow the result.
    #[verifier::opaque]
    pub open spec fn spec_inx(&self, mode: AddressingModes) -> CPU {
        let result = self.registers.index_x.wrapping_add(1);
        self.spec_with_x(result).spec_set_zero_negative(result).spec_charged(2)
    }

    pub fn inx(&mut self, mode: AddressingModes)
        requires
            old(self).wf(),
        ensures
            *final(self) == old(self).spec_inx(mode),
            old(self).spec_completes(final(self)),
            old(self).spec_costs(final(self), Instruction::Inx, mode),
    {
        reveal(CPU::spec_inx);
        let result = self.registers.index_x.wrapping_add(1);
        self.registers.index_x = result;
        self.set_zero_negative(result);
        self.remaining_cycles = 2;
    }

    /// Subtracts 1 from X, modulo 256; Z and N follow the result.
    #[verifier::opaque]
    pub open spec fn spec_dex(&self, mode: AddressingModes) -> CPU {
        let result = self.registers.index_x.wrapping_sub(1);
        self.spec_with_x(result).spec_set_zero_negative(result).spec_charged(2)
    }

    pub fn dex(&mut self, mode: AddressingModes)
        requires
            old(self).wf(),
        ensures
            *final(self) == old(self).spec_dex(mode),
            old(self).spec_completes(final(self)),
            old(self).spec_costs(final(self), Instruction::Dex, mode),
    {
        reveal(CPU::spec_dex);
        let result = self.registers.index_x.wrapping_sub(1);
        self.registers.index_x = result;
        self.set_zero_negative(result);
        self.remaining_cycles = 2;
    }

    /// Adds 1 to Y, modulo 256; Z and N follow the result.
    #[verifier::opaque]
    pub open spec fn spec_iny(&self, mode: AddressingModes) -> CPU {
        let result = self.registers.index_y.wrapping_add(1);
        self.spec_with_y(result).spec_set_zero_negative(result).spec_charged(2)
    }

    pub fn iny(&mut self, mode: AddressingModes)
        requires
            old(self).wf(),
        ensures
            *final(self) == old(self).spec_iny(mode),
            old(self).spec_completes(final(self)),
            old(self).spec_costs(final(self), Instruction::Iny, mode),
    {
        reveal(CPU::spec_iny);
        let result = self.registers.index_y.wrapping_add(1);
        self.registers.index_y = result;
        self.set_zero_negative(result);
        self.remaining_cycles = 2;
    }

    /// Subtracts 1 from Y, modulo 256; Z and N follow the result.
    #[verifier::opaque]
    pub open spec fn spec_dey(&self, mode: AddressingModes) -> CPU {
        let result = self.registers.index_y.wrapping_sub(1);
        self.spec_with_y(result).spec_set_zero_negative(result).spec_charged(2)
    }

    pub fn dey(&mut self, mode: AddressingModes)
        requires
            old(self).wf(),
        ensures
            *final(self) == old(self).spec_dey(mode),
            old(self).spec_completes(final(self)),
            old(self).spec_costs(final(self), Instruction::Dey, mode),
    {
        reveal(CPU::spec_dey);
        let result = self.registers.index_y.wrapping_sub(1);
        self.registers.index_y = result;
        self.set_zero_negative(result);
        self.remaining_cycles = 2;
    }

    /// Shifts A, or the byte at the operand's address, left by one: bit 7 goes
    /// to C and 0 enters. Z and N follow the result.
    #[verifier::opaque]
    pub open spec fn spec_asl(&self, mode: AddressingModes) -> CPU {
        let carry_in = false;
        if mode == AddressingModes::Accumulator {
            let (result, carry) = spec_shifted_left(self.registers.acc, carry_in);
            self.spec_with_acc(result).spec_set_carry_zero_negative(carry, result).spec_charged(2)
        } else {
            let (address, resolved) = self.spec_get_operand_address(mode);
            let (value, read) = resolved.spec_read(address);
            let (result, carry) = spec_shifted_left(value, carry_in);
            read.spec_write(address, result).spec_set_carry_zero_negative(carry, result).spec_charged(
                spec_modify_cycles(mode),
            )
        }
    }

    pub fn asl(&mut self, mode: AddressingModes)
        requires
            old(self).wf(),
        ensures
            *final(self) == old(self).spec_asl(mode),
            old(self).spec_completes(final(self)),
            old(self).spec_costs(final(self), Instruction::Asl, mode),
    {
        reveal(CPU::spec_asl);
        let carry_in = false;
        if mode == AddressingModes::Accumulator {
            let (result, carry) = shifted_left(self.registers.acc, carry_in);
            self.registers.acc = result;
            self.set_carry_zero_negative(carry, result);
            self.remaining_cycles = 2;
        } else {
            let address = self.get_operand_address(mode);
            let value = self.read(address);
            let (result, carry) = shifted_left(value, carry_in);
            self.write(address, result);
            self.set_carry_zero_negative(carry, result);
            self.remaining_cycles = modify_cycles(mode);
        }
    }

    /// Shifts A, or the byte at the operand's address, right by one: bit 0
    /// goes to C and 0 enters. Z and N follow the result.
    #[verifier::opaque]
    pub open spec fn spec_lsr(&self, mode: AddressingModes) -> CPU {
        let carry_in = false;
        if mode == AddressingModes::Accumulator {
            let (result, carry) = spec_shifted_right(self.registers.acc, carry_in);
            self.spec_with_acc(result).spec_set_carry_zero_negative(carry, result).spec_charged(2)
        } else {
            let (address, resolved) = self.spec_get_operand_address(mode);
            let (value, read) = resolved.spec_read(address);
            let (result, carry) = spec_shifted_right(value, carry_in);
            read.spec_write(address, result).spec_set_carry_zero_negative(carry, result).spec_charged(
                spec_modify_cycles(mode),
            )
        }
    }

    pub fn lsr(&mut self, mode: AddressingModes)
        requires
            old(self).wf(),
        ensures
            *final(self) == old(self).spec_lsr(mode),
            old(self).spec_completes(final(self)),
            old(self).spec_costs(final(self), Instruction::Lsr, mode),
    {
        reveal(CPU::spec_lsr);
        let carry_in = false;
        if mode == AddressingModes::Accumulator {
            let (result, carry) = shifted_right(self.registers.acc, carry_in);
            self.registers.acc = result;
            self.set_carry_zero_negative(carry, result);
            self.remaining_cycles = 2;
        } else {
            let address = self.get_operand_address(mode);
            let value = self.read(address);
            let (result, carry) = shifted_right(value, carry_in);
            self.write(address, result);
            self.set_carry_zero_negative(carry, result);
            self.remaining_cycles = modify_cycles(mode);
        }
    }

    /// Rotates A, or the byte at the operand's address, left through C. Z and N follow the result.
    #[verifier::opaque]
    pub open spec fn spec_rol(&self, mode: AddressingModes) -> CPU {
        let carry_in = has_flag(self.registers.status_register, CARRY);
        if mode == AddressingModes::Accumulator {
            let (result, carry) = spec_shifted_left(self.registers.acc, carry_in);
            self.spec_with_acc(result).spec_set_carry_zero_negative(carry, result).spec_charged(2)
        } else {
            let (address, resolved) = self.spec_get_operand_address(mode);
            let (value, read) = resolved.spec_read(address);
            let (result, carry) = spec_shifted_left(value, carry_in);
            read.spec_write(address, result).spec_set_carry_zero_negative(carry, result).spec_charged(
                spec_modify_cycles(mode),
            )
        }
    }

    pub fn rol(&mut self, mode: AddressingModes)
        requires
            old(self).wf(),
        ensures
            *final(self) == old(self).spec_rol(mode),
            old(self).spec_completes(final(self)),
            old(self).spec_costs(final(self), Instruction::Rol, mode),
    {
        reveal(CPU::spec_rol);
        let carry_in = has_flag(self.registers.status_register, CARRY);
        if mode == AddressingModes::Accumulator {
            let (result, carry) = shifted_left(self.registers.acc, carry_in);
            self.registers.acc = result;
            self.set_carry_zero_negative(carry, result);
            self.remaining_cycles = 2;
        } else {
            let address = self.get_operand_address(mode);
            let value = self.read(address);
            let (result, carry) = shifted_left(value, carry_in);
            self.write(address, result);
            self.set_carry_zero_negative(carry, result);
            self.remaining_cycles = modify_cycles(mode);
        }
    }

    /// Rotates A, or the byte at the operand's address, right through C. Z and N follow the result.
    #[verifier::opaque]
    pub open spec fn spec_ror(&self, mode: AddressingModes) -> CPU {
        let carry_in = has_flag(self.registers.status_register, CARRY);
        if mode == AddressingModes::Accumulator {
            let (result, carry) = spec_shifted_right(self.registers.acc, carry_in);
            self.spec_with_acc(result).spec_set_carry_zero_negative(carry, result).spec_charged(2)
        } else {
            let (address, resolved) = self.spec_get_operand_address(mode);
            let (value, read) = resolved.spec_read(address);
            let (result, carry) = spec_shifted_right(value, carry_in);
            read.spec_write(address, result).spec_set_carry_zero_negative(carry, result).spec_charged(
                spec_modify_cycles(mode),
            )
        }
    }

    pub fn ror(&mut self, mode: AddressingModes)
        requires
            old(self).wf(),
        ensures
            *final(self) == old(self).spec_ror(mode),
            old(self).spec_completes(final(self)),
            old(self).spec_costs(final(self), Instruction::Ror, mode),
    {
        reveal(CPU::spec_ror);
        let carry_in = has_flag(self.registers.status_register, CARRY);
        if mode == AddressingModes::Accumulator {
            let (result, carry) = shifted_right(self.registers.acc, carry_in);
            self.registers.acc = result;
            self.set_carry_zero_negative(carry, result);
            self.remaining_cycles = 2;
        } else {
            let address = self.get_operand_address(mode);
            let value = self.read(address);
            let (result, carry) = shifted_right(value, carry_in);
            self.write(address, result);
            self.set_carry_zero_negative(carry, result);
            self.remaining_cycles = modify_cycles(mode);
        }
    }

    /// ANDs the operand into A; Z and N follow the result.
    #[verifier::opaque]
    pub open spec fn spec_and(&self, mode: AddressingModes) -> CPU {
        let (value, read) = self.spec_execute_mode(mode);
        let result = self.registers.acc & value;
        read.spec_with_acc(result).spec_set_zero_negative(result).spec_charged_read(mode)
    }

    pub fn and(&mut self, mode: AddressingModes)
        requires
            old(self).wf(),
        ensures
            *final(self) == old(self).spec_and(mode),
            old(self).spec_completes(final(self)),
            old(self).spec_costs(final(self), Instruction::And, mode),
    {
        reveal(CPU::spec_and);
        let value = self.execute_mode(mode);
        let result = self.registers.acc & value;
        self.registers.acc = result;
        self.set_zero_negative(result);
        self.charge_read(mode);
    }

    /// ORs the operand into A; Z and N follow the result.
    #[verifier::opaque]
    pub open spec fn spec_ora(&self, mode: AddressingModes) -> CPU {
        let (value, read) = self.spec_execute_mode(mode);
        let result = self.registers.acc | value;
        read.spec_with_acc(result).spec_set_zero_negative(result).spec_charged_read(mode)
    }

    pub fn ora(&mut self, mode: AddressingModes)
        requires
            old(self).wf(),
        ensures
            *final(self) == old(self).spec_ora(mode),
            old(self).spec_completes(final(self)),
            old(self).spec_costs(final(self), Instruction::Ora, mode),
    {
        reveal(CPU::spec_ora);
        let value = self.execute_mode(mode);
        let result = self.registers.acc | value;
        self.registers.acc = result;
        self.set_zero_negative(result);
        self.charge_read(mode);
    }

    /// XORs the operand into A; Z and N follow the result.
    #[verifier::opaque]
    pub open spec fn spec_eor(&self, mode: AddressingModes) -> CPU {
        let (value, read) = self.spec_execute_mode(mode);
        let result = self.registers.acc ^ value;
        read.spec_with_acc(result).spec_set_zero_negative(result).spec_charged_read(mode)
    }

    pub fn eor(&mut self, mode: AddressingModes)
        requires
            old(self).wf(),
        ensures
            *final(self) == old(self).spec_eor(mode),
            old(self).spec_completes(final(self)),
            old(self).spec_costs(final(self), Instruction::Eor, mode),
    {
        reveal(CPU::spec_eor);
        let value = self.execute_mode(mode);
        let result = self.registers.acc ^ value;
        self.registers.acc = result;
        self.set_zero_negative(result);
        self.charge_read(mode);
    }

    /// Tests the operand against A: Z from `A & M`, V and N from bits 6 and 7
    /// of the operand.
    #[verifier::opaque]
    pub open spec fn spec_bit(&self, mode: AddressingModes) -> CPU {
        let (value, read) = self.spec_execute_mode(mode);
        read.spec_set_flag(ZERO, (self.registers.acc & value) == 0).spec_set_flag(
            OVERFLOW,
            (value & 0x40) != 0,
        ).spec_set_flag(NEGATIVE, value >= 0x80).spec_charged(spec_read_cycles(mode))
    }

    pub fn bit(&mut self, mode: AddressingModes)
        requires
            old(self).wf(),
        ensures
            *final(self) == old(self).spec_bit(mode),
            old(self).spec_completes(final(self)),
            old(self).spec_costs(final(self), Instruction::Bit, mode),
    {
        reveal(CPU::spec_bit);
        let value = self.execute_mode(mode);
        self.set_flag(ZERO, (self.registers.acc & value) == 0);
        self.set_flag(OVERFLOW, (value & 0x40) != 0);
        self.set_flag(NEGATIVE, value >= 0x80);
        self.remaining_cycles = read_cycles(mode);
    }

    /// A register compared with the operand: C iff the register is at least
    /// the operand; Z and N follow their difference modulo 256.
    pub open spec fn spec_compare(&self, register: u8, mode: AddressingModes) -> CPU {
        let (value, read) = self.spec_execute_mode(mode);
        read.spec_set_carry_zero_negative(
            register >= value,
            register.wrapping_sub(value),
        ).spec_charged_read(mode)
    }

    fn compare(&mut self, register: u8, mode: AddressingModes)
        requires
            old(self).wf(),
        ensures
            *final(self) == old(self).spec_compare(register, mode),
            old(self).spec_completes(final(self)),
            final(self).remaining_cycles == spec_read_cycles(mode) + final(self).spec_page_penalty(),
    {
        let value = self.execute_mode(mode);
        self.set_carry_zero_negative(register >= value, register.wrapping_sub(value));
        self.charge_read(mode);
    }

    /// Compares A with the operand.
    #[verifier::opaque]
    pub open spec fn spec_cmp(&self, mode: AddressingModes) -> CPU {
        self.spec_compare(self.registers.acc, mode)
    }

    pub fn cmp(&mut self, mode: AddressingModes)
        requires
            old(self).wf(),
        ensures
            *final(self) == old(self).spec_cmp(mode),
            old(self).spec_completes(final(self)),
            old(self).spec_costs(final(self), Instruction::Cmp, mode),
    {
        reveal(CPU::spec_cmp);
        self.compare(self.registers.acc, mode);
    }

    /// Compares X with the operand.
    #[verifier::opaque]
    pub open spec fn spec_cpx(&self, mode: AddressingModes) -> CPU {
        self.spec_compare(self.registers.index_x, mode)
    }

    pub fn cpx(&mut self, mode: AddressingModes)
        requires
            old(self).wf(),
        ensures
            *final(self) == old(self).spec_cpx(mode),
            old(self).spec_completes(final(self)),
            old(self).spec_costs(final(self), Instruction::Cpx, mode),
    {
        reveal(CPU::spec_cpx);
        self.compare(self.registers.index_x, mode);
    }

    /// Compares Y with the operand.
    #[verifier::opaque]
    pub open spec fn spec_cpy(&self, mode: AddressingModes) -> CPU {
        self.spec_compare(self.registers.index_y, mode)
    }

    pub fn cpy(&mut self, mode: AddressingModes)
        requires
            old(self).wf(),
        ensures
            *final(self) == old(self).spec_cpy(mode),
            old(self).spec_completes(final(self)),
            old(self).spec_costs(final(self), Instruction::Cpy, mode),
    {
        reveal(CPU::spec_cpy);
        self.compare(self.registers.index_y, mode);
    }

    /// Branches if C is clear.
    #[verifier::opaque]
    pub open spec fn spec_bcc(&self, mode: AddressingModes) -> CPU {
        self.spec_branch_if(!has_flag(self.registers.status_register, CARRY))
    }

    pub fn bcc(&mut self, mode: AddressingModes)
        requires
            old(self).wf(),
        ensures
            *final(self) == old(self).spec_bcc(mode),
            old(self).spec_completes(final(self)),
            old(self).spec_costs(final(self), Instruction::Bcc, mode),
    {
        reveal(CPU::spec_bcc);
        self.branch_if(!has_flag(self.registers.status_register, CARRY));
    }

    /// Branches if C is set.
    #[verifier::opaque]
    pub open spec fn spec_bcs(&self, mode: AddressingModes) -> CPU {
        self.spec_branch_if(has_flag(self.registers.status_register, CARRY))
    }

    pub fn bcs(&mut self, mode: AddressingModes)
        requires
            old(self).wf(),
        ensures
            *final(self) == old(self).spec_bcs(mode),
            old(self).spec_completes(final(self)),
            old(self).spec_costs(final(self), Instruction::Bcs, mode),
    {
        reveal(CPU::spec_bcs);
        self.branch_if(has_flag(self.registers.status_register, CARRY));
    }

    /// Branches if Z is set.
    #[verifier::opaque]
    pub open spec fn spec_beq(&self, mode: AddressingModes) -> CPU {
        self.spec_branch_if(has_flag(self.registers.status_register, ZERO))
    }

    pub fn beq(&mut self, mode: AddressingModes)
        requires
            old(self).wf(),
        ensures
            *final(self) == old(self).spec_beq(mode),
            old(self).spec_completes(final(self)),
            old(self).spec_costs(final(self), Instruction::Beq, mode),
    {
        reveal(CPU::spec_beq);
        self.branch_if(has_flag(self.registers.status_register, ZERO));
    }

    /// Branches if Z is clear.
    #[verifier::opaque]
    pub open spec fn spec_bne(&self, mode: AddressingModes) -> CPU {
        self.spec_branch_if(!has_flag(self.registers.status_register, ZERO))
    }

    pub fn bne(&mut self, mode: AddressingModes)
        requires
            old(self).wf(),
        ensures
            *final(self) == old(self).spec_bne(mode),
            old(self).spec_completes(final(self)),
            old(self).spec_costs(final(self), Instruction::Bne, mode),
    {
        reveal(CPU::spec_bne);
        self.branch_if(!has_flag(self.registers.status_register, ZERO));
    }

    /// Branches if N is clear.
    #[verifier::opaque]
    pub open spec fn spec_bpl(&self, mode: AddressingModes) -> CPU {
        self.spec_branch_if(!has_flag(self.registers.status_register, NEGATIVE))
    }

    pub fn bpl(&mut self, mode: AddressingModes)
        requires
            old(self).wf(),
        ensures
            *final(self) == old(self).spec_bpl(mode),
            old(self).spec_completes(final(self)),
            old(self).spec_costs(final(self), Instruction::Bpl, mode),
    {
        reveal(CPU::spec_bpl);
        self.branch_if(!has_flag(self.registers.status_register, NEGATIVE));
    }

    /// Branches if N is set.
    #[verifier::opaque]
    pub open spec fn spec_bmi(&self, mode: AddressingModes) -> CPU {
        self.spec_branch_if(has_flag(self.registers.status_register, NEGATIVE))
    }

    pub fn bmi(&mut self, mode: AddressingModes)
        requires
            old(self).wf(),
        ensures
            *final(self) == old(self).spec_bmi(mode),
            old(self).spec_completes(final(self)),
            old(self).spec_costs(final(self), Instruction::Bmi, mode),
    {
        reveal(CPU::spec_bmi);
        self.branch_if(has_flag(self.registers.status_register, NEGATIVE));
    }

    /// Branches if V is clear.
    #[verifier::opaque]
    pub open spec fn spec_bvc(&self, mode: AddressingModes) -> CPU {
        self.spec_branch_if(!has_flag(self.registers.status_register, OVERFLOW))
    }

    pub fn bvc(&mut self, mode: AddressingModes)
        requires
            old(self).wf(),
        ensures
            *final(self) == old(self).spec_bvc(mode),
            old(self).spec_completes(final(self)),
            old(self).spec_costs(final(self), Instruction::Bvc, mode),
    {
        reveal(CPU::spec_bvc);
        self.branch_if(!has_flag(self.registers.status_register, OVERFLOW));
    }

    /// Branches if V is set.
    #[verifier::opaque]
    pub open spec fn spec_bvs(&self, mode: AddressingModes) -> CPU {
        self.spec_branch_if(has_flag(self.registers.status_register, OVERFLOW))
    }

    pub fn bvs(&mut self, mode: AddressingModes)
        requires
            old(self).wf(),
        ensures
            *final(self) == old(self).spec_bvs(mode),
            old(self).spec_completes(final(self)),
            old(self).spec_costs(final(self), Instruction::Bvs, mode),
    {
        reveal(CPU::spec_bvs);
        self.branch_if(has_flag(self.registers.status_register, OVERFLOW));
    }

    /// Jumps to the operand's address: 3 cycles, 5 through a pointer.
    #[verifier::opaque]
    pub open spec fn spec_jmp(&self, mode: AddressingModes) -> CPU {
        let (address, resolved) = self.spec_get_operand_address(mode);
        resolved.spec_with_pc(address).spec_charged(
            if mode == AddressingModes::Indirect {
                5
            } else {
                3
            },
        )
    }

    pub fn jmp(&mut self, mode: AddressingModes)
        requires
            old(self).wf(),
        ensures
            *final(self) == old(self).spec_jmp(mode),
            old(self).spec_completes(final(self)),
            old(self).spec_costs(final(self), Instruction::Jmp, mode),
    {
        reveal(CPU::spec_jmp);
        let address = self.get_operand_address(mode);
        self.registers.program_counter = address;
        self.remaining_cycles = if mode == AddressingModes::Indirect {
            5
        } else {
            3
        };
    }

    /// Calls a subroutine: pushes the address of the instruction's last byte,
    /// high byte first, then jumps to the operand.
    #[verifier::opaque]
    pub open spec fn spec_jsr(&self, mode: AddressingModes) -> CPU {
        let pushed = self.spec_push_u16(self.registers.program_counter.wrapping_add(1));
        let (target, fetched) = pushed.spec_fetch_word();
        fetched.spec_with_pc(target).spec_charged(6)
    }

    pub fn jsr(&mut self, mode: AddressingModes)
        requires
            old(self).wf(),
        ensures
            *final(self) == old(self).spec_jsr(mode),
            old(self).spec_completes(final(self)),
            old(self).spec_costs(final(self), Instruction::Jsr, mode),
    {
        reveal(CPU::spec_jsr);
        self.push_u16(self.registers.program_counter.wrapping_add(1));
        let target = self.fetch_word();
        self.registers.program_counter = target;
        self.remaining_cycles = 6;
    }

    /// Returns from a subroutine: pulls an address, low byte first, and
    /// continues one byte after it.
    #[verifier::opaque]
    pub open spec fn spec_rts(&self, mode: AddressingModes) -> CPU {
        let (address, pulled) = self.spec_pull_u16();
        pulled.spec_with_pc(address.wrapping_add(1)).spec_charged(6)
    }

    pub fn rts(&mut self, mode: AddressingModes)
        requires
            old(self).wf(),
        ensures
            *final(self) == old(self).spec_rts(mode),
            old(self).spec_completes(final(self)),
            old(self).spec_costs(final(self), Instruction::Rts, mode),
    {
        reveal(CPU::spec_rts);
        let address = self.pull_u16();
        self.registers.program_counter = address.wrapping_add(1);
        self.remaining_cycles = 6;
    }

    /// Software interrupt: pushes the address two bytes after the opcode, then
    /// P with B and U set; sets I and continues at the vector in `$FFFE/F`.
    #[verifier::opaque]
    pub open spec fn spec_brk(&self, mode: AddressingModes) -> CPU {
        let p = self.registers.status_register;
        let pushed = self.spec_push_u16(self.registers.program_counter.wrapping_add(1)).spec_push(
            with_flag(p, PUSHED_ONLY, true),
        );
        let (target, read) = pushed.spec_read_u16(IRQ_VECTOR);
        read.spec_with_pc(target).spec_set_flag(INTERRUPT_DISABLE, true).spec_charged(
            INTERRUPT_CYCLES,
        )
    }

    pub fn brk(&mut self, mode: AddressingModes)
        requires
            old(self).wf(),
        ensures
            *final(self) == old(self).spec_brk(mode),
            old(self).spec_completes(final(self)),
            old(self).spec_costs(final(self), Instruction::Brk, mode),
    {
        reveal(CPU::spec_brk);
        let p = self.registers.status_register;
        self.push_u16(self.registers.program_counter.wrapping_add(1));
        self.push(with_flag(p, PUSHED_ONLY, true));
        self.registers.program_counter = self.read_u16(IRQ_VECTOR);
        self.set_flag(INTERRUPT_DISABLE, true);
        self.remaining_cycles = INTERRUPT_CYCLES;
    }

    /// Returns from an interrupt: pulls P, in which B is cleared and U set,
    /// then PC, which is used as pulled.
    #[verifier::opaque]
    pub open spec fn spec_rti(&self, mode: AddressingModes) -> CPU {
        let (p, first) = self.spec_pull();
        let (address, second) = first.spec_pull_u16();
        second.spec_with_status(with_flag(with_flag(p, BREAK, false), UNUSED, true)).spec_with_pc(
            address,
        ).spec_charged(6)
    }

    pub fn rti(&mut self, mode: AddressingModes)
        requires
            old(self).wf(),
        ensures
            *final(self) == old(self).spec_rti(mode),
            old(self).spec_completes(final(self)),
            old(self).spec_costs(final(self), Instruction::Rti, mode),
    {
        reveal(CPU::spec_rti);
        let p = self.pull();
        let address = self.pull_u16();
        proof {
            lemma_pulled_status(p, self.registers.status_register);
        }
        self.registers.status_register = with_flag(with_flag(p, BREAK, false), UNUSED, true);
        self.registers.program_counter = address;
        self.remaining_cycles = 6;
    }

    /// Pushes A.
    #[verifier::opaque]
    pub open spec fn spec_pha(&self, mode: AddressingModes) -> CPU {
        self.spec_push(self.registers.acc).spec_charged(3)
    }

    pub fn pha(&mut self, mode: AddressingModes)
        requires
            old(self).wf(),
        ensures
            *final(self) == old(self).spec_pha(mode),
            old(self).spec_completes(final(self)),
            old(self).spec_costs(final(self), Instruction::Pha, mode),
    {
        reveal(CPU::spec_pha);
        self.push(self.registers.acc);
        self.remaining_cycles = 3;
    }

    /// Pulls A; Z and N follow it.
    #[verifier::opaque]
    pub open spec fn spec_pla(&self, mode: AddressingModes) -> CPU {
        let (value, pulled) = self.spec_pull();
        pulled.spec_with_acc(value).spec_set_zero_negative(value).spec_charged(4)
    }

    pub fn pla(&mut self, mode: AddressingModes)
        requires
            old(self).wf(),
        ensures
            *final(self) == old(self).spec_pla(mode),
            old(self).spec_completes(final(self)),
            old(self).spec_costs(final(self), Instruction::Pla, mode),
    {
        reveal(CPU::spec_pla);
        let value = self.pull();
        self.registers.acc = value;
        self.set_zero_negative(value);
        self.remaining_cycles = 4;
    }

    /// Pushes P with B and U set; the live P does not change.
    #[verifier::opaque]
    pub open spec fn spec_php(&self, mode: AddressingModes) -> CPU {
        self.spec_push(with_flag(self.registers.status_register, PUSHED_ONLY, true)).spec_charged(3)
    }

    pub fn php(&mut self, mode: AddressingModes)
        requires
            old(self).wf(),
        ensures
            *final(self) == old(self).spec_php(mode),
            old(self).spec_completes(final(self)),
            old(self).spec_costs(final(self), Instruction::Php, mode),
    {
        reveal(CPU::spec_php);
        self.push(with_flag(self.registers.status_register, PUSHED_ONLY, true));
        self.remaining_cycles = 3;
    }

    /// Pulls P, but keeps B and U as they are in the live register.
    #[verifier::opaque]
    pub open spec fn spec_plp(&self, mode: AddressingModes) -> CPU {
        let (p, pulled) = self.spec_pull();
        pulled.spec_with_status(
            with_flag(p, PUSHED_ONLY, false) | (self.registers.status_register & PUSHED_ONLY),
        ).spec_charged(4)
    }

    pub fn plp(&mut self, mode: AddressingModes)
        requires
            old(self).wf(),
        ensures
            *final(self) == old(self).spec_plp(mode),
            old(self).spec_completes(final(self)),
            old(self).spec_costs(final(self), Instruction::Plp, mode),
    {
        reveal(CPU::spec_plp);
        let live = self.registers.status_register;
        let p = self.pull();
        proof {
            lemma_pulled_status(p, live);
        }
        self.registers.status_register = with_flag(p, PUSHED_ONLY, false) | (live & PUSHED_ONLY);
        self.remaining_cycles = 4;
    }

    /// Copies X to S; no flag changes.
    #[verifier::opaque]
    pub open spec fn spec_txs(&self, mode: AddressingModes) -> CPU {
        self.spec_with_sp(self.registers.index_x).spec_charged(2)
    }

    pub fn txs(&mut self, mode: AddressingModes)
        requires
            old(self).wf(),
        ensures
            *final(self) == old(self).spec_txs(mode),
            old(self).spec_completes(final(self)),
            old(self).spec_costs(final(self), Instruction::Txs, mode),
    {
        reveal(CPU::spec_txs);
        self.registers.stack_pointer = self.registers.index_x;
        self.remaining_cycles = 2;
    }

    /// Copies S to X; Z and N follow it.
    #[verifier::opaque]
    pub open spec fn spec_tsx(&self, mode: AddressingModes) -> CPU {
        self.spec_with_x(self.registers.stack_pointer).spec_set_zero_negative(
            self.registers.stack_pointer,
        ).spec_charged(2)
    }

    pub fn tsx(&mut self, mode: AddressingModes)
        requires
            old(self).wf(),
        ensures
            *final(self) == old(self).spec_tsx(mode),
            old(self).spec_completes(final(self)),
            old(self).spec_costs(final(self), Instruction::Tsx, mode),
    {
        reveal(CPU::spec_tsx);
        let value = self.registers.stack_pointer;
        self.registers.index_x = value;
        self.set_zero_negative(value);
        self.remaining_cycles = 2;
    }

    /// Clears C.
    #[verifier::opaque]
    pub open spec fn spec_clc(&self, mode: AddressingModes) -> CPU {
        self.spec_set_flag(CARRY, false).spec_charged(2)
    }

    pub fn clc(&mut self, mode: AddressingModes)
        requires
            old(self).wf(),
        ensures
            *final(self) == old(self).spec_clc(mode),
            old(self).spec_completes(final(self)),
            old(self).spec_costs(final(self), Instruction::Clc, mode),
    {
        reveal(CPU::spec_clc);
        self.set_flag(CARRY, false);
        self.remaining_cycles = 2;
    }

    /// Sets C.
    #[verifier::opaque]
    pub open spec fn spec_sec(&self, mode: AddressingModes) -> CPU {
        self.spec_set_flag(CARRY, true).spec_charged(2)
    }

    pub fn sec(&mut self, mode: AddressingModes)
        requires
            old(self).wf(),
        ensures
            *final(self) == old(self).spec_sec(mode),
            old(self).spec_completes(final(self)),
            old(self).spec_costs(final(self), Instruction::Sec, mode),
    {
        reveal(CPU::spec_sec);
        self.set_flag(CARRY, true);
        self.remaining_cycles = 2;
    }

    /// Clears I.
    #[verifier::opaque]
    pub open spec fn spec_cli(&self, mode: AddressingModes) -> CPU {
        self.spec_set_flag(INTERRUPT_DISABLE, false).spec_charged(2)
    }

    pub fn cli(&mut self, mode: AddressingModes)
        requires
            old(self).wf(),
        ensures
            *final(self) == old(self).spec_cli(mode),
            old(self).spec_completes(final(self)),
            old(self).spec_costs(final(self), Instruction::Cli, mode),
    {
        reveal(CPU::spec_cli);
        self.set_flag(INTERRUPT_DISABLE, false);
        self.remaining_cycles = 2;
    }

    /// Sets I.
    #[verifier::opaque]
    pub open spec fn spec_sei(&self, mode: AddressingModes) -> CPU {
        self.spec_set_flag(INTERRUPT_DISABLE, true).spec_charged(2)
    }

    pub fn sei(&mut self, mode: AddressingModes)
        requires
            old(self).wf(),
        ensures
            *final(self) == old(self).spec_sei(mode),
            old(self).spec_completes(final(self)),
            old(self).spec_costs(final(self), Instruction::Sei, mode),
    {
        reveal(CPU::spec_sei);
        self.set_flag(INTERRUPT_DISABLE, true);
        self.remaining_cycles = 2;
    }

    /// Clears D.
    #[verifier::opaque]
    pub open spec fn spec_cld(&self, mode: AddressingModes) -> CPU {
        self.spec_set_flag(DECIMAL, false).spec_charged(2)
    }

    pub fn cld(&mut self, mode: AddressingModes)
        requires
            old(self).wf(),
        ensures
            *final(self) == old(self).spec_cld(mode),
            old(self).spec_completes(final(self)),
            old(self).spec_costs(final(self), Instruction::Cld, mode),
    {
        reveal(CPU::spec_cld);
        self.set_flag(DECIMAL, false);
        self.remaining_cycles = 2;
    }

    /// Sets D.
    #[verifier::opaque]
    pub open spec fn spec_sed(&self, mode: AddressingModes) -> CPU {
        self.spec_set_flag(DECIMAL, true).spec_charged(2)
    }

    pub fn sed(&mut self, mode: AddressingModes)
        requires
            old(self).wf(),
        ensures
            *final(self) == old(self).spec_sed(mode),
            old(self).spec_completes(final(self)),
            old(self).spec_costs(final(self), Instruction::Sed, mode),
    {
        reveal(CPU::spec_sed);
        self.set_flag(DECIMAL, true);
        self.remaining_cycles = 2;
    }

    /// Clears V.
    #[verifier::opaque]
    pub open spec fn spec_clv(&self, mode: AddressingModes) -> CPU {
        self.spec_set_flag(OVERFLOW, false).spec_charged(2)
    }

    pub fn clv(&mut self, mode: AddressingModes)
        requires
            old(self).wf(),
        ensures
            *final(self) == old(self).spec_clv(mode),
            old(self).spec_completes(final(self)),
            old(self).spec_costs(final(self), Instruction::Clv, mode),
    {
        reveal(CPU::spec_clv);
        self.set_flag(OVERFLOW, false);
        self.remaining_cycles = 2;
    }

    /// Does nothing, in 2 cycles.
    #[verifier::opaque]
    pub open spec fn spec_nop(&self, mode: AddressingModes) -> CPU {
        self.spec_charged(2)
    }

    pub fn nop(&mut self, mode: AddressingModes)
        requires
            old(self).wf(),
        ensures
            *final(self) == old(self).spec_nop(mode),
            old(self).spec_completes(final(self)),
            old(self).spec_costs(final(self), Instruction::Nop, mode),
    {
        reveal(CPU::spec_nop);
        self.remaining_cycles = 2;
    }
}

/// A pulled P keeps the live B and U under PLP, and has U set and B clear
/// after RTI.
pub proof fn lemma_pulled_status(pulled: u8, live: u8)
    by (bit_vector)
    ensures
        ((pulled & !0x30u8) | (live & 0x30)) & 0x30 == live & 0x30,
        ((pulled & !0x10u8) | 0x20) & 0x30 == 0x20,
{
}

} // verus!
