//! The processor's state and the building blocks every instruction uses:
//! bus access, the stack, flags, and the thirteen addressing modes.

use vstd::prelude::*;
use crate::bus::BUS;

verus! {

// Flags, as laid out in P: NV1B DIZC.
pub const CARRY: u8 = 0x01;

pub const ZERO: u8 = 0x02;

pub const INTERRUPT_DISABLE: u8 = 0x04;

pub const DECIMAL: u8 = 0x08;

pub const BREAK: u8 = 0x10;

pub const UNUSED: u8 = 0x20;

pub const OVERFLOW: u8 = 0x40;

pub const NEGATIVE: u8 = 0x80;

/// Base of the stack page.
pub const STACK_BASE: u16 = 0x0100;

pub const NMI_VECTOR: u16 = 0xFFFA;

pub const RESET_VECTOR: u16 = 0xFFFC;

pub const IRQ_VECTOR: u16 = 0xFFFE;

/// P after a reset: I and U.
pub const RESET_STATUS: u8 = 0x24;

/// Cycles an interrupt sequence or a reset takes.
pub const INTERRUPT_CYCLES: u32 = 7;

/// How an instruction's operand bytes resolve to a value or an address.
#[derive(Clone, Copy, Debug, PartialEq, Eq, Structural)]
pub enum AddressingModes {
    ZeroPageIndexedX,
    ZeroPageIndexedY,
    AbsoluteIndexedX,
    AbsoluteIndexedY,
    IndexedIndirect,
    IndirectIndexed,
    Implicit,
    Accumulator,
    Immediate,
    ZeroPage,
    Absolute,
    Relative,
    Indirect,
}

impl AddressingModes {
    /// Length of an instruction in this mode, opcode included.
    pub open spec fn spec_bytes(&self) -> u8 {
        match self {
            AddressingModes::Implicit | AddressingModes::Accumulator => 1,
            AddressingModes::Absolute
            | AddressingModes::AbsoluteIndexedX
            | AddressingModes::AbsoluteIndexedY
            | AddressingModes::Indirect => 3,
            _ => 2,
        }
    }

    pub fn bytes(&self) -> (r: u8)
        ensures
            r == self.spec_bytes(),
    {
        match self {
            AddressingModes::ZeroPageIndexedX => 2,
            AddressingModes::ZeroPageIndexedY => 2,
            AddressingModes::AbsoluteIndexedX => 3,
            AddressingModes::AbsoluteIndexedY => 3,
            AddressingModes::IndexedIndirect => 2,
            AddressingModes::IndirectIndexed => 2,
            AddressingModes::Implicit => 1,
            AddressingModes::Accumulator => 1,
            AddressingModes::Immediate => 2,
            AddressingModes::ZeroPage => 2,
            AddressingModes::Absolute => 3,
            AddressingModes::Relative => 2,
            AddressingModes::Indirect => 3,
        }
    }
}

/// One flag to bring up to date: Z and N from a result, the others from a
/// condition.
#[derive(Clone, Copy, Debug, PartialEq, Eq, Structural)]
pub enum FlagUpdate {
    Zero(u8),
    Negative(u8),
    Carry(bool),
    Overflow(bool),
    InterruptDisable(bool),
    Decimal(bool),
    Break(bool),
}

#[derive(Clone, Copy, Debug, PartialEq, Eq, Structural)]
pub struct Registers {
    /// A.
    pub acc: u8,
    /// X.
    pub index_x: u8,
    /// Y.
    pub index_y: u8,
    /// S: the stack lives at `$0100 + S`.
    pub stack_pointer: u8,
    /// P: `NV1B DIZC`.
    pub status_register: u8,
    /// PC.
    pub program_counter: u16,
}

impl Registers {
    /// `after` differs from `self` in PC at most.
    pub open spec fn spec_moved_pc(&self, after: &Registers) -> bool {
        *after == (Registers { program_counter: after.program_counter, ..*self })
    }

    /// `after` differs from `self` in S at most.
    pub open spec fn spec_moved_sp(&self, after: &Registers) -> bool {
        *after == (Registers { stack_pointer: after.stack_pointer, ..*self })
    }
}

pub struct CPU {
    pub registers: Registers,
    pub bus: BUS,
    /// Cycles the instruction in progress still takes.
    pub remaining_cycles: u32,
    /// An NMI edge was seen and waits for the next instruction boundary.
    pub nmi_pending: bool,
    /// The last operand resolved lay in another page than its base address.
    pub page_crossed: bool,
}

/// `p` with the flags of `mask` set or cleared.
#[verifier::allow_in_spec]
pub fn with_flag(p: u8, mask: u8, on: bool) -> u8
    returns
        (if on {
            p | mask
        } else {
            p & !mask
        }),
{
    if on {
        p | mask
    } else {
        p & !mask
    }
}

/// Some flag of `mask` is set in `p`.
#[verifier::allow_in_spec]
pub fn has_flag(p: u8, mask: u8) -> bool
    returns
        (p & mask) != 0,
{
    (p & mask) != 0
}

/// `p` with Z and N following `value`: Z iff it is zero, N iff bit 7 is set.
#[verifier::allow_in_spec]
pub fn with_zero_negative(p: u8, value: u8) -> u8
    returns
        with_flag(with_flag(p, ZERO, value == 0), NEGATIVE, value >= 0x80),
{
    with_flag(with_flag(p, ZERO, value == 0), NEGATIVE, value >= 0x80)
}

/// Writing the flags of `mask` leaves the other flags as they were; stated
/// for the masks that spare B and U.
pub proof fn lemma_flag_keeps_others(p: u8, mask: u8)
    by (bit_vector)
    requires
        mask == 0x01 || mask == 0x02 || mask == 0x04 || mask == 0x08 || mask == 0x40 || mask
            == 0x80,
    ensures
        (p | mask) & 0x30 == p & 0x30,
        (p & !mask) & 0x30 == p & 0x30,
{
}

/// `p` with one flag brought up to date.
pub open spec fn spec_apply_flag(p: u8, update: FlagUpdate) -> u8 {
    match update {
        FlagUpdate::Zero(value) => with_flag(p, ZERO, value == 0),
        FlagUpdate::Negative(value) => with_flag(p, NEGATIVE, value >= 0x80),
        FlagUpdate::Carry(on) => with_flag(p, CARRY, on),
        FlagUpdate::Overflow(on) => with_flag(p, OVERFLOW, on),
        FlagUpdate::InterruptDisable(on) => with_flag(p, INTERRUPT_DISABLE, on),
        FlagUpdate::Decimal(on) => with_flag(p, DECIMAL, on),
        FlagUpdate::Break(on) => with_flag(p, BREAK, on),
    }
}

/// `p` with the first `count` updates applied in order.
pub open spec fn spec_apply_flags(p: u8, updates: Seq<FlagUpdate>, count: int) -> u8
    decreases count,
{
    if count <= 0 {
        p
    } else {
        spec_apply_flag(spec_apply_flags(p, updates, count - 1), updates[count - 1])
    }
}

/// The 16-bit word with the given low and high bytes.
#[verifier::allow_in_spec]
pub fn word(low: u8, high: u8) -> u16
    returns
        (high * 256 + low) as u16,
{
    high as u16 * 256 + low as u16
}

/// The page of an address: its high byte.
#[verifier::allow_in_spec]
pub fn page(address: u16) -> u16
    returns
        address / 256,
{
    address / 256
}

/// `base` moved by `offset` read as a signed byte, wrapping at 16 bits.
#[verifier::allow_in_spec]
pub fn displaced(base: u16, offset: u8) -> u16
    returns
        (if offset < 0x80 {
            base.wrapping_add(offset as u16)
        } else {
            base.wrapping_sub((256 - offset) as u16)
        }),
{
    if offset < 0x80 {
        base.wrapping_add(offset as u16)
    } else {
        base.wrapping_sub(256 - offset as u16)
    }
}

/// The address after `pointer` for a 16-bit read that cannot leave the page:
/// from `$xxFF` it wraps to `$xx00`.
#[verifier::allow_in_spec]
pub fn next_in_page(pointer: u16) -> u16
    returns
        (if pointer % 256 == 255 {
            (pointer - 255) as u16
        } else {
            (pointer + 1) as u16
        }),
{
    if pointer % 256 == 255 {
        pointer - 255
    } else {
        pointer + 1
    }
}

impl CPU {
    pub open spec fn wf(&self) -> bool {
        self.bus.wf()
    }

    /// Tests `wf`, for callers that Verus does not check.
    pub fn is_wf(&self) -> (r: bool)
        ensures
            r == self.wf(),
    {
        self.bus.is_wf()
    }

    /// The live P has U set and B clear.
    pub open spec fn flags_wf(&self) -> bool {
        self.registers.status_register & 0x30 == 0x20
    }

    /// The processor with another P.
    pub open spec fn spec_with_status(&self, status_register: u8) -> CPU {
        CPU { registers: Registers { status_register, ..self.registers }, ..*self }
    }

    /// The processor with another PC.
    pub open spec fn spec_with_pc(&self, program_counter: u16) -> CPU {
        CPU { registers: Registers { program_counter, ..self.registers }, ..*self }
    }

    /// The processor with the cycle count of the instruction it just ran.
    pub open spec fn spec_charged(&self, cycles: u32) -> CPU {
        CPU { remaining_cycles: cycles, ..*self }
    }

    /// A bus read on behalf of the processor.
    pub open spec fn spec_read(&self, address: u16) -> (u8, CPU) {
        let (value, bus) = self.bus.spec_read(address);
        (value, CPU { bus, ..*self })
    }

    /// A bus write on behalf of the processor.
    pub open spec fn spec_write(&self, address: u16, value: u8) -> CPU {
        CPU { bus: self.bus.spec_write(address, value), ..*self }
    }

    /// The byte at PC, with PC moved past it.
    pub open spec fn spec_fetch(&self) -> (u8, CPU) {
        let (value, read) = self.spec_read(self.registers.program_counter);
        (value, read.spec_with_pc(self.registers.program_counter.wrapping_add(1)))
    }

    /// The two bytes at PC as a little-endian word, with PC moved past them.
    pub open spec fn spec_fetch_word(&self) -> (u16, CPU) {
        let (low, first) = self.spec_fetch();
        let (high, second) = first.spec_fetch();
        (word(low, high), second)
    }

    /// The little-endian word at `addr` and `addr + 1`.
    pub open spec fn spec_read_u16(&self, addr: u16) -> (u16, CPU) {
        let (low, first) = self.spec_read(addr);
        let (high, second) = first.spec_read(addr.wrapping_add(1));
        (word(low, high), second)
    }

    /// The little-endian word in the zero page at `pointer` and
    /// `pointer + 1 mod 256`.
    pub open spec fn spec_read_zero_page_word(&self, pointer: u8) -> (u16, CPU) {
        let (low, first) = self.spec_read(pointer as u16);
        let (high, second) = first.spec_read(pointer.wrapping_add(1) as u16);
        (word(low, high), second)
    }

    /// The address S points at.
    pub open spec fn spec_stack_address(&self) -> u16 {
        (0x0100 + self.registers.stack_pointer) as u16
    }

    /// A push: the byte goes to `$0100 + S`, then S steps down modulo 256.
    pub open spec fn spec_push(&self, value: u8) -> CPU {
        let written = self.spec_write(self.spec_stack_address(), value);
        CPU {
            registers: Registers {
                stack_pointer: self.registers.stack_pointer.wrapping_sub(1),
                ..written.registers
            },
            ..written
        }
    }

    /// A pull: S steps up modulo 256, then the byte comes from `$0100 + S`.
    pub open spec fn spec_pull(&self) -> (u8, CPU) {
        CPU {
            registers: Registers {
                stack_pointer: self.registers.stack_pointer.wrapping_add(1),
                ..self.registers
            },
            ..*self
        }.spec_pull_at()
    }

    pub open spec fn spec_pull_at(&self) -> (u8, CPU) {
        self.spec_read(self.spec_stack_address())
    }

    /// A word pushed high byte first.
    pub open spec fn spec_push_u16(&self, value: u16) -> CPU {
        self.spec_push((value / 256) as u8).spec_push((value % 256) as u8)
    }

    /// A word pulled low byte first.
    pub open spec fn spec_pull_u16(&self) -> (u16, CPU) {
        let (low, first) = self.spec_pull();
        let (high, second) = first.spec_pull();
        (word(low, high), second)
    }

    /// P with one flag brought up to date.
    pub open spec fn spec_update_flag(&self, update: FlagUpdate) -> CPU {
        self.spec_with_status(spec_apply_flag(self.registers.status_register, update))
    }

    /// The processor with another A.
    pub open spec fn spec_with_acc(&self, acc: u8) -> CPU {
        CPU { registers: Registers { acc, ..self.registers }, ..*self }
    }

    /// The processor with another X.
    pub open spec fn spec_with_x(&self, index_x: u8) -> CPU {
        CPU { registers: Registers { index_x, ..self.registers }, ..*self }
    }

    /// The processor with another Y.
    pub open spec fn spec_with_y(&self, index_y: u8) -> CPU {
        CPU { registers: Registers { index_y, ..self.registers }, ..*self }
    }

    /// The processor with another S.
    pub open spec fn spec_with_sp(&self, stack_pointer: u8) -> CPU {
        CPU { registers: Registers { stack_pointer, ..self.registers }, ..*self }
    }

    /// P with the flags of `mask` set or cleared.
    pub open spec fn spec_set_flag(&self, mask: u8, on: bool) -> CPU {
        self.spec_with_status(with_flag(self.registers.status_register, mask, on))
    }

    /// `after` is well formed and its PPU stands on the same dot as that of
    /// `self`: the processor's own work never moves the dot counter.
    pub open spec fn spec_kept(&self, after: &CPU) -> bool {
        self.bus.spec_kept(&after.bus)
    }

    /// What holds after every instruction: the machine is sound and the PPU
    /// has not moved, the cycle count is that of one instruction, and a live
    /// P with U set and B clear stays so.
    pub open spec fn spec_completes(&self, after: &CPU) -> bool {
        &&& self.spec_kept(after)
        &&& after.remaining_cycles <= 8
        &&& self.flags_wf() ==> after.flags_wf()
    }

    /// P with Z and N following `value`.
    pub open spec fn spec_set_zero_negative(&self, value: u8) -> CPU {
        self.spec_with_status(with_zero_negative(self.registers.status_register, value))
    }

    /// The power-on processor around `bus`: registers clear but for U in P,
    /// nothing pending.
    pub fn new(bus: BUS) -> (r: Self)
        ensures
            r.bus == bus,
            r.registers == (Registers {
                acc: 0,
                index_x: 0,
                index_y: 0,
                stack_pointer: 0,
                status_register: UNUSED,
                program_counter: 0,
            }),
            r.remaining_cycles == 0,
            !r.nmi_pending,
            !r.page_crossed,
            r.flags_wf(),
    {
        assert(0x20u8 & 0x30 == 0x20) by (bit_vector);
        CPU {
            registers: Registers {
                acc: 0,
                index_x: 0,
                index_y: 0,
                stack_pointer: 0,
                status_register: UNUSED,
                program_counter: 0,
            },
            bus,
            remaining_cycles: 0,
            nmi_pending: false,
            page_crossed: false,
        }
    }

    /// A, X, Y, PC, S and P.
    pub fn get_all_registers(&self) -> (r: (u8, u8, u8, u16, u8, u8))
        ensures
            r == (
                self.registers.acc,
                self.registers.index_x,
                self.registers.index_y,
                self.registers.program_counter,
                self.registers.stack_pointer,
                self.registers.status_register,
            ),
    {
        (
            self.registers.acc,
            self.registers.index_x,
            self.registers.index_y,
            self.registers.program_counter,
            self.registers.stack_pointer,
            self.registers.status_register,
        )
    }

    pub fn read(&mut self, address: u16) -> (r: u8)
        requires
            old(self).wf(),
        ensures
            (r, *final(self)) == old(self).spec_read(address),
            old(self).spec_kept(final(self)),
            final(self).registers == old(self).registers,
    {
        self.bus.read(address)
    }

    pub fn write(&mut self, address: u16, value: u8)
        requires
            old(self).wf(),
        ensures
            *final(self) == old(self).spec_write(address, value),
            old(self).spec_kept(final(self)),
            final(self).registers == old(self).registers,
    {
        self.bus.write(address, value);
    }

    pub fn fetch(&mut self) -> (r: u8)
        requires
            old(self).wf(),
        ensures
            (r, *final(self)) == old(self).spec_fetch(),
            old(self).spec_kept(final(self)),
            old(self).registers.spec_moved_pc(&final(self).registers),
    {
        let opcode: u8 = self.read(self.registers.program_counter);
        self.registers.program_counter = self.registers.program_counter.wrapping_add(1);
        opcode
    }

    pub fn fetch_word(&mut self) -> (r: u16)
        requires
            old(self).wf(),
        ensures
            (r, *final(self)) == old(self).spec_fetch_word(),
            old(self).spec_kept(final(self)),
            old(self).registers.spec_moved_pc(&final(self).registers),
    {
        let low = self.fetch();
        let high = self.fetch();
        word(low, high)
    }

    /// The word with the given low and high bytes.
    pub fn turn_in_u16(&self, low: u8, high: u8) -> (r: u16)
        ensures
            r == word(low, high),
    {
        word(low, high)
    }

    pub fn read_u16(&mut self, addr: u16) -> (r: u16)
        requires
            old(self).wf(),
        ensures
            (r, *final(self)) == old(self).spec_read_u16(addr),
            old(self).spec_kept(final(self)),
            final(self).registers == old(self).registers,
    {
        let low = self.read(addr);
        let high = self.read(addr.wrapping_add(1));
        word(low, high)
    }

    pub fn read_zero_page_word(&mut self, pointer: u8) -> (r: u16)
        requires
            old(self).wf(),
        ensures
            (r, *final(self)) == old(self).spec_read_zero_page_word(pointer),
            old(self).spec_kept(final(self)),
            final(self).registers == old(self).registers,
    {
        let low = self.read(pointer as u16);
        let high = self.read(pointer.wrapping_add(1) as u16);
        word(low, high)
    }

    pub fn push(&mut self, value: u8)
        requires
            old(self).wf(),
        ensures
            *final(self) == old(self).spec_push(value),
            old(self).spec_kept(final(self)),
            old(self).registers.spec_moved_sp(&final(self).registers),
    {
        self.write(STACK_BASE + self.registers.stack_pointer as u16, value);
        self.registers.stack_pointer = self.registers.stack_pointer.wrapping_sub(1);
    }

    pub fn pull(&mut self) -> (r: u8)
        requires
            old(self).wf(),
        ensures
            (r, *final(self)) == old(self).spec_pull(),
            old(self).spec_kept(final(self)),
            old(self).registers.spec_moved_sp(&final(self).registers),
    {
        self.registers.stack_pointer = self.registers.stack_pointer.wrapping_add(1);
        self.read(STACK_BASE + self.registers.stack_pointer as u16)
    }

    pub fn push_u16(&mut self, value: u16)
        requires
            old(self).wf(),
        ensures
            *final(self) == old(self).spec_push_u16(value),
            old(self).spec_kept(final(self)),
            old(self).registers.spec_moved_sp(&final(self).registers),
    {
        let high = (value / 256) as u8;
        let low = (value % 256) as u8;
        self.push(high);
        self.push(low);
    }

    pub fn pull_u16(&mut self) -> (r: u16)
        requires
            old(self).wf(),
        ensures
            (r, *final(self)) == old(self).spec_pull_u16(),
            old(self).spec_kept(final(self)),
            old(self).registers.spec_moved_sp(&final(self).registers),
    {
        let low = self.pull();
        let high = self.pull();
        word(low, high)
    }

    pub fn update_flag(&mut self, update: FlagUpdate)
        ensures
            *final(self) == old(self).spec_update_flag(update),
    {
        let p = self.registers.status_register;
        self.registers.status_register = match update {
            FlagUpdate::Zero(value) => with_flag(p, ZERO, value == 0),
            FlagUpdate::Negative(value) => with_flag(p, NEGATIVE, value >= 0x80),
            FlagUpdate::Carry(on) => with_flag(p, CARRY, on),
            FlagUpdate::Overflow(on) => with_flag(p, OVERFLOW, on),
            FlagUpdate::InterruptDisable(on) => with_flag(p, INTERRUPT_DISABLE, on),
            FlagUpdate::Decimal(on) => with_flag(p, DECIMAL, on),
            FlagUpdate::Break(on) => with_flag(p, BREAK, on),
        };
    }

    /// Brings the listed flags up to date, in order.
    pub fn update_flags(&mut self, updates: &[FlagUpdate])
        ensures
            *final(self) == old(self).spec_with_status(
                spec_apply_flags(
                    old(self).registers.status_register,
                    updates@,
                    updates@.len() as int,
                ),
            ),
    {
        let mut i: usize = 0;
        while i < updates.len()
            invariant
                i <= updates@.len(),
                *self == old(self).spec_with_status(
                    spec_apply_flags(old(self).registers.status_register, updates@, i as int),
                ),
            decreases updates@.len() - i,
        {
            self.update_flag(updates[i]);
            i = i + 1;
        }
    }

    /// Sets or clears one of C, Z, I, D, V and N.
    pub fn set_flag(&mut self, mask: u8, on: bool)
        requires
            mask == CARRY || mask == ZERO || mask == INTERRUPT_DISABLE || mask == DECIMAL || mask
                == OVERFLOW || mask == NEGATIVE,
        ensures
            *final(self) == old(self).spec_set_flag(mask, on),
            final(self).registers.status_register & 0x30 == old(self).registers.status_register
                & 0x30,
    {
        proof {
            lemma_flag_keeps_others(self.registers.status_register, mask);
        }
        self.registers.status_register = with_flag(self.registers.status_register, mask, on);
    }

    pub fn set_zero_negative(&mut self, value: u8)
        ensures
            *final(self) == old(self).spec_set_zero_negative(value),
            final(self).registers.status_register & 0x30 == old(self).registers.status_register
                & 0x30,
    {
        self.set_flag(ZERO, value == 0);
        self.set_flag(NEGATIVE, value >= 0x80);
    }
}

impl CPU {
    /// The processor after resolving an operand, with the page-cross marker
    /// set as given.
    pub open spec fn spec_resolved(&self, crossed: bool) -> CPU {
        CPU { page_crossed: crossed, ..*self }
    }

    /// The address an instruction in `mode` works on, and the processor
    /// after fetching the operand bytes.
    ///
    /// Immediate yields the address of the operand byte itself. Zero-page
    /// indexing wraps within the zero page, absolute indexing wraps at 16
    /// bits. Both indirect zero-page modes read their pointer with
    /// zero-page wrap. Indirect reads the high byte of its target from the
    /// start of the same page when the pointer ends in `$FF`. Relative
    /// yields PC, after the operand, moved by the signed offset.
    /// Accumulator and Implicit have no operand and yield 0.
    ///
    /// The page-cross marker is set when an indexed absolute, an
    /// indirect-indexed or a relative address lies in another page than its
    /// base, and cleared otherwise.
    #[verifier::opaque]
    pub open spec fn spec_get_operand_address(&self, mode: AddressingModes) -> (u16, CPU) {
        let x = self.registers.index_x;
        let y = self.registers.index_y;
        match mode {
            AddressingModes::Immediate => (
                self.registers.program_counter,
                self.spec_with_pc(self.registers.program_counter.wrapping_add(1)).spec_resolved(
                    false,
                ),
            ),
            AddressingModes::ZeroPage => {
                let (base, fetched) = self.spec_fetch();
                (base as u16, fetched.spec_resolved(false))
            },
            AddressingModes::ZeroPageIndexedX => {
                let (base, fetched) = self.spec_fetch();
                (base.wrapping_add(x) as u16, fetched.spec_resolved(false))
            },
            AddressingModes::ZeroPageIndexedY => {
                let (base, fetched) = self.spec_fetch();
                (base.wrapping_add(y) as u16, fetched.spec_resolved(false))
            },
            AddressingModes::Absolute => {
                let (address, fetched) = self.spec_fetch_word();
                (address, fetched.spec_resolved(false))
            },
            AddressingModes::AbsoluteIndexedX => {
                let (base, fetched) = self.spec_fetch_word();
                let address = base.wrapping_add(x as u16);
                (address, fetched.spec_resolved(page(base) != page(address)))
            },
            AddressingModes::AbsoluteIndexedY => {
                let (base, fetched) = self.spec_fetch_word();
                let address = base.wrapping_add(y as u16);
                (address, fetched.spec_resolved(page(base) != page(address)))
            },
            AddressingModes::IndexedIndirect => {
                let (base, fetched) = self.spec_fetch();
                let (address, read) = fetched.spec_read_zero_page_word(base.wrapping_add(x));
                (address, read.spec_resolved(false))
            },
            AddressingModes::IndirectIndexed => {
                let (pointer, fetched) = self.spec_fetch();
                let (base, read) = fetched.spec_read_zero_page_word(pointer);
                let address = base.wrapping_add(y as u16);
                (address, read.spec_resolved(page(base) != page(address)))
            },
            AddressingModes::Indirect => {
                let (pointer, fetched) = self.spec_fetch_word();
                let (low, first) = fetched.spec_read(pointer);
                let (high, second) = first.spec_read(next_in_page(pointer));
                (word(low, high), second.spec_resolved(false))
            },
            AddressingModes::Relative => {
                let (offset, fetched) = self.spec_fetch();
                let target = displaced(fetched.registers.program_counter, offset);
                (
                    target,
                    fetched.spec_resolved(
                        page(fetched.registers.program_counter) != page(target),
                    ),
                )
            },
            AddressingModes::Accumulator | AddressingModes::Implicit => (
                0,
                self.spec_resolved(false),
            ),
        }
    }

    /// The operand byte of an instruction in `mode`: the byte at the
    /// operand's address, or 0 where the mode has no address.
    #[verifier::opaque]
    pub open spec fn spec_execute_mode(&self, mode: AddressingModes) -> (u8, CPU) {
        match mode {
            AddressingModes::Accumulator | AddressingModes::Implicit => (
                0,
                self.spec_resolved(false),
            ),
            _ => {
                let (address, resolved) = self.spec_get_operand_address(mode);
                resolved.spec_read(address)
            },
        }
    }

    /// 1 if the last operand crossed a page, else 0.
    pub open spec fn spec_page_penalty(&self) -> u32 {
        if self.page_crossed {
            1
        } else {
            0
        }
    }

    /// A conditional branch. The offset byte is always consumed. A branch
    /// not taken costs 2 cycles; a branch taken costs 3, and 4 when the
    /// target lies in another page than the next instruction.
    pub open spec fn spec_branch_if(&self, condition: bool) -> CPU {
        let (target, resolved) = self.spec_get_operand_address(AddressingModes::Relative);
        if condition {
            resolved.spec_with_pc(target).spec_charged((3 + resolved.spec_page_penalty()) as u32)
        } else {
            resolved.spec_resolved(false).spec_charged(2)
        }
    }

    /// An interrupt sequence through `vector`: PC is pushed, then P with B
    /// clear; I is set and PC is loaded from the vector. 7 cycles.
    pub open spec fn spec_interrupt(&self, vector: u16) -> CPU {
        let p = self.registers.status_register;
        let pushed = self.spec_push_u16(self.registers.program_counter).spec_push(
            with_flag(p, BREAK, false),
        );
        let (target, read) = pushed.spec_read_u16(vector);
        read.spec_with_pc(target).spec_with_status(
            with_flag(p, INTERRUPT_DISABLE, true),
        ).spec_charged(INTERRUPT_CYCLES)
    }

    pub open spec fn spec_trigger_nmi(&self) -> CPU {
        self.spec_interrupt(NMI_VECTOR)
    }

    /// An IRQ is taken only while I is clear.
    pub open spec fn spec_trigger_irq(&self) -> CPU {
        if has_flag(self.registers.status_register, INTERRUPT_DISABLE) {
            *self
        } else {
            self.spec_interrupt(IRQ_VECTOR)
        }
    }

    /// Reset: A, X and Y clear, S = `$FD`, P = I | U, PC from `$FFFC/D`,
    /// no NMI pending. 7 cycles.
    pub open spec fn spec_reset(&self) -> CPU {
        let (target, read) = self.spec_read_u16(RESET_VECTOR);
        CPU {
            registers: Registers {
                acc: 0,
                index_x: 0,
                index_y: 0,
                stack_pointer: 0xFD,
                status_register: RESET_STATUS,
                program_counter: target,
            },
            remaining_cycles: INTERRUPT_CYCLES,
            nmi_pending: false,
            page_crossed: false,
            ..read
        }
    }

    #[verifier::rlimit(30)]
    pub fn get_operand_address(&mut self, mode: AddressingModes) -> (r: u16)
        requires
            old(self).wf(),
        ensures
            (r, *final(self)) == old(self).spec_get_operand_address(mode),
            old(self).spec_kept(final(self)),
            old(self).registers.spec_moved_pc(&final(self).registers),
    {
        reveal(CPU::spec_get_operand_address);
        self.page_crossed = false;
        match mode {
            AddressingModes::Immediate => {
                let addr = self.registers.program_counter;
                self.registers.program_counter = addr.wrapping_add(1);
                return addr;
            },
            AddressingModes::ZeroPage => {
                let base = self.fetch();
                return base as u16;
            },
            AddressingModes::ZeroPageIndexedX => {
                let base = self.fetch();
                return base.wrapping_add(self.registers.index_x) as u16;
            },
            AddressingModes::ZeroPageIndexedY => {
                let base = self.fetch();
                return base.wrapping_add(self.registers.index_y) as u16;
            },
            AddressingModes::Absolute => {
                return self.fetch_word();
            },
            AddressingModes::AbsoluteIndexedX => {
                let base = self.fetch_word();
                let address = base.wrapping_add(self.registers.index_x as u16);
                self.page_crossed = page(base) != page(address);
                return address;
            },
            AddressingModes::AbsoluteIndexedY => {
                let base = self.fetch_word();
                let address = base.wrapping_add(self.registers.index_y as u16);
                self.page_crossed = page(base) != page(address);
                return address;
            },
            AddressingModes::IndexedIndirect => {
                let base = self.fetch();
                return self.read_zero_page_word(base.wrapping_add(self.registers.index_x));
            },
            AddressingModes::IndirectIndexed => {
                let pointer = self.fetch();
                let base = self.read_zero_page_word(pointer);
                let address = base.wrapping_add(self.registers.index_y as u16);
                self.page_crossed = page(base) != page(address);
                return address;
            },
            AddressingModes::Indirect => {
                let pointer = self.fetch_word();
                let low = self.read(pointer);
                let high = self.read(next_in_page(pointer));
                return word(low, high);
            },
            AddressingModes::Relative => {
                let offset = self.fetch();
                let target = displaced(self.registers.program_counter, offset);
                self.page_crossed = page(self.registers.program_counter) != page(target);
                return target;
            },
            AddressingModes::Accumulator => {
                return 0;
            },
            AddressingModes::Implicit => {
                return 0;
            },
        }
    }

    pub fn execute_mode(&mut self, mode: AddressingModes) -> (r: u8)
        requires
            old(self).wf(),
        ensures
            (r, *final(self)) == old(self).spec_execute_mode(mode),
            old(self).spec_kept(final(self)),
            old(self).registers.spec_moved_pc(&final(self).registers),
    {
        reveal(CPU::spec_execute_mode);
        match mode {
            AddressingModes::Accumulator | AddressingModes::Implicit => {
                self.page_crossed = false;
                0
            },
            _ => {
                let address = self.get_operand_address(mode);
                self.read(address)
            },
        }
    }

    pub fn page_penalty(&self) -> (r: u32)
        ensures
            r == self.spec_page_penalty(),
    {
        if self.page_crossed {
            1
        } else {
            0
        }
    }

    pub fn branch_if(&mut self, condition: bool)
        requires
            old(self).wf(),
        ensures
            *final(self) == old(self).spec_branch_if(condition),
            old(self).spec_kept(final(self)),
            final(self).remaining_cycles == if condition {
                3 + final(self).spec_page_penalty()
            } else {
                2int
            },
            final(self).registers.status_register == old(self).registers.status_register,
    {
        let target = self.get_operand_address(AddressingModes::Relative);
        if condition {
            self.registers.program_counter = target;
            self.remaining_cycles = 3 + self.page_penalty();
        } else {
            self.page_crossed = false;
            self.remaining_cycles = 2;
        }
    }

    fn interrupt(&mut self, vector: u16)
        requires
            old(self).wf(),
        ensures
            *final(self) == old(self).spec_interrupt(vector),
            old(self).spec_completes(final(self)),
    {
        proof {
            lemma_flag_keeps_others(self.registers.status_register, INTERRUPT_DISABLE);
        }
        let p = self.registers.status_register;
        self.push_u16(self.registers.program_counter);
        self.push(with_flag(p, BREAK, false));
        self.registers.program_counter = self.read_u16(vector);
        self.registers.status_register = with_flag(p, INTERRUPT_DISABLE, true);
        self.remaining_cycles = INTERRUPT_CYCLES;
    }

    /// Takes a non-maskable interrupt.
    pub fn trigger_nmi(&mut self)
        requires
            old(self).wf(),
        ensures
            *final(self) == old(self).spec_trigger_nmi(),
            old(self).spec_completes(final(self)),
    {
        self.interrupt(NMI_VECTOR);
    }

    /// Takes an interrupt request, unless I is set.
    pub fn trigger_irq(&mut self)
        requires
            old(self).wf(),
        ensures
            *final(self) == old(self).spec_trigger_irq(),
            old(self).spec_kept(final(self)),
            old(self).flags_wf() ==> final(self).flags_wf(),
    {
        if !has_flag(self.registers.status_register, INTERRUPT_DISABLE) {
            self.interrupt(IRQ_VECTOR);
        }
    }

    pub fn reset(&mut self)
        requires
            old(self).wf(),
        ensures
            *final(self) == old(self).spec_reset(),
            old(self).spec_kept(final(self)),
            final(self).flags_wf(),
    {
        assert(0x24u8 & 0x30 == 0x20) by (bit_vector);
        self.registers.acc = 0;
        self.registers.index_x = 0;
        self.registers.index_y = 0;
        self.registers.stack_pointer = 0xFD;
        self.registers.status_register = RESET_STATUS;
        self.registers.program_counter = self.read_u16(RESET_VECTOR);
        self.remaining_cycles = INTERRUPT_CYCLES;
        self.nmi_pending = false;
        self.page_crossed = false;
    }
}

} // verus!
