//! The 6502-derived CPU core: registers, operand resolution, the official
//! instruction set, interrupts, and the clock that keeps the PPU and APU in
//! step.

pub mod chip;
pub mod instructions;
pub mod laws;
pub mod map_instructions;
pub mod stack_laws;
