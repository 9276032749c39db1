//! A cycle-driven model of the Nintendo Entertainment System: the 6502-derived
//! CPU, the picture processing unit, the audio register file, the controller
//! port and the cartridge mappers, advanced in lockstep at three PPU dots per
//! CPU cycle.
//!
//! Every state transition is given twice: as a `spec` function over the machine
//! state, and as the executable method proved equal to it.

pub mod mapper;
pub mod rom;
pub mod ppu;
pub mod input;
pub mod apu;
pub mod bus;
pub mod cpu;
pub mod emulator;
pub mod nes;
