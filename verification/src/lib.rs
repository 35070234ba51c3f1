//! An emulator of the NES: the 6502 CPU, the 2C02 picture processor, the
//! cartridge with its mappers, the controllers and the work RAM, with the
//! text panels of a small debugger. Every function states what it does in
//! its contract, and the laws of the machine are proved as lemmas.

use vstd::prelude::*;

pub mod bits;
pub mod cpu_bus;
pub mod cpu;
pub mod addressing_modes;
pub mod opcodes;
pub mod cpu_laws;
pub mod controller;
pub mod mappers;
pub mod cartridge;
pub mod oam;
pub mod ppu_registers;
pub mod screen;
pub mod ppu;
pub mod ppu_laws;
pub mod bus;
pub mod nes;
pub mod stepping;
pub mod text;
pub mod disassembly;
pub mod debug_text;
pub mod single_step;

verus! {

} // verus!
