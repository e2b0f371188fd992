//! An emulator core for a classic 8-bit game console: a cycle-stepped 6502
//! processor, a memory bus that partitions the 16-bit address space across
//! RAM, picture-unit registers, audio registers and cartridge space, and a
//! cartridge with bank-switching mapper logic.
#![allow(non_snake_case)]
#![allow(non_camel_case_types)]

pub mod bits;
pub mod instruction;
pub mod mapper;
pub mod cartridge;
pub mod ppu;
pub mod bus;
pub mod nes;
pub mod cpu;
