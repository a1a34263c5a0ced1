//! Instruction-processing core of the 6502-family CPU used in the NES:
//! status flags, memory buses, the opcode table, the addressing-mode
//! resolver, the operation executor and the cycle-stepped driver.
#![allow(non_camel_case_types)]

pub mod flags;
pub mod cpu;
pub mod instructions;
pub mod utils;
pub mod operations;
pub mod header;
pub mod memory;
pub mod ppu;
