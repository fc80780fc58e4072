//! An emulator core for a cartridge-based 8-bit console: the memory bus, the
//! picture unit's timing state machine and the 6502 instruction engine.
//!
//! Every function is verified against a contract. The contracts of the
//! processor are stated over `semantics`, a model of the instruction set in
//! integer arithmetic; those of the picture unit over the step function
//! `ppu::tick`. `theorems` and `ppu_theorems` hold what is proved of the two
//! models themselves.

pub mod words;
pub mod status;
pub mod rom_file;
pub mod memory;
pub mod opcodes;
pub mod semantics;
pub mod cpu;
pub mod theorems;
pub mod ppu;
pub mod ppu_theorems;
pub mod console;
pub mod controller;
pub mod nes_debug;
