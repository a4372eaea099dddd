//! A CHIP-8 virtual machine: memory and register model, instruction decoder
//! and disassembler, the per-cycle execution engine with its fault model, and
//! the pacing decisions of a host that drives it.

pub mod cpu;
pub mod laws;
pub mod machine;
pub mod opcode;
pub mod rom;
pub mod run;
pub mod state;
pub mod text;
pub mod video;
