//! An instruction-level model of an 8-bit handheld console's processor:
//! register file, flat memory, call stack, opcode tables and the
//! fetch-decode-execute step, each with a verified contract.

pub mod hex;
pub mod registers;
pub mod memory;
pub mod stack;
pub mod error;
pub mod instructions;
pub mod cpu;
