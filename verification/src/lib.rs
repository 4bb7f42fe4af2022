//! Instruction-metadata layer for a classic 8-bit CPU emulator: a validated,
//! immutable table mapping each one-byte opcode to its mnemonic, encoding
//! length, base cycle cost, addressing mode and conditional cycle penalties.

pub mod laws;
pub mod mode;
pub mod opcodes;
pub mod table;
