//! Instruction registry for a stack-based bytecode virtual machine.
//!
//! The registry is a closed, immutable set of instructions. Each instruction
//! has a unique one-byte code, a unique uppercase mnemonic, and exactly one
//! static gas-cost tier. The two lookup directions (by code, by mnemonic)
//! agree with each other, and both reject inputs outside the assigned set
//! with a typed error instead of aborting.

pub mod error;
pub mod gas;
pub mod opcode;
