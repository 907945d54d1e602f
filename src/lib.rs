//! A virtual machine for a 16-bit teaching instruction set (LC-3): decoding,
//! the register file, memory with a memory-mapped keyboard, the trap routines
//! and the fetch-decode-execute step, each proved against a model of the
//! instruction set.

pub mod opcode;
pub mod register;
pub mod decode;
pub mod trap;
pub mod memory;
pub mod image;
pub mod semantics;
pub mod machine;
