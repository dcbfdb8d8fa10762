//! A minimal fetch-decode-execute virtual machine: a fixed-memory,
//! register-based bytecode interpreter with a bounded call stack.
//!
//! The machine owns 4096 bytes of memory, sixteen 8-bit registers (register
//! 0xF doubles as the overflow flag), and a sixteen-entry stack of return
//! addresses. Instructions are 16-bit big-endian words; the supported
//! operations are HALT, RETURN, CALL and ADD. Every fatal condition
//! (out-of-bounds fetch, unknown opcode, stack overflow, stack underflow)
//! is reported to the caller as a tagged error, never swallowed.
//!
//! Beside the machine, [`q7`] carries the small Q7 fixed-point byte
//! format, and [`laws`] states and proves the instruction set's laws.

pub mod cpu;
pub mod decode;
pub mod laws;
pub mod machine;
pub mod q7;
