//! A simulator for a MIPS-like 32-bit architecture.
//!
//! The library decodes 32-bit instruction words into one of three formats
//! (register, immediate, jump), executes their semantics against a CPU state
//! made of 32 general-purpose registers, a word-addressed memory and a
//! program counter, and models the architecture's branch-delay-slot rule.
//! Console input and output are reported to the caller as effects; the
//! library itself performs no I/O.

pub mod bits;
pub mod cpu;
pub mod effects;
pub mod instructions;
pub mod laws;

pub use cpu::CPU;
