//! A single-pass cross-assembler for the 6502 instruction set.
//!
//! Source text is parsed into syntax nodes, the nodes are assembled into a
//! `Program` (an ordered list of instructions plus a symbol table), and the
//! program is emitted as a relocatable section: raw bytes, relocation records
//! and resolved symbols, ready for a linker or object-file writer.

pub mod ast;
pub mod codegen;
pub mod elf;
pub mod error;
pub mod instruction;
pub mod laws;
pub mod parser;
pub mod relocatable;
pub mod syntax;
