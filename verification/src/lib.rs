//! A verified assembler for the 6502 family: source text is tokenized,
//! parsed into statements with constant folding, and turned into machine
//! code by a two-pass generator that resolves labels and patches relative
//! branch displacements.

pub mod text;
pub mod opcodes;
pub mod asm_lexer;
pub mod asm_parser;
pub mod compiler;
