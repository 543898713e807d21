//! A small stack-and-register virtual machine together with its assembler.
//!
//! The machine executes a stream of 32-bit words held in a flat memory whose
//! upper end is a descending stack. The assembler turns a token stream into
//! that word stream.
pub mod alu;
pub mod args;
pub mod compiler;
pub mod errors;
pub mod flag;
pub mod hexdump;
pub mod image;
pub mod interrupts;
pub mod laws;
pub mod machine;
pub mod memory;
pub mod opcode;
pub mod parser;
pub mod register;
pub mod semantics;
pub mod text;
pub mod tokens;
