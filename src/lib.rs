//! An assembler and an instruction-level simulator for the Intel 8085.
//!
//! The assembler turns source text into tokens (`lexer`), and tokens into machine code in two
//! passes (`assembler`), using the mnemonic table (`opcodes`). The simulator (`simulator`)
//! executes machine code; its behaviour is stated over a model of the machine (`machine`), the
//! arithmetic and logic unit (`alu`) and the instruction set (`isa`), and carried out by the
//! instruction handlers (`instructions`).
pub mod machine;
pub mod alu;
pub mod isa;
pub mod instructions;
pub mod simulator;
pub mod opcodes;
pub mod token;
pub mod error;
pub mod lexer;
pub mod assembler;
