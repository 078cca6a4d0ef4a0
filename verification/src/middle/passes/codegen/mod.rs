//! Output of the code generator.
pub mod bytecode;
