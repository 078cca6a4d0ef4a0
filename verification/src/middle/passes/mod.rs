//! Compiler passes whose outputs the middle layer consumes.
pub mod codegen;
