//! Middle layer: IR, bytecode and code generation state.
pub mod bytecode;
pub mod core_ir;
pub mod codegen;
pub mod escape_analysis;
pub mod passes;
