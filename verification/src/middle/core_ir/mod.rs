//! Core intermediate representations.
pub mod bytecode;
pub mod decode;
pub mod expr_ir;
pub mod ir;
pub mod ir_gen;
