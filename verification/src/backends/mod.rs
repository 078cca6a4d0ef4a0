//! Backend-shared definitions (the opcode table).
pub mod common;
