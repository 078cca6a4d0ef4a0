//! Middle layer of the YaoXiang compiler: bytecode IR, its binary decoder,
//! code-generation state (registers, labels, jump tables, scopes) and the
//! small analyses that run over the IR.
pub mod backends;
pub mod frontend;
pub mod middle;
pub mod util;
