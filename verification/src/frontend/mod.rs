//! The parts of the front end that the middle layer consumes: the
//! monomorphic types produced by type checking, definition ids and the
//! expression forms that constant folding reads.
pub mod typecheck;
pub mod ast;
pub mod symbol;
