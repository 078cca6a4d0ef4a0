//! Small verified helpers shared by the IR modules.
pub mod decimal;
pub mod str_map;
pub mod span;
