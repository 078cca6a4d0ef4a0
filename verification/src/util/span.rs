//! Source positions.
use vstd::prelude::*;

verus! {

/// A range of source text: the file it is in and its byte offsets.
#[derive(Debug, Clone, Copy, PartialEq, Eq, Hash, Structural)]
pub struct Span {
    pub file_id: u32,
    pub start: usize,
    pub end: usize,
}

impl Span {
    /// The span from `start` to `end` in file `file_id`.
    pub fn new(file_id: u32, start: usize, end: usize) -> (s: Self)
        ensures
            s == (Span { file_id, start, end }),
    {
        Span { file_id, start, end }
    }
}

/// The source position recorded for an encoded instruction in debug
/// information.
#[derive(Debug, Clone, Copy, PartialEq, Eq, Hash, Structural)]
pub struct DebugSpan {
    pub file_id: u32,
    pub start: usize,
    pub end: usize,
}

} // verus!
