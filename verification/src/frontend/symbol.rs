//! Definition identities assigned when names are bound.
use vstd::prelude::*;

verus! {

/// The identity of one binding (a function, a type, a global).
#[derive(Debug, Clone, Copy, PartialEq, Eq, Hash, Structural)]
pub struct DefId(pub u32);

} // verus!
