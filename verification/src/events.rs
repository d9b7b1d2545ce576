//! One-frame fire flags from modifiers to the render loop, cleared at the
//! start of each frame.
use vstd::prelude::*;

verus! {

/// One-frame fire flags.
#[derive(Debug, Default, Clone, Copy, PartialEq, Eq, Structural)]
pub struct Events {}

} // verus!
