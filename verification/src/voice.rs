//! Speech I/O requests from the modifiers to the audio path.
use vstd::prelude::*;

verus! {

/// Short non-verbal chirps the audio path can play.
#[derive(Debug, Clone, Copy, PartialEq, Eq, Structural)]
#[non_exhaustive]
pub enum ChirpKind {
    /// Pickup acknowledgement.
    Pickup,
    /// Wake-up acknowledgement.
    Wake,
}

/// Speech I/O state.
#[derive(Debug, Default, Clone, Copy, PartialEq, Eq, Structural)]
pub struct Voice {
    /// Chirp to enqueue after this frame, if any.
    pub chirp_request: Option<ChirpKind>,
}

} // verus!
