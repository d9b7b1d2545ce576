//! Lip-sync vocabulary: the coarse phoneme classes a speech backend can tag
//! its output with, for mouth-shape rendering.
use vstd::prelude::*;

verus! {

/// Coarse phoneme classes for mouth-shape rendering.
#[derive(Debug, Clone, Copy, PartialEq, Eq, Structural, Hash)]
#[non_exhaustive]
pub enum Viseme {
    /// Lips closed (silence, /m/, /b/, /p/).
    Closed,
    /// Open low vowel (/a/).
    Aa,
    /// Front vowel (/e/).
    Ee,
    /// High front vowel (/i/).
    Ii,
    /// Mid back vowel (/o/).
    Oo,
    /// High back vowel (/u/).
    Uu,
    /// Bilabial nasal-like (/m/, /n/).
    Mm,
    /// Labiodental fricative (/f/, /v/).
    Ff,
}

} // verus!
