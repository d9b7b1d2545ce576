//! Colour-theme presets for the face.
use vstd::prelude::*;

verus! {

/// Runtime colour theme: picks the background, eye, mouth and cheek colours
/// the renderer paints. Decorator and bubble overlays keep their own
/// colours, so a swap leaves the symbolic overlays as they are.
#[derive(Clone, Copy, Debug, PartialEq, Eq, Structural)]
pub enum Palette {
    /// The stock theme.
    Default,
    /// Dark theme.
    Dark,
    /// Cute theme.
    Cute,
    /// Dog theme.
    Dog,
}

impl Default for Palette {
    /// The stock theme.
    fn default() -> (r: Self)
        ensures
            r == Palette::Default,
    {
        Palette::Default
    }
}

} // verus!
