//! Pending firmware → modifier inputs. Unlike one-frame events, these
//! survive across frames until a modifier consumes them.
use vstd::prelude::*;

verus! {

/// Pending inputs the modifier graph consumes.
#[derive(Debug, Default, Clone, Copy, PartialEq, Eq)]
pub struct Input {
    /// Tap edge from the touch sensor or power button.
    pub tap_pending: bool,
    /// Most recent decoded IR-remote `(address, command)` pair.
    pub remote_pending: Option<(u16, u8)>,
}

} // verus!
