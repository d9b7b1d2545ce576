//! Speech-bubble overlay: short text rendered above the face, with an
//! expiry deadline.
use vstd::prelude::*;
use crate::clock::Instant;

verus! {

/// Active speech-bubble overlay with its expiry deadline.
#[derive(Debug, Clone, Copy, PartialEq, Eq)]
pub struct BubbleState {
    /// Text content, from a static phrase pool.
    pub text: &'static str,
    /// Instant at which this bubble stops being drawn.
    pub expires_at: Instant,
}

impl BubbleState {
    /// Construct a state that holds `text` from `now` for `duration_ms`
    /// milliseconds.
    pub fn hold_for(text: &'static str, now: Instant, duration_ms: u64) -> (r: Self)
        requires
            now@ + duration_ms <= u64::MAX,
        ensures
            r.text == text,
            r.expires_at@ == now@ + duration_ms,
    {
        Self { text, expires_at: Instant::from_millis(now.as_millis() + duration_ms) }
    }

    /// `true` iff `now` has reached or passed the deadline.
    pub fn is_expired(&self, now: Instant) -> (r: bool)
        ensures
            r == (now@ >= self.expires_at@),
    {
        now.as_millis() >= self.expires_at.as_millis()
    }
}

} // verus!
