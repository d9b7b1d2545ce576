//! Timing of the per-emotion head bias: each change of emotion starts a
//! transition from the bias of the previous emotion to that of the new one.
//! The biases are floating-point head offsets applied by the motion layer
//! from the transition this tracker reports.
use vstd::prelude::*;
use crate::clock::{sat_sub, Instant};
use crate::emotion::Emotion;

verus! {

/// Default transition length, in ms.
pub const EMOTION_HEAD_TRANSITION_MS: u64 = 300;

/// A transition between the head biases of two emotions.
#[derive(Debug, Clone, Copy, PartialEq, Eq, Structural)]
pub struct BiasTransition {
    /// Emotion the transition leaves; `None` on the first one, which starts
    /// at the target.
    pub from: Option<Emotion>,
    /// Emotion the transition heads for.
    pub to: Emotion,
    /// Time since the transition started, in ms.
    pub elapsed_ms: u64,
}

/// The emotion the bias heads for and since when.
#[derive(Debug, Default, Clone, Copy, PartialEq, Eq, Structural)]
pub struct EmotionTransition {
    /// Emotion before the current target.
    pub from: Option<Emotion>,
    /// Current target emotion.
    pub to: Option<Emotion>,
    /// Start of the current transition.
    pub started_at: Option<Instant>,
}

/// The tracker after seeing `emotion` at `now`: a change of emotion starts
/// a transition from the previous target at `now`.
pub open spec fn spec_emotion_step(t: EmotionTransition, emotion: Emotion, now: Instant) -> EmotionTransition {
    if t.to != Some(emotion) {
        EmotionTransition { from: t.to, to: Some(emotion), started_at: Some(now) }
    } else {
        t
    }
}

impl EmotionTransition {
    /// No emotion seen yet.
    pub fn new() -> (r: Self)
        ensures
            r.from is None && r.to is None && r.started_at is None,
    {
        EmotionTransition { from: None, to: None, started_at: None }
    }

    /// One tick with the entity's emotion at `now`: returns the transition
    /// in progress.
    pub fn observe(&mut self, emotion: Emotion, now: Instant) -> (r: BiasTransition)
        ensures
            *final(self) == spec_emotion_step(*old(self), emotion, now),
            r.from == final(self).from,
            r.to == emotion,
            r.elapsed_ms == match final(self).started_at {
                Some(s) => sat_sub(now@, s@),
                None => 0,
            },
    {
        if self.to != Some(emotion) {
            self.from = self.to;
            self.to = Some(emotion);
            self.started_at = Some(now);
        }
        let start = match self.started_at {
            Some(s) => s,
            None => now,
        };
        BiasTransition { from: self.from, to: emotion, elapsed_ms: now.saturating_duration_since(start) }
    }
}

} // verus!
