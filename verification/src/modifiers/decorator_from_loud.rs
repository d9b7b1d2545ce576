//! The decision behind the sweat overlay on loud sound: on the rising edge
//! of the audio level across its threshold, while the emotion is
//! non-positive, the sweat drop is armed.
//!
//! The audio level is a floating-point reading; the caller compares it with
//! the threshold and hands in the verdict for each tick.
use vstd::prelude::*;
use crate::decorator::{Decorator, DecoratorState, held};
use crate::director::{Field, ModifierMeta, Phase};
use crate::emotion::Emotion;
use crate::entity::Entity;
use crate::face::Face;

verus! {

/// How long the sweat overlay holds, in ms.
pub const SWEAT_HOLD_MS: u64 = 3_000;

/// Emotions under which a loud sound earns a sweat drop.
pub open spec fn spec_emotion_admits_sweat(e: Emotion) -> bool {
    e == Emotion::Sad || e == Emotion::Surprised || e == Emotion::Angry || e == Emotion::Mad || e == Emotion::Confused
}

/// Whether a loud sound earns a sweat drop under `e`.
pub fn emotion_admits_sweat(e: Emotion) -> (r: bool)
    ensures
        r == spec_emotion_admits_sweat(e),
{
    matches!(e, Emotion::Sad | Emotion::Surprised | Emotion::Angry | Emotion::Mad | Emotion::Confused)
}

/// Edge detector for the sweat overlay.
#[derive(Debug, Clone, Copy)]
pub struct LoudSweat {
    hold_ms: u64,
    armed_above: bool,
}

impl LoudSweat {
    /// Hold duration of the overlay.
    pub closed spec fn hold(&self) -> u64 {
        self.hold_ms
    }

    /// Whether the previous tick was above the threshold.
    pub closed spec fn was_above(&self) -> bool {
        self.armed_above
    }

    /// An edge detector with the given hold, not armed.
    pub fn with_hold_ms(hold_ms: u64) -> (r: Self)
        ensures
            r.hold() == hold_ms,
            !r.was_above(),
    {
        Self { hold_ms, armed_above: false }
    }

    /// Metadata of the modifier this decision drives.
    pub fn meta(&self) -> (r: ModifierMeta)
        ensures
            r.name@ == "DecoratorFromLoud"@,
            r.description@ == "Arms face.decorator = Sweat on the rising edge of audio_rms across \
                          the threshold while emotion is non-positive (Sad / Surprised / \
                          Angry / Mad / Confused)."@,
            r.phase == Phase::Decoration,
            r.priority == 10,
            r.reads@ == seq![Field::AudioRms, Field::Emotion],
            r.writes@ == seq![Field::Decorator],
    {
        ModifierMeta {
            name: "DecoratorFromLoud",
            description: "Arms face.decorator = Sweat on the rising edge of audio_rms across \
                          the threshold while emotion is non-positive (Sad / Surprised / \
                          Angry / Mad / Confused).",
            phase: Phase::Decoration,
            priority: 10,
            reads: vec![Field::AudioRms, Field::Emotion],
            writes: vec![Field::Decorator],
        }
    }

    /// One tick: `above` says whether the audio level is above the
    /// threshold. On the rising edge, under an admitting emotion, the sweat
    /// drop is armed for the hold.
    pub fn observe(&mut self, entity: &mut Entity, above: bool)
        ensures
            final(self).hold() == old(self).hold(),
            final(self).was_above() == above,
            ({
                let e = *old(entity);
                *final(entity) == (if above && !old(self).was_above() && spec_emotion_admits_sweat(e.mind.affect.emotion) {
                    Entity { face: Face { decorator: Some(held(Decorator::Sweat, e.tick.now, old(self).hold())), ..e.face }, ..e }
                } else {
                    e
                })
            }),
    {
        let now = entity.tick.now;
        let rose: bool = above && !self.armed_above;
        self.armed_above = above;
        if rose && emotion_admits_sweat(entity.mind.affect.emotion) {
            entity.face.decorator = Some(DecoratorState::hold_saturating(Decorator::Sweat, now, self.hold_ms));
        }
    }
}

} // verus!
