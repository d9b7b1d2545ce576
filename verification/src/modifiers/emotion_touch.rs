//! Tap-driven emotion cycling with a manual-override hold.
use vstd::prelude::*;
use crate::clock::after;
use crate::director::{Field, ModifierMeta, Phase};
use crate::emotion::Emotion;
use crate::entity::Entity;
use crate::mind::{Autonomy, Mind, Affect, OverrideSource};
use crate::modifier::Modifier;

verus! {

/// How long a tap pins the chosen emotion, in ms.
pub const MANUAL_HOLD_MS: u64 = 30_000;

/// The order taps cycle through.
pub const EMOTION_ORDER: [Emotion; 5] = [
    Emotion::Neutral,
    Emotion::Happy,
    Emotion::Sleepy,
    Emotion::Surprised,
    Emotion::Sad,
];

/// On a queued tap, advances emotion to the next in [`EMOTION_ORDER`] and
/// pins it via `mind.autonomy.manual_until`. Clears expired holds.
#[derive(Debug, Clone, Copy, Default)]
pub struct EmotionTouch {
    pending_tap: bool,
}

/// The emotion a tap advances to: the successor in [`EMOTION_ORDER`],
/// wrapping from Sad to Neutral. An emotion outside the order restarts it
/// at its second entry (as if from Neutral).
pub open spec fn spec_next_emotion(current: Emotion) -> Emotion {
    match current {
        Emotion::Happy => Emotion::Sleepy,
        Emotion::Sleepy => Emotion::Surprised,
        Emotion::Surprised => Emotion::Sad,
        Emotion::Sad => Emotion::Neutral,
        _ => Emotion::Happy,
    }
}

fn next_emotion(current: Emotion) -> (r: Emotion)
    ensures
        r == spec_next_emotion(current),
{
    match current {
        Emotion::Happy => Emotion::Sleepy,
        Emotion::Sleepy => Emotion::Surprised,
        Emotion::Surprised => Emotion::Sad,
        Emotion::Sad => Emotion::Neutral,
        _ => Emotion::Happy,
    }
}

/// Five taps from any emotion of the cycle come back to it.
pub proof fn lemma_five_taps_cycle(e: Emotion)
    requires
        e == Emotion::Neutral || e == Emotion::Happy || e == Emotion::Sleepy
            || e == Emotion::Surprised || e == Emotion::Sad,
    ensures
        spec_next_emotion(spec_next_emotion(spec_next_emotion(spec_next_emotion(spec_next_emotion(e))))) == e,
{
}

impl EmotionTouch {
    /// Whether a tap is queued.
    pub closed spec fn pending(&self) -> bool {
        self.pending_tap
    }

    /// Construct with no tap queued.
    pub fn new() -> (r: Self)
        ensures
            !r.pending(),
    {
        Self { pending_tap: false }
    }

    /// Queue a tap for the next update.
    pub fn tap(&mut self)
        ensures
            final(self).pending(),
    {
        self.pending_tap = true;
    }
}

impl EmotionTouch {
    /// One update from entity `pre_entity` leaves the entity as
    /// `post_entity` and the modifier as `post_self`.
    pub open spec fn stepped(&self, post_self: Self, pre_entity: Entity, post_entity: Entity) -> bool {
        &&& (!post_self.pending())
        &&& (({
                let e = pre_entity;
                let now = e.tick.now;
                post_entity == (if self.pending() {
                    Entity { mind: Mind {
                        affect: Affect { emotion: spec_next_emotion(e.mind.affect.emotion) },
                        autonomy: Autonomy { manual_until: Some(after(now, MANUAL_HOLD_MS)), source: Some(OverrideSource::Touch) },
                        ..e.mind }, ..e }
                } else if e.mind.autonomy.manual_until matches Some(until) && now@ >= until@ {
                    Entity { mind: Mind { autonomy: Autonomy { manual_until: None, source: None }, ..e.mind }, ..e }
                } else {
                    e
                })
            }))
    }
}

impl Modifier for EmotionTouch {
    open spec fn obeys_modifier_spec(&self) -> bool {
        true
    }

    open spec fn declared_phase(&self) -> Phase {
        Phase::Affect
    }

    open spec fn declared_priority(&self) -> i8 {
        -100i8
    }

    open spec fn declared_writes(&self) -> Seq<Field> {
        seq![Field::Emotion, Field::Autonomy]
    }

    open spec fn update_outcome(&self, before: Entity, after: Entity) -> bool {
        exists|n: Self| #[trigger] self.stepped(n, before, after)
    }

    fn meta(&self) -> (r: ModifierMeta)
        ensures
            r.name@ == "EmotionTouch"@,
            r.description@ == "On a queued tap, advances emotion to the next in EMOTION_ORDER and \
                          pins it via mind.autonomy.manual_until. Clears expired holds."@,
            r.phase == Phase::Affect,
            r.priority == -100,
            r.reads@ == seq![Field::Emotion, Field::Autonomy],
            r.writes@ == seq![Field::Emotion, Field::Autonomy],
    {
        ModifierMeta {
            name: "EmotionTouch",
            description: "On a queued tap, advances emotion to the next in EMOTION_ORDER and \
                          pins it via mind.autonomy.manual_until. Clears expired holds.",
            phase: Phase::Affect,
            priority: -100,
            reads: vec![Field::Emotion, Field::Autonomy],
            writes: vec![Field::Emotion, Field::Autonomy],
        }
    }

    fn update(&mut self, entity: &mut Entity)
        ensures
            !final(self).pending(),
            ({
                let e = *old(entity);
                let now = e.tick.now;
                *final(entity) == (if old(self).pending() {
                    Entity { mind: Mind {
                        affect: Affect { emotion: spec_next_emotion(e.mind.affect.emotion) },
                        autonomy: Autonomy { manual_until: Some(after(now, MANUAL_HOLD_MS)), source: Some(OverrideSource::Touch) },
                        ..e.mind }, ..e }
                } else if e.mind.autonomy.manual_until matches Some(until) && now@ >= until@ {
                    Entity { mind: Mind { autonomy: Autonomy { manual_until: None, source: None }, ..e.mind }, ..e }
                } else {
                    e
                })
            }),
            old(self).stepped(*final(self), *old(entity), *final(entity)),
    {
        let now = entity.tick.now;
        if self.pending_tap {
            self.pending_tap = false;
            entity.mind.affect.emotion = next_emotion(entity.mind.affect.emotion);
            entity.mind.autonomy.manual_until = Some(now.plus(MANUAL_HOLD_MS));
            entity.mind.autonomy.source = Some(OverrideSource::Touch);
            assert(old(self).stepped(*self, *old(entity), *entity));
            return;
        }
        if let Some(until) = entity.mind.autonomy.manual_until {
            if now.as_millis() >= until.as_millis() {
                entity.mind.autonomy.manual_until = None;
                entity.mind.autonomy.source = None;
            }
        }
        assert(old(self).stepped(*self, *old(entity), *entity));
    }
}

/// Taps queued since the last update count as one: the modifier is
/// determined by whether a tap is pending, so any number of taps leave it as
/// one tap does.
pub proof fn lemma_taps_coalesce(a: EmotionTouch, b: EmotionTouch)
    requires
        a.pending() == b.pending(),
    ensures
        a == b,
{
}

/// An update with a tap pending advances the emotion one step in
/// [`EMOTION_ORDER`], holds it for [`MANUAL_HOLD_MS`] under touch and clears
/// the tap; a following update, with no new tap, leaves the emotion where it
/// is.
pub proof fn lemma_tap_advances_once(m0: EmotionTouch, m1: EmotionTouch, m2: EmotionTouch, e0: Entity, e1: Entity, f: Entity, e2: Entity)
    requires
        m0.pending(),
        m0.stepped(m1, e0, e1),
        m1.stepped(m2, f, e2),
    ensures
        e1.mind.affect.emotion == spec_next_emotion(e0.mind.affect.emotion),
        e1.mind.autonomy == (Autonomy { manual_until: Some(after(e0.tick.now, MANUAL_HOLD_MS)), source: Some(OverrideSource::Touch) }),
        !m1.pending(),
        e2.mind.affect == f.mind.affect,
{
}

} // verus!
