//! Arms an overlay on the rising edge into an emotion that has one.
use vstd::prelude::*;
use crate::decorator::{Decorator, DecoratorState, held};
use crate::director::{Field, ModifierMeta, Phase};
use crate::emotion::Emotion;
use crate::entity::Entity;
use crate::face::Face;
use crate::modifier::Modifier;

verus! {

/// How long an emotion-armed overlay holds, in ms.
pub const DECORATOR_EMOTION_HOLD_MS: u64 = 3_000;

/// Arms `face.decorator` from the rising edge into `Emotion::Angry`
/// (→ `Decorator::Angry`) or `Emotion::Loved` (→ `Decorator::Shy`).
/// Sustained emotion does not refresh the hold.
#[derive(Debug, Clone, Copy)]
pub struct DecoratorFromEmotion {
    hold_ms: u64,
    last_emotion: Option<Emotion>,
}

/// The overlay an emotion arms, if any.
pub open spec fn spec_decorator_for(emotion: Emotion) -> Option<Decorator> {
    match emotion {
        Emotion::Angry => Some(Decorator::Angry),
        Emotion::Loved => Some(Decorator::Shy),
        _ => None,
    }
}

impl DecoratorFromEmotion {
    /// Hold duration of the overlay.
    pub closed spec fn hold_ms(&self) -> u64 {
        self.hold_ms
    }

    /// Emotion seen on the previous frame.
    pub closed spec fn last_emotion(&self) -> Option<Emotion> {
        self.last_emotion
    }

    /// Construct with the default hold.
    pub fn new() -> (r: Self)
        ensures
            r.hold_ms() == DECORATOR_EMOTION_HOLD_MS,
            r.last_emotion() is None,
    {
        Self { hold_ms: DECORATOR_EMOTION_HOLD_MS, last_emotion: None }
    }

    /// Construct with a custom hold.
    pub fn with_hold_ms(hold_ms: u64) -> (r: Self)
        ensures
            r.hold_ms() == hold_ms,
            r.last_emotion() is None,
    {
        Self { hold_ms, last_emotion: None }
    }

    /// The overlay an emotion arms: Angry → Angry mark, Loved → Shy
    /// hatching, otherwise none.
    fn decorator_for(emotion: Emotion) -> (r: Option<Decorator>)
        ensures
            r == spec_decorator_for(emotion),
    {
        match emotion {
            Emotion::Angry => Some(Decorator::Angry),
            Emotion::Loved => Some(Decorator::Shy),
            _ => None,
        }
    }
}

impl Default for DecoratorFromEmotion {
    fn default() -> (r: Self)
        ensures
            r.hold_ms() == DECORATOR_EMOTION_HOLD_MS,
            r.last_emotion() is None,
    {
        Self::new()
    }
}

impl DecoratorFromEmotion {
    /// One update from entity `pre_entity` leaves the entity as
    /// `post_entity` and the modifier as `post_self`.
    pub open spec fn stepped(&self, post_self: Self, pre_entity: Entity, post_entity: Entity) -> bool {
        &&& (({
                let e = pre_entity;
                let emotion = e.mind.affect.emotion;
                &&& post_self.hold_ms() == self.hold_ms()
                &&& post_self.last_emotion() == Some(emotion)
                &&& post_entity == (if self.last_emotion() != Some(emotion) && spec_decorator_for(emotion) is Some {
                    Entity { face: Face { decorator: Some(held(spec_decorator_for(emotion)->0, e.tick.now, self.hold_ms())), ..e.face }, ..e }
                } else {
                    e
                })
            }))
    }
}

impl Modifier for DecoratorFromEmotion {
    open spec fn obeys_modifier_spec(&self) -> bool {
        true
    }

    open spec fn declared_phase(&self) -> Phase {
        Phase::Decoration
    }

    open spec fn declared_priority(&self) -> i8 {
        -5i8
    }

    open spec fn declared_writes(&self) -> Seq<Field> {
        seq![Field::Decorator]
    }

    open spec fn update_outcome(&self, before: Entity, after: Entity) -> bool {
        exists|n: Self| #[trigger] self.stepped(n, before, after)
    }

    fn meta(&self) -> (r: ModifierMeta)
        ensures
            r.name@ == "DecoratorFromEmotion"@,
            r.description@ == "Arms face.decorator from the rising edge into Emotion::Angry \
                          (-> Decorator::Angry) or Emotion::Loved (-> Decorator::Shy). \
                          Sustained emotion does not refresh the hold."@,
            r.phase == Phase::Decoration,
            r.priority == -5,
            r.reads@ == seq![Field::Emotion],
            r.writes@ == seq![Field::Decorator],
    {
        ModifierMeta {
            name: "DecoratorFromEmotion",
            description: "Arms face.decorator from the rising edge into Emotion::Angry \
                          (-> Decorator::Angry) or Emotion::Loved (-> Decorator::Shy). \
                          Sustained emotion does not refresh the hold.",
            phase: Phase::Decoration,
            priority: -5,
            reads: vec![Field::Emotion],
            writes: vec![Field::Decorator],
        }
    }

    fn update(&mut self, entity: &mut Entity)
        ensures
            ({
                let e = *old(entity);
                let emotion = e.mind.affect.emotion;
                &&& final(self).hold_ms() == old(self).hold_ms()
                &&& final(self).last_emotion() == Some(emotion)
                &&& *final(entity) == (if old(self).last_emotion() != Some(emotion) && spec_decorator_for(emotion) is Some {
                    Entity { face: Face { decorator: Some(held(spec_decorator_for(emotion)->0, e.tick.now, old(self).hold_ms())), ..e.face }, ..e }
                } else {
                    e
                })
            }),
            old(self).stepped(*final(self), *old(entity), *final(entity)),
    {
        let now = entity.tick.now;
        let emotion = entity.mind.affect.emotion;
        let prev = self.last_emotion;
        self.last_emotion = Some(emotion);
        if prev == Some(emotion) {
            assert(old(self).stepped(*self, *old(entity), *entity));
            return;
        }
        if let Some(kind) = Self::decorator_for(emotion) {
            entity.face.decorator = Some(DecoratorState::hold_saturating(kind, now, self.hold_ms));
        }
        assert(old(self).stepped(*self, *old(entity), *entity));
    }
}

} // verus!
