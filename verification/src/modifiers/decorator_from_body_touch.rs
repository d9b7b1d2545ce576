//! Arms a heart overlay when the body-touch strip is first touched while
//! the emotion invites affection.
use vstd::prelude::*;
use crate::clock::Instant;
use crate::decorator::{Decorator, DecoratorState, held};
use crate::director::{Field, ModifierMeta, Phase};
use crate::emotion::Emotion;
use crate::entity::Entity;
use crate::face::Face;
use crate::modifier::Modifier;

verus! {

/// How long the heart overlay holds, in ms.
pub const HEART_HOLD_MS: u64 = 2_000;

/// Arms `face.decorator = Heart` on the rising edge of body touch when the
/// current emotion is Happy, Loved or Hi.
#[derive(Debug, Clone, Copy)]
pub struct DecoratorFromBodyTouch {
    hold_ms: u64,
    last_touched_at: Option<Instant>,
}

/// Whether an emotion invites the affection overlay.
pub open spec fn spec_emotion_invites_heart(e: Emotion) -> bool {
    e == Emotion::Happy || e == Emotion::Loved || e == Emotion::Hi
}

fn emotion_invites_heart(e: Emotion) -> (r: bool)
    ensures
        r == spec_emotion_invites_heart(e),
{
    matches!(e, Emotion::Happy | Emotion::Loved | Emotion::Hi)
}

impl DecoratorFromBodyTouch {
    /// Hold duration of the heart overlay.
    pub closed spec fn hold_ms(&self) -> u64 {
        self.hold_ms
    }

    /// Instant of the most recent touched frame while contact persists.
    pub closed spec fn last_touched_at(&self) -> Option<Instant> {
        self.last_touched_at
    }

    /// Construct with the default hold.
    pub fn new() -> (r: Self)
        ensures
            r.hold_ms() == HEART_HOLD_MS,
            r.last_touched_at() is None,
    {
        Self { hold_ms: HEART_HOLD_MS, last_touched_at: None }
    }

    /// Construct with a custom hold.
    pub fn with_hold_ms(hold_ms: u64) -> (r: Self)
        ensures
            r.hold_ms() == hold_ms,
            r.last_touched_at() is None,
    {
        Self { hold_ms, last_touched_at: None }
    }
}

impl Default for DecoratorFromBodyTouch {
    fn default() -> (r: Self)
        ensures
            r.hold_ms() == HEART_HOLD_MS,
            r.last_touched_at() is None,
    {
        Self::new()
    }
}

impl DecoratorFromBodyTouch {
    /// One update from entity `pre_entity` leaves the entity as
    /// `post_entity` and the modifier as `post_self`.
    pub open spec fn stepped(&self, post_self: Self, pre_entity: Entity, post_entity: Entity) -> bool {
        &&& (({
                let e = pre_entity;
                let touched = e.perception.body_touch matches Some(t) && t.spec_any();
                let rose = touched && self.last_touched_at() is None;
                &&& post_self.hold_ms() == self.hold_ms()
                &&& post_self.last_touched_at() == (if touched { Some(e.tick.now) } else { None })
                &&& post_entity == (if rose && spec_emotion_invites_heart(e.mind.affect.emotion) {
                    Entity { face: Face { decorator: Some(held(Decorator::Heart, e.tick.now, self.hold_ms())), ..e.face }, ..e }
                } else {
                    e
                })
            }))
    }
}

impl Modifier for DecoratorFromBodyTouch {
    open spec fn obeys_modifier_spec(&self) -> bool {
        true
    }

    open spec fn declared_phase(&self) -> Phase {
        Phase::Decoration
    }

    open spec fn declared_priority(&self) -> i8 {
        0i8
    }

    open spec fn declared_writes(&self) -> Seq<Field> {
        seq![Field::Decorator]
    }

    open spec fn update_outcome(&self, before: Entity, after: Entity) -> bool {
        exists|n: Self| #[trigger] self.stepped(n, before, after)
    }

    fn meta(&self) -> (r: ModifierMeta)
        ensures
            r.name@ == "DecoratorFromBodyTouch"@,
            r.description@ == "Arms face.decorator = Heart when body_touch.any() rises and the \
                          current emotion invites affection (Happy / Loved / Hi)."@,
            r.phase == Phase::Decoration,
            r.priority == 0,
            r.reads@ == seq![Field::BodyTouch, Field::Emotion],
            r.writes@ == seq![Field::Decorator],
    {
        ModifierMeta {
            name: "DecoratorFromBodyTouch",
            description: "Arms face.decorator = Heart when body_touch.any() rises and the \
                          current emotion invites affection (Happy / Loved / Hi).",
            phase: Phase::Decoration,
            priority: 0,
            reads: vec![Field::BodyTouch, Field::Emotion],
            writes: vec![Field::Decorator],
        }
    }

    fn update(&mut self, entity: &mut Entity)
        ensures
            ({
                let e = *old(entity);
                let touched = e.perception.body_touch matches Some(t) && t.spec_any();
                let rose = touched && old(self).last_touched_at() is None;
                &&& final(self).hold_ms() == old(self).hold_ms()
                &&& final(self).last_touched_at() == (if touched { Some(e.tick.now) } else { None })
                &&& *final(entity) == (if rose && spec_emotion_invites_heart(e.mind.affect.emotion) {
                    Entity { face: Face { decorator: Some(held(Decorator::Heart, e.tick.now, old(self).hold_ms())), ..e.face }, ..e }
                } else {
                    e
                })
            }),
            old(self).stepped(*final(self), *old(entity), *final(entity)),
    {
        let now = entity.tick.now;
        let touched = match entity.perception.body_touch {
            Some(t) => t.any(),
            None => false,
        };
        let rose = touched && self.last_touched_at.is_none();
        if touched {
            self.last_touched_at = Some(now);
        } else {
            self.last_touched_at = None;
        }
        if rose && emotion_invites_heart(entity.mind.affect.emotion) {
            entity.face.decorator = Some(DecoratorState::hold_saturating(Decorator::Heart, now, self.hold_ms));
        }
        assert(old(self).stepped(*self, *old(entity), *entity));
    }
}

} // verus!
