//! Arms the dizzy overlay on the rising edge into `Intent::Shaken`.
use vstd::prelude::*;
use crate::decorator::{Decorator, DecoratorState, held};
use crate::director::{Field, ModifierMeta, Phase};
use crate::entity::Entity;
use crate::face::Face;
use crate::mind::Intent;
use crate::modifier::Modifier;

verus! {

/// How long the dizzy overlay holds, in ms.
pub const DIZZY_HOLD_MS: u64 = 4_000;

/// Arms `face.decorator = Dizzy` on the rising edge into `Intent::Shaken`.
#[derive(Debug, Clone, Copy)]
pub struct DecoratorFromShake {
    hold_ms: u64,
    last_intent: Option<Intent>,
}

impl DecoratorFromShake {
    /// Hold duration of the overlay.
    pub closed spec fn spec_hold_ms(&self) -> u64 {
        self.hold_ms
    }

    /// Intent seen on the previous frame.
    pub closed spec fn last_intent(&self) -> Option<Intent> {
        self.last_intent
    }

    /// Construct with the default hold.
    pub fn new() -> (r: Self)
        ensures
            r.spec_hold_ms() == DIZZY_HOLD_MS,
            r.last_intent() is None,
    {
        Self { hold_ms: DIZZY_HOLD_MS, last_intent: None }
    }

    /// Construct with a custom hold.
    pub fn with_hold_ms(hold_ms: u64) -> (r: Self)
        ensures
            r.spec_hold_ms() == hold_ms,
            r.last_intent() is None,
    {
        Self { hold_ms, last_intent: None }
    }

    /// Hold duration of the overlay, in ms.
    pub fn hold_ms(&self) -> (r: u64)
        ensures
            r == self.spec_hold_ms(),
    {
        self.hold_ms
    }
}

impl Default for DecoratorFromShake {
    fn default() -> (r: Self)
        ensures
            r.spec_hold_ms() == DIZZY_HOLD_MS,
            r.last_intent() is None,
    {
        Self::new()
    }
}

impl DecoratorFromShake {
    /// One update from entity `pre_entity` leaves the entity as
    /// `post_entity` and the modifier as `post_self`.
    pub open spec fn stepped(&self, post_self: Self, pre_entity: Entity, post_entity: Entity) -> bool {
        &&& (({
                let e = pre_entity;
                let rose = e.mind.intent == Intent::Shaken && self.last_intent() != Some(Intent::Shaken);
                &&& post_self.spec_hold_ms() == self.spec_hold_ms()
                &&& post_self.last_intent() == Some(e.mind.intent)
                &&& post_entity == (if rose {
                    Entity { face: Face { decorator: Some(held(Decorator::Dizzy, e.tick.now, self.spec_hold_ms())), ..e.face }, ..e }
                } else {
                    e
                })
            }))
    }
}

impl Modifier for DecoratorFromShake {
    open spec fn obeys_modifier_spec(&self) -> bool {
        true
    }

    open spec fn declared_phase(&self) -> Phase {
        Phase::Decoration
    }

    open spec fn declared_priority(&self) -> i8 {
        20i8
    }

    open spec fn declared_writes(&self) -> Seq<Field> {
        seq![Field::Decorator]
    }

    open spec fn update_outcome(&self, before: Entity, after: Entity) -> bool {
        exists|n: Self| #[trigger] self.stepped(n, before, after)
    }

    fn meta(&self) -> (r: ModifierMeta)
        ensures
            r.name@ == "DecoratorFromShake"@,
            r.description@ == "Arms face.decorator = Dizzy on the rising edge into Intent::Shaken."@,
            r.phase == Phase::Decoration,
            r.priority == 20,
            r.reads@ == seq![Field::Intent],
            r.writes@ == seq![Field::Decorator],
    {
        ModifierMeta {
            name: "DecoratorFromShake",
            description: "Arms face.decorator = Dizzy on the rising edge into Intent::Shaken.",
            phase: Phase::Decoration,
            priority: 20,
            reads: vec![Field::Intent],
            writes: vec![Field::Decorator],
        }
    }

    fn update(&mut self, entity: &mut Entity)
        ensures
            ({
                let e = *old(entity);
                let rose = e.mind.intent == Intent::Shaken && old(self).last_intent() != Some(Intent::Shaken);
                &&& final(self).spec_hold_ms() == old(self).spec_hold_ms()
                &&& final(self).last_intent() == Some(e.mind.intent)
                &&& *final(entity) == (if rose {
                    Entity { face: Face { decorator: Some(held(Decorator::Dizzy, e.tick.now, old(self).spec_hold_ms())), ..e.face }, ..e }
                } else {
                    e
                })
            }),
            old(self).stepped(*final(self), *old(entity), *final(entity)),
    {
        let now = entity.tick.now;
        let intent = entity.mind.intent;
        let was_shaken = matches!(self.last_intent, Some(Intent::Shaken));
        let is_shaken = matches!(intent, Intent::Shaken);
        self.last_intent = Some(intent);
        if is_shaken && !was_shaken {
            entity.face.decorator = Some(DecoratorState::hold_saturating(Decorator::Dizzy, now, self.hold_ms));
        }
        assert(old(self).stepped(*self, *old(entity), *entity));
    }
}

/// The modifier is determined by its hold and the intent it last saw: so
/// [`DecoratorFromShake::new`], its `default` and `with_hold_ms(4_000)`
/// build one and the same modifier.
pub proof fn lemma_decorator_from_shake_determined(a: DecoratorFromShake, b: DecoratorFromShake)
    requires
        a.spec_hold_ms() == b.spec_hold_ms(),
        a.last_intent() == b.last_intent(),
    ensures
        a == b,
{
}

} // verus!
