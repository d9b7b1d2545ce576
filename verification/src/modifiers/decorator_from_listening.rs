//! Keeps the Ear overlay armed while attention is Listening.
use vstd::prelude::*;
use crate::decorator::{Decorator, DecoratorState, held};
use crate::director::{Field, ModifierMeta, Phase};
use crate::entity::Entity;
use crate::face::Face;
use crate::mind::Attention;
use crate::modifier::Modifier;

verus! {

/// Tail the overlay holds past the last Listening frame, in ms.
pub const DECORATOR_TAIL_MS: u64 = 500;

/// Arms `face.decorator = Ear` every frame attention is `Listening`,
/// refreshing the deadline; the expiry modifier fades it out afterwards.
#[derive(Debug, Default, Clone, Copy)]
pub struct DecoratorFromListening;

impl DecoratorFromListening {
    /// Construct the modifier.
    pub fn new() -> (r: Self) {
        DecoratorFromListening
    }
}

impl DecoratorFromListening {
    /// One update from entity `pre_entity` leaves the entity as
    /// `post_entity` and the modifier as `post_self`.
    pub open spec fn stepped(&self, post_self: Self, pre_entity: Entity, post_entity: Entity) -> bool {
        &&& (({
                let e = pre_entity;
                post_entity == (if e.mind.attention is Listening {
                    Entity { face: Face { decorator: Some(held(Decorator::Ear, e.tick.now, DECORATOR_TAIL_MS)), ..e.face }, ..e }
                } else {
                    e
                })
            }))
    }
}

impl Modifier for DecoratorFromListening {
    open spec fn obeys_modifier_spec(&self) -> bool {
        true
    }

    open spec fn declared_phase(&self) -> Phase {
        Phase::Decoration
    }

    open spec fn declared_priority(&self) -> i8 {
        5i8
    }

    open spec fn declared_writes(&self) -> Seq<Field> {
        seq![Field::Decorator]
    }

    open spec fn update_outcome(&self, before: Entity, after: Entity) -> bool {
        exists|n: Self| #[trigger] self.stepped(n, before, after)
    }

    fn meta(&self) -> (r: ModifierMeta)
        ensures
            r.name@ == "DecoratorFromListening"@,
            r.description@ == "Arms face.decorator = Ear while mind.attention is Listening; refreshes expires_at each frame and lets DecoratorExpiry's tail handle the fade-out when Listening releases."@,
            r.phase == Phase::Decoration,
            r.priority == 5,
            r.reads@ == seq![Field::Attention],
            r.writes@ == seq![Field::Decorator],
    {
        ModifierMeta {
            name: "DecoratorFromListening",
            description: "Arms face.decorator = Ear while mind.attention is Listening; refreshes expires_at each frame and lets DecoratorExpiry's tail handle the fade-out when Listening releases.",
            phase: Phase::Decoration,
            priority: 5,
            reads: vec![Field::Attention],
            writes: vec![Field::Decorator],
        }
    }

    fn update(&mut self, entity: &mut Entity)
        ensures
            ({
                let e = *old(entity);
                *final(entity) == (if e.mind.attention is Listening {
                    Entity { face: Face { decorator: Some(held(Decorator::Ear, e.tick.now, DECORATOR_TAIL_MS)), ..e.face }, ..e }
                } else {
                    e
                })
            }),
            old(self).stepped(*final(self), *old(entity), *final(entity)),
    {
        if matches!(entity.mind.attention, Attention::Listening { .. }) {
            entity.face.decorator = Some(DecoratorState::hold_saturating(Decorator::Ear, entity.tick.now, DECORATOR_TAIL_MS));
        }
        assert(old(self).stepped(*self, *old(entity), *entity));
    }
}

} // verus!
