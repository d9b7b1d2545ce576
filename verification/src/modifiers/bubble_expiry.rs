//! Clears the speech bubble once its deadline passes.
use vstd::prelude::*;
use crate::director::{Field, ModifierMeta, Phase};
use crate::entity::Entity;
use crate::face::Face;
use crate::modifier::Modifier;

verus! {

/// Clears `face.bubble` once `expires_at` passes. Runs first in the
/// decoration phase so trigger paths see a clean slate.
#[derive(Debug, Default, Clone, Copy)]
pub struct BubbleExpiry;

impl BubbleExpiry {
    /// Construct the modifier.
    pub fn new() -> (r: Self) {
        BubbleExpiry
    }
}

impl BubbleExpiry {
    /// One update from entity `pre_entity` leaves the entity as
    /// `post_entity` and the modifier as `post_self`.
    pub open spec fn stepped(&self, post_self: Self, pre_entity: Entity, post_entity: Entity) -> bool {
        &&& (post_entity == (Entity {
                face: Face {
                    bubble: match pre_entity.face.bubble {
                        Some(b) => if pre_entity.tick.now@ >= b.expires_at@ { None } else { Some(b) },
                        None => None,
                    },
                    ..pre_entity.face
                },
                ..pre_entity
            }))
    }
}

impl Modifier for BubbleExpiry {
    open spec fn obeys_modifier_spec(&self) -> bool {
        true
    }

    open spec fn declared_phase(&self) -> Phase {
        Phase::Decoration
    }

    open spec fn declared_priority(&self) -> i8 {
        -10i8
    }

    open spec fn declared_writes(&self) -> Seq<Field> {
        seq![Field::Bubble]
    }

    open spec fn update_outcome(&self, before: Entity, after: Entity) -> bool {
        exists|n: Self| #[trigger] self.stepped(n, before, after)
    }

    fn meta(&self) -> (r: ModifierMeta)
        ensures
            r.name@ == "BubbleExpiry"@,
            r.description@ == "Clears face.bubble once expires_at passes; runs first in \
                          Phase::Decoration so trigger paths see a clean slate."@,
            r.phase == Phase::Decoration,
            r.priority == -10,
            r.reads@ == seq![Field::Bubble],
            r.writes@ == seq![Field::Bubble],
    {
        ModifierMeta {
            name: "BubbleExpiry",
            description: "Clears face.bubble once expires_at passes; runs first in \
                          Phase::Decoration so trigger paths see a clean slate.",
            phase: Phase::Decoration,
            priority: -10,
            reads: vec![Field::Bubble],
            writes: vec![Field::Bubble],
        }
    }

    fn update(&mut self, entity: &mut Entity)
        ensures
            *final(entity) == (Entity {
                face: Face {
                    bubble: match old(entity).face.bubble {
                        Some(b) => if old(entity).tick.now@ >= b.expires_at@ { None } else { Some(b) },
                        None => None,
                    },
                    ..old(entity).face
                },
                ..*old(entity)
            }),
            old(self).stepped(*final(self), *old(entity), *final(entity)),
    {
        if let Some(state) = entity.face.bubble {
            if state.is_expired(entity.tick.now) {
                entity.face.bubble = None;
            }
        }
        assert(old(self).stepped(*self, *old(entity), *entity));
    }
}

} // verus!
