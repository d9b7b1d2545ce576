//! Clears the decorator overlay once its deadline passes.
use vstd::prelude::*;
use crate::director::{Field, ModifierMeta, Phase};
use crate::entity::Entity;
use crate::face::Face;
use crate::modifier::Modifier;

verus! {

/// Clears `face.decorator` once `expires_at` passes. Runs first in the
/// decoration phase so trigger modifiers see a clean slate.
#[derive(Debug, Default, Clone, Copy)]
pub struct DecoratorExpiry;

impl DecoratorExpiry {
    /// Construct the modifier.
    pub fn new() -> (r: Self) {
        DecoratorExpiry
    }
}

impl DecoratorExpiry {
    /// One update from entity `pre_entity` leaves the entity as
    /// `post_entity` and the modifier as `post_self`.
    pub open spec fn stepped(&self, post_self: Self, pre_entity: Entity, post_entity: Entity) -> bool {
        &&& (post_entity == (Entity {
                face: Face {
                    decorator: match pre_entity.face.decorator {
                        Some(d) => if pre_entity.tick.now@ >= d.expires_at@ { None } else { Some(d) },
                        None => None,
                    },
                    ..pre_entity.face
                },
                ..pre_entity
            }))
    }
}

impl Modifier for DecoratorExpiry {
    open spec fn obeys_modifier_spec(&self) -> bool {
        true
    }

    open spec fn declared_phase(&self) -> Phase {
        Phase::Decoration
    }

    open spec fn declared_priority(&self) -> i8 {
        -10i8
    }

    open spec fn declared_writes(&self) -> Seq<Field> {
        seq![Field::Decorator]
    }

    open spec fn update_outcome(&self, before: Entity, after: Entity) -> bool {
        exists|n: Self| #[trigger] self.stepped(n, before, after)
    }

    fn meta(&self) -> (r: ModifierMeta)
        ensures
            r.name@ == "DecoratorExpiry"@,
            r.description@ == "Clears face.decorator once expires_at passes; runs first in \
                          Phase::Decoration so trigger modifiers see a clean slate."@,
            r.phase == Phase::Decoration,
            r.priority == -10,
            r.reads@ == seq![Field::Decorator],
            r.writes@ == seq![Field::Decorator],
    {
        ModifierMeta {
            name: "DecoratorExpiry",
            description: "Clears face.decorator once expires_at passes; runs first in \
                          Phase::Decoration so trigger modifiers see a clean slate.",
            phase: Phase::Decoration,
            priority: -10,
            reads: vec![Field::Decorator],
            writes: vec![Field::Decorator],
        }
    }

    fn update(&mut self, entity: &mut Entity)
        ensures
            *final(entity) == (Entity {
                face: Face {
                    decorator: match old(entity).face.decorator {
                        Some(d) => if old(entity).tick.now@ >= d.expires_at@ { None } else { Some(d) },
                        None => None,
                    },
                    ..old(entity).face
                },
                ..*old(entity)
            }),
            old(self).stepped(*final(self), *old(entity), *final(entity)),
    {
        if let Some(state) = entity.face.decorator {
            if state.is_expired(entity.tick.now) {
                entity.face.decorator = None;
            }
        }
        assert(old(self).stepped(*self, *old(entity), *entity));
    }
}

} // verus!
