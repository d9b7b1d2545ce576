//! The [`Modifier`] trait — per-frame state mutators.
use vstd::prelude::*;
use crate::director::{Field, ModifierMeta, Phase};
use crate::entity::Entity;

verus! {

/// A per-frame state mutator on the entity: stateful, synchronous, no I/O.
///
/// The spec functions describe an implementation for verification. An
/// implementation opts in through `obeys_modifier_spec`; every modifier of
/// this crate does. One that keeps the defaults (as implementations outside
/// the verified crate do) is promised nothing by the contracts below.
pub trait Modifier {
    /// This implementation keeps the contracts below.
    closed spec fn obeys_modifier_spec(&self) -> bool {
        false
    }

    /// The phase its metadata declares.
    closed spec fn declared_phase(&self) -> Phase {
        Phase::Perception
    }

    /// The priority its metadata declares.
    closed spec fn declared_priority(&self) -> i8 {
        0
    }

    /// The fields its metadata declares it writes.
    closed spec fn declared_writes(&self) -> Seq<Field> {
        Seq::empty()
    }

    /// Updating this modifier, in its current state, from entity `before`
    /// can leave the entity as `after`.
    closed spec fn update_outcome(&self, before: Entity, after: Entity) -> bool {
        true
    }

    /// Static metadata for this modifier type.
    fn meta(&self) -> (r: ModifierMeta)
        ensures
            self.obeys_modifier_spec() ==> {
                &&& r.phase == self.declared_phase()
                &&& r.priority == self.declared_priority()
                &&& r.writes@ == self.declared_writes()
            },
    ;

    /// Advance the modifier's state to `entity.tick.now` and apply its
    /// effect to `entity`.
    fn update(&mut self, entity: &mut Entity)
        ensures
            final(self).obeys_modifier_spec() == old(self).obeys_modifier_spec(),
            old(self).obeys_modifier_spec() ==> old(self).update_outcome(*old(entity), *final(entity)),
    ;
}

} // verus!
