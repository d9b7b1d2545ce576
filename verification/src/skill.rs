//! The [`Skill`] trait — discoverable capabilities polled each frame.
use vstd::prelude::*;
use crate::director::{Field, SkillMeta};
use crate::entity::Entity;

verus! {

/// Outcome of one skill invocation.
#[derive(Debug, Clone, Copy, PartialEq, Eq, Structural)]
pub enum SkillStatus {
    /// The skill finished.
    Done,
    /// The skill wants to keep running on later frames.
    Continuing,
}

/// A longer-running capability: polled with `should_fire`, run with
/// `invoke`. Skills write mind / voice state, never face or motor.
pub trait Skill {
    /// This implementation keeps the contracts below. An implementation
    /// that keeps the defaults (as implementations outside the verified
    /// crate do) is promised nothing by them.
    closed spec fn obeys_skill_spec(&self) -> bool {
        false
    }

    /// The priority its metadata declares.
    closed spec fn declared_priority(&self) -> u8 {
        0
    }

    /// The fields its metadata declares it writes.
    closed spec fn declared_writes(&self) -> Seq<Field> {
        Seq::empty()
    }

    /// Whether the skill, in its current state, wants to run on `entity`.
    closed spec fn fires(&self, entity: Entity) -> bool {
        false
    }

    /// Invoking the skill, in its current state, on entity `before` can
    /// leave the entity as `after`.
    closed spec fn invoke_outcome(&self, before: Entity, after: Entity) -> bool {
        true
    }

    /// Static metadata for this skill type.
    fn meta(&self) -> (r: SkillMeta)
        ensures
            self.obeys_skill_spec() ==> r.priority == self.declared_priority() && r.writes@ == self.declared_writes(),
    ;

    /// Whether the skill wants to run this frame.
    fn should_fire(&self, entity: &Entity) -> (r: bool)
        ensures
            self.obeys_skill_spec() ==> r == self.fires(*entity),
    ;

    /// Run the skill for one frame.
    fn invoke(&mut self, entity: &mut Entity) -> (r: SkillStatus)
        ensures
            final(self).obeys_skill_spec() == old(self).obeys_skill_spec(),
            old(self).obeys_skill_spec() ==> old(self).invoke_outcome(*old(entity), *final(entity)),
    ;
}

} // verus!
