//! Flips `mind.dormancy` between awake and asleep from how recently any
//! activity-bearing mind field left its default.
use vstd::prelude::*;
use crate::clock::{sat_sub, Instant};
use crate::director::{Field, ModifierMeta, Phase};
use crate::entity::Entity;
use crate::mind::{Attention, Dormancy, Engagement, Intent, Mind};
use crate::modifier::Modifier;

verus! {

/// How long all activity signals must stay at their defaults before the
/// entity goes dormant, in ms.
pub const DORMANCY_TIMEOUT_MS: u64 = 30_000;

/// Drives `mind.dormancy` from the activity signals on `entity.mind`.
#[derive(Debug, Clone, Copy)]
pub struct DormancyFromActivity {
    /// Quiet time before dormancy, in ms.
    pub timeout_ms: u64,
    last_active_at: Option<Instant>,
}

/// Activity: a non-idle intent, any attention, or any engagement.
pub open spec fn spec_is_active(m: Mind) -> bool {
    m.intent != Intent::Idle || m.attention != Attention::Unfocused || m.engagement != Engagement::Idle
}

fn is_active(entity: &Entity) -> (r: bool)
    ensures
        r == spec_is_active(entity.mind),
{
    !matches!(entity.mind.intent, Intent::Idle)
        || !matches!(entity.mind.attention, Attention::Unfocused)
        || !matches!(entity.mind.engagement, Engagement::Idle)
}

impl DormancyFromActivity {
    /// The last active tick; `None` before the first update.
    pub closed spec fn last_active(&self) -> Option<Instant> {
        self.last_active_at
    }

    /// The timeout.
    pub closed spec fn timeout(&self) -> u64 {
        self.timeout_ms
    }

    /// Construct with [`DORMANCY_TIMEOUT_MS`].
    pub fn new() -> (r: Self)
        ensures
            r.timeout() == DORMANCY_TIMEOUT_MS,
            r.last_active() is None,
    {
        Self { timeout_ms: DORMANCY_TIMEOUT_MS, last_active_at: None }
    }

    /// Construct with a custom timeout, in ms.
    pub fn with_timeout(timeout_ms: u64) -> (r: Self)
        ensures
            r.timeout() == timeout_ms,
            r.last_active() is None,
    {
        Self { timeout_ms, last_active_at: None }
    }
}

impl Default for DormancyFromActivity {
    fn default() -> (r: Self)
        ensures
            r.timeout() == DORMANCY_TIMEOUT_MS,
            r.last_active() is None,
    {
        Self::new()
    }
}

impl DormancyFromActivity {
    /// One update from entity `pre_entity` leaves the entity as
    /// `post_entity` and the modifier as `post_self`.
    pub open spec fn stepped(&self, post_self: Self, pre_entity: Entity, post_entity: Entity) -> bool {
        &&& (post_self.timeout() == self.timeout())
        &&& (({
                let e = pre_entity;
                let now = e.tick.now;
                if spec_is_active(e.mind) {
                    &&& post_self.last_active() == Some(now)
                    &&& post_entity == (Entity { mind: Mind { dormancy: Dormancy::Awake, ..e.mind }, ..e })
                } else {
                    let last = match self.last_active() { Some(l) => l, None => now };
                    &&& post_self.last_active() == Some(last)
                    &&& post_entity == (if sat_sub(now@, last@) >= self.timeout() && !(e.mind.dormancy is Asleep) {
                        Entity { mind: Mind { dormancy: Dormancy::Asleep { since: now }, ..e.mind }, ..e }
                    } else {
                        e
                    })
                }
            }))
    }
}

impl Modifier for DormancyFromActivity {
    open spec fn obeys_modifier_spec(&self) -> bool {
        true
    }

    open spec fn declared_phase(&self) -> Phase {
        Phase::Cognition
    }

    open spec fn declared_priority(&self) -> i8 {
        10i8
    }

    open spec fn declared_writes(&self) -> Seq<Field> {
        seq![Field::Dormancy]
    }

    open spec fn update_outcome(&self, before: Entity, after: Entity) -> bool {
        exists|n: Self| #[trigger] self.stepped(n, before, after)
    }

    fn meta(&self) -> (r: ModifierMeta)
        ensures
            r.name@ == "DormancyFromActivity"@,
            r.description@ == "Watches mind.{intent, attention, engagement}; sets \
                          mind.dormancy = Awake on any non-default activity, \
                          and Asleep after DORMANCY_TIMEOUT_MS of full quiet. \
                          Lets IdleSway gate its triangle-wave contribution so \
                          the head servos stay still when nothing's happening \
                          in the room."@,
            r.phase == Phase::Cognition,
            r.priority == 10,
            r.reads@ == seq![Field::Intent, Field::Attention, Field::Engagement, Field::Dormancy],
            r.writes@ == seq![Field::Dormancy],
    {
        ModifierMeta {
            name: "DormancyFromActivity",
            description: "Watches mind.{intent, attention, engagement}; sets \
                          mind.dormancy = Awake on any non-default activity, \
                          and Asleep after DORMANCY_TIMEOUT_MS of full quiet. \
                          Lets IdleSway gate its triangle-wave contribution so \
                          the head servos stay still when nothing's happening \
                          in the room.",
            phase: Phase::Cognition,
            priority: 10,
            reads: vec![Field::Intent, Field::Attention, Field::Engagement, Field::Dormancy],
            writes: vec![Field::Dormancy],
        }
    }

    fn update(&mut self, entity: &mut Entity)
        ensures
            final(self).timeout() == old(self).timeout(),
            ({
                let e = *old(entity);
                let now = e.tick.now;
                if spec_is_active(e.mind) {
                    &&& final(self).last_active() == Some(now)
                    &&& *final(entity) == (Entity { mind: Mind { dormancy: Dormancy::Awake, ..e.mind }, ..e })
                } else {
                    let last = match old(self).last_active() { Some(l) => l, None => now };
                    &&& final(self).last_active() == Some(last)
                    &&& *final(entity) == (if sat_sub(now@, last@) >= old(self).timeout() && !(e.mind.dormancy is Asleep) {
                        Entity { mind: Mind { dormancy: Dormancy::Asleep { since: now }, ..e.mind }, ..e }
                    } else {
                        e
                    })
                }
            }),
            old(self).stepped(*final(self), *old(entity), *final(entity)),
    {
        let now = entity.tick.now;
        if self.last_active_at.is_none() {
            self.last_active_at = Some(now);
        }
        if is_active(entity) {
            self.last_active_at = Some(now);
            entity.mind.dormancy = Dormancy::Awake;
            assert(old(self).stepped(*self, *old(entity), *entity));
            return;
        }
        let last = match self.last_active_at {
            Some(l) => l,
            None => now,
        };
        let elapsed: u64 = now.saturating_duration_since(last);
        if elapsed >= self.timeout_ms && !entity.mind.dormancy.is_asleep() {
            entity.mind.dormancy = Dormancy::Asleep { since: now };
        }
        assert(old(self).stepped(*self, *old(entity), *entity));
    }
}

/// Quiet for the timeout puts the robot to sleep: a fresh modifier with
/// timeout `T` first updated on a quiet, awake entity at `t0`, then again on
/// a quiet, awake entity at `t1 >= t0`, sets `Asleep { since: t1 }` exactly
/// when `t1 - t0 >= T`, and otherwise leaves the entity as it is. A positive
/// timeout leaves the first update's entity as it is.
pub proof fn lemma_sleeps_after_timeout(m0: DormancyFromActivity, m1: DormancyFromActivity, m2: DormancyFromActivity, e0: Entity, x0: Entity, e1: Entity, x1: Entity)
    requires
        m0.last_active() is None,
        !spec_is_active(e0.mind),
        !spec_is_active(e1.mind),
        e0.mind.dormancy == Dormancy::Awake,
        e1.mind.dormancy == Dormancy::Awake,
        e0.tick.now@ <= e1.tick.now@,
        m0.stepped(m1, e0, x0),
        m1.stepped(m2, e1, x1),
    ensures
        m0.timeout() > 0 ==> x0 == e0,
        e1.tick.now@ - e0.tick.now@ >= m0.timeout() ==> x1 == (Entity { mind: Mind { dormancy: Dormancy::Asleep { since: e1.tick.now }, ..e1.mind }, ..e1 }),
        e1.tick.now@ - e0.tick.now@ < m0.timeout() ==> x1 == e1,
{
}

} // verus!
