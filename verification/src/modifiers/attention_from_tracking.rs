//! Latches `mind.attention` onto a tracked target after sustained camera
//! motion, and releases it after a quiet window.
use vstd::prelude::*;
use crate::clock::{sat_sub, Instant};
use crate::director::{Field, ModifierMeta, Phase};
use crate::entity::Entity;
use crate::mind::{Attention, Mind};
use crate::modifier::Modifier;
use crate::perception::TrackingMotion;

verus! {

/// Consecutive tracking ticks required to lock on.
pub const TRACKING_LOCK_TICKS: u8 = 3;
/// Quiet time after the last tracking tick before attention is released,
/// in ms.
pub const TRACKING_RELEASE_MS: u64 = 1_500;

/// Decides from `perception.tracking` whether `mind.attention` should be
/// `Tracking`.
#[derive(Debug, Clone, Copy)]
pub struct AttentionFromTracking {
    /// Consecutive tracking ticks required to lock on.
    pub lock_ticks: u8,
    /// Hold window after the last tracking tick, in ms.
    pub release_ms: u64,
    /// Run of consecutive tracking ticks, saturating at `u8::MAX`.
    pub consecutive_tracking: u8,
    /// The most recent tracking tick; `None` between bursts.
    pub last_tracking_at: Option<Instant>,
}

/// `e` with attention set to `a`.
pub open spec fn with_attention(e: Entity, a: Attention) -> Entity {
    Entity { mind: Mind { attention: a, ..e.mind }, ..e }
}

impl AttentionFromTracking {
    /// Default tuning.
    pub fn new() -> (r: Self)
        ensures
            r == (Self {
                lock_ticks: TRACKING_LOCK_TICKS,
                release_ms: TRACKING_RELEASE_MS,
                consecutive_tracking: 0,
                last_tracking_at: None,
            }),
    {
        Self::with_config(TRACKING_LOCK_TICKS, TRACKING_RELEASE_MS)
    }

    /// Custom lock and release tuning.
    pub fn with_config(lock_ticks: u8, release_ms: u64) -> (r: Self)
        ensures
            r == (Self { lock_ticks, release_ms, consecutive_tracking: 0, last_tracking_at: None }),
    {
        Self { lock_ticks, release_ms, consecutive_tracking: 0, last_tracking_at: None }
    }
}

impl Default for AttentionFromTracking {
    fn default() -> (r: Self)
        ensures
            r == (Self {
                lock_ticks: TRACKING_LOCK_TICKS,
                release_ms: TRACKING_RELEASE_MS,
                consecutive_tracking: 0,
                last_tracking_at: None,
            }),
    {
        Self::new()
    }
}

impl AttentionFromTracking {
    /// One update from entity `pre_entity` leaves the entity as
    /// `post_entity` and the modifier as `post_self`.
    pub open spec fn stepped(&self, post_self: Self, pre_entity: Entity, post_entity: Entity) -> bool {
        &&& (post_self.lock_ticks == self.lock_ticks)
        &&& (post_self.release_ms == self.release_ms)
        &&& (({
                let s = *self;
                let e = pre_entity;
                let now = e.tick.now;
                match e.perception.tracking {
                    None => {
                        &&& post_self.consecutive_tracking == 0
                        &&& post_self.last_tracking_at == s.last_tracking_at
                        &&& post_entity == e
                    },
                    Some(obs) => {
                        let active = obs.motion == TrackingMotion::Tracking;
                        let run: u8 = if active {
                            (if s.consecutive_tracking < u8::MAX { s.consecutive_tracking + 1 } else { u8::MAX as int }) as u8
                        } else {
                            0
                        };
                        let last = if active { Some(now) } else { s.last_tracking_at };
                        &&& post_self.consecutive_tracking == run
                        &&& if run >= s.lock_ticks {
                            let since = match e.mind.attention {
                                Attention::Tracking { since } => since,
                                _ => now,
                            };
                            &&& post_self.last_tracking_at == last
                            &&& post_entity == with_attention(e, Attention::Tracking { since })
                        } else if e.mind.attention is Tracking && (match last {
                            Some(t) => sat_sub(now@, t@) >= s.release_ms,
                            None => true,
                        }) {
                            &&& post_self.last_tracking_at is None
                            &&& post_entity == with_attention(e, Attention::Unfocused)
                        } else {
                            &&& post_self.last_tracking_at == last
                            &&& post_entity == e
                        }
                    },
                }
            }))
    }
}

impl Modifier for AttentionFromTracking {
    open spec fn obeys_modifier_spec(&self) -> bool {
        true
    }

    open spec fn declared_phase(&self) -> Phase {
        Phase::Cognition
    }

    open spec fn declared_priority(&self) -> i8 {
        0i8
    }

    open spec fn declared_writes(&self) -> Seq<Field> {
        seq![Field::Attention]
    }

    open spec fn update_outcome(&self, before: Entity, after: Entity) -> bool {
        exists|n: Self| #[trigger] self.stepped(n, before, after)
    }

    fn meta(&self) -> (r: ModifierMeta)
        ensures
            r.name@ == "AttentionFromTracking"@,
            r.description@ == "Watches perception.tracking; latches mind.attention=Tracking{target} \
                          after TRACKING_LOCK_TICKS consecutive Tracking-classified ticks. \
                          Releases to None after TRACKING_RELEASE_MS quiet ms. Updates target \
                          continuously while locked; pins `since` to the entry tick for \
                          stable ease-in animation."@,
            r.phase == Phase::Cognition,
            r.priority == 0,
            r.reads@ == seq![Field::Tracking, Field::Attention],
            r.writes@ == seq![Field::Attention],
    {
        ModifierMeta {
            name: "AttentionFromTracking",
            description: "Watches perception.tracking; latches mind.attention=Tracking{target} \
                          after TRACKING_LOCK_TICKS consecutive Tracking-classified ticks. \
                          Releases to None after TRACKING_RELEASE_MS quiet ms. Updates target \
                          continuously while locked; pins `since` to the entry tick for \
                          stable ease-in animation.",
            phase: Phase::Cognition,
            priority: 0,
            reads: vec![Field::Tracking, Field::Attention],
            writes: vec![Field::Attention],
        }
    }

    fn update(&mut self, entity: &mut Entity)
        ensures
            final(self).lock_ticks == old(self).lock_ticks,
            final(self).release_ms == old(self).release_ms,
            ({
                let s = *old(self);
                let e = *old(entity);
                let now = e.tick.now;
                match e.perception.tracking {
                    None => {
                        &&& final(self).consecutive_tracking == 0
                        &&& final(self).last_tracking_at == s.last_tracking_at
                        &&& *final(entity) == e
                    },
                    Some(obs) => {
                        let active = obs.motion == TrackingMotion::Tracking;
                        let run: u8 = if active {
                            (if s.consecutive_tracking < u8::MAX { s.consecutive_tracking + 1 } else { u8::MAX as int }) as u8
                        } else {
                            0
                        };
                        let last = if active { Some(now) } else { s.last_tracking_at };
                        &&& final(self).consecutive_tracking == run
                        &&& if run >= s.lock_ticks {
                            let since = match e.mind.attention {
                                Attention::Tracking { since } => since,
                                _ => now,
                            };
                            &&& final(self).last_tracking_at == last
                            &&& *final(entity) == with_attention(e, Attention::Tracking { since })
                        } else if e.mind.attention is Tracking && (match last {
                            Some(t) => sat_sub(now@, t@) >= s.release_ms,
                            None => true,
                        }) {
                            &&& final(self).last_tracking_at is None
                            &&& *final(entity) == with_attention(e, Attention::Unfocused)
                        } else {
                            &&& final(self).last_tracking_at == last
                            &&& *final(entity) == e
                        }
                    },
                }
            }),
            old(self).stepped(*final(self), *old(entity), *final(entity)),
    {
        let now = entity.tick.now;
        let obs = match entity.perception.tracking {
            Some(o) => o,
            None => {
                self.consecutive_tracking = 0;
                assert(old(self).stepped(*self, *old(entity), *entity));
                return;
            },
        };
        let active: bool = matches!(obs.motion, TrackingMotion::Tracking);
        if active {
            self.consecutive_tracking = if self.consecutive_tracking < u8::MAX {
                self.consecutive_tracking + 1
            } else {
                u8::MAX
            };
            self.last_tracking_at = Some(now);
        } else {
            self.consecutive_tracking = 0;
        }
        let currently_tracking: bool = matches!(entity.mind.attention, Attention::Tracking { .. });
        if self.consecutive_tracking >= self.lock_ticks {
            let since = match entity.mind.attention {
                Attention::Tracking { since } => since,
                _ => now,
            };
            entity.mind.attention = Attention::Tracking { since };
            assert(old(self).stepped(*self, *old(entity), *entity));
            return;
        }
        if currently_tracking {
            let elapsed: u64 = match self.last_tracking_at {
                Some(t) => now.saturating_duration_since(t),
                None => u64::MAX,
            };
            if elapsed >= self.release_ms {
                entity.mind.attention = Attention::Unfocused;
                self.last_tracking_at = None;
            }
        }
        assert(old(self).stepped(*self, *old(entity), *entity));
    }
}

/// Before the lock, a run of tracking ticks counts up and leaves attention
/// as it was: `j` ticks in, the run is `j`.
proof fn lemma_tracking_run(states: Seq<AttentionFromTracking>, befores: Seq<Entity>, afters: Seq<Entity>, j: int)
    requires
        states.len() == befores.len() + 1,
        afters.len() == befores.len(),
        forall|i: int| 0 <= i < befores.len() ==> (#[trigger] states[i]).stepped(states[i + 1], befores[i], afters[i]),
        forall|i: int| 0 <= i < befores.len() ==> ((#[trigger] befores[i]).perception.tracking matches Some(obs) && obs.motion == TrackingMotion::Tracking),
        forall|i: int| 0 <= i < befores.len() - 1 ==> (#[trigger] befores[i + 1]).mind.attention == afters[i].mind.attention,
        states[0].consecutive_tracking == 0,
        !(befores[0].mind.attention is Tracking),
        0 <= j < states[0].lock_ticks,
        j < befores.len(),
    ensures
        states[j].consecutive_tracking == j,
        states[j].lock_ticks == states[0].lock_ticks,
        befores[j].mind.attention == befores[0].mind.attention,
        forall|i: int| 0 <= i < j ==> (#[trigger] afters[i]).mind.attention == befores[0].mind.attention,
    decreases j,
{
    if j > 0 {
        lemma_tracking_run(states, befores, afters, j - 1);
        assert(states[j - 1].stepped(states[j], befores[j - 1], afters[j - 1]));
        assert(befores[j].mind.attention == afters[j - 1].mind.attention);
    }
}

/// A tracker starting from an empty run, fed only tracking observations,
/// locks attention exactly on the update that completes `lock_ticks`
/// consecutive tracking ticks: before it attention is left as it was, and
/// that update turns it to `Tracking` since that tick (between ticks nothing
/// else changes attention).
pub proof fn lemma_tracking_locks_after_k(states: Seq<AttentionFromTracking>, befores: Seq<Entity>, afters: Seq<Entity>)
    requires
        states.len() == befores.len() + 1,
        afters.len() == befores.len(),
        forall|i: int| 0 <= i < befores.len() ==> (#[trigger] states[i]).stepped(states[i + 1], befores[i], afters[i]),
        forall|i: int| 0 <= i < befores.len() ==> ((#[trigger] befores[i]).perception.tracking matches Some(obs) && obs.motion == TrackingMotion::Tracking),
        forall|i: int| 0 <= i < befores.len() - 1 ==> (#[trigger] befores[i + 1]).mind.attention == afters[i].mind.attention,
        states[0].consecutive_tracking == 0,
        !(befores[0].mind.attention is Tracking),
        1 <= states[0].lock_ticks,
        states[0].lock_ticks <= befores.len(),
    ensures
        forall|i: int| 0 <= i < states[0].lock_ticks - 1 ==> (#[trigger] afters[i]).mind.attention == befores[0].mind.attention,
        afters[states[0].lock_ticks - 1].mind.attention == (Attention::Tracking { since: befores[states[0].lock_ticks - 1].tick.now }),
{
    let k: int = states[0].lock_ticks - 1;
    lemma_tracking_run(states, befores, afters, k);
    assert(states[k].stepped(states[k + 1], befores[k], afters[k]));
}

} // verus!
