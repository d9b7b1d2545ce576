//! Autonomous demo rotation: cycles `mind.affect.emotion` through a fixed
//! sequence on a dwell timer, standing down while a manual hold is active.
use vstd::prelude::*;
use crate::clock::{after, sat_sub, Instant};
use crate::director::{Field, ModifierMeta, Phase};
use crate::emotion::Emotion;
use crate::entity::Entity;
use crate::mind::{Affect, Mind};
use crate::modifier::Modifier;

verus! {

/// Default dwell time per emotion, in ms.
pub const DEFAULT_DWELL_MS: u64 = 4_000;

/// Rotates `mind.affect.emotion` through a fixed sequence, dwelling on each
/// emotion for `dwell_ms`.
#[derive(Debug)]
pub struct EmotionCycle {
    sequence: &'static [Emotion],
    dwell_ms: u64,
    index: usize,
    started_at: Option<Instant>,
}

/// `e` with its emotion replaced by `emotion`.
pub open spec fn with_emotion(e: Entity, emotion: Emotion) -> Entity {
    Entity { mind: Mind { affect: Affect { emotion }, ..e.mind }, ..e }
}

impl EmotionCycle {
    /// Default demo rotation: neutral → happy → sleepy → surprised → sad.
    pub const DEFAULT_SEQUENCE: &'static [Emotion; 5] = &[
        Emotion::Neutral,
        Emotion::Happy,
        Emotion::Sleepy,
        Emotion::Surprised,
        Emotion::Sad,
    ];

    /// The index stays inside a non-empty sequence, and before the first
    /// dwell starts the cycle sits at the start of the sequence.
    #[verifier::type_invariant]
    closed spec fn index_in_range(self) -> bool {
        &&& self.sequence@.len() == 0 || self.index < self.sequence@.len()
        &&& self.started_at is None ==> self.index == 0
    }

    /// The emotion the cycle is dwelling on, or `None` for an empty sequence.
    pub open spec fn spec_current(&self) -> Option<Emotion> {
        if self.emotions().len() == 0 { None } else { Some(self.emotions()[self.position() as int]) }
    }

    /// The emotions cycled through, in order.
    pub closed spec fn emotions(&self) -> Seq<Emotion> {
        self.sequence@
    }

    /// Dwell time per emotion, in ms.
    pub closed spec fn dwell(&self) -> u64 {
        self.dwell_ms
    }

    /// Position of the current emotion in the sequence.
    pub closed spec fn position(&self) -> usize {
        self.index
    }

    /// When the current dwell began; `None` before the first tick.
    pub closed spec fn anchor(&self) -> Option<Instant> {
        self.started_at
    }

    /// A cycle over the default sequence with a 4 s dwell.
    pub fn new() -> (r: Self)
        ensures
            r.emotions() == Self::DEFAULT_SEQUENCE@,
            r.dwell() == DEFAULT_DWELL_MS,
            r.position() == 0,
            r.anchor() is None,
    {
        let s: &'static [Emotion] = Self::DEFAULT_SEQUENCE.as_slice();
        Self::with_params(s, DEFAULT_DWELL_MS)
    }

    /// A cycle over `sequence` with the given dwell. An empty sequence, or a
    /// zero dwell, leaves the emotion untouched.
    pub fn with_params(sequence: &'static [Emotion], dwell_ms: u64) -> (r: Self)
        ensures
            r.emotions() == sequence@,
            r.dwell() == dwell_ms,
            r.position() == 0,
            r.anchor() is None,
    {
        Self { sequence, dwell_ms, index: 0, started_at: None }
    }

    /// The emotion the cycle is dwelling on, or `None` for an empty sequence.
    pub fn current(&self) -> (r: Option<Emotion>)
        ensures
            r == self.spec_current(),
    {
        proof {
            use_type_invariant(self);
        }
        if self.index < self.sequence.len() {
            Some(self.sequence[self.index])
        } else {
            None
        }
    }
}

impl Default for EmotionCycle {
    fn default() -> (r: Self)
        ensures
            r.emotions() == Self::DEFAULT_SEQUENCE@,
            r.dwell() == DEFAULT_DWELL_MS,
            r.position() == 0,
            r.anchor() is None,
    {
        Self::new()
    }
}

impl EmotionCycle {
    /// One update from entity `pre_entity` leaves the entity as
    /// `post_entity` and the modifier as `post_self`.
    pub open spec fn stepped(&self, post_self: Self, pre_entity: Entity, post_entity: Entity) -> bool {
        &&& (post_self.emotions() == self.emotions())
        &&& (post_self.dwell() == self.dwell())
        &&& (({
                let s = self;
                let e = pre_entity;
                let now = e.tick.now;
                let seq = s.emotions();
                let len = seq.len();
                let dwell = s.dwell();
                if len == 0 || dwell == 0 {
                    &&& post_self.position() == s.position()
                    &&& post_self.anchor() == s.anchor()
                    &&& post_entity == e
                } else if e.mind.autonomy.manual_until matches Some(until) && now@ < until@ {
                    &&& post_self.position() == s.position()
                    &&& post_self.anchor() == Some(now)
                    &&& post_entity == e
                } else {
                    match s.anchor() {
                        None => {
                            &&& post_self.position() == s.position()
                            &&& post_self.anchor() == Some(now)
                            &&& post_entity == with_emotion(e, seq[0])
                        },
                        Some(start) => {
                            let steps = sat_sub(now@, start@) / dwell;
                            let next = (s.position() + steps) % (len as int);
                            if steps == 0 {
                                &&& post_self.position() == s.position()
                                &&& post_self.anchor() == s.anchor()
                                &&& post_entity == e
                            } else {
                                &&& post_self.position() == next
                                &&& post_self.anchor() == Some(after(start, (steps * dwell) as u64))
                                &&& post_entity == (if next != s.position() { with_emotion(e, seq[next]) } else { e })
                            }
                        },
                    }
                }
            }))
    }
}

impl Modifier for EmotionCycle {
    open spec fn obeys_modifier_spec(&self) -> bool {
        true
    }

    open spec fn declared_phase(&self) -> Phase {
        Phase::Affect
    }

    open spec fn declared_priority(&self) -> i8 {
        100i8
    }

    open spec fn declared_writes(&self) -> Seq<Field> {
        seq![Field::Emotion]
    }

    open spec fn update_outcome(&self, before: Entity, after: Entity) -> bool {
        exists|n: Self| #[trigger] self.stepped(n, before, after)
    }

    fn meta(&self) -> (r: ModifierMeta)
        ensures
            r.name@ == "EmotionCycle"@,
            r.description@ == "Autonomous demo: cycles mind.affect.emotion through a fixed sequence on \
                          a dwell timer. Stands down while mind.autonomy.manual_until holds."@,
            r.phase == Phase::Affect,
            r.priority == 100,
            r.reads@ == seq![Field::Autonomy, Field::Emotion],
            r.writes@ == seq![Field::Emotion],
    {
        ModifierMeta {
            name: "EmotionCycle",
            description: "Autonomous demo: cycles mind.affect.emotion through a fixed sequence on \
                          a dwell timer. Stands down while mind.autonomy.manual_until holds.",
            phase: Phase::Affect,
            priority: 100,
            reads: vec![Field::Autonomy, Field::Emotion],
            writes: vec![Field::Emotion],
        }
    }

    fn update(&mut self, entity: &mut Entity)
        ensures
            final(self).emotions() == old(self).emotions(),
            final(self).dwell() == old(self).dwell(),
            ({
                let s = old(self);
                let e = *old(entity);
                let now = e.tick.now;
                let seq = s.emotions();
                let len = seq.len();
                let dwell = s.dwell();
                if len == 0 || dwell == 0 {
                    &&& final(self).position() == s.position()
                    &&& final(self).anchor() == s.anchor()
                    &&& *final(entity) == e
                } else if e.mind.autonomy.manual_until matches Some(until) && now@ < until@ {
                    &&& final(self).position() == s.position()
                    &&& final(self).anchor() == Some(now)
                    &&& *final(entity) == e
                } else {
                    match s.anchor() {
                        None => {
                            &&& final(self).position() == s.position()
                            &&& final(self).anchor() == Some(now)
                            &&& *final(entity) == with_emotion(e, seq[0])
                        },
                        Some(start) => {
                            let steps = sat_sub(now@, start@) / dwell;
                            let next = (s.position() + steps) % (len as int);
                            if steps == 0 {
                                &&& final(self).position() == s.position()
                                &&& final(self).anchor() == s.anchor()
                                &&& *final(entity) == e
                            } else {
                                &&& final(self).position() == next
                                &&& final(self).anchor() == Some(after(start, (steps * dwell) as u64))
                                &&& *final(entity) == (if next != s.position() { with_emotion(e, seq[next]) } else { e })
                            }
                        },
                    }
                }
            }),
            old(self).stepped(*final(self), *old(entity), *final(entity)),
            *final(entity) != *old(entity) ==> Some(final(entity).mind.affect.emotion) == final(self).spec_current(),
    {
        proof {
            use_type_invariant(&*self);
        }
        let now = entity.tick.now;
        let len: usize = self.sequence.len();
        if len == 0 || self.dwell_ms == 0 {
            assert(old(self).stepped(*self, *old(entity), *entity));
            return;
        }
        if let Some(until) = entity.mind.autonomy.manual_until {
            if now.as_millis() < until.as_millis() {
                self.started_at = Some(now);
                assert(old(self).stepped(*self, *old(entity), *entity));
                return;
            }
        }
        let start = match self.started_at {
            Some(s) => s,
            None => {
                self.started_at = Some(now);
                entity.mind.affect.emotion = self.sequence[0];
                assert(old(self).stepped(*self, *old(entity), *entity));
                return;
            },
        };
        let elapsed: u64 = now.saturating_duration_since(start);
        let dwell: u64 = self.dwell_ms;
        let steps: u64 = elapsed / dwell;
        if steps == 0 {
            assert(old(self).stepped(*self, *old(entity), *entity));
            return;
        }
        let wide: u128 = (self.index as u128 + steps as u128) % (len as u128);
        let new_index: usize = wide as usize;
        if new_index != self.index {
            self.index = new_index;
            entity.mind.affect.emotion = self.sequence[new_index];
        }
        assert(steps * dwell <= elapsed) by (nonlinear_arith)
            requires
                steps == elapsed / dwell,
                dwell > 0,
        ;
        let consumed: u64 = steps * dwell;
        self.started_at = Some(start.plus(consumed));
        assert(old(self).stepped(*self, *old(entity), *entity));
    }
}

} // verus!
