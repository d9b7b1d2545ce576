//! Small random vertical nudges of the mouth at random idle intervals, so a
//! long-quiet face does not read as a frozen mask.
use vstd::prelude::*;
use crate::clock::{after, Instant};
use crate::director::{Field, ModifierMeta, Phase};
use crate::entity::Entity;
use crate::face::{Face, Mouth, Point};
use crate::modifier::Modifier;
use crate::rng::{
    delay_from, delay_from_raw, lemma_xorshift32_nonzero, offset_from, offset_from_raw, xorshift32,
    xorshift32_next,
};

verus! {

/// Minimum interval between fires, in ms.
pub const DEFAULT_INTERVAL_MIN_MS: u64 = 2_000;
/// Maximum interval between fires, in ms.
pub const DEFAULT_INTERVAL_MAX_MS: u64 = 6_000;
/// Maximum vertical perturbation in either direction, in pixels.
pub const DEFAULT_MAX_MOUTH_Y_PX: i32 = 3;
/// Default generator seed, distinct from the other idle modifiers' seeds.
pub const DEFAULT_SEED: u32 = 0xCAFE_F00D;

/// Occasionally offsets `mouth.center.y` by a small random amount, undoing
/// the previous offset first so fires never accumulate.
#[derive(Debug, Clone, Copy)]
pub struct IdleMicroExpression {
    /// Lower bound on the random interval, in ms.
    pub interval_min_ms: u64,
    /// Upper bound on the random interval, in ms.
    pub interval_max_ms: u64,
    /// Maximum perturbation per fire, in pixels.
    pub max_mouth_y_px: i32,
    /// Generator state.
    pub rng_state: u32,
    /// When the next perturbation fires; `None` before the first tick.
    pub next_fire_at: Option<Instant>,
    /// The offset applied by the previous fire, in pixels.
    pub last_y_offset: i32,
}

/// The generator state after a draw for bound `max` (which draws only for a
/// positive bound).
pub open spec fn after_offset_draw(state: u32, max: i32) -> u32 {
    if max > 0 { xorshift32(state) } else { state }
}

/// The generator state after a delay draw over `[min, max]` (which draws
/// only for a non-degenerate window).
pub open spec fn after_delay_draw(state: u32, min: u64, max: u64) -> u32 {
    if max > min { xorshift32(state) } else { state }
}

/// `e` with the mouth moved to height `y`.
pub open spec fn mouth_at_y(e: Entity, y: i32) -> Entity {
    Entity {
        face: Face {
            mouth: Mouth { center: Point { y, ..e.face.mouth.center }, ..e.face.mouth },
            ..e.face
        },
        ..e
    }
}

impl IdleMicroExpression {
    /// Default timing and the default seed.
    pub fn new() -> (r: Self)
        ensures
            r.interval_min_ms == DEFAULT_INTERVAL_MIN_MS,
            r.interval_max_ms == DEFAULT_INTERVAL_MAX_MS,
            r.max_mouth_y_px == DEFAULT_MAX_MOUTH_Y_PX,
            r.rng_state == DEFAULT_SEED,
            r.next_fire_at is None,
            r.last_y_offset == 0,
    {
        Self::with_seed(DEFAULT_SEED)
    }

    /// Default timing with a custom, non-zero seed (a zero seed would stick
    /// the generator at zero).
    pub fn with_seed(seed: u32) -> (r: Self)
        requires
            seed != 0,
        ensures
            r.interval_min_ms == DEFAULT_INTERVAL_MIN_MS,
            r.interval_max_ms == DEFAULT_INTERVAL_MAX_MS,
            r.max_mouth_y_px == DEFAULT_MAX_MOUTH_Y_PX,
            r.rng_state == seed,
            r.next_fire_at is None,
            r.last_y_offset == 0,
    {
        Self {
            interval_min_ms: DEFAULT_INTERVAL_MIN_MS,
            interval_max_ms: DEFAULT_INTERVAL_MAX_MS,
            max_mouth_y_px: DEFAULT_MAX_MOUTH_Y_PX,
            rng_state: seed,
            next_fire_at: None,
            last_y_offset: 0,
        }
    }

    /// Advance the generator and return its next output.
    pub fn next_u32(&mut self) -> (r: u32)
        ensures
            r == xorshift32(old(self).rng_state),
            *final(self) == (Self { rng_state: r, ..*old(self) }),
    {
        let x: u32 = xorshift32_next(self.rng_state);
        self.rng_state = x;
        x
    }

    /// A signed offset in `[-max, max]`; 0, without drawing, for a
    /// non-positive `max`.
    pub fn rand_offset(&mut self, max: i32) -> (r: i32)
        ensures
            r == offset_from(xorshift32(old(self).rng_state), max),
            *final(self) == (Self { rng_state: after_offset_draw(old(self).rng_state, max), ..*old(self) }),
    {
        if max <= 0 {
            return 0;
        }
        let raw: u32 = self.next_u32();
        offset_from_raw(raw, max)
    }

    /// The next fire delay in `[interval_min_ms, interval_max_ms]`;
    /// `interval_min_ms`, without drawing, when the window is degenerate.
    pub fn next_delay_ms(&mut self) -> (r: u64)
        ensures
            r == delay_from(xorshift32(old(self).rng_state), old(self).interval_min_ms, old(self).interval_max_ms),
            *final(self) == (Self {
                rng_state: after_delay_draw(old(self).rng_state, old(self).interval_min_ms, old(self).interval_max_ms),
                ..*old(self)
            }),
    {
        if self.interval_max_ms <= self.interval_min_ms {
            return self.interval_min_ms;
        }
        let raw: u32 = self.next_u32();
        delay_from_raw(raw, self.interval_min_ms, self.interval_max_ms)
    }
}

impl Default for IdleMicroExpression {
    fn default() -> (r: Self)
        ensures
            r.interval_min_ms == DEFAULT_INTERVAL_MIN_MS,
            r.interval_max_ms == DEFAULT_INTERVAL_MAX_MS,
            r.max_mouth_y_px == DEFAULT_MAX_MOUTH_Y_PX,
            r.rng_state == DEFAULT_SEED,
            r.next_fire_at is None,
            r.last_y_offset == 0,
    {
        Self::new()
    }
}

impl IdleMicroExpression {
    /// One update from entity `pre_entity` leaves the entity as
    /// `post_entity` and the modifier as `post_self`.
    pub open spec fn stepped(&self, post_self: Self, pre_entity: Entity, post_entity: Entity) -> bool {
        &&& (post_self.interval_min_ms == self.interval_min_ms)
        &&& (post_self.interval_max_ms == self.interval_max_ms)
        &&& (post_self.max_mouth_y_px == self.max_mouth_y_px)
        &&& (({
                let s = *self;
                let e = pre_entity;
                let now = e.tick.now;
                let (lo, hi, max) = (s.interval_min_ms, s.interval_max_ms, s.max_mouth_y_px);
                match s.next_fire_at {
                    None => {
                        let delay = delay_from(xorshift32(s.rng_state), lo, hi);
                        &&& post_self.rng_state == after_delay_draw(s.rng_state, lo, hi)
                        &&& post_self.next_fire_at == Some(after(now, delay))
                        &&& post_self.last_y_offset == s.last_y_offset
                        &&& post_entity == e
                    },
                    Some(t) => if now@ < t@ {
                        &&& post_self.rng_state == s.rng_state
                        &&& post_self.next_fire_at == s.next_fire_at
                        &&& post_self.last_y_offset == s.last_y_offset
                        &&& post_entity == e
                    } else {
                        let dy = offset_from(xorshift32(s.rng_state), max);
                        let state1 = after_offset_draw(s.rng_state, max);
                        let delay = delay_from(xorshift32(state1), lo, hi);
                        &&& post_self.rng_state == after_delay_draw(state1, lo, hi)
                        &&& post_self.next_fire_at == Some(after(now, delay))
                        &&& post_self.last_y_offset == dy
                        &&& post_entity == mouth_at_y(e, (e.face.mouth.center.y - s.last_y_offset + dy) as i32)
                    },
                }
            }))
    }
}

impl Modifier for IdleMicroExpression {
    open spec fn obeys_modifier_spec(&self) -> bool {
        true
    }

    open spec fn declared_phase(&self) -> Phase {
        Phase::Expression
    }

    open spec fn declared_priority(&self) -> i8 {
        1i8
    }

    open spec fn declared_writes(&self) -> Seq<Field> {
        seq![Field::MouthCenter]
    }

    open spec fn update_outcome(&self, before: Entity, after: Entity) -> bool {
        exists|n: Self| #[trigger] self.stepped(n, before, after)
    }

    fn meta(&self) -> (r: ModifierMeta)
        ensures
            r.name@ == "IdleMicroExpression"@,
            r.description@ == "Random small vertical perturbation of mouth.center.y every 2-6 s; \
                          undoes its previous offset before each new fire so the mouth \
                          doesn't walk off the face."@,
            r.phase == Phase::Expression,
            r.priority == 1,
            r.reads@ == seq![Field::MouthCenter],
            r.writes@ == seq![Field::MouthCenter],
    {
        ModifierMeta {
            name: "IdleMicroExpression",
            description: "Random small vertical perturbation of mouth.center.y every 2-6 s; \
                          undoes its previous offset before each new fire so the mouth \
                          doesn't walk off the face.",
            phase: Phase::Expression,
            priority: 1,
            reads: vec![Field::MouthCenter],
            writes: vec![Field::MouthCenter],
        }
    }

    fn update(&mut self, entity: &mut Entity)
        ensures
            final(self).interval_min_ms == old(self).interval_min_ms,
            final(self).interval_max_ms == old(self).interval_max_ms,
            final(self).max_mouth_y_px == old(self).max_mouth_y_px,
            ({
                let s = *old(self);
                let e = *old(entity);
                let now = e.tick.now;
                let (lo, hi, max) = (s.interval_min_ms, s.interval_max_ms, s.max_mouth_y_px);
                match s.next_fire_at {
                    None => {
                        let delay = delay_from(xorshift32(s.rng_state), lo, hi);
                        &&& final(self).rng_state == after_delay_draw(s.rng_state, lo, hi)
                        &&& final(self).next_fire_at == Some(after(now, delay))
                        &&& final(self).last_y_offset == s.last_y_offset
                        &&& *final(entity) == e
                    },
                    Some(t) => if now@ < t@ {
                        &&& final(self).rng_state == s.rng_state
                        &&& final(self).next_fire_at == s.next_fire_at
                        &&& final(self).last_y_offset == s.last_y_offset
                        &&& *final(entity) == e
                    } else {
                        let dy = offset_from(xorshift32(s.rng_state), max);
                        let state1 = after_offset_draw(s.rng_state, max);
                        let delay = delay_from(xorshift32(state1), lo, hi);
                        &&& final(self).rng_state == after_delay_draw(state1, lo, hi)
                        &&& final(self).next_fire_at == Some(after(now, delay))
                        &&& final(self).last_y_offset == dy
                        &&& *final(entity) == mouth_at_y(e, (e.face.mouth.center.y - s.last_y_offset + dy) as i32)
                    },
                }
            }),
            old(self).stepped(*final(self), *old(entity), *final(entity)),
    {
        let now = entity.tick.now;
        match self.next_fire_at {
            None => {
                let delay: u64 = self.next_delay_ms();
                self.next_fire_at = Some(now.plus(delay));
                assert(old(self).stepped(*self, *old(entity), *entity));
                return;
            },
            Some(t) => {
                if now.as_millis() < t.as_millis() {
                    assert(old(self).stepped(*self, *old(entity), *entity));
                    return;
                }
            },
        }
        let dy: i32 = self.rand_offset(self.max_mouth_y_px);
        let y: i64 = entity.face.mouth.center.y as i64 - self.last_y_offset as i64 + dy as i64;
        entity.face.mouth.center.y = y as i32;
        self.last_y_offset = dy;
        let delay: u64 = self.next_delay_ms();
        self.next_fire_at = Some(now.plus(delay));
        assert(old(self).stepped(*self, *old(entity), *entity));
    }
}

/// A non-zero generator state stays non-zero through any update, so the
/// schedule keeps firing.
pub proof fn lemma_state_stays_nonzero(state: u32, max: i32, lo: u64, hi: u64)
    requires
        state != 0,
    ensures
        after_offset_draw(state, max) != 0,
        after_delay_draw(state, lo, hi) != 0,
        after_delay_draw(after_offset_draw(state, max), lo, hi) != 0,
{
    lemma_xorshift32_nonzero(state);
    lemma_xorshift32_nonzero(after_offset_draw(state, max));
}

} // verus!
