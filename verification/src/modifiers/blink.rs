//! Drives both eyes through open → closed → open cycles, at a cadence scaled
//! by `face.style.blink_rate_scale` (0 suppresses blinking).
use vstd::prelude::*;
use crate::clock::{sat_sub, Instant};
use crate::director::{Field, ModifierMeta, Phase};
use crate::entity::Entity;
use crate::face::{Eye, EyePhase, Face, SCALE_DEFAULT};
use crate::modifier::Modifier;

verus! {

/// Default time the eyes stay open between blinks, in ms.
pub const DEFAULT_OPEN_MS: u64 = 5_200;
/// Default duration of a blink (eyes closed), in ms.
pub const DEFAULT_CLOSED_MS: u64 = 180;

/// Blink phase, each recording the instant it began.
#[derive(Debug, Clone, Copy, PartialEq, Eq, Structural)]
pub enum BlinkState {
    /// Before the first update.
    Uninitialized,
    /// Eyes open since `phase_start`.
    Open {
        /// When the phase began.
        phase_start: Instant,
    },
    /// Eyes closed since `phase_start`.
    Closed {
        /// When the phase began.
        phase_start: Instant,
    },
    /// Rate scale is 0: blinking suppressed until it turns non-zero.
    Suppressed,
}

/// Periodically closes both eyes for a short duration.
#[derive(Debug, Clone, Copy)]
pub struct Blink {
    open_ms: u64,
    closed_ms: u64,
    state: BlinkState,
}

/// `a * b`, saturating at `u64::MAX`.
pub open spec fn sat_mul(a: u64, b: u64) -> u64 {
    if a * b <= u64::MAX { (a * b) as u64 } else { u64::MAX }
}

/// The open duration at rate `scale`: `open_ms * SCALE_DEFAULT / scale`
/// (the product saturating), and `open_ms` itself for a zero scale.
pub open spec fn spec_scaled_open_ms(open_ms: u64, scale: u8) -> u64 {
    if scale == 0 { open_ms } else { (sat_mul(open_ms, SCALE_DEFAULT as u64) / (scale as u64)) as u64 }
}

/// Both eyes open, each at its own `open_weight`.
pub open spec fn eyes_opened(e: Entity) -> Entity {
    Entity {
        face: Face {
            left_eye: Eye { phase: EyePhase::Open, weight: e.face.left_eye.open_weight, ..e.face.left_eye },
            right_eye: Eye { phase: EyePhase::Open, weight: e.face.right_eye.open_weight, ..e.face.right_eye },
            ..e.face
        },
        ..e
    }
}

/// Both eyes closed, at weight 0.
pub open spec fn eyes_closed(e: Entity) -> Entity {
    Entity {
        face: Face {
            left_eye: Eye { phase: EyePhase::Closed, weight: 0, ..e.face.left_eye },
            right_eye: Eye { phase: EyePhase::Closed, weight: 0, ..e.face.right_eye },
            ..e.face
        },
        ..e
    }
}

fn open_both_eyes(entity: &mut Entity)
    ensures
        *final(entity) == eyes_opened(*old(entity)),
{
    entity.face.left_eye.phase = EyePhase::Open;
    entity.face.left_eye.weight = entity.face.left_eye.open_weight;
    entity.face.right_eye.phase = EyePhase::Open;
    entity.face.right_eye.weight = entity.face.right_eye.open_weight;
}

fn close_both_eyes(entity: &mut Entity)
    ensures
        *final(entity) == eyes_closed(*old(entity)),
{
    entity.face.left_eye.phase = EyePhase::Closed;
    entity.face.left_eye.weight = 0;
    entity.face.right_eye.phase = EyePhase::Closed;
    entity.face.right_eye.weight = 0;
}

impl Blink {
    /// Baseline open duration, in ms.
    pub closed spec fn open_duration(&self) -> u64 {
        self.open_ms
    }

    /// Closed duration, in ms.
    pub closed spec fn closed_duration(&self) -> u64 {
        self.closed_ms
    }

    /// Current phase.
    pub closed spec fn state(&self) -> BlinkState {
        self.state
    }

    /// Default timing: about 5.2 s open, 180 ms closed.
    pub fn new() -> (r: Self)
        ensures
            r.open_duration() == DEFAULT_OPEN_MS,
            r.closed_duration() == DEFAULT_CLOSED_MS,
            r.state() == BlinkState::Uninitialized,
    {
        Self { open_ms: DEFAULT_OPEN_MS, closed_ms: DEFAULT_CLOSED_MS, state: BlinkState::Uninitialized }
    }

    /// Custom timing, in ms.
    pub fn with_timing(open_ms: u64, closed_ms: u64) -> (r: Self)
        ensures
            r.open_duration() == open_ms,
            r.closed_duration() == closed_ms,
            r.state() == BlinkState::Uninitialized,
    {
        Self { open_ms, closed_ms, state: BlinkState::Uninitialized }
    }

    fn scaled_open_ms(&self, scale: u8) -> (r: u64)
        ensures
            r == spec_scaled_open_ms(self.open_ms, scale),
    {
        let factor: u64 = SCALE_DEFAULT as u64;
        let product: u64 = if self.open_ms <= u64::MAX / factor {
            self.open_ms * factor
        } else {
            u64::MAX
        };
        if scale == 0 {
            self.open_ms
        } else {
            product / (scale as u64)
        }
    }
}

impl Default for Blink {
    fn default() -> (r: Self)
        ensures
            r.open_duration() == DEFAULT_OPEN_MS,
            r.closed_duration() == DEFAULT_CLOSED_MS,
            r.state() == BlinkState::Uninitialized,
    {
        Self::new()
    }
}

impl Blink {
    /// One update from entity `pre_entity` leaves the entity as
    /// `post_entity` and the modifier as `post_self`.
    pub open spec fn stepped(&self, post_self: Self, pre_entity: Entity, post_entity: Entity) -> bool {
        &&& (post_self.open_duration() == self.open_duration())
        &&& (post_self.closed_duration() == self.closed_duration())
        &&& (({
                let e = pre_entity;
                let now = e.tick.now;
                let rate = e.face.style.blink_rate_scale;
                let open_for = spec_scaled_open_ms(self.open_duration(), rate);
                if rate == 0 {
                    post_self.state() == BlinkState::Suppressed && post_entity == eyes_opened(e)
                } else {
                    match self.state() {
                        BlinkState::Uninitialized | BlinkState::Suppressed =>
                            post_self.state() == (BlinkState::Open { phase_start: now })
                                && post_entity == eyes_opened(e),
                        BlinkState::Open { phase_start } =>
                            if sat_sub(now@, phase_start@) >= open_for {
                                post_self.state() == (BlinkState::Closed { phase_start: now })
                                    && post_entity == eyes_closed(e)
                            } else {
                                post_self.state() == self.state() && post_entity == e
                            },
                        BlinkState::Closed { phase_start } =>
                            if sat_sub(now@, phase_start@) >= self.closed_duration() {
                                post_self.state() == (BlinkState::Open { phase_start: now })
                                    && post_entity == eyes_opened(e)
                            } else {
                                post_self.state() == self.state() && post_entity == e
                            },
                    }
                }
            }))
    }
}

impl Modifier for Blink {
    open spec fn obeys_modifier_spec(&self) -> bool {
        true
    }

    open spec fn declared_phase(&self) -> Phase {
        Phase::Expression
    }

    open spec fn declared_priority(&self) -> i8 {
        0i8
    }

    open spec fn declared_writes(&self) -> Seq<Field> {
        seq![Field::LeftEyePhase, Field::LeftEyeWeight, Field::RightEyePhase, Field::RightEyeWeight]
    }

    open spec fn update_outcome(&self, before: Entity, after: Entity) -> bool {
        exists|n: Self| #[trigger] self.stepped(n, before, after)
    }

    fn meta(&self) -> (r: ModifierMeta)
        ensures
            r.name@ == "Blink"@,
            r.description@ == "Drives both eyes through open→closed→open cycles. Reads \
                          face.style.blink_rate_scale for cadence (0 = blinks suppressed) \
                          and Eye::open_weight for the open-amplitude bound."@,
            r.phase == Phase::Expression,
            r.priority == 0,
            r.reads@ == seq![Field::BlinkRateScale, Field::LeftEyeOpenWeight, Field::RightEyeOpenWeight],
            r.writes@ == seq![Field::LeftEyePhase, Field::LeftEyeWeight, Field::RightEyePhase, Field::RightEyeWeight],
    {
        ModifierMeta {
            name: "Blink",
            description: "Drives both eyes through open→closed→open cycles. Reads \
                          face.style.blink_rate_scale for cadence (0 = blinks suppressed) \
                          and Eye::open_weight for the open-amplitude bound.",
            phase: Phase::Expression,
            priority: 0,
            reads: vec![Field::BlinkRateScale, Field::LeftEyeOpenWeight, Field::RightEyeOpenWeight],
            writes: vec![Field::LeftEyePhase, Field::LeftEyeWeight, Field::RightEyePhase, Field::RightEyeWeight],
        }
    }

    fn update(&mut self, entity: &mut Entity)
        ensures
            final(self).open_duration() == old(self).open_duration(),
            final(self).closed_duration() == old(self).closed_duration(),
            ({
                let e = *old(entity);
                let now = e.tick.now;
                let rate = e.face.style.blink_rate_scale;
                let open_for = spec_scaled_open_ms(old(self).open_duration(), rate);
                if rate == 0 {
                    final(self).state() == BlinkState::Suppressed && *final(entity) == eyes_opened(e)
                } else {
                    match old(self).state() {
                        BlinkState::Uninitialized | BlinkState::Suppressed =>
                            final(self).state() == (BlinkState::Open { phase_start: now })
                                && *final(entity) == eyes_opened(e),
                        BlinkState::Open { phase_start } =>
                            if sat_sub(now@, phase_start@) >= open_for {
                                final(self).state() == (BlinkState::Closed { phase_start: now })
                                    && *final(entity) == eyes_closed(e)
                            } else {
                                final(self).state() == old(self).state() && *final(entity) == e
                            },
                        BlinkState::Closed { phase_start } =>
                            if sat_sub(now@, phase_start@) >= old(self).closed_duration() {
                                final(self).state() == (BlinkState::Open { phase_start: now })
                                    && *final(entity) == eyes_opened(e)
                            } else {
                                final(self).state() == old(self).state() && *final(entity) == e
                            },
                    }
                }
            }),
            old(self).stepped(*final(self), *old(entity), *final(entity)),
    {
        let now = entity.tick.now;
        let rate = entity.face.style.blink_rate_scale;
        if rate == 0 {
            self.state = BlinkState::Suppressed;
            open_both_eyes(entity);
            assert(old(self).stepped(*self, *old(entity), *entity));
            return;
        }
        let open_ms = self.scaled_open_ms(rate);
        match self.state {
            BlinkState::Uninitialized | BlinkState::Suppressed => {
                self.state = BlinkState::Open { phase_start: now };
                open_both_eyes(entity);
            },
            BlinkState::Open { phase_start } => {
                let elapsed: u64 = now.saturating_duration_since(phase_start);
                if elapsed >= open_ms {
                    self.state = BlinkState::Closed { phase_start: now };
                    close_both_eyes(entity);
                }
            },
            BlinkState::Closed { phase_start } => {
                let elapsed: u64 = now.saturating_duration_since(phase_start);
                if elapsed >= self.closed_ms {
                    self.state = BlinkState::Open { phase_start: now };
                    open_both_eyes(entity);
                }
            },
        }
        assert(old(self).stepped(*self, *old(entity), *entity));
    }
}

/// A higher blink rate never lengthens the open window: for any baseline,
/// the scaled open duration is antitone in the rate scale (over non-zero
/// scales).
pub proof fn lemma_faster_rate_shorter_open(open_ms: u64, slow: u8, fast: u8)
    requires
        0 < slow <= fast,
    ensures
        spec_scaled_open_ms(open_ms, fast) <= spec_scaled_open_ms(open_ms, slow),
{
    let p = sat_mul(open_ms, SCALE_DEFAULT as u64) as int;
    assert(p / (fast as int) <= p / (slow as int)) by (nonlinear_arith)
        requires
            p >= 0,
            0 < slow <= fast,
    {
        vstd::arithmetic::div_mod::lemma_div_is_ordered_by_denominator(p, slow as int, fast as int);
    }
}

/// At the default rate the open window is exactly the baseline.
pub proof fn lemma_default_rate_keeps_baseline(open_ms: u64)
    requires
        open_ms * (SCALE_DEFAULT as u64) <= u64::MAX,
    ensures
        spec_scaled_open_ms(open_ms, SCALE_DEFAULT) == open_ms,
{
    assert((open_ms * 128) / 128 == open_ms) by (nonlinear_arith);
}

/// A blink is determined by its timing and phase: two with the same
/// durations and phase are the same modifier. So [`Blink::new`],
/// [`Blink::default`] and `Blink::with_timing(5_200, 180)` build one and the
/// same blink, and update alike.
pub proof fn lemma_blink_determined(a: Blink, b: Blink)
    requires
        a.open_duration() == b.open_duration(),
        a.closed_duration() == b.closed_duration(),
        a.state() == b.state(),
    ensures
        a == b,
{
}

} // verus!
