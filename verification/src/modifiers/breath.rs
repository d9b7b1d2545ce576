//! Breathing: a slow triangle-wave vertical offset on every facial feature,
//! scaled by `face.style.breath_depth_scale` and slowed while attention is
//! engaged.
use vstd::prelude::*;
use crate::clock::Instant;
use crate::director::{Field, ModifierMeta, Phase};
use crate::entity::Entity;
use crate::face::{Eye, Face, Mouth, Point, SCALE_DEFAULT};
use crate::mind::Attention;
use crate::modifier::Modifier;
use crate::modifiers::blink::sat_mul;

verus! {

/// Default full breath cycle, in ms.
pub const DEFAULT_CYCLE_MS: u64 = 6_000;
/// Default peak-to-peak amplitude, in pixels.
pub const DEFAULT_AMPLITUDE_PX: i32 = 2;
/// Numerator of the cycle stretch applied while attention is engaged.
pub const ENGAGED_BREATH_CYCLE_NUM: u64 = 5;
/// Denominator of the cycle stretch applied while attention is engaged.
pub const ENGAGED_BREATH_CYCLE_DEN: u64 = 3;

/// Slow rise-and-fall vertical offset on both eyes and the mouth.
#[derive(Debug, Clone, Copy)]
pub struct Breath {
    cycle_ms: u64,
    amplitude_px: i32,
    last_offset_px: i32,
}

/// Integer division rounding toward zero, for a positive divisor.
pub open spec fn trunc_div(n: int, d: int) -> int {
    if n >= 0 { n / d } else { -((-n) / d) }
}

/// `amplitude * scale / SCALE_DEFAULT`, rounded toward zero, as an `i32`.
pub open spec fn spec_scaled_amplitude(amplitude: i32, scale: u8) -> i32 {
    trunc_div(amplitude * scale, SCALE_DEFAULT as int) as i32
}

/// The triangle wave at `now`, in `[-a/2, a/2]` where `a` is the scaled
/// amplitude: over each cycle it rises linearly from `-a/2` in the first
/// half and falls back toward `-a/2` in the second (an odd cycle's extra
/// last millisecond holds the step before the bottom). Zero for a zero
/// cycle or amplitude.
pub open spec fn spec_offset_at(amplitude_px: i32, now_ms: u64, scale: u8, cycle_ms: u64) -> i32 {
    let a = spec_scaled_amplitude(amplitude_px, scale);
    if cycle_ms == 0 || a == 0 {
        0
    } else {
        let phase = now_ms % cycle_ms;
        let half = cycle_ms / 2;
        let ascending = phase < half;
        let raw: int = if ascending { phase as int } else { phase - half };
        let within: int = if !ascending && half >= 1 && raw >= half { half - 1 } else { raw };
        let progress = trunc_div(a * within, if half >= 1 { half as int } else { 1 });
        (if ascending { progress - trunc_div(a as int, 2) } else { trunc_div(a as int, 2) - progress }) as i32
    }
}

/// The breath period: the configured cycle, stretched by 5/3 (the product
/// saturating) while attention is engaged.
pub open spec fn spec_breath_cycle(cycle_ms: u64, attention: Attention) -> u64 {
    if attention == Attention::Unfocused {
        cycle_ms
    } else {
        (sat_mul(cycle_ms, ENGAGED_BREATH_CYCLE_NUM) / ENGAGED_BREATH_CYCLE_DEN) as u64
    }
}

/// `p` moved down by `delta` pixels (wrapping at the `i32` range).
pub open spec fn shifted(p: Point, delta: int) -> Point {
    Point { y: (p.y + delta) as i32, ..p }
}

/// Both eyes and the mouth moved vertically by `delta` pixels.
pub open spec fn features_shifted(e: Entity, delta: int) -> Entity {
    Entity {
        face: Face {
            left_eye: Eye { center: shifted(e.face.left_eye.center, delta), ..e.face.left_eye },
            right_eye: Eye { center: shifted(e.face.right_eye.center, delta), ..e.face.right_eye },
            mouth: Mouth { center: shifted(e.face.mouth.center, delta), ..e.face.mouth },
            ..e.face
        },
        ..e
    }
}

fn trunc_div_i128(n: i128, d: i128) -> (r: i128)
    requires
        0 < d,
        -0x10_0000_0000_0000_0000_0000_0000 < n < 0x10_0000_0000_0000_0000_0000_0000,
    ensures
        r == trunc_div(n as int, d as int),
{
    if n >= 0 {
        n / d
    } else {
        let m: i128 = -n;
        -(m / d)
    }
}

fn shift_y(p: Point, delta: i64) -> (r: Point)
    ensures
        r == shifted(p, delta as int),
{
    Point { x: p.x, y: (p.y as i128 + delta as i128) as i32 }
}

impl Breath {
    /// Cycle length, in ms.
    pub closed spec fn cycle(&self) -> u64 {
        self.cycle_ms
    }

    /// Peak-to-peak amplitude at the default depth, in pixels.
    pub closed spec fn amplitude(&self) -> i32 {
        self.amplitude_px
    }

    /// Offset applied on the previous tick.
    pub closed spec fn last_offset(&self) -> i32 {
        self.last_offset_px
    }

    /// Default breath: 6 s cycle, 2 px amplitude.
    pub fn new() -> (r: Self)
        ensures
            r.cycle() == DEFAULT_CYCLE_MS,
            r.amplitude() == DEFAULT_AMPLITUDE_PX,
            r.last_offset() == 0,
    {
        Self { cycle_ms: DEFAULT_CYCLE_MS, amplitude_px: DEFAULT_AMPLITUDE_PX, last_offset_px: 0 }
    }

    /// Custom cycle and baseline amplitude.
    pub fn with_params(cycle_ms: u64, amplitude_px: i32) -> (r: Self)
        ensures
            r.cycle() == cycle_ms,
            r.amplitude() == amplitude_px,
            r.last_offset() == 0,
    {
        Self { cycle_ms, amplitude_px, last_offset_px: 0 }
    }

    fn scaled_amplitude(&self, scale: u8) -> (r: i32)
        ensures
            r == spec_scaled_amplitude(self.amplitude_px, scale),
    {
        assert(-0x100_0000_0000 < self.amplitude_px * scale < 0x100_0000_0000) by (nonlinear_arith)
            requires
                -0x8000_0000 <= self.amplitude_px < 0x8000_0000,
                0 <= scale < 256,
        ;
        let n: i128 = self.amplitude_px as i128 * scale as i128;
        let q: i128 = trunc_div_i128(n, SCALE_DEFAULT as i128);
        q as i32
    }

    /// The offset at `now` for depth `scale` and period `cycle_ms`.
    pub fn offset_at(&self, now: Instant, scale: u8, cycle_ms: u64) -> (r: i32)
        ensures
            r == spec_offset_at(self.amplitude(), now@, scale, cycle_ms),
    {
        let amplitude: i32 = self.scaled_amplitude(scale);
        if cycle_ms == 0 || amplitude == 0 {
            return 0;
        }
        let phase: u64 = now.as_millis() % cycle_ms;
        let half: u64 = cycle_ms / 2;
        let ascending: bool = phase < half;
        let raw: u64 = if ascending { phase } else { phase - half };
        let within: u64 = if !ascending && half >= 1 && raw >= half { half - 1 } else { raw };
        let divisor: i128 = if half >= 1 { half as i128 } else { 1 };
        assert(raw <= half) by (nonlinear_arith)
            requires
                phase < cycle_ms,
                half == cycle_ms / 2,
                raw == (if phase < half { phase } else { (phase - half) as u64 }),
        ;
        assert(-0x10_0000_0000_0000_0000_0000_0000 < amplitude * within < 0x10_0000_0000_0000_0000_0000_0000) by (nonlinear_arith)
            requires
                -0x8000_0000 <= amplitude < 0x8000_0000,
                0 <= within < 0x1_0000_0000_0000_0000,
        ;
        let product: i128 = amplitude as i128 * within as i128;
        let progress: i128 = trunc_div_i128(product, divisor);
        let half_amp: i128 = trunc_div_i128(amplitude as i128, 2);
        let value: i128 = if ascending { progress - half_amp } else { half_amp - progress };
        value as i32
    }
}

impl Default for Breath {
    fn default() -> (r: Self)
        ensures
            r.cycle() == DEFAULT_CYCLE_MS,
            r.amplitude() == DEFAULT_AMPLITUDE_PX,
            r.last_offset() == 0,
    {
        Self::new()
    }
}

impl Breath {
    /// One update from entity `pre_entity` leaves the entity as
    /// `post_entity` and the modifier as `post_self`.
    pub open spec fn stepped(&self, post_self: Self, pre_entity: Entity, post_entity: Entity) -> bool {
        &&& (post_self.cycle() == self.cycle())
        &&& (post_self.amplitude() == self.amplitude())
        &&& (({
                let e = pre_entity;
                let cycle = spec_breath_cycle(self.cycle(), e.mind.attention);
                let target = spec_offset_at(self.amplitude(), e.tick.now@, e.face.style.breath_depth_scale, cycle);
                let delta = target - self.last_offset();
                if delta == 0 {
                    post_self.last_offset() == self.last_offset() && post_entity == e
                } else {
                    post_self.last_offset() == target && post_entity == features_shifted(e, delta)
                }
            }))
    }
}

impl Modifier for Breath {
    open spec fn obeys_modifier_spec(&self) -> bool {
        true
    }

    open spec fn declared_phase(&self) -> Phase {
        Phase::Expression
    }

    open spec fn declared_priority(&self) -> i8 {
        0i8
    }

    open spec fn declared_writes(&self) -> Seq<Field> {
        seq![Field::LeftEyeCenter, Field::RightEyeCenter, Field::MouthCenter]
    }

    open spec fn update_outcome(&self, before: Entity, after: Entity) -> bool {
        exists|n: Self| #[trigger] self.stepped(n, before, after)
    }

    fn meta(&self) -> (r: ModifierMeta)
        ensures
            r.name@ == "Breath"@,
            r.description@ == "Slow rise-and-fall vertical offset on every facial feature, evoking \
                          breathing. Scaled by face.style.breath_depth_scale."@,
            r.phase == Phase::Expression,
            r.priority == 0,
            r.reads@ == seq![Field::BreathDepthScale, Field::Attention, Field::LeftEyeCenter, Field::RightEyeCenter, Field::MouthCenter],
            r.writes@ == seq![Field::LeftEyeCenter, Field::RightEyeCenter, Field::MouthCenter],
    {
        ModifierMeta {
            name: "Breath",
            description: "Slow rise-and-fall vertical offset on every facial feature, evoking \
                          breathing. Scaled by face.style.breath_depth_scale.",
            phase: Phase::Expression,
            priority: 0,
            reads: vec![Field::BreathDepthScale, Field::Attention, Field::LeftEyeCenter, Field::RightEyeCenter, Field::MouthCenter],
            writes: vec![Field::LeftEyeCenter, Field::RightEyeCenter, Field::MouthCenter],
        }
    }

    fn update(&mut self, entity: &mut Entity)
        ensures
            final(self).cycle() == old(self).cycle(),
            final(self).amplitude() == old(self).amplitude(),
            ({
                let e = *old(entity);
                let cycle = spec_breath_cycle(old(self).cycle(), e.mind.attention);
                let target = spec_offset_at(old(self).amplitude(), e.tick.now@, e.face.style.breath_depth_scale, cycle);
                let delta = target - old(self).last_offset();
                if delta == 0 {
                    final(self).last_offset() == old(self).last_offset() && *final(entity) == e
                } else {
                    final(self).last_offset() == target && *final(entity) == features_shifted(e, delta)
                }
            }),
            old(self).stepped(*final(self), *old(entity), *final(entity)),
    {
        let cycle_ms: u64 = if matches!(entity.mind.attention, Attention::Unfocused) {
            self.cycle_ms
        } else {
            let stretched: u64 = if self.cycle_ms <= u64::MAX / ENGAGED_BREATH_CYCLE_NUM {
                self.cycle_ms * ENGAGED_BREATH_CYCLE_NUM
            } else {
                u64::MAX
            };
            stretched / ENGAGED_BREATH_CYCLE_DEN
        };
        let target: i32 = self.offset_at(entity.tick.now, entity.face.style.breath_depth_scale, cycle_ms);
        let delta: i64 = target as i64 - self.last_offset_px as i64;
        if delta == 0 {
            assert(old(self).stepped(*self, *old(entity), *entity));
            return;
        }
        entity.face.left_eye.center = shift_y(entity.face.left_eye.center, delta);
        entity.face.right_eye.center = shift_y(entity.face.right_eye.center, delta);
        entity.face.mouth.center = shift_y(entity.face.mouth.center, delta);
        self.last_offset_px = target;
        assert(old(self).stepped(*self, *old(entity), *entity));
    }
}

/// The breath offset stays within half the scaled amplitude: every offset
/// lies in `[-a/2, a/2]` (`a/2` rounded toward zero) for a non-negative
/// scaled amplitude `a`, and the wave repeats every cycle.
pub proof fn lemma_offset_within_amplitude(amplitude_px: i32, now_ms: u64, scale: u8, cycle_ms: u64)
    requires
        spec_scaled_amplitude(amplitude_px, scale) >= 0,
    ensures
        ({
            let a = spec_scaled_amplitude(amplitude_px, scale) as int;
            let o = spec_offset_at(amplitude_px, now_ms, scale, cycle_ms) as int;
            -(a / 2) <= o <= a / 2
        }),
        now_ms + cycle_ms <= u64::MAX ==> spec_offset_at(amplitude_px, (now_ms + cycle_ms) as u64, scale, cycle_ms)
            == spec_offset_at(amplitude_px, now_ms, scale, cycle_ms),
{
    let a = spec_scaled_amplitude(amplitude_px, scale) as int;
    if cycle_ms != 0 && now_ms + cycle_ms <= u64::MAX {
        vstd::arithmetic::div_mod::lemma_mod_add_multiples_vanish(now_ms as int, cycle_ms as int);
        assert(((now_ms + cycle_ms) as u64) % cycle_ms == now_ms % cycle_ms);
    }
    if cycle_ms != 0 && a != 0 {
        let phase = now_ms % cycle_ms;
        let half = cycle_ms / 2;
        let ascending = phase < half;
        let raw: int = if ascending { phase as int } else { phase - half };
        let within: int = if !ascending && half >= 1 && raw >= half { half - 1 } else { raw };
        let d: int = if half >= 1 { half as int } else { 1 };
        assert(0 <= raw <= half) by (nonlinear_arith)
            requires
                phase < cycle_ms,
                half == cycle_ms / 2,
                raw == (if phase < half { phase as int } else { phase - half }),
        ;
        assert(half == 0 ==> raw == 0) by (nonlinear_arith)
            requires
                phase < cycle_ms,
                half == cycle_ms / 2,
                raw == (if phase < half { phase as int } else { phase - half }),
        ;
        assert(ascending ==> within < d);
        assert(0 <= within <= d);
        assert(0 <= a * within) by (nonlinear_arith)
            requires
                a >= 0,
                within >= 0,
        ;
        let p = trunc_div(a * within, d);
        assert(p == (a * within) / d);
        assert(trunc_div(a, 2) == a / 2);
        if within < d {
            assert(a * within <= a * (d - 1)) by (nonlinear_arith)
                requires
                    a >= 0,
                    0 <= within <= d - 1,
            ;
            assert((a * within) / d <= a - 1) by (nonlinear_arith)
                requires
                    0 <= a * within <= a * (d - 1),
                    d >= 1,
                    a >= 1,
            ;
        } else {
            assert(d == 1 || !ascending);
            assert(within == 0 || half == 0 || within == d);
            assert(half == 0 ==> d == 1 && within == 0);
            assert(within == d ==> half == 0) by {
                if half >= 1 && !ascending {
                    assert(within <= half - 1);
                }
            }
        }
        assert(0 <= (a * within) / d <= a) by (nonlinear_arith)
            requires
                0 <= within <= d,
                d >= 1,
                a >= 0,
        ;
    }
}

/// Breathing never drifts: shifting the features by one tick's delta and
/// then the next adds up to a single shift by their sum, so after any run of
/// ticks the features sit exactly the last offset away from where they
/// started (for positions that stay inside the `i32` range).
pub proof fn lemma_shifts_compose(e: Entity, d1: int, d2: int)
    requires
        i32::MIN <= e.face.left_eye.center.y + d1 <= i32::MAX,
        i32::MIN <= e.face.right_eye.center.y + d1 <= i32::MAX,
        i32::MIN <= e.face.mouth.center.y + d1 <= i32::MAX,
    ensures
        features_shifted(features_shifted(e, d1), d2) == features_shifted(e, d1 + d2),
{
}

} // verus!
