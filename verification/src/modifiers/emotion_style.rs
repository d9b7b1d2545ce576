//! Translates `mind.affect.emotion` into the face's style fields, easing
//! linearly between emotions so a change never snaps the face.
use vstd::prelude::*;
use crate::clock::{sat_sub, Instant};
use crate::director::{Field, ModifierMeta, Phase};
use crate::emotion::Emotion;
use crate::entity::Entity;
use crate::face::{Eye, Face, Mouth, Style, SCALE_DEFAULT};
use crate::modifier::Modifier;
use crate::modifiers::breath::trunc_div;

verus! {

/// Every style field an emotion influences.
#[derive(Debug, Clone, Copy, PartialEq, Eq, Structural)]
pub struct StyleTarget {
    /// Target eye curvature, -100..=100.
    pub eye_curve: i8,
    /// Target mouth curvature, -100..=100.
    pub mouth_curve: i8,
    /// Target cheek blush, 0..=255.
    pub cheek_blush: u8,
    /// Target eye scale, 128 = baseline.
    pub eye_scale: u8,
    /// Target blink-rate scale, 128 = baseline, 0 = suppressed.
    pub blink_rate_scale: u8,
    /// Target breath-depth scale, 128 = baseline.
    pub breath_depth_scale: u8,
    /// Target `open_weight` of both eyes, 0..=100.
    pub open_weight: u8,
    /// Target mouth weight, 0..=100.
    pub mouth_weight: u8,
}

/// The neutral look.
pub open spec fn neutral_target() -> StyleTarget {
    StyleTarget {
        eye_curve: 0,
        mouth_curve: 0,
        cheek_blush: 0,
        eye_scale: SCALE_DEFAULT,
        blink_rate_scale: SCALE_DEFAULT,
        breath_depth_scale: SCALE_DEFAULT,
        open_weight: 100,
        mouth_weight: 0,
    }
}

/// The look of each emotion. Happy: upward eye arc, smile and blush. Sad:
/// downward arc, frown, slow deep breath. Sleepy: droopy lids, very slow
/// blinks, deep breath. Surprised: wide eyes, no blinks, shallow breath,
/// open mouth. Every other emotion looks neutral.
pub open spec fn spec_targets_for(emotion: Emotion) -> StyleTarget {
    match emotion {
        Emotion::Happy => StyleTarget {
            eye_curve: 70,
            mouth_curve: 80,
            cheek_blush: 160,
            ..neutral_target()
        },
        Emotion::Sad => StyleTarget {
            eye_curve: -55i8,
            mouth_curve: -70i8,
            blink_rate_scale: 96,
            breath_depth_scale: 170,
            open_weight: 90,
            ..neutral_target()
        },
        Emotion::Sleepy => StyleTarget {
            blink_rate_scale: 48,
            breath_depth_scale: 200,
            open_weight: 55,
            ..neutral_target()
        },
        Emotion::Surprised => StyleTarget {
            eye_scale: 170,
            blink_rate_scale: 0,
            breath_depth_scale: 64,
            mouth_weight: 100,
            ..neutral_target()
        },
        _ => neutral_target(),
    }
}

/// Only Happy smiles and only Sad frowns: over every emotion, the mouth
/// and the eyes curve up exactly for Happy and down exactly for Sad, only
/// Happy blushes, and every curve stays within -100..=100. Only Surprised
/// widens the eyes, stops blinking and opens the mouth; only Sad and
/// Sleepy lower the lids and deepen the breath.
pub proof fn lemma_curves_follow_mood(emotion: Emotion)
    ensures
        spec_targets_for(emotion).mouth_curve > 0 <==> emotion == Emotion::Happy,
        spec_targets_for(emotion).mouth_curve < 0 <==> emotion == Emotion::Sad,
        spec_targets_for(emotion).eye_curve > 0 <==> emotion == Emotion::Happy,
        spec_targets_for(emotion).eye_curve < 0 <==> emotion == Emotion::Sad,
        spec_targets_for(emotion).cheek_blush > 0 <==> emotion == Emotion::Happy,
        -100 <= spec_targets_for(emotion).mouth_curve <= 100,
        -100 <= spec_targets_for(emotion).eye_curve <= 100,
        spec_targets_for(emotion).eye_scale > SCALE_DEFAULT <==> emotion == Emotion::Surprised,
        spec_targets_for(emotion).blink_rate_scale == 0 <==> emotion == Emotion::Surprised,
        spec_targets_for(emotion).mouth_weight > 0 <==> emotion == Emotion::Surprised,
        spec_targets_for(emotion).open_weight < 100 <==> (emotion == Emotion::Sad || emotion == Emotion::Sleepy),
        spec_targets_for(emotion).breath_depth_scale > SCALE_DEFAULT <==> (emotion == Emotion::Sad || emotion == Emotion::Sleepy),
{
}

/// The style target of `emotion`.
pub fn targets_for(emotion: Emotion) -> (r: StyleTarget)
    ensures
        r == spec_targets_for(emotion),
{
    let neutral = StyleTarget {
        eye_curve: 0,
        mouth_curve: 0,
        cheek_blush: 0,
        eye_scale: SCALE_DEFAULT,
        blink_rate_scale: SCALE_DEFAULT,
        breath_depth_scale: SCALE_DEFAULT,
        open_weight: 100,
        mouth_weight: 0,
    };
    match emotion {
        Emotion::Happy => StyleTarget { eye_curve: 70, mouth_curve: 80, cheek_blush: 160, ..neutral },
        Emotion::Sad => StyleTarget {
            eye_curve: -55,
            mouth_curve: -70,
            blink_rate_scale: 96,
            breath_depth_scale: 170,
            open_weight: 90,
            ..neutral
        },
        Emotion::Sleepy => StyleTarget { blink_rate_scale: 48, breath_depth_scale: 200, open_weight: 55, ..neutral },
        Emotion::Surprised => StyleTarget {
            eye_scale: 170,
            blink_rate_scale: 0,
            breath_depth_scale: 64,
            mouth_weight: 100,
            ..neutral
        },
        _ => neutral,
    }
}

/// Linear ease from `from` to `to`: `to` once `elapsed_ms` reaches
/// `duration_ms` (or for a zero duration); otherwise
/// `from + (to - from) * elapsed / duration`, the quotient rounded toward
/// zero. The elapsed time is capped at `i64::MAX`, and a duration beyond
/// `i64::MAX` divides by one; results wrap at the `i32` range.
pub open spec fn spec_ease(from: i32, to: i32, elapsed_ms: u64, duration_ms: u64) -> i32 {
    if duration_ms == 0 || elapsed_ms >= duration_ms {
        to
    } else {
        let e: int = if elapsed_ms <= i64::MAX { elapsed_ms as int } else { i64::MAX as int };
        let d: int = if duration_ms <= i64::MAX { duration_ms as int } else { 1 };
        (from + (trunc_div((to - from) * e, d) as i32)) as i32
    }
}

/// Linearly ease an `i32` from `from` to `to` over `duration_ms`, given
/// `elapsed_ms` since the transition began.
pub fn ease(from: i32, to: i32, elapsed_ms: u64, duration_ms: u64) -> (r: i32)
    ensures
        r == spec_ease(from, to, elapsed_ms, duration_ms),
{
    if duration_ms == 0 || elapsed_ms >= duration_ms {
        return to;
    }
    let span: i128 = to as i128 - from as i128;
    let e: i128 = if elapsed_ms <= i64::MAX as u64 { elapsed_ms as i128 } else { i64::MAX as i128 };
    let d: i128 = if duration_ms <= i64::MAX as u64 { duration_ms as i128 } else { 1 };
    assert(-0x1_0000_0000_0000_0000_0000_0000 < span * e < 0x1_0000_0000_0000_0000_0000_0000) by (nonlinear_arith)
        requires
            -0x1_0000_0000 < span < 0x1_0000_0000,
            0 <= e < 0x1_0000_0000_0000_0000,
    ;
    let product: i128 = span * e;
    let q: i128 = if product >= 0 { product / d } else { -((-product) / d) };
    let delta: i32 = q as i32;
    (from as i128 + delta as i128) as i32
}

/// `v` clamped into `0..=255`.
pub open spec fn spec_clamp_u8(v: i32) -> u8 {
    if v <= 0 { 0 } else if v >= 255 { 255 } else { v as u8 }
}

/// `v` clamped into `-128..=127`.
pub open spec fn spec_clamp_i8(v: i32) -> i8 {
    if v <= i8::MIN { i8::MIN } else if v >= i8::MAX { i8::MAX } else { v as i8 }
}

/// `v` clamped into `0..=100`.
pub open spec fn spec_clamp_weight(v: i32) -> u8 {
    if v <= 0 { 0 } else if v >= 100 { 100 } else { v as u8 }
}

fn clamp_u8(v: i32) -> (r: u8)
    ensures
        r == spec_clamp_u8(v),
{
    if v <= 0 {
        0
    } else if v >= 255 {
        255
    } else {
        v as u8
    }
}

fn clamp_i8(v: i32) -> (r: i8)
    ensures
        r == spec_clamp_i8(v),
{
    if v <= i8::MIN as i32 {
        i8::MIN
    } else if v >= i8::MAX as i32 {
        i8::MAX
    } else {
        v as i8
    }
}

fn clamp_weight(v: i32) -> (r: u8)
    ensures
        r == spec_clamp_weight(v),
{
    if v <= 0 {
        0
    } else if v >= 100 {
        100
    } else {
        v as u8
    }
}

/// Field-by-field ease of `from` toward `to`, each field clamped back into
/// its range.
pub open spec fn spec_blend(from: StyleTarget, to: StyleTarget, elapsed_ms: u64, duration_ms: u64) -> StyleTarget {
    StyleTarget {
        eye_curve: spec_clamp_i8(spec_ease(from.eye_curve as i32, to.eye_curve as i32, elapsed_ms, duration_ms)),
        mouth_curve: spec_clamp_i8(spec_ease(from.mouth_curve as i32, to.mouth_curve as i32, elapsed_ms, duration_ms)),
        cheek_blush: spec_clamp_u8(spec_ease(from.cheek_blush as i32, to.cheek_blush as i32, elapsed_ms, duration_ms)),
        eye_scale: spec_clamp_u8(spec_ease(from.eye_scale as i32, to.eye_scale as i32, elapsed_ms, duration_ms)),
        blink_rate_scale: spec_clamp_u8(
            spec_ease(from.blink_rate_scale as i32, to.blink_rate_scale as i32, elapsed_ms, duration_ms),
        ),
        breath_depth_scale: spec_clamp_u8(
            spec_ease(from.breath_depth_scale as i32, to.breath_depth_scale as i32, elapsed_ms, duration_ms),
        ),
        open_weight: spec_clamp_weight(spec_ease(from.open_weight as i32, to.open_weight as i32, elapsed_ms, duration_ms)),
        mouth_weight: spec_clamp_weight(spec_ease(from.mouth_weight as i32, to.mouth_weight as i32, elapsed_ms, duration_ms)),
    }
}

fn blend(from: StyleTarget, to: StyleTarget, elapsed_ms: u64, duration_ms: u64) -> (r: StyleTarget)
    ensures
        r == spec_blend(from, to, elapsed_ms, duration_ms),
{
    StyleTarget {
        eye_curve: clamp_i8(ease(from.eye_curve as i32, to.eye_curve as i32, elapsed_ms, duration_ms)),
        mouth_curve: clamp_i8(ease(from.mouth_curve as i32, to.mouth_curve as i32, elapsed_ms, duration_ms)),
        cheek_blush: clamp_u8(ease(from.cheek_blush as i32, to.cheek_blush as i32, elapsed_ms, duration_ms)),
        eye_scale: clamp_u8(ease(from.eye_scale as i32, to.eye_scale as i32, elapsed_ms, duration_ms)),
        blink_rate_scale: clamp_u8(ease(from.blink_rate_scale as i32, to.blink_rate_scale as i32, elapsed_ms, duration_ms)),
        breath_depth_scale: clamp_u8(
            ease(from.breath_depth_scale as i32, to.breath_depth_scale as i32, elapsed_ms, duration_ms),
        ),
        open_weight: clamp_weight(ease(from.open_weight as i32, to.open_weight as i32, elapsed_ms, duration_ms)),
        mouth_weight: clamp_weight(ease(from.mouth_weight as i32, to.mouth_weight as i32, elapsed_ms, duration_ms)),
    }
}

/// `e` with the style fields, both eyes' `open_weight` and the mouth weight
/// taken from `s`.
pub open spec fn styled(e: Entity, s: StyleTarget) -> Entity {
    Entity {
        face: Face {
            style: Style {
                eye_curve: s.eye_curve,
                mouth_curve: s.mouth_curve,
                cheek_blush: s.cheek_blush,
                eye_scale: s.eye_scale,
                blink_rate_scale: s.blink_rate_scale,
                breath_depth_scale: s.breath_depth_scale,
            },
            left_eye: Eye { open_weight: s.open_weight, ..e.face.left_eye },
            right_eye: Eye { open_weight: s.open_weight, ..e.face.right_eye },
            mouth: Mouth { weight: s.mouth_weight, ..e.face.mouth },
            ..e.face
        },
        ..e
    }
}

fn apply(entity: &mut Entity, s: StyleTarget)
    ensures
        *final(entity) == styled(*old(entity), s),
{
    entity.face.style.eye_curve = s.eye_curve;
    entity.face.style.mouth_curve = s.mouth_curve;
    entity.face.style.cheek_blush = s.cheek_blush;
    entity.face.style.eye_scale = s.eye_scale;
    entity.face.style.blink_rate_scale = s.blink_rate_scale;
    entity.face.style.breath_depth_scale = s.breath_depth_scale;
    entity.face.left_eye.open_weight = s.open_weight;
    entity.face.right_eye.open_weight = s.open_weight;
    entity.face.mouth.weight = s.mouth_weight;
}

/// Translates `mind.affect.emotion` into the style fields, easing between
/// emotions.
#[derive(Debug, Clone, Copy)]
pub struct EmotionStyle {
    transition_ms: u64,
    from: Option<StyleTarget>,
    to: Option<StyleTarget>,
    to_emotion: Option<Emotion>,
    transition_start: Option<Instant>,
}

/// The look in flight: the blend of `from` toward `to` since `start`, or
/// `fallback` when no transition has been recorded.
pub open spec fn in_flight(
    from: Option<StyleTarget>,
    to: Option<StyleTarget>,
    start: Option<Instant>,
    now: Instant,
    duration_ms: u64,
    fallback: StyleTarget,
) -> StyleTarget {
    match (from, to, start) {
        (Some(f), Some(t), Some(s)) => spec_blend(f, t, sat_sub(now@, s@), duration_ms),
        _ => fallback,
    }
}

impl EmotionStyle {
    /// Default transition duration, in ms.
    pub const TRANSITION_MS: u64 = 300;

    /// Transition duration, in ms.
    pub closed spec fn transition(&self) -> u64 {
        self.transition_ms
    }

    /// The look the current transition started from.
    pub closed spec fn from_target(&self) -> Option<StyleTarget> {
        self.from
    }

    /// The look the current transition heads to.
    pub closed spec fn to_target(&self) -> Option<StyleTarget> {
        self.to
    }

    /// The emotion `to_target` belongs to.
    pub closed spec fn target_emotion(&self) -> Option<Emotion> {
        self.to_emotion
    }

    /// When the current transition began.
    pub closed spec fn started(&self) -> Option<Instant> {
        self.transition_start
    }

    /// Whether no transition has been recorded yet.
    pub open spec fn is_fresh(&self) -> bool {
        &&& self.from_target() is None
        &&& self.to_target() is None
        &&& self.target_emotion() is None
        &&& self.started() is None
    }

    /// The default 300 ms transition.
    pub fn new() -> (r: Self)
        ensures
            r.transition() == Self::TRANSITION_MS,
            r.is_fresh(),
    {
        Self::with_transition_ms(Self::TRANSITION_MS)
    }

    /// A custom transition duration, in ms.
    pub fn with_transition_ms(transition_ms: u64) -> (r: Self)
        ensures
            r.transition() == transition_ms,
            r.is_fresh(),
    {
        Self { transition_ms, from: None, to: None, to_emotion: None, transition_start: None }
    }
}

impl Default for EmotionStyle {
    fn default() -> (r: Self)
        ensures
            r.transition() == Self::TRANSITION_MS,
            r.is_fresh(),
    {
        Self::new()
    }
}

impl EmotionStyle {
    /// One update from entity `pre_entity` leaves the entity as
    /// `post_entity` and the modifier as `post_self`.
    pub open spec fn stepped(&self, post_self: Self, pre_entity: Entity, post_entity: Entity) -> bool {
        &&& (post_self.transition() == self.transition())
        &&& (({
                let s = *self;
                let e = pre_entity;
                let now = e.tick.now;
                let desired = e.mind.affect.emotion;
                let target = spec_targets_for(desired);
                let d = s.transition();
                let changed = s.target_emotion() != Some(desired);
                let from1 = in_flight(s.from_target(), s.to_target(), s.started(), now, d, target);
                &&& post_self.from_target() == (if changed { Some(from1) } else { s.from_target() })
                &&& post_self.to_target() == (if changed { Some(target) } else { s.to_target() })
                &&& post_self.target_emotion() == Some(desired)
                &&& post_self.started() == (if changed { Some(now) } else { s.started() })
                &&& post_entity == styled(
                    e,
                    in_flight(post_self.from_target(), post_self.to_target(), post_self.started(), now, d, target),
                )
            }))
    }
}

impl Modifier for EmotionStyle {
    open spec fn obeys_modifier_spec(&self) -> bool {
        true
    }

    open spec fn declared_phase(&self) -> Phase {
        Phase::Expression
    }

    open spec fn declared_priority(&self) -> i8 {
        -10i8
    }

    open spec fn declared_writes(&self) -> Seq<Field> {
        seq![
                Field::EyeCurve,
                Field::MouthCurve,
                Field::CheekBlush,
                Field::EyeScale,
                Field::BlinkRateScale,
                Field::BreathDepthScale,
                Field::LeftEyeOpenWeight,
                Field::RightEyeOpenWeight,
                Field::MouthWeight,
            ]
    }

    open spec fn update_outcome(&self, before: Entity, after: Entity) -> bool {
        exists|n: Self| #[trigger] self.stepped(n, before, after)
    }

    fn meta(&self) -> (r: ModifierMeta)
        ensures
            r.name@ == "EmotionStyle"@,
            r.description@ == "Translates mind.affect.emotion into face.style and eye/mouth weights, \
                          linearly easing between emotions over the transition window."@,
            r.phase == Phase::Expression,
            r.priority == -10,
            r.reads@ == seq![Field::Emotion],
            r.writes@ == seq![
                Field::EyeCurve,
                Field::MouthCurve,
                Field::CheekBlush,
                Field::EyeScale,
                Field::BlinkRateScale,
                Field::BreathDepthScale,
                Field::LeftEyeOpenWeight,
                Field::RightEyeOpenWeight,
                Field::MouthWeight,
            ],
    {
        ModifierMeta {
            name: "EmotionStyle",
            description: "Translates mind.affect.emotion into face.style and eye/mouth weights, \
                          linearly easing between emotions over the transition window.",
            phase: Phase::Expression,
            priority: -10,
            reads: vec![Field::Emotion],
            writes: vec![
                Field::EyeCurve,
                Field::MouthCurve,
                Field::CheekBlush,
                Field::EyeScale,
                Field::BlinkRateScale,
                Field::BreathDepthScale,
                Field::LeftEyeOpenWeight,
                Field::RightEyeOpenWeight,
                Field::MouthWeight,
            ],
        }
    }

    fn update(&mut self, entity: &mut Entity)
        ensures
            final(self).transition() == old(self).transition(),
            ({
                let s = *old(self);
                let e = *old(entity);
                let now = e.tick.now;
                let desired = e.mind.affect.emotion;
                let target = spec_targets_for(desired);
                let d = s.transition();
                let changed = s.target_emotion() != Some(desired);
                let from1 = in_flight(s.from_target(), s.to_target(), s.started(), now, d, target);
                &&& final(self).from_target() == (if changed { Some(from1) } else { s.from_target() })
                &&& final(self).to_target() == (if changed { Some(target) } else { s.to_target() })
                &&& final(self).target_emotion() == Some(desired)
                &&& final(self).started() == (if changed { Some(now) } else { s.started() })
                &&& *final(entity) == styled(
                    e,
                    in_flight(final(self).from_target(), final(self).to_target(), final(self).started(), now, d, target),
                )
            }),
            old(self).stepped(*final(self), *old(entity), *final(entity)),
    {
        let now = entity.tick.now;
        let desired = entity.mind.affect.emotion;
        let desired_target = targets_for(desired);
        let changed: bool = match self.to_emotion {
            Some(current) => current != desired,
            None => true,
        };
        if changed {
            let from = match (self.from, self.to, self.transition_start) {
                (Some(f), Some(t), Some(start)) => {
                    let elapsed: u64 = now.saturating_duration_since(start);
                    blend(f, t, elapsed, self.transition_ms)
                },
                _ => desired_target,
            };
            self.from = Some(from);
            self.to = Some(desired_target);
            self.to_emotion = Some(desired);
            self.transition_start = Some(now);
        }
        match (self.from, self.to, self.transition_start) {
            (Some(from), Some(to), Some(start)) => {
                let elapsed: u64 = now.saturating_duration_since(start);
                let blended = blend(from, to, elapsed, self.transition_ms);
                apply(entity, blended);
            },
            _ => {
                apply(entity, desired_target);
            },
        }
        assert(old(self).stepped(*self, *old(entity), *entity));
    }
}

/// The ease reaches its endpoints: it starts at `from` and, once the
/// duration has elapsed (or for a zero duration), it is exactly `to`.
pub proof fn lemma_ease_endpoints(from: i32, to: i32, elapsed_ms: u64, duration_ms: u64)
    ensures
        (duration_ms == 0 || elapsed_ms >= duration_ms) ==> spec_ease(from, to, elapsed_ms, duration_ms) == to,
        duration_ms > 0 ==> spec_ease(from, to, 0, duration_ms) == from,
{
}

/// Mid-transition, the eased value lies between the endpoints (for a
/// duration up to `i64::MAX`, and endpoints whose distance fits in `i32`).
pub proof fn lemma_ease_between(from: i32, to: i32, elapsed_ms: u64, duration_ms: u64)
    requires
        0 < duration_ms <= i64::MAX,
        i32::MIN <= to - from <= i32::MAX,
    ensures
        ({
            let v = spec_ease(from, to, elapsed_ms, duration_ms);
            (from <= to ==> from <= v <= to) && (to <= from ==> to <= v <= from)
        }),
{
    if elapsed_ms < duration_ms {
        let span: int = to - from;
        let e: int = elapsed_ms as int;
        let d: int = duration_ms as int;
        if span >= 0 {
            assert(0 <= (span * e) / d <= span) by (nonlinear_arith)
                requires
                    span >= 0,
                    0 <= e < d,
            ;
        } else {
            assert(0 <= ((-span) * e) / d <= -span) by (nonlinear_arith)
                requires
                    span < 0,
                    0 <= e < d,
            ;
            assert((-span) * e == -(span * e)) by (nonlinear_arith);
        }
        let q = trunc_div(span * e, d);
        assert(span >= 0 ==> 0 <= q <= span);
        assert(span < 0 ==> span <= q <= 0);
    }
}

/// Every emotion's look keeps both weights within `0..=100`.
pub proof fn lemma_targets_in_range(emotion: Emotion)
    ensures
        spec_targets_for(emotion).open_weight <= 100,
        spec_targets_for(emotion).mouth_weight <= 100,
{
}

/// Once the transition window has elapsed, the blended look is exactly the
/// destination look (whose weights lie in `0..=100`).
pub proof fn lemma_blend_settles(from: StyleTarget, to: StyleTarget, elapsed_ms: u64, duration_ms: u64)
    requires
        duration_ms == 0 || elapsed_ms >= duration_ms,
        to.open_weight <= 100,
        to.mouth_weight <= 100,
    ensures
        spec_blend(from, to, elapsed_ms, duration_ms) == to,
{
}

/// Blending a look with itself leaves it unchanged at any time, so the first
/// tick snaps straight to the current emotion's look.
pub proof fn lemma_blend_fixed_point(t: StyleTarget, elapsed_ms: u64, duration_ms: u64)
    requires
        t.open_weight <= 100,
        t.mouth_weight <= 100,
    ensures
        spec_blend(t, t, elapsed_ms, duration_ms) == t,
{
}

/// Once the transition starts, the blended look is exactly the starting look
/// (for a positive duration and a starting look whose weights lie in
/// `0..=100`).
pub proof fn lemma_blend_starts_at_from(from: StyleTarget, to: StyleTarget, duration_ms: u64)
    requires
        duration_ms > 0,
        from.open_weight <= 100,
        from.mouth_weight <= 100,
    ensures
        spec_blend(from, to, 0, duration_ms) == from,
{
}

/// Later in a transition the eased value is no further from `to`: the ease
/// moves monotonically from `from` toward `to` (for a duration up to
/// `i64::MAX` and endpoints whose distance fits in `i32`).
pub proof fn lemma_ease_monotone(from: i32, to: i32, e1: u64, e2: u64, duration_ms: u64)
    requires
        0 < duration_ms <= i64::MAX,
        e1 <= e2,
        i32::MIN <= to - from <= i32::MAX,
    ensures
        from <= to ==> spec_ease(from, to, e1, duration_ms) <= spec_ease(from, to, e2, duration_ms),
        to <= from ==> spec_ease(from, to, e2, duration_ms) <= spec_ease(from, to, e1, duration_ms),
{
    lemma_ease_between(from, to, e1, duration_ms);
    lemma_ease_between(from, to, e2, duration_ms);
    if e2 < duration_ms {
        let span: int = to - from;
        let d: int = duration_ms as int;
        let a: int = e1 as int;
        let b: int = e2 as int;
        if span >= 0 {
            assert(span * a <= span * b) by (nonlinear_arith)
                requires
                    span >= 0,
                    a <= b,
            ;
            assert(0 <= span * a) by (nonlinear_arith)
                requires
                    span >= 0,
                    a >= 0,
            ;
            vstd::arithmetic::div_mod::lemma_div_is_ordered(span * a, span * b, d);
            assert(0 <= (span * b) / d <= span) by (nonlinear_arith)
                requires
                    span >= 0,
                    0 <= b < d,
            ;
        } else {
            assert((-span) * a <= (-span) * b) by (nonlinear_arith)
                requires
                    span < 0,
                    a <= b,
            ;
            assert((-span) * a == -(span * a)) by (nonlinear_arith);
            assert((-span) * b == -(span * b)) by (nonlinear_arith);
            assert(0 <= (-span) * a) by (nonlinear_arith)
                requires
                    span < 0,
                    a >= 0,
            ;
            vstd::arithmetic::div_mod::lemma_div_is_ordered(-(span * a), -(span * b), d);
            assert(0 <= ((-span) * b) / d <= -span) by (nonlinear_arith)
                requires
                    span < 0,
                    0 <= b < d,
            ;
        }
    }
}

/// Where a value stands on its way from `f` to `t`: `v1` at the earlier
/// time, `v2` at the later, both between the endpoints and `v2` no further
/// from `t` than `v1`.
pub open spec fn advances(f: int, t: int, v1: int, v2: int) -> bool {
    &&& f <= t ==> f <= v1 <= v2 <= t
    &&& t <= f ==> t <= v2 <= v1 <= f
}

/// Every field of the blended look moves monotonically from the starting
/// look toward the target look as the transition proceeds, never leaving
/// the span between them (for weights in `0..=100` and a duration up to
/// `i64::MAX`).
pub proof fn lemma_blend_progresses(from: StyleTarget, to: StyleTarget, e1: u64, e2: u64, duration_ms: u64)
    requires
        0 < duration_ms <= i64::MAX,
        e1 <= e2,
        from.open_weight <= 100,
        from.mouth_weight <= 100,
        to.open_weight <= 100,
        to.mouth_weight <= 100,
    ensures
        ({
            let r1 = spec_blend(from, to, e1, duration_ms);
            let r2 = spec_blend(from, to, e2, duration_ms);
            &&& advances(from.eye_curve as int, to.eye_curve as int, r1.eye_curve as int, r2.eye_curve as int)
            &&& advances(from.mouth_curve as int, to.mouth_curve as int, r1.mouth_curve as int, r2.mouth_curve as int)
            &&& advances(from.cheek_blush as int, to.cheek_blush as int, r1.cheek_blush as int, r2.cheek_blush as int)
            &&& advances(from.eye_scale as int, to.eye_scale as int, r1.eye_scale as int, r2.eye_scale as int)
            &&& advances(from.blink_rate_scale as int, to.blink_rate_scale as int, r1.blink_rate_scale as int, r2.blink_rate_scale as int)
            &&& advances(from.breath_depth_scale as int, to.breath_depth_scale as int, r1.breath_depth_scale as int, r2.breath_depth_scale as int)
            &&& advances(from.open_weight as int, to.open_weight as int, r1.open_weight as int, r2.open_weight as int)
            &&& advances(from.mouth_weight as int, to.mouth_weight as int, r1.mouth_weight as int, r2.mouth_weight as int)
        }),
{
    lemma_ease_monotone(from.eye_curve as i32, to.eye_curve as i32, e1, e2, duration_ms);
    lemma_ease_monotone(from.mouth_curve as i32, to.mouth_curve as i32, e1, e2, duration_ms);
    lemma_ease_monotone(from.cheek_blush as i32, to.cheek_blush as i32, e1, e2, duration_ms);
    lemma_ease_monotone(from.eye_scale as i32, to.eye_scale as i32, e1, e2, duration_ms);
    lemma_ease_monotone(from.blink_rate_scale as i32, to.blink_rate_scale as i32, e1, e2, duration_ms);
    lemma_ease_monotone(from.breath_depth_scale as i32, to.breath_depth_scale as i32, e1, e2, duration_ms);
    lemma_ease_monotone(from.open_weight as i32, to.open_weight as i32, e1, e2, duration_ms);
    lemma_ease_monotone(from.mouth_weight as i32, to.mouth_weight as i32, e1, e2, duration_ms);
    lemma_ease_between(from.eye_curve as i32, to.eye_curve as i32, e1, duration_ms);
    lemma_ease_between(from.eye_curve as i32, to.eye_curve as i32, e2, duration_ms);
    lemma_ease_between(from.mouth_curve as i32, to.mouth_curve as i32, e1, duration_ms);
    lemma_ease_between(from.mouth_curve as i32, to.mouth_curve as i32, e2, duration_ms);
    lemma_ease_between(from.cheek_blush as i32, to.cheek_blush as i32, e1, duration_ms);
    lemma_ease_between(from.cheek_blush as i32, to.cheek_blush as i32, e2, duration_ms);
    lemma_ease_between(from.eye_scale as i32, to.eye_scale as i32, e1, duration_ms);
    lemma_ease_between(from.eye_scale as i32, to.eye_scale as i32, e2, duration_ms);
    lemma_ease_between(from.blink_rate_scale as i32, to.blink_rate_scale as i32, e1, duration_ms);
    lemma_ease_between(from.blink_rate_scale as i32, to.blink_rate_scale as i32, e2, duration_ms);
    lemma_ease_between(from.breath_depth_scale as i32, to.breath_depth_scale as i32, e1, duration_ms);
    lemma_ease_between(from.breath_depth_scale as i32, to.breath_depth_scale as i32, e2, duration_ms);
    lemma_ease_between(from.open_weight as i32, to.open_weight as i32, e1, duration_ms);
    lemma_ease_between(from.open_weight as i32, to.open_weight as i32, e2, duration_ms);
    lemma_ease_between(from.mouth_weight as i32, to.mouth_weight as i32, e1, duration_ms);
    lemma_ease_between(from.mouth_weight as i32, to.mouth_weight as i32, e2, duration_ms);
}

} // verus!
