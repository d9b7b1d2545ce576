//! Shifts both eye centres toward the tracked target while attention is
//! `Tracking`, so the eyes lead the head.
use vstd::prelude::*;
use crate::director::{Field, ModifierMeta, Phase};
use crate::entity::Entity;
use crate::mind::Attention;
use crate::modifier::Modifier;
use crate::modifiers::idle_drift::eyes_moved;

verus! {

/// Maximum eye-centre offset on either axis, in pixels.
pub const GAZE_MAX_OFFSET_PX: i32 = 6;

/// Translates a `Tracking` attention into an eye-centre offset on both
/// eyes, undoing its previous offset first.
///
/// The tracked target's pan and tilt are angles; the caller converts them
/// to whole pixels (one pixel per two degrees, truncated) and hands them in
/// with [`GazeFromAttention::set_target_px`] before each update.
#[derive(Debug, Clone, Copy)]
pub struct GazeFromAttention {
    last_offset: (i32, i32),
    target_px: (i32, i32),
}

/// `v` clamped into `[-GAZE_MAX_OFFSET_PX, GAZE_MAX_OFFSET_PX]`.
pub open spec fn spec_clamp_gaze(v: i32) -> i32 {
    if v < -GAZE_MAX_OFFSET_PX { (-GAZE_MAX_OFFSET_PX) as i32 } else if v > GAZE_MAX_OFFSET_PX { GAZE_MAX_OFFSET_PX } else { v }
}

/// The clamped gaze offset for a raw pixel target.
pub fn clamp_offset(raw: (i32, i32)) -> (r: (i32, i32))
    ensures
        r == (spec_clamp_gaze(raw.0), spec_clamp_gaze(raw.1)),
{
    let (x, y) = raw;
    let cx: i32 = if x < -GAZE_MAX_OFFSET_PX { -GAZE_MAX_OFFSET_PX } else if x > GAZE_MAX_OFFSET_PX { GAZE_MAX_OFFSET_PX } else { x };
    let cy: i32 = if y < -GAZE_MAX_OFFSET_PX { -GAZE_MAX_OFFSET_PX } else if y > GAZE_MAX_OFFSET_PX { GAZE_MAX_OFFSET_PX } else { y };
    (cx, cy)
}

impl GazeFromAttention {
    /// The offset applied on the previous tick.
    pub closed spec fn applied(&self) -> (i32, i32) {
        self.last_offset
    }

    /// The raw pixel target handed in for the next update.
    pub closed spec fn target(&self) -> (i32, i32) {
        self.target_px
    }

    /// No offset in flight, no target.
    pub fn new() -> (r: Self)
        ensures
            r.applied() == (0i32, 0i32),
            r.target() == (0i32, 0i32),
    {
        Self { last_offset: (0, 0), target_px: (0, 0) }
    }

    /// Set the tracked target, in whole pixels per axis, for the next update.
    pub fn set_target_px(&mut self, target_px: (i32, i32))
        ensures
            final(self).target() == target_px,
            final(self).applied() == old(self).applied(),
    {
        self.target_px = target_px;
    }
}

impl Default for GazeFromAttention {
    fn default() -> (r: Self)
        ensures
            r.applied() == (0i32, 0i32),
            r.target() == (0i32, 0i32),
    {
        Self::new()
    }
}

impl GazeFromAttention {
    /// One update from entity `pre_entity` leaves the entity as
    /// `post_entity` and the modifier as `post_self`.
    pub open spec fn stepped(&self, post_self: Self, pre_entity: Entity, post_entity: Entity) -> bool {
        &&& (post_self.target() == self.target())
        &&& (({
                let e = pre_entity;
                let (tx, ty) = self.target();
                let next: (i32, i32) = if e.mind.attention is Tracking {
                    (spec_clamp_gaze(tx), spec_clamp_gaze(ty))
                } else {
                    (0i32, 0i32)
                };
                let (px, py) = self.applied();
                &&& post_self.applied() == next
                &&& post_entity == eyes_moved(e, next.0 - px, next.1 - py)
            }))
    }
}

impl Modifier for GazeFromAttention {
    open spec fn obeys_modifier_spec(&self) -> bool {
        true
    }

    open spec fn declared_phase(&self) -> Phase {
        Phase::Expression
    }

    open spec fn declared_priority(&self) -> i8 {
        5i8
    }

    open spec fn declared_writes(&self) -> Seq<Field> {
        seq![Field::LeftEyeCenter, Field::RightEyeCenter]
    }

    open spec fn update_outcome(&self, before: Entity, after: Entity) -> bool {
        exists|n: Self| #[trigger] self.stepped(n, before, after)
    }

    fn meta(&self) -> (r: ModifierMeta)
        ensures
            r.name@ == "GazeFromAttention"@,
            r.description@ == "When mind.attention is Tracking{target}, shifts both eye centers \
                          toward the target via GAZE_PIXELS_PER_DEG, clamped to ±GAZE_MAX_OFFSET_PX. \
                          Eye gaze leads head pose for a 'looking at you' effect. Composes \
                          additively after EmotionStyle / Blink / Breath / IdleDrift via diff-and-undo."@,
            r.phase == Phase::Expression,
            r.priority == 5,
            r.reads@ == seq![Field::Attention, Field::LeftEyeCenter, Field::RightEyeCenter],
            r.writes@ == seq![Field::LeftEyeCenter, Field::RightEyeCenter],
    {
        ModifierMeta {
            name: "GazeFromAttention",
            description: "When mind.attention is Tracking{target}, shifts both eye centers \
                          toward the target via GAZE_PIXELS_PER_DEG, clamped to ±GAZE_MAX_OFFSET_PX. \
                          Eye gaze leads head pose for a 'looking at you' effect. Composes \
                          additively after EmotionStyle / Blink / Breath / IdleDrift via diff-and-undo.",
            phase: Phase::Expression,
            priority: 5,
            reads: vec![Field::Attention, Field::LeftEyeCenter, Field::RightEyeCenter],
            writes: vec![Field::LeftEyeCenter, Field::RightEyeCenter],
        }
    }

    fn update(&mut self, entity: &mut Entity)
        ensures
            final(self).target() == old(self).target(),
            ({
                let e = *old(entity);
                let (tx, ty) = old(self).target();
                let next: (i32, i32) = if e.mind.attention is Tracking {
                    (spec_clamp_gaze(tx), spec_clamp_gaze(ty))
                } else {
                    (0i32, 0i32)
                };
                let (px, py) = old(self).applied();
                &&& final(self).applied() == next
                &&& *final(entity) == eyes_moved(e, next.0 - px, next.1 - py)
            }),
            old(self).stepped(*final(self), *old(entity), *final(entity)),
    {
        let target_offset: (i32, i32) = match entity.mind.attention {
            Attention::Tracking { .. } => clamp_offset(self.target_px),
            _ => (0, 0),
        };
        let (prev_x, prev_y) = self.last_offset;
        let (next_x, next_y) = target_offset;
        let dx: i64 = next_x as i64 - prev_x as i64;
        let dy: i64 = next_y as i64 - prev_y as i64;
        entity.face.left_eye.center = crate::modifiers::idle_drift::move_point(entity.face.left_eye.center, dx, dy);
        entity.face.right_eye.center = crate::modifiers::idle_drift::move_point(entity.face.right_eye.center, dx, dy);
        self.last_offset = target_offset;
        assert(old(self).stepped(*self, *old(entity), *entity));
    }
}

} // verus!
