//! Gesture recognition on the back-of-head touch strip: presses and swipes
//! pin zone- and direction-specific emotions.
use vstd::prelude::*;
use crate::clock::{after, Instant};
use crate::director::{Field, ModifierMeta, Phase};
use crate::emotion::Emotion;
use crate::entity::Entity;
use crate::mind::{Affect, Autonomy, Mind, OverrideSource};
use crate::modifier::Modifier;

verus! {

/// Default emotion for a left-zone press.
pub const DEFAULT_LEFT_PRESS: Emotion = Emotion::Sleepy;
/// Default emotion for a centre-zone press.
pub const DEFAULT_CENTRE_PRESS: Emotion = Emotion::Happy;
/// Default emotion for a right-zone press.
pub const DEFAULT_RIGHT_PRESS: Emotion = Emotion::Surprised;
/// Default emotion for a forward (left → right) swipe.
pub const DEFAULT_SWIPE_FORWARD: Emotion = Emotion::Happy;
/// Default emotion for a backward (right → left) swipe.
pub const DEFAULT_SWIPE_BACKWARD: Emotion = Emotion::Surprised;
/// How long a gesture pins its emotion, in ms.
pub const BODY_GESTURE_HOLD_MS: u64 = 5_000;
/// Centroid travel that counts as a swipe.
pub const SWIPE_DELTA: i16 = 40;

/// Per-gesture emotion mapping.
#[derive(Debug, Clone, Copy, PartialEq, Eq, Structural)]
pub struct GestureMapping {
    /// Emotion for a left-zone press.
    pub press_left: Emotion,
    /// Emotion for a centre-zone press.
    pub press_centre: Emotion,
    /// Emotion for a right-zone press.
    pub press_right: Emotion,
    /// Emotion for a forward swipe.
    pub swipe_forward: Emotion,
    /// Emotion for a backward swipe.
    pub swipe_backward: Emotion,
}

impl GestureMapping {
    /// The default mapping: press left/centre/right → Sleepy/Happy/Surprised,
    /// swipe forward/backward → Happy/Surprised.
    pub open spec fn spec_default() -> GestureMapping {
        GestureMapping {
            press_left: DEFAULT_LEFT_PRESS,
            press_centre: DEFAULT_CENTRE_PRESS,
            press_right: DEFAULT_RIGHT_PRESS,
            swipe_forward: DEFAULT_SWIPE_FORWARD,
            swipe_backward: DEFAULT_SWIPE_BACKWARD,
        }
    }
}

impl Default for GestureMapping {
    /// The default mapping.
    fn default() -> (r: Self)
        ensures
            r == GestureMapping::spec_default(),
    {
        GestureMapping {
            press_left: DEFAULT_LEFT_PRESS,
            press_centre: DEFAULT_CENTRE_PRESS,
            press_right: DEFAULT_RIGHT_PRESS,
            swipe_forward: DEFAULT_SWIPE_FORWARD,
            swipe_backward: DEFAULT_SWIPE_BACKWARD,
        }
    }
}

/// Gesture recogniser state.
#[derive(Debug, Clone, Copy, PartialEq, Eq, Structural)]
pub enum GestureState {
    /// No contact.
    Idle,
    /// In contact since a press at `initial_position`.
    Touched {
        /// Centroid at the press.
        initial_position: i16,
    },
    /// This contact already produced a swipe.
    Swiping,
}

/// State-machine gesture recognition on `perception.body_touch`.
#[derive(Debug, Clone, Copy)]
pub struct IntentFromBodyTouch {
    /// Per-gesture emotion mapping.
    pub mapping: GestureMapping,
    /// How long a gesture pins its emotion, in ms.
    pub hold_ms: u64,
    /// Centroid travel that counts as a swipe.
    pub swipe_delta: i16,
    state: GestureState,
}

/// The entity with `emotion` pinned for `hold_ms` by a body-touch gesture.
pub open spec fn pinned(e: Entity, emotion: Emotion, hold_ms: u64) -> Entity {
    Entity {
        mind: Mind {
            affect: Affect { emotion },
            autonomy: Autonomy { manual_until: Some(after(e.tick.now, hold_ms)), source: Some(OverrideSource::BodyTouch) },
            ..e.mind
        },
        ..e
    }
}

fn pin_emotion(entity: &mut Entity, emotion: Emotion, hold_ms: u64)
    ensures
        *final(entity) == pinned(*old(entity), emotion, hold_ms),
{
    let now: Instant = entity.tick.now;
    entity.mind.affect.emotion = emotion;
    entity.mind.autonomy.manual_until = Some(now.plus(hold_ms));
    entity.mind.autonomy.source = Some(OverrideSource::BodyTouch);
}

impl IntentFromBodyTouch {
    /// Recogniser state.
    pub closed spec fn state(&self) -> GestureState {
        self.state
    }

    /// The gesture mapping.
    pub closed spec fn spec_mapping(&self) -> GestureMapping {
        self.mapping
    }

    /// The hold applied by a gesture, in ms.
    pub closed spec fn spec_hold_ms(&self) -> u64 {
        self.hold_ms
    }

    /// The swipe threshold.
    pub closed spec fn spec_swipe_delta(&self) -> i16 {
        self.swipe_delta
    }

    /// Construct with the default mapping, hold and swipe threshold.
    pub fn new() -> (r: Self)
        ensures
            r.spec_mapping() == GestureMapping::spec_default(),
            r.spec_hold_ms() == BODY_GESTURE_HOLD_MS,
            r.spec_swipe_delta() == SWIPE_DELTA,
            r.state() == GestureState::Idle,
    {
        Self { mapping: GestureMapping::default(), hold_ms: BODY_GESTURE_HOLD_MS, swipe_delta: SWIPE_DELTA, state: GestureState::Idle }
    }

    /// Replace the gesture mapping.
    pub fn with_mapping(self, mapping: GestureMapping) -> (r: Self)
        ensures
            r.spec_mapping() == mapping,
            r.spec_hold_ms() == self.spec_hold_ms(),
            r.spec_swipe_delta() == self.spec_swipe_delta(),
            r.state() == self.state(),
    {
        let mut s = self;
        s.mapping = mapping;
        s
    }
}

impl Default for IntentFromBodyTouch {
    fn default() -> (r: Self)
        ensures
            r.spec_mapping() == GestureMapping::spec_default(),
            r.spec_hold_ms() == BODY_GESTURE_HOLD_MS,
            r.spec_swipe_delta() == SWIPE_DELTA,
            r.state() == GestureState::Idle,
    {
        Self::new()
    }
}

impl IntentFromBodyTouch {
    /// One update from entity `pre_entity` leaves the entity as
    /// `post_entity` and the modifier as `post_self`.
    pub open spec fn stepped(&self, post_self: Self, pre_entity: Entity, post_entity: Entity) -> bool {
        &&& (post_self.spec_mapping() == self.spec_mapping())
        &&& (post_self.spec_hold_ms() == self.spec_hold_ms())
        &&& (post_self.spec_swipe_delta() == self.spec_swipe_delta())
        &&& (({
                let e = pre_entity;
                let m = self.spec_mapping();
                let hold = self.spec_hold_ms();
                let d = self.spec_swipe_delta();
                match e.perception.body_touch {
                    None => post_self.state() == self.state() && post_entity == e,
                    Some(t) => match (self.state(), t.spec_any()) {
                        (GestureState::Idle, false) | (GestureState::Swiping, true) =>
                            post_self.state() == self.state() && post_entity == e,
                        (GestureState::Idle, true) => {
                            let press = if t.centre >= 1 { m.press_centre } else if t.left >= 1 { m.press_left } else { m.press_right };
                            &&& post_self.state() == (GestureState::Touched { initial_position: t.spec_position() })
                            &&& post_entity == pinned(e, press, hold)
                        },
                        (GestureState::Touched { initial_position }, true) => {
                            let delta = t.spec_position() - initial_position;
                            if delta >= d {
                                post_self.state() == GestureState::Swiping && post_entity == pinned(e, m.swipe_forward, hold)
                            } else if delta <= -d {
                                post_self.state() == GestureState::Swiping && post_entity == pinned(e, m.swipe_backward, hold)
                            } else {
                                post_self.state() == self.state() && post_entity == e
                            }
                        },
                        (_, false) => post_self.state() == GestureState::Idle && post_entity == e,
                    },
                }
            }))
    }
}

impl Modifier for IntentFromBodyTouch {
    open spec fn obeys_modifier_spec(&self) -> bool {
        true
    }

    open spec fn declared_phase(&self) -> Phase {
        Phase::Affect
    }

    open spec fn declared_priority(&self) -> i8 {
        0i8
    }

    open spec fn declared_writes(&self) -> Seq<Field> {
        seq![Field::Emotion, Field::Autonomy]
    }

    open spec fn update_outcome(&self, before: Entity, after: Entity) -> bool {
        exists|n: Self| #[trigger] self.stepped(n, before, after)
    }

    fn meta(&self) -> (r: ModifierMeta)
        ensures
            r.name@ == "IntentFromBodyTouch"@,
            r.description@ == "State-machine gesture recognition on perception.body_touch \
                          (Si12T petting strip): Press emits per-zone emotion, \
                          SwipeForward/Backward emit Happy/Surprised. Mirrors M5Stack's \
                          reference hal_head_touch.cpp gesture model."@,
            r.phase == Phase::Affect,
            r.priority == 0,
            r.reads@ == seq![Field::BodyTouch],
            r.writes@ == seq![Field::Emotion, Field::Autonomy],
    {
        ModifierMeta {
            name: "IntentFromBodyTouch",
            description: "State-machine gesture recognition on perception.body_touch \
                          (Si12T petting strip): Press emits per-zone emotion, \
                          SwipeForward/Backward emit Happy/Surprised. Mirrors M5Stack's \
                          reference hal_head_touch.cpp gesture model.",
            phase: Phase::Affect,
            priority: 0,
            reads: vec![Field::BodyTouch],
            writes: vec![Field::Emotion, Field::Autonomy],
        }
    }

    fn update(&mut self, entity: &mut Entity)
        ensures
            final(self).spec_mapping() == old(self).spec_mapping(),
            final(self).spec_hold_ms() == old(self).spec_hold_ms(),
            final(self).spec_swipe_delta() == old(self).spec_swipe_delta(),
            ({
                let e = *old(entity);
                let m = old(self).spec_mapping();
                let hold = old(self).spec_hold_ms();
                let d = old(self).spec_swipe_delta();
                match e.perception.body_touch {
                    None => final(self).state() == old(self).state() && *final(entity) == e,
                    Some(t) => match (old(self).state(), t.spec_any()) {
                        (GestureState::Idle, false) | (GestureState::Swiping, true) =>
                            final(self).state() == old(self).state() && *final(entity) == e,
                        (GestureState::Idle, true) => {
                            let press = if t.centre >= 1 { m.press_centre } else if t.left >= 1 { m.press_left } else { m.press_right };
                            &&& final(self).state() == (GestureState::Touched { initial_position: t.spec_position() })
                            &&& *final(entity) == pinned(e, press, hold)
                        },
                        (GestureState::Touched { initial_position }, true) => {
                            let delta = t.spec_position() - initial_position;
                            if delta >= d {
                                final(self).state() == GestureState::Swiping && *final(entity) == pinned(e, m.swipe_forward, hold)
                            } else if delta <= -d {
                                final(self).state() == GestureState::Swiping && *final(entity) == pinned(e, m.swipe_backward, hold)
                            } else {
                                final(self).state() == old(self).state() && *final(entity) == e
                            }
                        },
                        (_, false) => final(self).state() == GestureState::Idle && *final(entity) == e,
                    },
                }
            }),
            old(self).stepped(*final(self), *old(entity), *final(entity)),
    {
        let touch = match entity.perception.body_touch {
            Some(t) => t,
            None => {
                assert(old(self).stepped(*self, *old(entity), *entity));
                return;
            },
        };
        let touched_now = touch.any();
        match (self.state, touched_now) {
            (GestureState::Idle, false) | (GestureState::Swiping, true) => {},
            (GestureState::Idle, true) => {
                let emotion = if touch.centre >= 1 {
                    self.mapping.press_centre
                } else if touch.left >= 1 {
                    self.mapping.press_left
                } else {
                    self.mapping.press_right
                };
                pin_emotion(entity, emotion, self.hold_ms);
                self.state = GestureState::Touched { initial_position: touch.position() };
            },
            (GestureState::Touched { initial_position }, true) => {
                let delta: i32 = touch.position() as i32 - initial_position as i32;
                if delta >= self.swipe_delta as i32 {
                    pin_emotion(entity, self.mapping.swipe_forward, self.hold_ms);
                    self.state = GestureState::Swiping;
                } else if delta <= -(self.swipe_delta as i32) {
                    pin_emotion(entity, self.mapping.swipe_backward, self.hold_ms);
                    self.state = GestureState::Swiping;
                }
            },
            (GestureState::Touched { .. }, false) | (GestureState::Swiping, false) => {
                self.state = GestureState::Idle;
            },
        }
        assert(old(self).stepped(*self, *old(entity), *entity));
    }
}

} // verus!
