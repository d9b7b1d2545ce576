//! Cognitive layer of the entity: felt state, autonomy gating, intent,
//! attention and dormancy.
use vstd::prelude::*;
use crate::clock::Instant;
use crate::emotion::Emotion;

verus! {

/// The entity's current felt state.
#[derive(Debug, Default, Clone, Copy, PartialEq, Eq, Structural)]
pub struct Affect {
    /// Current emotional expression.
    pub emotion: Emotion,
}

/// Where an autonomy override originated.
#[derive(Debug, Clone, Copy, PartialEq, Eq, Structural)]
#[non_exhaustive]
pub enum OverrideSource {
    /// Front-screen tap.
    Touch,
    /// Back-of-head body-touch gesture.
    BodyTouch,
    /// IR-remote button press.
    Remote,
    /// IMU pickup detection.
    Pickup,
    /// IMU shake detection.
    Shake,
    /// Sustained voice activity.
    Voice,
    /// Ambient-light-driven sleepy override.
    Ambient,
    /// Low-battery sleepy override.
    LowBattery,
}

/// Autonomy gating: lets an explicit driver pin emotion against the
/// autonomous cycler until `manual_until`.
#[derive(Debug, Default, Clone, Copy, PartialEq, Eq, Structural)]
pub struct Autonomy {
    /// Deadline until which autonomous emotion drivers should defer.
    pub manual_until: Option<Instant>,
    /// Where the active override came from.
    pub source: Option<OverrideSource>,
}

/// Current goal or planned action of the entity.
#[derive(Debug, Default, Clone, Copy, PartialEq, Eq, Structural)]
#[non_exhaustive]
pub enum Intent {
    /// No active goal.
    #[default]
    Idle,
    /// Listening to ambient sound.
    Listen,
    /// Being pet on the back-of-head strip.
    BeingPet,
    /// Held in the air.
    PickedUp,
    /// Being shaken.
    Shaken,
    /// Lying on its side / face-down.
    Tilted,
    /// A loud sound is being heard.
    HearingLoud,
    /// Startled by a sudden loud sound.
    Startled,
}

/// What the entity is currently focused on.
#[derive(Debug, Default, Clone, Copy, PartialEq, Eq, Structural)]
#[non_exhaustive]
pub enum Attention {
    /// Not focused on anything specific.
    #[default]
    Unfocused,
    /// Listening to a sound source since `since`.
    Listening {
        /// When the listening attention began.
        since: Instant,
    },
    /// Processing / thinking since `since`.
    Thinking {
        /// When the thinking attention began.
        since: Instant,
    },
    /// Locked onto a tracked target since `since`. The target pose itself
    /// is a floating-point quantity carried by the motion layer.
    Tracking {
        /// When the tracking lock began.
        since: Instant,
    },
}

/// Whether the entity is awake or dozing after a quiet spell.
#[derive(Debug, Default, Clone, Copy, PartialEq, Eq, Structural)]
pub enum Dormancy {
    /// Active.
    #[default]
    Awake,
    /// Dormant since `since`.
    Asleep {
        /// When the dormant state began.
        since: Instant,
    },
}

impl Dormancy {
    /// `true` iff dormant.
    pub fn is_asleep(&self) -> (r: bool)
        ensures
            r == (*self is Asleep),
    {
        match self {
            Dormancy::Asleep { .. } => true,
            Dormancy::Awake => false,
        }
    }
}

/// Engagement with a tracked subject.
#[derive(Debug, Default, Clone, Copy, PartialEq, Eq, Structural)]
pub enum Engagement {
    /// Nothing engaged.
    #[default]
    Idle,
    /// Acquiring a subject.
    Locking,
    /// Locked on a subject.
    Locked,
    /// Letting a subject go.
    Releasing,
}

/// Persistent facts the entity remembers across boots (none are kept yet).
#[derive(Debug, Default, Clone, Copy, PartialEq, Eq, Structural)]
pub struct Memory;

/// The cognitive layer of the entity.
#[derive(Debug, Default, Clone, Copy, PartialEq, Eq, Structural)]
pub struct Mind {
    /// Current felt state.
    pub affect: Affect,
    /// Manual-override gating.
    pub autonomy: Autonomy,
    /// Current goal or planned action.
    pub intent: Intent,
    /// What the entity is focused on.
    pub attention: Attention,
    /// Persistent facts.
    pub memory: Memory,
    /// Awake / dormant.
    pub dormancy: Dormancy,
    /// Engagement with a tracked subject.
    pub engagement: Engagement,
}

impl Mind {
    /// The boot state: neutral, autonomous, idle, unfocused, awake.
    pub open spec fn is_initial(self) -> bool {
        &&& self.affect.emotion == Emotion::Neutral
        &&& self.autonomy.manual_until is None
        &&& self.autonomy.source is None
        &&& self.intent == Intent::Idle
        &&& self.attention == Attention::Unfocused
        &&& self.dormancy == Dormancy::Awake
        &&& self.engagement == Engagement::Idle
    }

    /// The boot state.
    pub fn initial() -> (r: Self)
        ensures
            r.is_initial(),
    {
        Mind {
            affect: Affect { emotion: Emotion::Neutral },
            autonomy: Autonomy { manual_until: None, source: None },
            intent: Intent::Idle,
            attention: Attention::Unfocused,
            memory: Memory,
            dormancy: Dormancy::Awake,
            engagement: Engagement::Idle,
        }
    }
}

} // verus!
