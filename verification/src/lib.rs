//! Platform-independent core of a small desk-robot companion: the face
//! model, the cognitive state and the per-frame behaviour modifiers that
//! animate them.
use vstd::prelude::*;

pub mod avatar;
pub mod clock;
pub mod emotion;
pub mod decorator;
pub mod bubble;
pub mod face;
pub mod palette;
pub mod mind;
pub mod perception;
pub mod voice;
pub mod input;
pub mod events;
pub mod entity;
pub mod director;
pub mod registry;
pub mod rng;
pub mod leds;
pub mod lipsync;
pub mod dance;
pub mod draw;
pub mod modifier;
pub mod skill;
pub mod modifiers;

pub use clock::{Clock, Instant};
pub use director::{Director, Field, FieldGroup, ModifierMeta, Phase, SkillMeta, UndeclaredWrite, MODIFIER_CAP, SKILL_CAP};
pub use emotion::Emotion;
pub use entity::{Entity, Tick};
pub use events::Events;
pub use face::{Eye, EyePhase, Face, Mouth, Point, Style, SCALE_DEFAULT};
pub use input::Input;
pub use leds::{render_leds, LedFrame, BRIGHTNESS_PEAK, LED_COUNT};
pub use mind::{Affect, Attention, Autonomy, Intent, Memory, Mind, OverrideSource};
pub use modifier::Modifier;
pub use perception::Perception;
pub use skill::{Skill, SkillStatus};
pub use voice::{ChirpKind, Voice};

verus! {
} // verus!
