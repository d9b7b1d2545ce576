//! The stock per-frame behaviour modifiers.
use vstd::prelude::*;

pub mod ambient_sleepy;
pub mod attention_from_tracking;
pub mod battery_overlay;
pub mod blink;
pub mod breath;
pub mod dance_player;
pub mod bubble_expiry;
pub mod decorator_expiry;
pub mod decorator_from_body_touch;
pub mod decorator_from_emotion;
pub mod decorator_from_listening;
pub mod decorator_from_loud;
pub mod decorator_from_shake;
pub mod decorator_from_thinking;
pub mod dormancy_from_activity;
pub mod emotion_cycle;
pub mod emotion_from_voice;
pub mod emotion_head;
pub mod emotion_style;
pub mod emotion_touch;
pub mod gaze_from_attention;
pub mod head_from_attention;
pub mod head_from_body_gesture;
pub mod head_from_intent;
pub mod idle_drift;
pub mod idle_head_drift;
pub mod idle_micro_expression;
pub mod intent_from_body_touch;
pub mod intent_reflex;
pub mod intent_style;
pub mod lost_target_search;

pub use ambient_sleepy::AmbientSleepy;
pub use attention_from_tracking::AttentionFromTracking;
pub use battery_overlay::BatteryOverlayFromPerception;
pub use blink::Blink;
pub use breath::Breath;
pub use dance_player::DanceChannels;
pub use bubble_expiry::BubbleExpiry;
pub use decorator_expiry::DecoratorExpiry;
pub use decorator_from_body_touch::DecoratorFromBodyTouch;
pub use decorator_from_emotion::DecoratorFromEmotion;
pub use decorator_from_listening::DecoratorFromListening;
pub use decorator_from_shake::DecoratorFromShake;
pub use decorator_from_thinking::DecoratorFromThinking;
pub use dormancy_from_activity::DormancyFromActivity;
pub use emotion_cycle::EmotionCycle;
pub use emotion_style::EmotionStyle;
pub use emotion_touch::{EmotionTouch, MANUAL_HOLD_MS};
pub use gaze_from_attention::GazeFromAttention;
pub use idle_drift::IdleDrift;
pub use idle_micro_expression::IdleMicroExpression;
pub use intent_from_body_touch::{GestureMapping, IntentFromBodyTouch};
pub use intent_reflex::IntentReflex;
pub use intent_style::IntentStyle;

verus! {
} // verus!
