use core::num::NonZeroU32;

use stackchan_core::director::{Field, Phase};
use stackchan_core::modifiers::decorator_from_shake::DIZZY_HOLD_MS;
use stackchan_core::modifiers::emotion_style::ease;
use stackchan_core::modifiers::{
    BatteryOverlayFromPerception, Breath, DecoratorFromShake, IdleDrift, IdleMicroExpression,
};
use stackchan_core::perception::BodyTouch;
use stackchan_core::{Instant, Modifier, SCALE_DEFAULT};

#[test]
fn modifier_meta_advertises_battery_overlay_writes() {
    let m = BatteryOverlayFromPerception::new();
    let meta = m.meta();
    assert_eq!(meta.name, "BatteryOverlayFromPerception");
    assert_eq!(meta.phase, Phase::Decoration);
    assert_eq!(meta.priority, 5);
    assert_eq!(meta.reads, &[Field::BatteryPercent, Field::UsbPowerPresent]);
    assert_eq!(meta.writes, &[Field::BatteryOverlay]);
}

#[test]
fn offset_stays_within_amplitude_at_default_scale() {
    let breath = Breath::with_params(1000, 4);
    for ms in 0..1000 {
        let o = breath.offset_at(Instant::from_millis(ms), SCALE_DEFAULT, 1000);
        assert!((-2..=2).contains(&o), "offset {o} at ms {ms} out of range");
    }
}

#[test]
fn depth_scale_amplifies_or_attenuates() {
    let breath = Breath::with_params(1000, 4);
    let max_at = |scale: u8| {
        (0..1000)
            .map(|ms| breath.offset_at(Instant::from_millis(ms), scale, 1000).abs())
            .max()
            .unwrap_or(0)
    };
    let shallow = max_at(64);
    let baseline = max_at(SCALE_DEFAULT);
    let deep = max_at(255);

    assert!(shallow < baseline, "shallow={shallow}, baseline={baseline}");
    assert!(deep > baseline, "deep={deep}, baseline={baseline}");
}

#[test]
fn default_matches_new_hold() {
    let from_default = <DecoratorFromShake as Default>::default();
    let from_new = DecoratorFromShake::new();
    assert_eq!(from_default.hold_ms(), from_new.hold_ms());
    assert_eq!(from_default.hold_ms(), DIZZY_HOLD_MS);
}

#[test]
fn meta_declares_decoration_phase_and_decorator_write() {
    let m = DecoratorFromShake::new();
    let meta = m.meta();
    assert_eq!(meta.name, "DecoratorFromShake");
    assert_eq!(meta.phase, Phase::Decoration);
    assert_eq!(meta.priority, 20);
    assert_eq!(meta.writes, &[Field::Decorator]);
    assert_eq!(meta.reads, &[Field::Intent]);
}

#[test]
fn ease_clamps_to_target_after_duration() {
    assert_eq!(ease(0, 100, 0, 300), 0);
    assert_eq!(ease(0, 100, 300, 300), 100);
    assert_eq!(ease(0, 100, 450, 300), 100);
    assert_eq!(ease(100, 0, 150, 300), 50);
}

#[test]
fn seeded_rng_is_deterministic() {
    let mut a = IdleDrift::with_seed(NonZeroU32::new(42).unwrap().get());
    let mut b = IdleDrift::with_seed(NonZeroU32::new(42).unwrap().get());
    for _ in 0..100 {
        assert_eq!(a.next_u32(), b.next_u32());
    }
}

#[test]
fn rand_offset_returns_zero_for_nonpositive_max() {
    let mut m = IdleMicroExpression::new();
    assert_eq!(m.rand_offset(0), 0);
    assert_eq!(m.rand_offset(-5), 0);
    assert_eq!(m.rand_offset(i32::MIN), 0);
}

#[test]
fn next_delay_collapses_to_min_when_range_is_degenerate() {
    let mut m = IdleMicroExpression::new();
    m.interval_min_ms = 1_000;
    m.interval_max_ms = 1_000;
    assert_eq!(m.next_delay_ms(), 1_000);
    m.interval_max_ms = 500;
    assert_eq!(m.next_delay_ms(), 1_000);
}

#[test]
fn idle_micro_expression_default_matches_new() {
    let from_default = <IdleMicroExpression as Default>::default();
    let from_new = IdleMicroExpression::new();
    assert_eq!(from_default.interval_min_ms, from_new.interval_min_ms);
    assert_eq!(from_default.interval_max_ms, from_new.interval_max_ms);
    assert_eq!(from_default.max_mouth_y_px, from_new.max_mouth_y_px);
    assert_eq!(from_default.rng_state, from_new.rng_state);
}

#[test]
fn meta_declares_expression_phase_and_mouth_writes() {
    let m = IdleMicroExpression::new();
    let meta = m.meta();
    assert_eq!(meta.name, "IdleMicroExpression");
    assert_eq!(meta.phase, Phase::Expression);
    assert_eq!(meta.priority, 1);
    assert_eq!(meta.reads, &[Field::MouthCenter]);
    assert_eq!(meta.writes, &[Field::MouthCenter]);
}

#[test]
fn body_touch_position_is_centroid() {
    assert_eq!(BodyTouch { left: 3, ..BodyTouch::default() }.position(), -100);
    assert_eq!(BodyTouch { right: 3, ..BodyTouch::default() }.position(), 100);
    assert_eq!(BodyTouch { centre: 3, ..BodyTouch::default() }.position(), 0);
    assert_eq!(BodyTouch { left: 2, right: 2, ..BodyTouch::default() }.position(), 0);
    assert_eq!(BodyTouch::default().position(), 0);
}
