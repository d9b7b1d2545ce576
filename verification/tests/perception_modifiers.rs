use stackchan_core::face::{BatteryBucket, BatteryOverlay};
use stackchan_core::modifiers::attention_from_tracking::{TRACKING_LOCK_TICKS, TRACKING_RELEASE_MS};
use stackchan_core::modifiers::idle_drift::{DEFAULT_INTERVAL_MS, DEFAULT_MAX_X, DEFAULT_MAX_Y};
use stackchan_core::modifiers::idle_micro_expression::{
    DEFAULT_INTERVAL_MAX_MS, DEFAULT_INTERVAL_MIN_MS, DEFAULT_MAX_MOUTH_Y_PX,
};
use stackchan_core::modifiers::{AttentionFromTracking, BatteryOverlayFromPerception, IdleDrift, IdleMicroExpression};
use stackchan_core::perception::{TrackingMotion, TrackingObservation};
use stackchan_core::{Attention, Entity, Instant, Modifier};

#[test]
fn disabled_clears_overlay_and_writes_none_when_already_none() {
    let mut e = Entity::default();
    e.face.battery_overlay = Some(BatteryOverlay { bucket: BatteryBucket::Full, charging: false });
    let mut m = BatteryOverlayFromPerception::with_enabled(false);
    m.update(&mut e);
    assert!(e.face.battery_overlay.is_none());
    m.update(&mut e);
    assert!(e.face.battery_overlay.is_none());
}

#[test]
fn enabled_without_perception_keeps_overlay_none() {
    let mut e = Entity::default();
    let mut m = BatteryOverlayFromPerception::with_enabled(true);
    m.update(&mut e);
    assert!(e.face.battery_overlay.is_none());
}

#[test]
fn enabled_with_perception_writes_quantised_overlay() {
    let mut e = Entity::default();
    e.perception.battery_percent = Some(42);
    e.perception.usb_power_present = Some(true);
    let mut m = BatteryOverlayFromPerception::with_enabled(true);
    m.update(&mut e);
    let o = e.face.battery_overlay.expect("overlay should be Some");
    assert_eq!(o.bucket, BatteryBucket::Medium);
    assert!(o.charging);
}

#[test]
fn percent_jitter_within_bucket_keeps_overlay_stable() {
    let mut e = Entity::default();
    e.perception.usb_power_present = Some(false);
    let mut m = BatteryOverlayFromPerception::with_enabled(true);
    e.perception.battery_percent = Some(50);
    m.update(&mut e);
    let first = e.face.battery_overlay.expect("set");
    e.perception.battery_percent = Some(73);
    m.update(&mut e);
    let second = e.face.battery_overlay.expect("set");
    assert_eq!(first, second);
}

#[test]
fn charging_flag_follows_usb_power_present() {
    let mut e = Entity::default();
    e.perception.battery_percent = Some(80);
    e.perception.usb_power_present = Some(true);
    let mut m = BatteryOverlayFromPerception::with_enabled(true);
    m.update(&mut e);
    assert!(e.face.battery_overlay.expect("set").charging);
    e.perception.usb_power_present = Some(false);
    m.update(&mut e);
    assert!(!e.face.battery_overlay.expect("set").charging);
}

#[test]
fn new_and_default_construct_disabled_instance() {
    for ctor_name in ["new", "default"] {
        let mut m = if ctor_name == "new" {
            BatteryOverlayFromPerception::new()
        } else {
            BatteryOverlayFromPerception::default()
        };
        let mut e = Entity::default();
        e.perception.battery_percent = Some(50);
        m.update(&mut e);
        assert!(e.face.battery_overlay.is_none(), "{ctor_name}: disabled modifier must not write overlay");
    }
}

fn at(now_ms: u64) -> Entity {
    let mut e = Entity::default();
    e.tick.now = Instant::from_millis(now_ms);
    e
}

fn observation(motion: TrackingMotion) -> TrackingObservation {
    TrackingObservation { motion }
}

#[test]
fn no_observation_keeps_attention_none() {
    let mut m = AttentionFromTracking::new();
    let mut entity = at(0);
    for t in 0..30 {
        entity.tick.now = Instant::from_millis(t * 33);
        m.update(&mut entity);
    }
    assert_eq!(entity.mind.attention, Attention::Unfocused);
}

#[test]
fn warmup_does_not_lock() {
    let mut m = AttentionFromTracking::new();
    let mut entity = at(0);
    entity.perception.tracking = Some(observation(TrackingMotion::Warmup));
    for t in 0..10 {
        entity.tick.now = Instant::from_millis(t * 33);
        m.update(&mut entity);
    }
    assert_eq!(entity.mind.attention, Attention::Unfocused);
}

#[test]
fn sustained_tracking_locks_after_threshold() {
    let mut m = AttentionFromTracking::new();
    let mut entity = at(0);
    entity.perception.tracking = Some(observation(TrackingMotion::Tracking));
    for t in 0..u64::from(TRACKING_LOCK_TICKS) {
        entity.tick.now = Instant::from_millis(t * 33);
        m.update(&mut entity);
    }
    match entity.mind.attention {
        Attention::Tracking { since } => assert_eq!(since, Instant::from_millis((u64::from(TRACKING_LOCK_TICKS) - 1) * 33)),
        other => panic!("expected Tracking, got {other:?}"),
    }
}

#[test]
fn target_updates_while_locked_since_pinned() {
    let mut m = AttentionFromTracking::new();
    let mut entity = at(0);
    entity.perception.tracking = Some(observation(TrackingMotion::Tracking));
    for t in 0..u64::from(TRACKING_LOCK_TICKS) {
        entity.tick.now = Instant::from_millis(t * 33);
        m.update(&mut entity);
    }
    let Attention::Tracking { since: original_since } = entity.mind.attention else {
        panic!("expected Tracking after lock");
    };
    entity.perception.tracking = Some(observation(TrackingMotion::Tracking));
    entity.tick.now = Instant::from_millis(10 * 33);
    m.update(&mut entity);
    match entity.mind.attention {
        Attention::Tracking { since } => assert_eq!(since, original_since, "since should pin to entry tick"),
        _ => panic!("expected Tracking still"),
    }
}

#[test]
fn quiet_within_release_window_holds() {
    let mut m = AttentionFromTracking::new();
    let mut entity = at(0);
    entity.perception.tracking = Some(observation(TrackingMotion::Tracking));
    for t in 0..u64::from(TRACKING_LOCK_TICKS) {
        entity.tick.now = Instant::from_millis(t * 33);
        m.update(&mut entity);
    }
    assert!(matches!(entity.mind.attention, Attention::Tracking { .. }));
    entity.perception.tracking = Some(observation(TrackingMotion::Holding));
    entity.tick.now = Instant::from_millis(u64::from(TRACKING_LOCK_TICKS) * 33 + 100);
    m.update(&mut entity);
    assert!(matches!(entity.mind.attention, Attention::Tracking { .. }), "tracking attention should hold inside release window");
}

#[test]
fn quiet_past_release_window_clears() {
    let mut m = AttentionFromTracking::new();
    let mut entity = at(0);
    entity.perception.tracking = Some(observation(TrackingMotion::Tracking));
    for t in 0..u64::from(TRACKING_LOCK_TICKS) {
        entity.tick.now = Instant::from_millis(t * 33);
        m.update(&mut entity);
    }
    let lock_at = entity.tick.now;
    entity.perception.tracking = Some(observation(TrackingMotion::Returning));
    entity.tick.now = lock_at + TRACKING_RELEASE_MS + 200;
    m.update(&mut entity);
    assert_eq!(entity.mind.attention, Attention::Unfocused);
}

#[test]
fn single_frame_motion_below_threshold_does_not_lock() {
    let mut m = AttentionFromTracking::new();
    let mut entity = at(0);
    entity.perception.tracking = Some(observation(TrackingMotion::Tracking));
    m.update(&mut entity);
    entity.perception.tracking = Some(observation(TrackingMotion::Holding));
    for t in 1..10 {
        entity.tick.now = Instant::from_millis(t * 33);
        m.update(&mut entity);
    }
    assert_eq!(entity.mind.attention, Attention::Unfocused);
}

#[test]
fn attention_from_tracking_quiet_tick_resets_counter_mid_burst() {
    let mut m = AttentionFromTracking::new();
    let mut entity = at(0);
    for t in 0..(u64::from(TRACKING_LOCK_TICKS) - 1) {
        entity.tick.now = Instant::from_millis(t * 33);
        entity.perception.tracking = Some(observation(TrackingMotion::Tracking));
        m.update(&mut entity);
    }
    entity.tick.now = Instant::from_millis(u64::from(TRACKING_LOCK_TICKS) * 33);
    entity.perception.tracking = Some(observation(TrackingMotion::Holding));
    m.update(&mut entity);
    for t in 0..(u64::from(TRACKING_LOCK_TICKS) - 1) {
        entity.tick.now = Instant::from_millis((u64::from(TRACKING_LOCK_TICKS) + 1 + t) * 33);
        entity.perception.tracking = Some(observation(TrackingMotion::Tracking));
        m.update(&mut entity);
    }
    assert_eq!(entity.mind.attention, Attention::Unfocused);
}

#[test]
fn global_event_does_not_count_as_motion() {
    let mut m = AttentionFromTracking::new();
    let mut entity = at(0);
    entity.perception.tracking = Some(observation(TrackingMotion::GlobalEvent));
    for t in 0..20 {
        entity.tick.now = Instant::from_millis(t * 33);
        m.update(&mut entity);
    }
    assert_eq!(entity.mind.attention, Attention::Unfocused);
}

#[test]
fn first_tick_schedules_first_drift() {
    let mut entity = at(0);
    let baseline_x = entity.face.left_eye.center.x;
    let mut drift = IdleDrift::new();
    drift.update(&mut entity);
    assert_eq!(entity.face.left_eye.center.x, baseline_x);
}

#[test]
fn drift_applies_at_interval() {
    let mut entity = at(0);
    let baseline = (entity.face.left_eye.center.x, entity.face.left_eye.center.y);
    let mut drift = IdleDrift::with_seed(42);
    drift.update(&mut entity);
    entity.tick.now = Instant::from_millis(DEFAULT_INTERVAL_MS);
    drift.update(&mut entity);
    let dx = entity.face.left_eye.center.x - baseline.0;
    let dy = entity.face.left_eye.center.y - baseline.1;
    assert!(dx.abs() <= DEFAULT_MAX_X);
    assert!(dy.abs() <= DEFAULT_MAX_Y);
}

#[test]
fn drifts_do_not_accumulate() {
    let mut entity = at(0);
    let baseline = (entity.face.left_eye.center.x, entity.face.left_eye.center.y);
    let mut drift = IdleDrift::with_seed(42);
    for i in 0..10 {
        entity.tick.now = Instant::from_millis(i * DEFAULT_INTERVAL_MS);
        drift.update(&mut entity);
    }
    let dx = entity.face.left_eye.center.x - baseline.0;
    let dy = entity.face.left_eye.center.y - baseline.1;
    assert!(dx.abs() <= DEFAULT_MAX_X, "dx={dx}");
    assert!(dy.abs() <= DEFAULT_MAX_Y, "dy={dy}");
}

#[test]
fn first_tick_only_schedules() {
    let mut entity = at(0);
    let baseline_y = entity.face.mouth.center.y;
    let mut m = IdleMicroExpression::new();
    m.update(&mut entity);
    assert_eq!(entity.face.mouth.center.y, baseline_y);
}

#[test]
fn perturbation_lands_in_range() {
    let mut entity = at(0);
    let baseline_y = entity.face.mouth.center.y;
    let mut m = IdleMicroExpression::with_seed(42);
    m.update(&mut entity);
    entity.tick.now = Instant::from_millis(DEFAULT_INTERVAL_MAX_MS + 1);
    m.update(&mut entity);
    let dy = entity.face.mouth.center.y - baseline_y;
    assert!(dy.abs() <= DEFAULT_MAX_MOUTH_Y_PX, "dy={dy}");
}

#[test]
fn offsets_do_not_accumulate_across_many_fires() {
    let mut entity = at(0);
    let baseline_y = entity.face.mouth.center.y;
    let mut m = IdleMicroExpression::with_seed(7);
    for i in 0..20 {
        entity.tick.now = Instant::from_millis(i * DEFAULT_INTERVAL_MAX_MS);
        m.update(&mut entity);
    }
    let dy = entity.face.mouth.center.y - baseline_y;
    assert!(dy.abs() <= DEFAULT_MAX_MOUTH_Y_PX, "drift accumulated: dy={dy}");
}

#[test]
fn fine_grained_ticks_with_baseline_drift_still_undo_cleanly() {
    let mut entity = at(0);
    let baseline = entity.face.mouth.center.y;
    let mut m = IdleMicroExpression::with_seed(13);
    let mut external_drift: i32 = 0;
    let mut last_module_dy: i32 = 0;
    for ms in 0..=DEFAULT_INTERVAL_MAX_MS * 5 {
        let next_drift = i32::try_from(ms / 100).unwrap_or(i32::MAX) % 5 - 2;
        entity.face.mouth.center.y += next_drift - external_drift;
        external_drift = next_drift;
        let module_before = entity.face.mouth.center.y - baseline - external_drift;
        assert_eq!(module_before, last_module_dy);
        entity.tick.now = Instant::from_millis(ms);
        m.update(&mut entity);
        let module_after = entity.face.mouth.center.y - baseline - external_drift;
        assert!(module_after.abs() <= DEFAULT_MAX_MOUTH_Y_PX, "modifier offset escaped bound at ms={ms}: {module_after}");
        last_module_dy = module_after;
    }
}

#[test]
fn ticks_before_due_do_not_perturb() {
    let mut entity = at(0);
    let mut m = IdleMicroExpression::new();
    m.update(&mut entity);
    let baseline_y = entity.face.mouth.center.y;
    for ms in 1..DEFAULT_INTERVAL_MIN_MS {
        entity.tick.now = Instant::from_millis(ms);
        m.update(&mut entity);
    }
    assert_eq!(entity.face.mouth.center.y, baseline_y);
}

#[test]
fn same_seed_produces_lockstep_mouth_offsets() {
    let seed = 0x1234_5678;
    let mut a_entity = at(0);
    let mut b_entity = at(0);
    let mut a = IdleMicroExpression::with_seed(seed);
    let mut b = IdleMicroExpression::with_seed(seed);
    for ms in 0..=DEFAULT_INTERVAL_MAX_MS * 6 {
        a_entity.tick.now = Instant::from_millis(ms);
        b_entity.tick.now = Instant::from_millis(ms);
        a.update(&mut a_entity);
        b.update(&mut b_entity);
        assert_eq!(a_entity.face.mouth.center.y, b_entity.face.mouth.center.y, "diverged at ms={ms}");
    }
}

#[test]
fn distinct_seeds_diverge_within_a_few_fires() {
    let mut a_entity = at(0);
    let mut b_entity = at(0);
    let mut a = IdleMicroExpression::with_seed(0xAAAA_AAAA);
    let mut b = IdleMicroExpression::with_seed(0x5555_5555);
    let mut diverged = false;
    for ms in 0..=DEFAULT_INTERVAL_MAX_MS * 10 {
        a_entity.tick.now = Instant::from_millis(ms);
        b_entity.tick.now = Instant::from_millis(ms);
        a.update(&mut a_entity);
        b.update(&mut b_entity);
        if a_entity.face.mouth.center.y != b_entity.face.mouth.center.y {
            diverged = true;
            break;
        }
    }
    assert!(diverged, "distinct seeds produced identical y sequences over a 60s horizon");
}
