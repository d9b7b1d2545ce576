use stackchan_core::clock::Instant;
use stackchan_core::dance::{sample_channels, script_finished, Keyframe, SCRIPT_TAIL_MS};
use stackchan_core::decorator::Decorator;
use stackchan_core::mind::OverrideSource;
use stackchan_core::modifiers::dance_player::{DanceChannels, DANCE_AUTONOMY_HOLD_MS};
use stackchan_core::modifiers::head_from_body_gesture::reaction_signs;
use stackchan_core::{Emotion, Entity};

/// One playback tick of the avatar and LED channels: release past the end,
/// otherwise apply the sample at the elapsed time. Returns whether the
/// script is still active.
fn tick(channels: &mut DanceChannels, keyframes: &[Keyframe], started_ms: u64, entity: &mut Entity, led: &mut Option<[u8; 3]>, now_ms: u64) -> bool {
    let now = Instant::from_millis(now_ms);
    entity.tick.now = now;
    let elapsed = (now_ms - started_ms) as u32;
    if script_finished(keyframes, elapsed) {
        channels.release(entity, led);
        return false;
    }
    let sample = sample_channels(keyframes, elapsed);
    channels.apply(entity, led, &sample, now);
    true
}

fn rgb_frame(at_ms: u32, emotion: Option<Emotion>, rgb: (u8, u8, u8)) -> Keyframe {
    Keyframe { at_ms, emotion, r: Some(rgb.0), g: Some(rgb.1), b: Some(rgb.2), ..Keyframe::default() }
}

#[test]
fn idle_player_writes_nothing() {
    let mut channels = DanceChannels::new();
    let mut entity = Entity::default();
    let before = entity;
    let mut led = None;
    channels.release(&mut entity, &mut led);
    assert_eq!(led, None);
    assert!(entity.frame_eq(&before));
    assert_eq!(entity.mind, before.mind);
}

#[test]
fn loaded_script_writes_first_keyframe_at_t0() {
    let script = vec![rgb_frame(0, Some(Emotion::Happy), (255, 100, 0))];
    let mut channels = DanceChannels::new();
    let mut entity = Entity::default();
    let mut led = None;
    assert!(tick(&mut channels, &script, 1_000, &mut entity, &mut led, 1_000));
    assert_eq!(entity.mind.affect.emotion, Emotion::Happy);
    assert_eq!(led, Some([255, 100, 0]));
    assert_eq!(entity.mind.autonomy.source, Some(OverrideSource::Remote));
    assert_eq!(entity.mind.autonomy.manual_until, Some(Instant::from_millis(1_000 + DANCE_AUTONOMY_HOLD_MS)));
}

#[test]
fn player_holds_unset_channels_at_prior_value() {
    let script = vec![rgb_frame(0, Some(Emotion::Happy), (10, 20, 30)), Keyframe { at_ms: 500, ..Keyframe::default() }];
    let mut channels = DanceChannels::new();
    let mut entity = Entity::default();
    let mut led = None;
    assert!(tick(&mut channels, &script, 0, &mut entity, &mut led, 600));
    assert_eq!(entity.mind.affect.emotion, Emotion::Happy);
    assert_eq!(led, Some([10, 20, 30]));
}

#[test]
fn script_completion_releases_overrides() {
    let script = vec![rgb_frame(0, Some(Emotion::Happy), (255, 0, 0))];
    let mut channels = DanceChannels::new();
    let mut entity = Entity::default();
    let mut led = None;
    assert!(tick(&mut channels, &script, 0, &mut entity, &mut led, 0));
    assert_eq!(led, Some([255, 0, 0]));
    let active = tick(&mut channels, &script, 0, &mut entity, &mut led, u64::from(SCRIPT_TAIL_MS) + 100);
    assert_eq!(led, None);
    assert!(!active);
    assert_eq!(entity.mind.autonomy.source, None);
    assert_eq!(entity.mind.autonomy.manual_until, None);
}

#[test]
fn sample_channels_picks_most_recent_per_channel() {
    let kfs = vec![
        Keyframe { at_ms: 0, emotion: Some(Emotion::Sleepy), ..Keyframe::default() },
        Keyframe { at_ms: 100, ..Keyframe::default() },
        Keyframe { at_ms: 200, emotion: Some(Emotion::Happy), ..Keyframe::default() },
    ];
    let s = sample_channels(&kfs, 150);
    assert_eq!(s.emotion, Some(Emotion::Sleepy));
    let s = sample_channels(&kfs, 250);
    assert_eq!(s.emotion, Some(Emotion::Happy));
}

#[test]
fn sample_before_first_keyframe_returns_default_pose() {
    let kfs = vec![Keyframe { at_ms: 100, ..Keyframe::default() }];
    let s = sample_channels(&kfs, 50);
    assert_eq!(s.emotion, None);
    assert_eq!(s.decorator, None);
    assert_eq!(s.led, None);
}

#[test]
fn dance_player_default_matches_new() {
    let from_default = DanceChannels::default();
    let from_new = DanceChannels::new();
    assert_eq!(from_default.held_emotion, from_new.held_emotion);
    assert_eq!(from_default.held_decorator, from_new.held_decorator);
    assert_eq!(from_default.held_led, from_new.held_led);
}

#[test]
fn sampled_decorator_is_held_briefly() {
    let script = vec![Keyframe { at_ms: 0, decorator: Some(Decorator::Heart), ..Keyframe::default() }];
    let mut channels = DanceChannels::new();
    let mut entity = Entity::default();
    let mut led = None;
    assert!(tick(&mut channels, &script, 0, &mut entity, &mut led, 50));
    let d = entity.face.decorator.unwrap();
    assert_eq!(d.kind, Decorator::Heart);
    assert_eq!(d.expires_at, Instant::from_millis(50 + DANCE_AUTONOMY_HOLD_MS));
    assert!(channels.held_decorator);
    assert!(!tick(&mut channels, &script, 0, &mut entity, &mut led, 1_000));
    assert_eq!(entity.face.decorator, None);
}

#[test]
fn release_leaves_foreign_autonomy_pin() {
    let script = vec![Keyframe { at_ms: 0, emotion: Some(Emotion::Sad), ..Keyframe::default() }];
    let mut channels = DanceChannels::new();
    let mut entity = Entity::default();
    let mut led = None;
    assert!(tick(&mut channels, &script, 0, &mut entity, &mut led, 0));
    entity.mind.autonomy.source = Some(OverrideSource::Touch);
    channels.release(&mut entity, &mut led);
    assert_eq!(entity.mind.autonomy.source, Some(OverrideSource::Touch));
    assert!(entity.mind.autonomy.manual_until.is_some());
    assert!(!channels.held_emotion);
}

#[test]
fn colourless_keyframe_clears_dance_led() {
    let script = vec![rgb_frame(0, None, (1, 2, 3)), Keyframe { at_ms: 10, ..Keyframe::default() }];
    let mut channels = DanceChannels::new();
    let mut entity = Entity::default();
    let mut led = None;
    assert!(tick(&mut channels, &script, 0, &mut entity, &mut led, 0));
    assert_eq!(led, Some([1, 2, 3]));
    // The sample keeps the last colour: still held.
    assert!(tick(&mut channels, &script, 0, &mut entity, &mut led, 20));
    assert_eq!(led, Some([1, 2, 3]));
    // A sample without colour clears only an override the dance set.
    let mut foreign = Some([9, 9, 9]);
    let mut fresh = DanceChannels::new();
    fresh.apply(&mut entity, &mut foreign, &sample_channels(&[], 0), Instant::from_millis(0));
    assert_eq!(foreign, Some([9, 9, 9]));
    channels.apply(&mut entity, &mut led, &sample_channels(&[], 0), Instant::from_millis(0));
    assert_eq!(led, None);
}

#[test]
fn random_signs_are_deterministic() {
    let a = reaction_signs(Instant::from_millis(100));
    let b = reaction_signs(Instant::from_millis(100));
    assert_eq!(a, b);
}

#[test]
fn random_signs_are_pm_one() {
    let expected = [
        (0u64, (true, true)),
        (1, (true, false)),
        (2, (false, true)),
        (3, (true, false)),
        (100, (false, false)),
        (12_345, (false, false)),
        (999_999, (true, false)),
    ];
    for (ms, signs) in expected {
        let (pan_negative, tilt_negative) = reaction_signs(Instant::from_millis(ms));
        let pan: f32 = if pan_negative { -1.0 } else { 1.0 };
        let tilt: f32 = if tilt_negative { -1.0 } else { 1.0 };
        assert!(pan.abs() == 1.0);
        assert!(tilt.abs() == 1.0);
        assert_eq!((pan_negative, tilt_negative), signs);
    }
}
