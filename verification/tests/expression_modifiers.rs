use stackchan_core::face::{EyePhase, SCALE_DEFAULT};
use stackchan_core::modifiers::emotion_style::{targets_for, EmotionStyle};
use stackchan_core::modifiers::{Blink, Breath, EmotionCycle};
use stackchan_core::{Emotion, Entity, Instant, Modifier};

#[test]
fn first_update_leaves_eyes_open() {
    let mut entity = Entity::default();
    let mut blink = Blink::new();
    entity.tick.now = Instant::from_millis(0);
    blink.update(&mut entity);
    assert_eq!(entity.face.left_eye.phase, EyePhase::Open);
    assert_eq!(entity.face.right_eye.phase, EyePhase::Open);
    assert_eq!(entity.face.left_eye.weight, 100);
}

#[test]
fn blinks_after_open_window_elapses() {
    let mut entity = Entity::default();
    let mut blink = Blink::with_timing(100, 20);
    entity.tick.now = Instant::from_millis(0);
    blink.update(&mut entity);
    assert_eq!(entity.face.left_eye.phase, EyePhase::Open);
    entity.tick.now = Instant::from_millis(99);
    blink.update(&mut entity);
    assert_eq!(entity.face.left_eye.phase, EyePhase::Open);
    entity.tick.now = Instant::from_millis(100);
    blink.update(&mut entity);
    assert_eq!(entity.face.left_eye.phase, EyePhase::Closed);
    assert_eq!(entity.face.left_eye.weight, 0);
    assert_eq!(entity.face.right_eye.phase, EyePhase::Closed);
}

#[test]
fn reopens_after_closed_window_elapses() {
    let mut entity = Entity::default();
    let mut blink = Blink::with_timing(100, 20);
    entity.tick.now = Instant::from_millis(0);
    blink.update(&mut entity);
    entity.tick.now = Instant::from_millis(100);
    blink.update(&mut entity);
    assert_eq!(entity.face.left_eye.phase, EyePhase::Closed);
    entity.tick.now = Instant::from_millis(120);
    blink.update(&mut entity);
    assert_eq!(entity.face.left_eye.phase, EyePhase::Open);
    assert_eq!(entity.face.left_eye.weight, 100);
}

#[test]
fn cycle_repeats_indefinitely() {
    let mut entity = Entity::default();
    let mut blink = Blink::with_timing(100, 20);
    let mut transitions = 0_u32;
    let mut last_phase = EyePhase::Open;
    for ms in 0..=600 {
        entity.tick.now = Instant::from_millis(ms);
        blink.update(&mut entity);
        if entity.face.left_eye.phase != last_phase {
            transitions += 1;
            last_phase = entity.face.left_eye.phase;
        }
    }
    assert!(transitions >= 8, "only saw {transitions} transitions");
}

#[test]
fn open_weight_caps_reopen_amount() {
    let mut entity = Entity::default();
    entity.face.left_eye.open_weight = 55;
    entity.face.right_eye.open_weight = 55;
    let mut blink = Blink::with_timing(100, 20);
    entity.tick.now = Instant::from_millis(0);
    blink.update(&mut entity);
    assert_eq!(entity.face.left_eye.weight, 55);
    entity.tick.now = Instant::from_millis(100);
    blink.update(&mut entity);
    entity.tick.now = Instant::from_millis(120);
    blink.update(&mut entity);
    assert_eq!(entity.face.left_eye.phase, EyePhase::Open);
    assert_eq!(entity.face.left_eye.weight, 55);
}

#[test]
fn blink_rate_scale_zero_suppresses_blinks() {
    let mut entity = Entity::default();
    entity.face.style.blink_rate_scale = 0;
    let mut blink = Blink::with_timing(100, 20);
    for ms in 0..1_000 {
        entity.tick.now = Instant::from_millis(ms);
        blink.update(&mut entity);
        assert_eq!(entity.face.left_eye.phase, EyePhase::Open, "ms={ms}");
    }
}

#[test]
fn blink_resumes_after_rate_returns_to_nonzero() {
    let mut entity = Entity::default();
    let mut blink = Blink::with_timing(100, 20);
    entity.face.style.blink_rate_scale = 0;
    entity.tick.now = Instant::from_millis(0);
    blink.update(&mut entity);
    entity.tick.now = Instant::from_millis(500);
    blink.update(&mut entity);
    assert_eq!(entity.face.left_eye.phase, EyePhase::Open, "suppressed");
    entity.face.style.blink_rate_scale = SCALE_DEFAULT;
    entity.tick.now = Instant::from_millis(500);
    blink.update(&mut entity);
    entity.tick.now = Instant::from_millis(600);
    blink.update(&mut entity);
    assert_eq!(entity.face.left_eye.phase, EyePhase::Closed);
}

#[test]
fn rate_change_mid_open_takes_effect_on_next_tick() {
    let mut entity = Entity::default();
    entity.face.style.blink_rate_scale = 64;
    let mut blink = Blink::with_timing(200, 20);
    entity.tick.now = Instant::from_millis(0);
    blink.update(&mut entity);
    entity.tick.now = Instant::from_millis(200);
    blink.update(&mut entity);
    assert_eq!(entity.face.left_eye.phase, EyePhase::Open);
    entity.face.style.blink_rate_scale = 255;
    entity.tick.now = Instant::from_millis(200);
    blink.update(&mut entity);
    assert_eq!(
        entity.face.left_eye.phase,
        EyePhase::Closed,
        "faster rate should fire the blink on the same tick we crossed the new window"
    );
}

#[test]
fn open_weight_is_per_eye() {
    let mut entity = Entity::default();
    entity.face.left_eye.open_weight = 100;
    entity.face.right_eye.open_weight = 30;
    let mut blink = Blink::with_timing(100, 20);
    entity.tick.now = Instant::from_millis(0);
    blink.update(&mut entity);
    assert_eq!(entity.face.left_eye.weight, 100);
    assert_eq!(entity.face.right_eye.weight, 30, "right eye's open_weight preserved");
    entity.tick.now = Instant::from_millis(100);
    blink.update(&mut entity);
    entity.tick.now = Instant::from_millis(120);
    blink.update(&mut entity);
    assert_eq!(entity.face.left_eye.phase, EyePhase::Open);
    assert_eq!(entity.face.left_eye.weight, 100);
    assert_eq!(entity.face.right_eye.weight, 30);
}

#[test]
fn blink_rate_scale_slows_cadence() {
    let mut slow = Entity::default();
    slow.face.style.blink_rate_scale = 64;
    let mut fast = Entity::default();
    let mut slow_blink = Blink::with_timing(100, 20);
    let mut fast_blink = Blink::with_timing(100, 20);
    let mut slow_blinks = 0;
    let mut fast_blinks = 0;
    let (mut last_slow, mut last_fast) = (EyePhase::Open, EyePhase::Open);
    for ms in 0..=1_000 {
        slow.tick.now = Instant::from_millis(ms);
        slow_blink.update(&mut slow);
        fast.tick.now = Instant::from_millis(ms);
        fast_blink.update(&mut fast);
        if slow.face.left_eye.phase == EyePhase::Closed && last_slow == EyePhase::Open {
            slow_blinks += 1;
        }
        if fast.face.left_eye.phase == EyePhase::Closed && last_fast == EyePhase::Open {
            fast_blinks += 1;
        }
        last_slow = slow.face.left_eye.phase;
        last_fast = fast.face.left_eye.phase;
    }
    assert!(slow_blinks < fast_blinks, "slow_blinks={slow_blinks}, fast_blinks={fast_blinks}");
}

#[test]
fn zero_amplitude_is_noop() {
    let mut entity = Entity::default();
    let baseline_y = entity.face.left_eye.center.y;
    let mut breath = Breath::with_params(1000, 0);
    for ms in 0..2000 {
        entity.tick.now = Instant::from_millis(ms);
        breath.update(&mut entity);
    }
    assert_eq!(entity.face.left_eye.center.y, baseline_y);
}

#[test]
fn composes_across_ticks_without_drift() {
    let mut entity = Entity::default();
    let baseline_y = entity.face.left_eye.center.y;
    let mut breath = Breath::with_params(1000, 4);
    for ms in 0..=2000 {
        entity.tick.now = Instant::from_millis(ms);
        breath.update(&mut entity);
    }
    let final_y = entity.face.left_eye.center.y;
    let drift = (final_y - baseline_y).abs();
    assert!(drift <= 2, "drift {drift}px exceeds half-amplitude");
}

#[test]
fn depth_scale_zero_freezes_breath() {
    let mut entity = Entity::default();
    entity.face.style.breath_depth_scale = 0;
    let baseline_y = entity.face.left_eye.center.y;
    let mut breath = Breath::with_params(1000, 4);
    for ms in 0..=2000 {
        entity.tick.now = Instant::from_millis(ms);
        breath.update(&mut entity);
    }
    assert_eq!(entity.face.left_eye.center.y, baseline_y);
}

fn step(cycle: &mut EmotionCycle, entity: &mut Entity, ms: u64) {
    entity.tick.now = Instant::from_millis(ms);
    cycle.update(entity);
}

#[test]
fn first_tick_applies_head_of_sequence() {
    let mut entity = Entity::default();
    entity.mind.affect.emotion = Emotion::Surprised;
    let mut cycle = EmotionCycle::new();
    step(&mut cycle, &mut entity, 0);
    assert_eq!(entity.mind.affect.emotion, EmotionCycle::DEFAULT_SEQUENCE[0]);
}

#[test]
fn advances_on_dwell_boundary() {
    let mut entity = Entity::default();
    let mut cycle = EmotionCycle::with_params(&[Emotion::Neutral, Emotion::Happy, Emotion::Sad], 1_000);
    step(&mut cycle, &mut entity, 0);
    assert_eq!(entity.mind.affect.emotion, Emotion::Neutral);
    step(&mut cycle, &mut entity, 999);
    assert_eq!(entity.mind.affect.emotion, Emotion::Neutral);
    step(&mut cycle, &mut entity, 1_000);
    assert_eq!(entity.mind.affect.emotion, Emotion::Happy);
    step(&mut cycle, &mut entity, 2_000);
    assert_eq!(entity.mind.affect.emotion, Emotion::Sad);
}

#[test]
fn wraps_back_to_head() {
    let mut entity = Entity::default();
    let mut cycle = EmotionCycle::with_params(&[Emotion::Neutral, Emotion::Happy], 500);
    for s in 0..=6 {
        step(&mut cycle, &mut entity, s * 500);
    }
    assert_eq!(entity.mind.affect.emotion, Emotion::Neutral);
}

#[test]
fn skipped_ticks_advance_correct_number_of_steps() {
    let mut entity = Entity::default();
    let mut cycle = EmotionCycle::with_params(&[Emotion::Neutral, Emotion::Happy, Emotion::Sad, Emotion::Sleepy], 1_000);
    step(&mut cycle, &mut entity, 0);
    step(&mut cycle, &mut entity, 2_500);
    assert_eq!(entity.mind.affect.emotion, Emotion::Sad);
}

#[test]
fn manual_until_suppresses_advancement() {
    let mut entity = Entity::default();
    let mut cycle = EmotionCycle::with_params(&[Emotion::Neutral, Emotion::Happy, Emotion::Sad], 1_000);
    step(&mut cycle, &mut entity, 0);
    assert_eq!(entity.mind.affect.emotion, Emotion::Neutral);
    entity.mind.affect.emotion = Emotion::Happy;
    entity.mind.autonomy.manual_until = Some(Instant::from_millis(30_500));
    step(&mut cycle, &mut entity, 29_500);
    assert_eq!(entity.mind.affect.emotion, Emotion::Happy);
}

#[test]
fn cycle_resumes_cleanly_after_manual_hold() {
    let mut entity = Entity::default();
    let mut cycle = EmotionCycle::with_params(&[Emotion::Neutral, Emotion::Happy, Emotion::Sad], 1_000);
    step(&mut cycle, &mut entity, 0);
    entity.mind.affect.emotion = Emotion::Happy;
    entity.mind.autonomy.manual_until = Some(Instant::from_millis(30_500));
    step(&mut cycle, &mut entity, 15_000);
    step(&mut cycle, &mut entity, 29_000);
    entity.mind.autonomy.manual_until = None;
    step(&mut cycle, &mut entity, 29_000 + 1_000);
    assert_eq!(entity.mind.affect.emotion, Emotion::Happy);
    step(&mut cycle, &mut entity, 29_000 + 2_000);
    assert_eq!(entity.mind.affect.emotion, Emotion::Sad);
}

#[test]
fn empty_sequence_is_noop() {
    let mut entity = Entity::default();
    entity.mind.affect.emotion = Emotion::Happy;
    let mut cycle = EmotionCycle::with_params(&[], 1_000);
    step(&mut cycle, &mut entity, 0);
    step(&mut cycle, &mut entity, 10_000);
    assert_eq!(entity.mind.affect.emotion, Emotion::Happy);
}

fn style_step(style: &mut EmotionStyle, entity: &mut Entity, ms: u64) {
    entity.tick.now = Instant::from_millis(ms);
    style.update(entity);
}

#[test]
fn first_tick_snaps_to_desired_emotion() {
    let mut entity = Entity::default();
    entity.mind.affect.emotion = Emotion::Happy;
    let mut style = EmotionStyle::new();
    style_step(&mut style, &mut entity, 0);
    let happy = targets_for(Emotion::Happy);
    assert_eq!(entity.face.style.eye_curve, happy.eye_curve);
    assert_eq!(entity.face.style.mouth_curve, happy.mouth_curve);
    assert_eq!(entity.face.style.cheek_blush, happy.cheek_blush);
}

#[test]
fn easing_interpolates_over_transition_window() {
    let mut entity = Entity::default();
    entity.mind.affect.emotion = Emotion::Neutral;
    let mut style = EmotionStyle::with_transition_ms(300);
    style_step(&mut style, &mut entity, 0);
    entity.mind.affect.emotion = Emotion::Happy;
    style_step(&mut style, &mut entity, 0);
    style_step(&mut style, &mut entity, 150);
    let half = entity.face.style.eye_curve;
    assert!((25..=45).contains(&half), "expected eye_curve near 35 at half transition, got {half}");
    style_step(&mut style, &mut entity, 300);
    let happy = targets_for(Emotion::Happy);
    assert_eq!(entity.face.style.eye_curve, happy.eye_curve);
    assert_eq!(entity.face.style.cheek_blush, happy.cheek_blush);
}

#[test]
fn mid_transition_emotion_change_restarts_cleanly() {
    let mut entity = Entity::default();
    entity.mind.affect.emotion = Emotion::Neutral;
    let mut style = EmotionStyle::with_transition_ms(300);
    style_step(&mut style, &mut entity, 0);
    entity.mind.affect.emotion = Emotion::Happy;
    style_step(&mut style, &mut entity, 0);
    style_step(&mut style, &mut entity, 150);
    let mid_curve = entity.face.style.eye_curve;
    entity.mind.affect.emotion = Emotion::Sad;
    style_step(&mut style, &mut entity, 150);
    assert_eq!(entity.face.style.eye_curve, mid_curve);
    style_step(&mut style, &mut entity, 450);
    let sad = targets_for(Emotion::Sad);
    assert_eq!(entity.face.style.eye_curve, sad.eye_curve);
}

#[test]
fn surprised_suppresses_blink_rate() {
    let mut entity = Entity::default();
    entity.mind.affect.emotion = Emotion::Surprised;
    let mut style = EmotionStyle::new();
    style_step(&mut style, &mut entity, 0);
    style_step(&mut style, &mut entity, EmotionStyle::TRANSITION_MS);
    assert_eq!(entity.face.style.blink_rate_scale, 0);
    assert_eq!(entity.face.mouth.weight, 100);
}

#[test]
fn sleepy_droops_eye_open_weight() {
    let mut entity = Entity::default();
    entity.mind.affect.emotion = Emotion::Sleepy;
    let mut style = EmotionStyle::new();
    style_step(&mut style, &mut entity, 0);
    style_step(&mut style, &mut entity, EmotionStyle::TRANSITION_MS);
    let sleepy = targets_for(Emotion::Sleepy);
    assert_eq!(entity.face.left_eye.open_weight, sleepy.open_weight);
    assert_eq!(entity.face.right_eye.open_weight, sleepy.open_weight);
}

#[test]
fn blink_constructors_agree() {
    let mut blinks = [Blink::new(), Blink::default(), Blink::with_timing(5_200, 180)];
    let mut entities = [Entity::default(), Entity::default(), Entity::default()];
    for now in [0_u64, 5_199, 5_200, 5_379, 5_380] {
        for (b, e) in blinks.iter_mut().zip(entities.iter_mut()) {
            e.tick.now = Instant::from_millis(now);
            b.update(e);
        }
        assert_eq!(entities[0].face, entities[1].face, "at {now}");
        assert_eq!(entities[0].face, entities[2].face, "at {now}");
    }
    assert_eq!(entities[0].face.left_eye.phase, EyePhase::Open);
}
