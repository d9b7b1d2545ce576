use stackchan_core::modifiers::intent_from_body_touch::{
    DEFAULT_CENTRE_PRESS, DEFAULT_LEFT_PRESS, DEFAULT_RIGHT_PRESS, DEFAULT_SWIPE_BACKWARD, DEFAULT_SWIPE_FORWARD,
};
use stackchan_core::modifiers::intent_style::PETTING_BLUSH_BUMP;
use stackchan_core::modifiers::{IntentFromBodyTouch, IntentReflex, IntentStyle, MANUAL_HOLD_MS};
use stackchan_core::perception::BodyTouch;
use stackchan_core::{ChirpKind, Emotion, Entity, Instant, Intent, Modifier, OverrideSource};

fn entity_with_touch(touch: Option<BodyTouch>) -> Entity {
    let mut e = Entity::default();
    e.perception.body_touch = touch;
    e
}

fn run(m: &mut IntentFromBodyTouch, entity: &mut Entity, now_ms: u64) {
    entity.tick.now = Instant::from_millis(now_ms);
    m.update(entity);
}

#[test]
fn no_perception_does_nothing() {
    let mut m = IntentFromBodyTouch::new();
    let mut entity = entity_with_touch(None);
    run(&mut m, &mut entity, 100);
    assert_eq!(entity.mind.affect.emotion, Emotion::Neutral);
    assert!(entity.mind.autonomy.manual_until.is_none());
}

#[test]
fn press_left_sets_sleepy() {
    let mut m = IntentFromBodyTouch::new();
    let mut entity = entity_with_touch(Some(BodyTouch { left: 3, ..BodyTouch::default() }));
    run(&mut m, &mut entity, 100);
    assert_eq!(entity.mind.affect.emotion, DEFAULT_LEFT_PRESS);
    assert_eq!(entity.mind.autonomy.source, Some(OverrideSource::BodyTouch));
}

#[test]
fn press_centre_sets_happy_even_with_other_zones() {
    let mut m = IntentFromBodyTouch::new();
    let mut entity = entity_with_touch(Some(BodyTouch { left: 3, centre: 3, right: 3 }));
    run(&mut m, &mut entity, 100);
    assert_eq!(entity.mind.affect.emotion, DEFAULT_CENTRE_PRESS);
}

#[test]
fn sustained_touch_does_not_re_extend_hold() {
    let mut m = IntentFromBodyTouch::new();
    let mut entity = entity_with_touch(Some(BodyTouch { centre: 3, ..BodyTouch::default() }));
    run(&mut m, &mut entity, 100);
    let first_hold = entity.mind.autonomy.manual_until;
    for t in (200..2_000).step_by(100) {
        run(&mut m, &mut entity, t);
    }
    assert_eq!(entity.mind.autonomy.manual_until, first_hold);
}

#[test]
fn release_then_press_fires_again() {
    let mut m = IntentFromBodyTouch::new();
    let mut entity = entity_with_touch(Some(BodyTouch { left: 3, ..BodyTouch::default() }));
    run(&mut m, &mut entity, 100);
    assert_eq!(entity.mind.affect.emotion, DEFAULT_LEFT_PRESS);
    entity.perception.body_touch = Some(BodyTouch::default());
    run(&mut m, &mut entity, 200);
    entity.perception.body_touch = Some(BodyTouch { right: 3, ..BodyTouch::default() });
    run(&mut m, &mut entity, 300);
    assert_eq!(entity.mind.affect.emotion, DEFAULT_RIGHT_PRESS);
}

#[test]
fn left_to_right_slide_fires_swipe_forward() {
    let mut m = IntentFromBodyTouch::new();
    let mut entity = entity_with_touch(Some(BodyTouch { left: 3, ..BodyTouch::default() }));
    run(&mut m, &mut entity, 100);
    assert_eq!(entity.mind.affect.emotion, DEFAULT_LEFT_PRESS);
    entity.perception.body_touch = Some(BodyTouch { left: 0, centre: 0, right: 3 });
    run(&mut m, &mut entity, 200);
    assert_eq!(entity.mind.affect.emotion, DEFAULT_SWIPE_FORWARD);
}

#[test]
fn right_to_left_slide_fires_swipe_backward() {
    let mut m = IntentFromBodyTouch::new();
    let mut entity = entity_with_touch(Some(BodyTouch { right: 3, ..BodyTouch::default() }));
    run(&mut m, &mut entity, 100);
    assert_eq!(entity.mind.affect.emotion, DEFAULT_RIGHT_PRESS);
    entity.perception.body_touch = Some(BodyTouch { left: 3, centre: 0, right: 0 });
    run(&mut m, &mut entity, 200);
    assert_eq!(entity.mind.affect.emotion, DEFAULT_SWIPE_BACKWARD);
}

#[test]
fn swipe_does_not_re_fire_within_a_run() {
    let mut m = IntentFromBodyTouch::new();
    let mut entity = entity_with_touch(Some(BodyTouch { left: 3, ..BodyTouch::default() }));
    run(&mut m, &mut entity, 100);
    entity.perception.body_touch = Some(BodyTouch { right: 3, ..BodyTouch::default() });
    run(&mut m, &mut entity, 200);
    let after_swipe = entity.mind.autonomy.manual_until;
    for t in (300..2_000).step_by(100) {
        run(&mut m, &mut entity, t);
    }
    assert_eq!(entity.mind.autonomy.manual_until, after_swipe);
}

#[test]
fn small_centroid_drift_does_not_trigger_swipe() {
    let mut m = IntentFromBodyTouch::new();
    let mut entity = entity_with_touch(Some(BodyTouch { centre: 3, ..BodyTouch::default() }));
    run(&mut m, &mut entity, 100);
    let after_press = entity.mind.affect.emotion;
    entity.perception.body_touch = Some(BodyTouch { centre: 3, right: 1, ..BodyTouch::default() });
    run(&mut m, &mut entity, 200);
    assert_eq!(entity.mind.affect.emotion, after_press);
}

fn at(now_ms: u64) -> Entity {
    let mut e = Entity::default();
    e.tick.now = Instant::from_millis(now_ms);
    e
}

#[test]
fn idle_does_not_fire() {
    let mut m = IntentReflex::new();
    let mut entity = at(0);
    for t in (0..500).step_by(33) {
        entity.tick.now = Instant::from_millis(t);
        m.update(&mut entity);
    }
    assert_eq!(entity.mind.affect.emotion, Emotion::Neutral);
    assert!(entity.mind.autonomy.manual_until.is_none());
    assert!(entity.voice.chirp_request.is_none());
}

#[test]
fn picked_up_transition_fires_surprised_with_chirp() {
    let mut m = IntentReflex::new();
    let mut entity = at(0);
    m.update(&mut entity);
    entity.tick.now = Instant::from_millis(33);
    entity.mind.intent = Intent::PickedUp;
    m.update(&mut entity);
    assert_eq!(entity.mind.affect.emotion, Emotion::Surprised);
    assert_eq!(entity.mind.autonomy.manual_until, Some(Instant::from_millis(33 + MANUAL_HOLD_MS)));
    assert_eq!(entity.mind.autonomy.source, Some(OverrideSource::Pickup));
    assert_eq!(entity.voice.chirp_request, Some(ChirpKind::Pickup));
}

#[test]
fn shaken_transition_fires_angry_no_chirp() {
    let mut m = IntentReflex::new();
    let mut entity = at(0);
    m.update(&mut entity);
    entity.tick.now = Instant::from_millis(33);
    entity.mind.intent = Intent::Shaken;
    m.update(&mut entity);
    assert_eq!(entity.mind.affect.emotion, Emotion::Angry);
    assert_eq!(entity.mind.autonomy.source, Some(OverrideSource::Shake));
    assert!(entity.voice.chirp_request.is_none(), "no Shake chirp variant exists yet");
}

#[test]
fn tilted_does_not_fire() {
    let mut m = IntentReflex::new();
    let mut entity = at(0);
    m.update(&mut entity);
    entity.tick.now = Instant::from_millis(33);
    entity.mind.intent = Intent::Tilted;
    m.update(&mut entity);
    assert_eq!(entity.mind.affect.emotion, Emotion::Neutral);
    assert!(entity.mind.autonomy.manual_until.is_none());
    assert!(entity.voice.chirp_request.is_none());
}

#[test]
fn sustained_picked_up_only_fires_once() {
    let mut m = IntentReflex::new();
    let mut entity = at(0);
    entity.mind.intent = Intent::PickedUp;
    m.update(&mut entity);
    let first_until = entity.mind.autonomy.manual_until;
    entity.voice.chirp_request = None;
    for t in (33..1_000).step_by(33) {
        entity.tick.now = Instant::from_millis(t);
        m.update(&mut entity);
    }
    assert_eq!(entity.mind.autonomy.manual_until, first_until, "sustained intent must not keep extending the hold");
    assert!(entity.voice.chirp_request.is_none(), "sustained intent must not re-chirp");
}

#[test]
fn touch_hold_blocks_pickup_reflex() {
    let mut m = IntentReflex::new();
    let mut entity = at(0);
    entity.mind.affect.emotion = Emotion::Happy;
    entity.mind.autonomy.manual_until = Some(Instant::from_millis(MANUAL_HOLD_MS));
    m.update(&mut entity);
    entity.tick.now = Instant::from_millis(33);
    entity.mind.intent = Intent::PickedUp;
    m.update(&mut entity);
    assert_eq!(entity.mind.affect.emotion, Emotion::Happy, "explicit touch hold beats pickup reflex");
    assert_eq!(entity.mind.autonomy.manual_until, Some(Instant::from_millis(MANUAL_HOLD_MS)));
    assert!(entity.voice.chirp_request.is_none());
}

#[test]
fn reflex_fires_after_touch_hold_expires() {
    let mut m = IntentReflex::new();
    let mut entity = at(0);
    entity.mind.affect.emotion = Emotion::Happy;
    entity.mind.autonomy.manual_until = Some(Instant::from_millis(1_000));
    m.update(&mut entity);
    entity.tick.now = Instant::from_millis(500);
    entity.mind.intent = Intent::PickedUp;
    m.update(&mut entity);
    assert_eq!(entity.mind.affect.emotion, Emotion::Happy);
    entity.tick.now = Instant::from_millis(1_500);
    entity.mind.intent = Intent::Idle;
    entity.mind.autonomy.manual_until = None;
    m.update(&mut entity);
    entity.tick.now = Instant::from_millis(2_000);
    entity.mind.intent = Intent::PickedUp;
    m.update(&mut entity);
    assert_eq!(entity.mind.affect.emotion, Emotion::Surprised);
}

#[test]
fn pickup_then_release_then_pickup_re_fires() {
    let mut m = IntentReflex::new();
    let mut entity = at(0);
    entity.mind.intent = Intent::PickedUp;
    m.update(&mut entity);
    assert_eq!(entity.mind.affect.emotion, Emotion::Surprised);
    entity.mind.intent = Intent::Idle;
    entity.mind.autonomy.manual_until = None;
    entity.mind.affect.emotion = Emotion::Neutral;
    entity.tick.now = Instant::from_millis(40_000);
    m.update(&mut entity);
    entity.tick.now = Instant::from_millis(40_033);
    entity.mind.intent = Intent::PickedUp;
    m.update(&mut entity);
    assert_eq!(entity.mind.affect.emotion, Emotion::Surprised);
}

#[test]
fn picked_up_to_shaken_re_fires_with_angry() {
    let mut m = IntentReflex::new();
    let mut entity = at(0);
    entity.mind.intent = Intent::PickedUp;
    m.update(&mut entity);
    assert_eq!(entity.mind.affect.emotion, Emotion::Surprised);
    entity.mind.autonomy.manual_until = None;
    entity.voice.chirp_request = None;
    entity.tick.now = Instant::from_millis(33);
    entity.mind.intent = Intent::Shaken;
    m.update(&mut entity);
    assert_eq!(entity.mind.affect.emotion, Emotion::Angry);
    assert_eq!(entity.mind.autonomy.source, Some(OverrideSource::Shake));
}

fn entity_with(intent: Intent, base_blush: u8) -> Entity {
    let mut e = Entity::default();
    e.mind.intent = intent;
    e.face.style.cheek_blush = base_blush;
    e
}

#[test]
fn idle_intent_does_not_change_blush() {
    let mut m = IntentStyle::new();
    let mut entity = entity_with(Intent::Idle, 100);
    m.update(&mut entity);
    assert_eq!(entity.face.style.cheek_blush, 100);
}

#[test]
fn listen_intent_does_not_change_blush() {
    let mut m = IntentStyle::new();
    let mut entity = entity_with(Intent::Listen, 100);
    m.update(&mut entity);
    assert_eq!(entity.face.style.cheek_blush, 100);
}

#[test]
fn hearing_loud_intent_does_not_change_blush() {
    let mut m = IntentStyle::new();
    let mut entity = entity_with(Intent::HearingLoud, 100);
    m.update(&mut entity);
    assert_eq!(entity.face.style.cheek_blush, 100);
}

#[test]
fn being_pet_adds_bump_on_top_of_upstream() {
    let mut m = IntentStyle::new();
    let mut entity = entity_with(Intent::BeingPet, 100);
    m.update(&mut entity);
    assert_eq!(entity.face.style.cheek_blush, 100 + PETTING_BLUSH_BUMP);
}

#[test]
fn being_pet_saturates_at_max() {
    let mut m = IntentStyle::new();
    let mut entity = entity_with(Intent::BeingPet, 250);
    m.update(&mut entity);
    assert_eq!(entity.face.style.cheek_blush, 255);
}

#[test]
fn intent_change_to_idle_returns_to_upstream_after_emotionstyle_rewrites() {
    let mut m = IntentStyle::new();
    let mut entity = entity_with(Intent::BeingPet, 100);
    m.update(&mut entity);
    assert_eq!(entity.face.style.cheek_blush, 130);
    entity.face.style.cheek_blush = 70;
    entity.mind.intent = Intent::Idle;
    m.update(&mut entity);
    assert_eq!(entity.face.style.cheek_blush, 70);
}

#[test]
fn sustained_being_pet_keeps_bump_stable_across_ticks() {
    let mut m = IntentStyle::new();
    let mut entity = entity_with(Intent::BeingPet, 100);
    m.update(&mut entity);
    assert_eq!(entity.face.style.cheek_blush, 130);
    entity.face.style.cheek_blush = 100;
    m.update(&mut entity);
    assert_eq!(entity.face.style.cheek_blush, 130);
}
