use stackchan_core::bubble::BubbleState;
use stackchan_core::decorator::{Decorator, DecoratorState};
use stackchan_core::modifiers::decorator_from_body_touch::HEART_HOLD_MS;
use stackchan_core::modifiers::decorator_from_emotion::DECORATOR_EMOTION_HOLD_MS;
use stackchan_core::modifiers::decorator_from_listening::DECORATOR_TAIL_MS as LISTENING_TAIL_MS;
use stackchan_core::modifiers::decorator_from_shake::DIZZY_HOLD_MS;
use stackchan_core::modifiers::decorator_from_thinking::DECORATOR_TAIL_MS as THINKING_TAIL_MS;
use stackchan_core::modifiers::{
    BubbleExpiry, DecoratorExpiry, DecoratorFromBodyTouch, DecoratorFromEmotion, DecoratorFromListening,
    DecoratorFromShake, DecoratorFromThinking,
};
use stackchan_core::perception::BodyTouch;
use stackchan_core::{Attention, Emotion, Entity, Instant, Intent, Modifier};

#[test]
fn clears_bubble_on_or_after_deadline() {
    let mut entity = Entity::default();
    entity.face.bubble = Some(BubbleState { text: "hi", expires_at: Instant::from_millis(1_000) });
    let mut m = BubbleExpiry::new();
    entity.tick.now = Instant::from_millis(999);
    m.update(&mut entity);
    assert!(entity.face.bubble.is_some());
    entity.tick.now = Instant::from_millis(1_000);
    m.update(&mut entity);
    assert!(entity.face.bubble.is_none());
}

#[test]
fn noop_on_empty_bubble() {
    let mut entity = Entity::default();
    let mut m = BubbleExpiry::new();
    entity.tick.now = Instant::from_millis(99_999);
    m.update(&mut entity);
    assert!(entity.face.bubble.is_none());
}

#[test]
fn clears_decorator_on_or_after_deadline() {
    let mut entity = Entity::default();
    entity.face.decorator = Some(DecoratorState { kind: Decorator::Heart, expires_at: Instant::from_millis(1_000) });
    let mut m = DecoratorExpiry::new();
    entity.tick.now = Instant::from_millis(999);
    m.update(&mut entity);
    assert!(entity.face.decorator.is_some());
    entity.tick.now = Instant::from_millis(1_000);
    m.update(&mut entity);
    assert!(entity.face.decorator.is_none());
}

#[test]
fn noop_on_empty_decorator() {
    let mut entity = Entity::default();
    let mut m = DecoratorExpiry::new();
    entity.tick.now = Instant::from_millis(99_999);
    m.update(&mut entity);
    assert!(entity.face.decorator.is_none());
}

fn touch_step(m: &mut DecoratorFromBodyTouch, entity: &mut Entity, ms: u64) {
    entity.tick.now = Instant::from_millis(ms);
    m.update(entity);
}

#[test]
fn touch_on_happy_arms_heart() {
    let mut entity = Entity::default();
    entity.mind.affect.emotion = Emotion::Happy;
    entity.perception.body_touch = Some(BodyTouch { left: 0, centre: 2, right: 0 });
    let mut m = DecoratorFromBodyTouch::new();
    touch_step(&mut m, &mut entity, 0);
    let state = entity.face.decorator.expect("heart should be armed");
    assert_eq!(state.kind, Decorator::Heart);
    assert_eq!(state.expires_at, Instant::from_millis(HEART_HOLD_MS));
}

#[test]
fn touch_on_neutral_does_not_arm_heart() {
    let mut entity = Entity::default();
    entity.mind.affect.emotion = Emotion::Neutral;
    entity.perception.body_touch = Some(BodyTouch { left: 0, centre: 3, right: 0 });
    let mut m = DecoratorFromBodyTouch::new();
    touch_step(&mut m, &mut entity, 0);
    assert!(entity.face.decorator.is_none());
}

#[test]
fn sustained_touch_does_not_refresh_expiry() {
    let mut entity = Entity::default();
    entity.mind.affect.emotion = Emotion::Happy;
    entity.perception.body_touch = Some(BodyTouch { left: 0, centre: 2, right: 0 });
    let mut m = DecoratorFromBodyTouch::with_hold_ms(2_000);
    touch_step(&mut m, &mut entity, 0);
    let first_expiry = entity.face.decorator.unwrap().expires_at;
    touch_step(&mut m, &mut entity, 500);
    touch_step(&mut m, &mut entity, 1_000);
    let still_first = entity.face.decorator.unwrap().expires_at;
    assert_eq!(first_expiry, still_first);
}

#[test]
fn release_then_re_touch_re_arms() {
    let mut entity = Entity::default();
    entity.mind.affect.emotion = Emotion::Loved;
    let mut m = DecoratorFromBodyTouch::with_hold_ms(2_000);
    entity.perception.body_touch = Some(BodyTouch { left: 0, centre: 2, right: 0 });
    touch_step(&mut m, &mut entity, 0);
    let first = entity.face.decorator.unwrap().expires_at;
    entity.perception.body_touch = Some(BodyTouch::default());
    touch_step(&mut m, &mut entity, 500);
    entity.perception.body_touch = Some(BodyTouch { left: 1, centre: 1, right: 0 });
    touch_step(&mut m, &mut entity, 1_000);
    let second = entity.face.decorator.unwrap().expires_at;
    assert!(second > first, "re-armed expiry should be later than the original ({second:?} vs {first:?})");
}

fn emotion_step(m: &mut DecoratorFromEmotion, entity: &mut Entity, emotion: Emotion, ms: u64) {
    entity.mind.affect.emotion = emotion;
    entity.tick.now = Instant::from_millis(ms);
    m.update(entity);
}

#[test]
fn angry_edge_arms_angry_decorator() {
    let mut entity = Entity::default();
    let mut m = DecoratorFromEmotion::new();
    emotion_step(&mut m, &mut entity, Emotion::Neutral, 0);
    assert!(entity.face.decorator.is_none());
    emotion_step(&mut m, &mut entity, Emotion::Angry, 33);
    let state = entity.face.decorator.expect("angry decorator should arm");
    assert_eq!(state.kind, Decorator::Angry);
    assert_eq!(state.expires_at, Instant::from_millis(33 + DECORATOR_EMOTION_HOLD_MS));
}

#[test]
fn loved_edge_arms_shy_decorator() {
    let mut entity = Entity::default();
    let mut m = DecoratorFromEmotion::new();
    emotion_step(&mut m, &mut entity, Emotion::Neutral, 0);
    emotion_step(&mut m, &mut entity, Emotion::Loved, 100);
    let state = entity.face.decorator.expect("shy decorator should arm");
    assert_eq!(state.kind, Decorator::Shy);
}

#[test]
fn sustained_emotion_does_not_refresh_expiry() {
    let mut entity = Entity::default();
    let mut m = DecoratorFromEmotion::with_hold_ms(2_000);
    emotion_step(&mut m, &mut entity, Emotion::Neutral, 0);
    emotion_step(&mut m, &mut entity, Emotion::Angry, 33);
    let first = entity.face.decorator.unwrap().expires_at;
    emotion_step(&mut m, &mut entity, Emotion::Angry, 66);
    emotion_step(&mut m, &mut entity, Emotion::Angry, 99);
    let still_first = entity.face.decorator.unwrap().expires_at;
    assert_eq!(first, still_first);
}

#[test]
fn unmapped_emotion_does_nothing() {
    let mut entity = Entity::default();
    let mut m = DecoratorFromEmotion::new();
    for emotion in [
        Emotion::Neutral,
        Emotion::Happy,
        Emotion::Sad,
        Emotion::Sleepy,
        Emotion::Surprised,
        Emotion::Doubt,
        Emotion::Boring,
        Emotion::Hi,
        Emotion::Curious,
        Emotion::Confused,
        Emotion::Mad,
    ] {
        emotion_step(&mut m, &mut entity, emotion, 0);
    }
    assert!(entity.face.decorator.is_none());
}

#[test]
fn re_entry_to_angry_after_other_emotion_re_arms() {
    let mut entity = Entity::default();
    let mut m = DecoratorFromEmotion::new();
    emotion_step(&mut m, &mut entity, Emotion::Neutral, 0);
    emotion_step(&mut m, &mut entity, Emotion::Angry, 33);
    let first_expiry = entity.face.decorator.unwrap().expires_at;
    emotion_step(&mut m, &mut entity, Emotion::Sad, 100);
    emotion_step(&mut m, &mut entity, Emotion::Angry, 200);
    let second_expiry = entity.face.decorator.unwrap().expires_at;
    assert!(second_expiry > first_expiry);
}

#[test]
fn first_tick_in_unmapped_emotion_does_not_arm() {
    let mut entity = Entity::default();
    let mut m = DecoratorFromEmotion::new();
    emotion_step(&mut m, &mut entity, Emotion::Neutral, 0);
    assert!(entity.face.decorator.is_none());
}

#[test]
fn first_tick_already_in_angry_arms_decorator() {
    let mut entity = Entity::default();
    let mut m = DecoratorFromEmotion::new();
    emotion_step(&mut m, &mut entity, Emotion::Angry, 0);
    let state = entity.face.decorator.expect("angry decorator should arm");
    assert_eq!(state.kind, Decorator::Angry);
}

fn entity_with_attention(attention: Attention, now_ms: u64) -> Entity {
    let mut e = Entity::default();
    e.mind.attention = attention;
    e.tick.now = Instant::from_millis(now_ms);
    e
}

#[test]
fn arms_ear_while_listening() {
    let mut entity = entity_with_attention(Attention::Listening { since: Instant::from_millis(0) }, 33);
    let mut m = DecoratorFromListening::new();
    m.update(&mut entity);
    let state = entity.face.decorator.expect("Ear should be armed");
    assert_eq!(state.kind, Decorator::Ear);
    assert_eq!(state.expires_at, Instant::from_millis(33 + LISTENING_TAIL_MS));
}

#[test]
fn does_not_arm_when_not_listening() {
    let mut entity = entity_with_attention(Attention::Unfocused, 0);
    let mut m = DecoratorFromListening::new();
    m.update(&mut entity);
    assert!(entity.face.decorator.is_none());
}

#[test]
fn does_not_arm_for_tracking_attention() {
    let mut entity = entity_with_attention(Attention::Tracking { since: Instant::from_millis(0) }, 33);
    let mut m = DecoratorFromListening::new();
    m.update(&mut entity);
    assert!(entity.face.decorator.is_none());
}

#[test]
fn decorator_from_listening_refreshes_expiry_each_frame() {
    let mut entity = entity_with_attention(Attention::Listening { since: Instant::from_millis(0) }, 33);
    let mut m = DecoratorFromListening::new();
    m.update(&mut entity);
    let first = entity.face.decorator.expect("first arm").expires_at;
    entity.tick.now = Instant::from_millis(166);
    m.update(&mut entity);
    let second = entity.face.decorator.expect("re-arm").expires_at;
    assert!(second > first, "expiry must advance with `now` ({second:?} vs {first:?})");
}

#[test]
fn arms_thinking_while_thinking() {
    let mut entity = entity_with_attention(Attention::Thinking { since: Instant::from_millis(0) }, 33);
    let mut m = DecoratorFromThinking::new();
    m.update(&mut entity);
    let state = entity.face.decorator.expect("Thinking should be armed");
    assert_eq!(state.kind, Decorator::Thinking);
    assert_eq!(state.expires_at, Instant::from_millis(33 + THINKING_TAIL_MS));
}

#[test]
fn does_not_arm_when_not_thinking() {
    let mut entity = entity_with_attention(Attention::Unfocused, 0);
    let mut m = DecoratorFromThinking::new();
    m.update(&mut entity);
    assert!(entity.face.decorator.is_none());
}

#[test]
fn does_not_arm_for_listening_attention() {
    let mut entity = entity_with_attention(Attention::Listening { since: Instant::from_millis(0) }, 33);
    let mut m = DecoratorFromThinking::new();
    m.update(&mut entity);
    assert!(entity.face.decorator.is_none());
}

#[test]
fn decorator_from_thinking_refreshes_expiry_each_frame() {
    let mut entity = entity_with_attention(Attention::Thinking { since: Instant::from_millis(0) }, 33);
    let mut m = DecoratorFromThinking::new();
    m.update(&mut entity);
    let first = entity.face.decorator.expect("first arm").expires_at;
    entity.tick.now = Instant::from_millis(166);
    m.update(&mut entity);
    let second = entity.face.decorator.expect("re-arm").expires_at;
    assert!(second > first, "expiry must advance with `now` ({second:?} vs {first:?})");
}

fn shake_step(m: &mut DecoratorFromShake, entity: &mut Entity, intent: Intent, ms: u64) {
    entity.mind.intent = intent;
    entity.tick.now = Instant::from_millis(ms);
    m.update(entity);
}

#[test]
fn shake_edge_arms_dizzy() {
    let mut entity = Entity::default();
    let mut m = DecoratorFromShake::new();
    shake_step(&mut m, &mut entity, Intent::Idle, 0);
    assert!(entity.face.decorator.is_none());
    shake_step(&mut m, &mut entity, Intent::Shaken, 33);
    let state = entity.face.decorator.expect("dizzy should arm");
    assert_eq!(state.kind, Decorator::Dizzy);
    assert_eq!(state.expires_at, Instant::from_millis(33 + DIZZY_HOLD_MS));
}

#[test]
fn sustained_shaken_does_not_refresh_expiry() {
    let mut entity = Entity::default();
    let mut m = DecoratorFromShake::with_hold_ms(4_000);
    shake_step(&mut m, &mut entity, Intent::Idle, 0);
    shake_step(&mut m, &mut entity, Intent::Shaken, 33);
    let first = entity.face.decorator.unwrap().expires_at;
    shake_step(&mut m, &mut entity, Intent::Shaken, 66);
    shake_step(&mut m, &mut entity, Intent::Shaken, 99);
    let still_first = entity.face.decorator.unwrap().expires_at;
    assert_eq!(first, still_first);
}

#[test]
fn intent_other_than_shaken_does_nothing() {
    let mut entity = Entity::default();
    let mut m = DecoratorFromShake::new();
    for intent in [Intent::Idle, Intent::Listen, Intent::Tilted, Intent::PickedUp, Intent::BeingPet, Intent::Startled] {
        shake_step(&mut m, &mut entity, intent, 0);
    }
    assert!(entity.face.decorator.is_none());
}

#[test]
fn re_arm_after_intent_clears_and_returns_to_shaken() {
    let mut entity = Entity::default();
    let mut m = DecoratorFromShake::with_hold_ms(4_000);
    shake_step(&mut m, &mut entity, Intent::Idle, 0);
    shake_step(&mut m, &mut entity, Intent::Shaken, 33);
    let first = entity.face.decorator.expect("first shake arms").expires_at;
    shake_step(&mut m, &mut entity, Intent::Idle, 1_000);
    shake_step(&mut m, &mut entity, Intent::Shaken, 5_000);
    let second = entity.face.decorator.expect("second shake re-arms").expires_at;
    assert!(second > first, "second arm should produce a later expiry ({second:?} vs {first:?})");
    assert_eq!(second, Instant::from_millis(5_000 + 4_000));
}

#[test]
fn shake_overwrites_existing_decorator_on_edge() {
    let mut entity = Entity::default();
    entity.face.decorator = Some(DecoratorState::hold_for(Decorator::Heart, Instant::from_millis(0), 5_000));
    let mut m = DecoratorFromShake::new();
    shake_step(&mut m, &mut entity, Intent::Idle, 0);
    shake_step(&mut m, &mut entity, Intent::Shaken, 33);
    let state = entity.face.decorator.expect("decorator should be present");
    assert_eq!(state.kind, Decorator::Dizzy);
    assert_eq!(state.expires_at, Instant::from_millis(33 + DIZZY_HOLD_MS));
}

#[test]
fn boot_directly_into_shaken_arms_on_first_tick() {
    let mut entity = Entity::default();
    let mut m = DecoratorFromShake::new();
    shake_step(&mut m, &mut entity, Intent::Shaken, 0);
    let state = entity.face.decorator.expect("boot-into-shaken arms Dizzy");
    assert_eq!(state.kind, Decorator::Dizzy);
    assert_eq!(state.expires_at, Instant::from_millis(DIZZY_HOLD_MS));
}
