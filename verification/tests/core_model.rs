use stackchan_core::dance::{validate, DanceError, DanceScript, Keyframe};
use stackchan_core::director::{priority_slot, skill_in_lane, undeclared_write};
use stackchan_core::face::{FaceGeometry, Point};
use stackchan_core::mind::Intent;
use stackchan_core::palette::Palette;
use stackchan_core::{
    render_leds, Director, Emotion, Entity, EyePhase, Face, Field, Instant, LedFrame, Modifier, ModifierMeta, Phase,
    Skill, SkillMeta, SkillStatus,
};

#[test]
fn default_face_eyes_symmetric() {
    let f = Face::default();
    let left_offset = 160 - f.left_eye.center.x;
    let right_offset = f.right_eye.center.x - 160;
    assert_eq!(left_offset, right_offset);
}

#[test]
fn face_geometry_default_baseline_matches_legacy_face_default() {
    let baseline = FaceGeometry::Default.baseline();
    let legacy = Face::default();
    assert_eq!(baseline.0.center, legacy.left_eye.center);
    assert_eq!(baseline.0.radius_x, legacy.left_eye.radius_x);
    assert_eq!(baseline.0.radius_y, legacy.left_eye.radius_y);
    assert_eq!(baseline.1.center, legacy.right_eye.center);
    assert_eq!(baseline.2.center, legacy.mouth.center);
    assert_eq!(baseline.2.radius_x, legacy.mouth.radius_x);
    assert_eq!(baseline.2.radius_y, legacy.mouth.radius_y);
}

#[test]
fn set_geometry_preserves_dynamic_state() {
    let mut face = Face::default();
    face.left_eye.phase = EyePhase::Closed;
    face.left_eye.weight = 30;
    face.left_eye.open_weight = 80;
    face.right_eye.weight = 25;
    face.mouth.weight = 50;
    face.set_geometry(FaceGeometry::Chibi);
    assert_eq!(face.geometry, FaceGeometry::Chibi);
    assert_eq!(face.left_eye.center, Point::new(105, 115));
    assert_eq!(face.left_eye.radius_x, 32);
    assert_eq!(face.left_eye.phase, EyePhase::Closed);
    assert_eq!(face.left_eye.weight, 30);
    assert_eq!(face.left_eye.open_weight, 80);
    assert_eq!(face.right_eye.weight, 25);
    assert_eq!(face.mouth.weight, 50);
}

#[test]
fn with_geometry_starts_from_default_dynamic_state() {
    let face = Face::with_geometry(FaceGeometry::Wide);
    assert_eq!(face.geometry, FaceGeometry::Wide);
    assert_eq!(face.left_eye.center, Point::new(85, 105));
    assert_eq!(face.left_eye.phase, EyePhase::Open);
    assert_eq!(face.left_eye.weight, 100);
    assert_eq!(face.mouth.weight, 0);
}

#[test]
fn default_face_has_no_battery_overlay() {
    assert!(Face::default().battery_overlay.is_none());
}

#[test]
fn default_is_neutral() {
    let e = Entity::default();
    assert_eq!(e.mind.affect.emotion, Emotion::default());
    assert_eq!(e.mind.autonomy.manual_until, None);
    assert_eq!(e.mind.autonomy.source, None);
    assert_eq!(e.face.left_eye.phase, EyePhase::Open);
    assert_eq!(e.tick.frame, 0);
}

#[test]
fn frame_eq_ignores_non_face_state() {
    let mut a = Entity::default();
    let mut b = Entity::default();
    b.perception.battery_percent = Some(42);
    b.tick.frame = 100;
    assert!(a.frame_eq(&b), "non-face state must not affect frame_eq");
    a.face.style.eye_curve = 50;
    assert!(!a.frame_eq(&b), "face state must affect frame_eq");
}

#[test]
fn palette_swap_is_a_new_frame() {
    let a = Entity::default();
    let mut b = Entity::default();
    assert_eq!(a.face.palette, Palette::Default);
    b.face.palette = Palette::Dark;
    assert!(!a.frame_eq(&b), "a palette swap must repaint");
    b.face.palette = Palette::Default;
    assert!(a.frame_eq(&b));
}

fn meta(name: &'static str, phase: Phase, priority: i8) -> ModifierMeta {
    ModifierMeta {
        name,
        description: "test fixture",
        phase,
        priority,
        reads: vec![Field::LeftEyeWeight],
        writes: vec![Field::LeftEyeWeight],
    }
}

/// Test fixture: a modifier that records the order it was called.
struct OrderRecorder {
    name: &'static str,
    phase: Phase,
    priority: i8,
    log_value: u8,
}

impl Modifier for OrderRecorder {
    fn meta(&self) -> ModifierMeta {
        meta(self.name, self.phase, self.priority)
    }
    fn update(&mut self, entity: &mut Entity) {
        let prev = u32::from(entity.face.left_eye.weight);
        let next = prev.saturating_mul(10).saturating_add(u32::from(self.log_value));
        entity.face.left_eye.weight = u8::try_from(next.min(255)).unwrap_or(255);
    }
}

fn register(director: &mut Director, m: Box<dyn Modifier>) {
    director.add_modifier(m).unwrap();
}

#[test]
fn modifier_phase_order_preserved() {
    let mut director = Director::new();
    // Register out of order on purpose; the run order fixes it.
    register(&mut director, Box::new(OrderRecorder { name: "Expression", phase: Phase::Expression, priority: 0, log_value: 3 }));
    register(&mut director, Box::new(OrderRecorder { name: "AffectLowPriority", phase: Phase::Affect, priority: 10, log_value: 2 }));
    register(&mut director, Box::new(OrderRecorder { name: "AffectHighPriority", phase: Phase::Affect, priority: -10, log_value: 1 }));
    let mut entity = Entity::default();
    entity.face.left_eye.weight = 0;
    director.run(&mut entity, Instant::from_millis(0)).unwrap();
    assert_eq!(entity.face.left_eye.weight, 123, "modifiers ran in wrong order");
}

#[test]
fn events_cleared_at_frame_start() {
    let mut director = Director::new();
    let mut entity = Entity::default();
    let before = entity.events;
    director.run(&mut entity, Instant::from_millis(0)).unwrap();
    assert_eq!(entity.events, before, "events struct was reset to default");
}

#[test]
fn tick_stamped_each_frame() {
    let mut director = Director::new();
    let mut entity = Entity::default();
    director.run(&mut entity, Instant::from_millis(100)).unwrap();
    assert_eq!(entity.tick.frame, 1);
    assert_eq!(entity.tick.now.as_millis(), 100);
    assert_eq!(entity.tick.dt_ms, 0);
    director.run(&mut entity, Instant::from_millis(133)).unwrap();
    assert_eq!(entity.tick.frame, 2);
    assert_eq!(entity.tick.now.as_millis(), 133);
    assert_eq!(entity.tick.dt_ms, 33);
}

/// Bad modifier: declares no writes but mutates `face.left_eye.weight`.
struct UndeclaredWriter;

impl Modifier for UndeclaredWriter {
    fn meta(&self) -> ModifierMeta {
        ModifierMeta {
            name: "UndeclaredWriter",
            description: "test fixture that lies about its writes",
            phase: Phase::Expression,
            priority: 0,
            reads: vec![],
            writes: vec![],
        }
    }
    fn update(&mut self, entity: &mut Entity) {
        entity.face.left_eye.weight = 42;
    }
}

#[test]
#[should_panic(expected = "ECS contract violation")]
fn undeclared_modifier_write_panics_in_debug() {
    let mut director = Director::new();
    register(&mut director, Box::new(UndeclaredWriter));
    let mut entity = Entity::default();
    if let Err(w) = director.run(&mut entity, Instant::from_millis(0)) {
        assert_eq!(w.name, "UndeclaredWriter");
        assert_eq!(w.field, Field::LeftEyeWeight);
        panic!("ECS contract violation: `{}` wrote {:?}", w.name, w.field);
    }
}

#[test]
fn undeclared_write_check_names_first_changed_field() {
    let before = Entity::default();
    let mut after = before;
    after.face.left_eye.weight = 42;
    assert_eq!(undeclared_write(&before, &after, &[]), Some(Field::LeftEyeWeight));
    assert_eq!(undeclared_write(&before, &after, &[Field::LeftEyeWeight]), None);
}

/// Bad skill: declares a write to `Field::HeadPose`, a motor field.
struct OutOfLaneSkill;

impl Skill for OutOfLaneSkill {
    fn meta(&self) -> SkillMeta {
        SkillMeta {
            name: "OutOfLaneSkill",
            description: "test fixture that declares a Motor write",
            priority: 0,
            writes: vec![Field::HeadPose],
        }
    }
    fn should_fire(&self, _entity: &Entity) -> bool {
        false
    }
    fn invoke(&mut self, _entity: &mut Entity) -> SkillStatus {
        SkillStatus::Done
    }
}

#[test]
#[should_panic(expected = "declares a write outside Mind/Voice")]
fn skill_writing_motor_field_panics_at_registration() {
    let mut director = Director::new();
    let _ = register_skill(&mut director, Box::new(OutOfLaneSkill));
}

/// Registration as a frame loop does it: the library registers only skills
/// whose declared writes stay in the mind and voice lanes, so an out-of-lane
/// skill is refused loudly here.
fn register_skill(director: &mut Director, s: Box<dyn Skill>) -> u16 {
    let meta = s.meta();
    if !skill_in_lane(&meta) {
        panic!("Skill `{}` declares a write outside Mind/Voice; declared writes: {:?}", meta.name, meta.writes);
    }
    director.add_skill(s).unwrap()
}

#[test]
fn in_lane_skill_registers() {
    let mut director = Director::new();
    let s: Box<dyn Skill> = Box::new(TaggingSkill { priority: 3, tag: 1, declare: true });
    assert_eq!(register_skill(&mut director, s), 0);
    assert_eq!(director.skill_count(), 1);
    assert!(!skill_in_lane(&OutOfLaneSkill.meta()));
}

#[test]
fn registry_full_message() {
    assert_eq!(stackchan_core::director::RegistryFull::Modifiers.message(), "Director modifier registry full (32)");
    assert_eq!(stackchan_core::director::RegistryFull::Skills.message(), "Director skill registry full (16)");
}

#[test]
fn default_director_is_empty() {
    let d = Director::default();
    assert_eq!(d.modifier_count(), 0);
    assert_eq!(d.skill_count(), 0);
}

fn kf(at_ms: u32) -> Keyframe {
    Keyframe { at_ms, ..Keyframe::default() }
}

#[test]
fn keyframe_rgb_returns_triple_when_all_set() {
    let frame = Keyframe { r: Some(10), g: Some(20), b: Some(30), ..Keyframe::default() };
    assert_eq!(frame.rgb(), Some((10, 20, 30)));
}

#[test]
fn keyframe_rgb_returns_none_when_none_set() {
    assert_eq!(Keyframe::default().rgb(), None);
}

#[test]
fn keyframe_rgb_returns_none_for_partial_triple() {
    let frame = Keyframe { r: Some(10), g: Some(20), b: None, ..Keyframe::default() };
    assert_eq!(frame.rgb(), None);
}

#[test]
fn validate_rejects_empty_script() {
    assert_eq!(validate(&DanceScript { keyframes: Vec::new() }), Err(DanceError::Empty));
}

#[test]
fn validate_rejects_partial_rgb_triple() {
    let script = DanceScript {
        keyframes: vec![Keyframe { at_ms: 0, r: Some(10), g: Some(20), b: None, ..Keyframe::default() }],
    };
    assert_eq!(validate(&script), Err(DanceError::PartialRgb));
}

#[test]
fn validate_rejects_out_of_order() {
    let script = DanceScript { keyframes: vec![kf(100), kf(50)] };
    assert_eq!(validate(&script), Err(DanceError::OutOfOrder));
}

#[test]
fn validate_accepts_simultaneous_keyframes() {
    let script = DanceScript { keyframes: vec![kf(0), kf(0), kf(100)] };
    assert!(validate(&script).is_ok());
}

#[test]
fn validate_accepts_in_order_script() {
    let script = DanceScript { keyframes: vec![kf(0), kf(500), kf(1000)] };
    assert!(validate(&script).is_ok());
}

#[test]
fn render_leds_fills_every_pixel_with_same_colour() {
    let mut entity = Entity::default();
    entity.mind.affect.emotion = Emotion::Happy;
    let mut frame = LedFrame::default();
    render_leds(&entity, Instant::from_millis(3_000), &mut frame);
    let first = frame.0[0];
    assert_ne!(first, 0, "frame should not be black at peak brightness");
    for (i, px) in frame.0.iter().enumerate() {
        assert_eq!(*px, first, "pixel {i} diverged from pixel 0");
    }
}

#[test]
fn emotion_changes_colour() {
    let mut entity = Entity::default();
    let mut frame = LedFrame::default();
    let now = Instant::from_millis(3_000);
    entity.mind.affect.emotion = Emotion::Happy;
    render_leds(&entity, now, &mut frame);
    let happy = frame.0[0];
    entity.mind.affect.emotion = Emotion::Sad;
    render_leds(&entity, now, &mut frame);
    let sad = frame.0[0];
    entity.mind.affect.emotion = Emotion::Sleepy;
    render_leds(&entity, now, &mut frame);
    let sleepy = frame.0[0];
    assert_ne!(happy, sad, "happy and sad should produce different pixels");
    assert_ne!(happy, sleepy, "happy and sleepy should produce different pixels");
    assert_ne!(sad, sleepy, "sad and sleepy should produce different pixels");
}

#[test]
fn breath_envelope_modulates_brightness_across_cycle() {
    let mut entity = Entity::default();
    entity.mind.affect.emotion = Emotion::Happy;
    let mut frame = LedFrame::default();
    render_leds(&entity, Instant::from_millis(0), &mut frame);
    let trough_r = (frame.0[0] >> 11) & 0x1F;
    render_leds(&entity, Instant::from_millis(3_000), &mut frame);
    let peak_r = (frame.0[0] >> 11) & 0x1F;
    assert!(peak_r > trough_r, "red channel should be brighter at breath peak ({peak_r}) than trough ({trough_r})");
}

#[test]
fn listen_intent_overrides_emotion_palette() {
    let mut entity = Entity::default();
    entity.mind.affect.emotion = Emotion::Happy;
    entity.mind.intent = Intent::Listen;
    let mut frame = LedFrame::default();
    render_leds(&entity, Instant::from_millis(3_000), &mut frame);
    let listen_px = frame.0[0];
    entity.mind.intent = Intent::Idle;
    render_leds(&entity, Instant::from_millis(3_000), &mut frame);
    let happy_px = frame.0[0];
    assert_ne!(listen_px, happy_px, "Listen intent should produce a different colour than the underlying Happy");
}

#[test]
fn hearing_loud_pins_brightness_to_peak() {
    let mut entity = Entity::default();
    entity.mind.affect.emotion = Emotion::Surprised;
    let mut frame = LedFrame::default();
    render_leds(&entity, Instant::from_millis(0), &mut frame);
    let trough_b = frame.0[0] & 0x1F;
    entity.mind.intent = Intent::HearingLoud;
    render_leds(&entity, Instant::from_millis(0), &mut frame);
    let loud_b = frame.0[0] & 0x1F;
    assert!(loud_b > trough_b, "HearingLoud should pin brightness above the breath trough ({trough_b} → {loud_b})");
}

#[test]
fn other_intents_do_not_override_emotion_palette() {
    let mut entity = Entity::default();
    entity.mind.affect.emotion = Emotion::Happy;
    let mut frame = LedFrame::default();
    let now = Instant::from_millis(3_000);
    entity.mind.intent = Intent::Idle;
    render_leds(&entity, now, &mut frame);
    let baseline = frame.0[0];
    for intent in [Intent::BeingPet, Intent::PickedUp, Intent::Shaken, Intent::Tilted, Intent::HearingLoud] {
        entity.mind.intent = intent;
        render_leds(&entity, now, &mut frame);
        assert_eq!(frame.0[0], baseline, "intent {intent:?} unexpectedly changed the palette");
    }
}

/// Test skill: when fired, appends its tag to the eye weight (as the order
/// recorder does) through the intent-free path it declares.
struct TaggingSkill {
    priority: u8,
    tag: u8,
    declare: bool,
}

impl Skill for TaggingSkill {
    fn meta(&self) -> SkillMeta {
        SkillMeta {
            name: "TaggingSkill",
            description: "test fixture",
            priority: self.priority,
            writes: if self.declare { vec![Field::Intent] } else { vec![] },
        }
    }
    fn should_fire(&self, entity: &Entity) -> bool {
        entity.tick.frame % 2 == 1
    }
    fn invoke(&mut self, entity: &mut Entity) -> SkillStatus {
        entity.mind.intent = if self.tag == 1 { Intent::Listen } else { Intent::BeingPet };
        SkillStatus::Done
    }
}

#[test]
fn skills_fire_by_descending_priority_when_asked() {
    let mut director = Director::new();
    for s in [TaggingSkill { priority: 1, tag: 1, declare: true }, TaggingSkill { priority: 9, tag: 2, declare: true }] {
        director.add_skill(Box::new(s)).unwrap();
    }
    assert_eq!(director.skill_run_order(), vec![1, 0]);
    let mut entity = Entity::default();
    // Frame 1: both fire, the low-priority one last.
    director.run(&mut entity, Instant::from_millis(0)).unwrap();
    assert_eq!(entity.mind.intent, Intent::Listen);
    // Frame 2: neither fires.
    entity.mind.intent = Intent::Idle;
    director.run(&mut entity, Instant::from_millis(10)).unwrap();
    assert_eq!(entity.mind.intent, Intent::Idle);
}

#[test]
fn undeclared_skill_write_is_reported() {
    let mut director = Director::new();
    let s: Box<dyn Skill> = Box::new(TaggingSkill { priority: 0, tag: 1, declare: false });
    director.add_skill(s).unwrap();
    let mut entity = Entity::default();
    let w = director.run(&mut entity, Instant::from_millis(0)).unwrap_err();
    assert_eq!(w.name, "TaggingSkill");
    assert_eq!(w.field, Field::Intent);
    assert_eq!(w.before.mind.intent, Intent::Idle);
    assert_eq!(w.after.mind.intent, Intent::Listen);
    assert!(w.declared.is_empty());
}

#[test]
fn registry_full_is_reported() {
    let mut director = Director::new();
    let filler = |i: u8| -> Box<dyn Modifier> { Box::new(OrderRecorder { name: "Filler", phase: Phase::Affect, priority: 0, log_value: i }) };
    for i in 0..stackchan_core::MODIFIER_CAP {
        assert_eq!(director.add_modifier(filler(1)), Ok(i as u16));
    }
    assert_eq!(director.add_modifier(filler(2)), Err(stackchan_core::director::RegistryFull::Modifiers));
    assert_eq!(director.modifier_count(), stackchan_core::MODIFIER_CAP);
}

#[test]
fn undeclared_decorator_and_dormancy_writes_are_caught() {
    let before = Entity::default();
    let mut after = before;
    after.face.decorator = Some(stackchan_core::decorator::DecoratorState::hold_for(
        stackchan_core::decorator::Decorator::Heart,
        Instant::from_millis(0),
        10,
    ));
    assert_eq!(undeclared_write(&before, &after, &[]), Some(Field::Decorator));
    assert_eq!(undeclared_write(&before, &after, &[Field::Decorator]), None);
    let mut asleep = before;
    asleep.mind.dormancy = stackchan_core::mind::Dormancy::Asleep { since: Instant::from_millis(5) };
    assert_eq!(undeclared_write(&before, &asleep, &[Field::Emotion]), Some(Field::Dormancy));
}

#[test]
fn equal_frames_paint_equal_display_lists() {
    let colors = stackchan_core::draw::PaletteColors {
        background: stackchan_core::draw::Color565::new(0, 0, 0),
        eye: stackchan_core::draw::Color565::new(31, 63, 31),
        mouth: stackchan_core::draw::Color565::new(31, 63, 31),
        cheek: stackchan_core::draw::Color565::new(31, 20, 20),
    };
    let owned = String::from("hello");
    let leaked: &'static str = Box::leak(owned.into_boxed_str());
    let mut a = Entity::default();
    let mut b = Entity::default();
    a.face.style.cheek_blush = 128;
    b.face.style.cheek_blush = 128;
    a.face.bubble = Some(stackchan_core::bubble::BubbleState { text: "hello", expires_at: Instant::from_millis(9) });
    b.face.bubble = Some(stackchan_core::bubble::BubbleState { text: leaked, expires_at: Instant::from_millis(9) });
    b.tick.frame = 7;
    assert!(a.frame_eq(&b));
    assert_eq!(a.face.display_list(colors, 4), b.face.display_list(colors, 4));
}

#[test]
fn priority_slot_keeps_registration_order_within_a_priority() {
    assert_eq!(priority_slot(&[-1, 0, 0, 5], 0), 3);
    assert_eq!(priority_slot(&[-1, 0, 0, 5], 7), 4);
    assert_eq!(priority_slot(&[1, 2], -5), 0);
    assert_eq!(priority_slot(&[], 3), 0);
}

#[test]
fn split_frame_matches_whole_frame() {
    let build = || {
        let mut d = Director::new();
        register(&mut d, Box::new(OrderRecorder { name: "A", phase: Phase::Affect, priority: 0, log_value: 4 }));
        d.add_skill(Box::new(TaggingSkill { priority: 1, tag: 1, declare: true })).unwrap();
        d
    };
    let mut whole = build();
    let mut split = build();
    let mut a = Entity::default();
    let mut b = Entity::default();
    a.face.left_eye.weight = 0;
    b.face.left_eye.weight = 0;
    whole.run(&mut a, Instant::from_millis(5)).unwrap();
    split.run_modifiers(&mut b, Instant::from_millis(5)).unwrap();
    assert_eq!(b.face.left_eye.weight, 4);
    assert_eq!(b.mind.intent, Intent::Idle, "skills wait for the second half");
    split.run_skills(&mut b).unwrap();
    assert_eq!(a, b);
    assert_eq!(b.mind.intent, Intent::Listen);
}
