use stackchan_core::bubble::BubbleState;
use stackchan_core::decorator::{Decorator, DecoratorState};
use stackchan_core::Instant;

#[test]
fn bubble_hold_for_pins_expiry_at_now_plus_duration() {
    let now = Instant::from_millis(1_000);
    let s = BubbleState::hold_for("hi", now, 2_000);
    assert_eq!(s.text, "hi");
    assert_eq!(s.expires_at, Instant::from_millis(3_000));
}

#[test]
fn bubble_is_expired_at_or_after_deadline() {
    let now = Instant::from_millis(1_000);
    let s = BubbleState::hold_for("hi", now, 500);
    assert!(!s.is_expired(Instant::from_millis(1_000)));
    assert!(!s.is_expired(Instant::from_millis(1_499)));
    assert!(s.is_expired(Instant::from_millis(1_500)));
    assert!(s.is_expired(Instant::from_millis(2_000)));
}

#[test]
fn equality_compares_text_and_expiry() {
    let now = Instant::from_millis(0);
    let a = BubbleState::hold_for("a", now, 1_000);
    let b = BubbleState::hold_for("a", now, 1_000);
    let c = BubbleState::hold_for("b", now, 1_000);
    let d = BubbleState::hold_for("a", now, 2_000);
    assert_eq!(a, b);
    assert_ne!(a, c);
    assert_ne!(a, d);
}

#[test]
fn instant_ordering() {
    assert!(Instant::from_millis(10) > Instant::from_millis(5));
    assert_eq!(Instant::zero().as_millis(), 0);
}

#[test]
fn saturating_duration() {
    let a = Instant::from_millis(100);
    let b = Instant::from_millis(40);
    assert_eq!(a.saturating_duration_since(b), 60);
    assert_eq!(b.saturating_duration_since(a), 0);
}

#[test]
fn instant_add_saturates() {
    let end = Instant::from_millis(u64::MAX - 10);
    let after = end + 1000;
    assert_eq!(after.as_millis(), u64::MAX);
}

#[test]
fn all_length_matches_variant_count() {
    assert_eq!(
        Decorator::ALL.len(),
        5,
        "update Decorator::ALL when adding a variant"
    );
}

#[test]
fn decorator_wire_byte_mapping_is_stable() {
    assert_eq!(Decorator::Heart.wire_byte(), 0);
    assert_eq!(Decorator::Sweat.wire_byte(), 1);
    assert_eq!(Decorator::Dizzy.wire_byte(), 2);
    assert_eq!(Decorator::Ear.wire_byte(), 3);
    assert_eq!(Decorator::Pairing.wire_byte(), 4);
}

#[test]
fn wire_strings_are_unique_and_lowercase() {
    for (i, &a) in Decorator::ALL.iter().enumerate() {
        let wa = a.wire_str();
        assert!(wa.chars().all(|c| !c.is_uppercase()));
        for &b in &Decorator::ALL[i + 1..] {
            assert_ne!(wa, b.wire_str());
        }
    }
}

#[test]
fn decorator_hold_for_pins_expiry_at_now_plus_duration() {
    let now = Instant::from_millis(1_000);
    let s = DecoratorState::hold_for(Decorator::Heart, now, 2_000);
    assert_eq!(s.kind, Decorator::Heart);
    assert_eq!(s.expires_at, Instant::from_millis(3_000));
}

#[test]
fn decorator_is_expired_at_or_after_deadline() {
    let now = Instant::from_millis(1_000);
    let s = DecoratorState::hold_for(Decorator::Sweat, now, 500);
    assert!(!s.is_expired(Instant::from_millis(1_000)));
    assert!(!s.is_expired(Instant::from_millis(1_499)));
    assert!(s.is_expired(Instant::from_millis(1_500)));
    assert!(s.is_expired(Instant::from_millis(2_000)));
}
