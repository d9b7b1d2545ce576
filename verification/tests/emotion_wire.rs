use stackchan_core::Emotion;

#[test]
fn emotion_wire_byte_mapping_is_stable() {
    assert_eq!(Emotion::Neutral.wire_byte(), 0);
    assert_eq!(Emotion::Happy.wire_byte(), 1);
    assert_eq!(Emotion::Sad.wire_byte(), 2);
    assert_eq!(Emotion::Sleepy.wire_byte(), 3);
    assert_eq!(Emotion::Surprised.wire_byte(), 4);
    assert_eq!(Emotion::Angry.wire_byte(), 5);
    assert_eq!(Emotion::Doubt.wire_byte(), 6);
    assert_eq!(Emotion::Boring.wire_byte(), 7);
    assert_eq!(Emotion::Hi.wire_byte(), 8);
    assert_eq!(Emotion::Loved.wire_byte(), 9);
    assert_eq!(Emotion::Curious.wire_byte(), 10);
    assert_eq!(Emotion::Confused.wire_byte(), 11);
    assert_eq!(Emotion::Mad.wire_byte(), 12);
}

#[test]
fn wire_bytes_are_unique() {
    let mut seen = [false; 256];
    for &emotion in Emotion::ALL {
        let byte = emotion.wire_byte() as usize;
        assert!(
            !seen[byte],
            "duplicate wire byte {byte} for {emotion:?}; mapping must be one-to-one"
        );
        seen[byte] = true;
    }
}

#[test]
fn wire_strs_are_unique_and_lowercase() {
    for (i, &a) in Emotion::ALL.iter().enumerate() {
        let wa = a.wire_str();
        assert!(
            wa.chars().all(|c| !c.is_uppercase()),
            "wire_str `{wa}` contains uppercase; parse_emotion matches lowercase only"
        );
        for &b in &Emotion::ALL[i + 1..] {
            assert_ne!(wa, b.wire_str(), "duplicate wire_str `{wa}`");
        }
    }
}
