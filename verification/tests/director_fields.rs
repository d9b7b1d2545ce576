use stackchan_core::{Field, FieldGroup};

#[test]
fn field_group_buckets_correctly() {
    assert_eq!(Field::LeftEyePhase.group(), FieldGroup::Face);
    assert_eq!(Field::HeadPose.group(), FieldGroup::Motor);
    assert_eq!(Field::AmbientLux.group(), FieldGroup::Perception);
    assert_eq!(Field::Emotion.group(), FieldGroup::Mind);
    assert_eq!(Field::ChirpRequest.group(), FieldGroup::Voice);
    assert_eq!(Field::TapPending.group(), FieldGroup::Input);
}

#[test]
fn field_all_covers_every_variant() {
    for f in Field::ALL {
        let _ = f.group();
    }
    assert_eq!(
        Field::ALL.len(),
        34,
        "update Field::ALL when adding variants"
    );
}
