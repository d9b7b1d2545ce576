use stackchan_core::avatar::{Eye as AvatarEye, EyePhase as AvatarEyePhase, Point as AvatarPoint};
use stackchan_core::draw::{scale_radius, scaled_height, segment_count};
use stackchan_core::face::{BatteryBucket, FaceGeometry, Style, SCALE_DEFAULT};

#[test]
fn eye_height_scales_with_weight() {
    let mut eye = AvatarEye {
        center: AvatarPoint::new(0, 0),
        radius_x: 25,
        radius_y: 25,
        phase: AvatarEyePhase::Open,
        weight: 100,
        open_weight: 100,
    };
    assert_eq!(eye.height(), 50);

    eye.weight = 50;
    assert_eq!(eye.height(), 25);

    eye.weight = 0;
    assert_eq!(eye.height(), 0);
}

#[test]
fn eye_height_caps_at_100_weight() {
    let eye = AvatarEye {
        center: AvatarPoint::new(0, 0),
        radius_x: 25,
        radius_y: 25,
        phase: AvatarEyePhase::Open,
        weight: 200,
        open_weight: 100,
    };
    assert!(eye.height() <= 50);
}

#[test]
fn scaled_height_bounds() {
    assert_eq!(scaled_height(25, 0), 0);
    assert_eq!(scaled_height(25, 100), 50);
    assert_eq!(scaled_height(25, 50), 25);
    assert!(scaled_height(25, 200) <= 50);
}

#[test]
fn scale_radius_passes_default_unchanged() {
    assert_eq!(scale_radius(25, SCALE_DEFAULT), 25);
}

#[test]
fn scale_radius_scales_up_and_down() {
    assert_eq!(scale_radius(25, 64), 12);
    assert_eq!(scale_radius(25, 255), 49);
}

#[test]
fn battery_segment_count_matches_bucket() {
    assert_eq!(segment_count(BatteryBucket::Critical), 0);
    assert_eq!(segment_count(BatteryBucket::Low), 1);
    assert_eq!(segment_count(BatteryBucket::Medium), 2);
    assert_eq!(segment_count(BatteryBucket::High), 3);
    assert_eq!(segment_count(BatteryBucket::Full), 4);
}

#[test]
fn default_style_is_neutral() {
    let s = Style::default();
    assert_eq!(s.eye_curve, 0);
    assert_eq!(s.mouth_curve, 0);
    assert_eq!(s.cheek_blush, 0);
    assert_eq!(s.eye_scale, SCALE_DEFAULT);
    assert_eq!(s.blink_rate_scale, SCALE_DEFAULT);
    assert_eq!(s.breath_depth_scale, SCALE_DEFAULT);
}

#[test]
fn face_geometry_all_length_matches_variant_count() {
    assert_eq!(
        FaceGeometry::ALL.len(),
        4,
        "update FaceGeometry::ALL when adding a variant",
    );
}

#[test]
fn face_geometry_wire_byte_mapping_is_stable() {
    assert_eq!(FaceGeometry::Default.wire_byte(), 0);
    assert_eq!(FaceGeometry::Chibi.wire_byte(), 1);
    assert_eq!(FaceGeometry::Wide.wire_byte(), 2);
    assert_eq!(FaceGeometry::Sleepy.wire_byte(), 3);
}

#[test]
fn face_geometry_wire_str_round_trip() {
    for &g in FaceGeometry::ALL {
        assert_eq!(FaceGeometry::from_wire_str(g.wire_str()), Some(g));
    }
}

#[test]
fn face_geometry_from_wire_str_rejects_unknown() {
    assert_eq!(FaceGeometry::from_wire_str(""), None);
    assert_eq!(FaceGeometry::from_wire_str("DEFAULT"), None);
    assert_eq!(FaceGeometry::from_wire_str("compact"), None);
}

#[test]
fn face_geometry_baselines_are_pairwise_distinct() {
    for (i, &a) in FaceGeometry::ALL.iter().enumerate() {
        for &b in &FaceGeometry::ALL[i + 1..] {
            assert_ne!(
                a.baseline(),
                b.baseline(),
                "{a:?} and {b:?} share an identical baseline",
            );
        }
    }
}

#[test]
fn battery_bucket_boundaries_are_inclusive_low_and_exclusive_high() {
    assert_eq!(BatteryBucket::from_percent(0), BatteryBucket::Critical);
    assert_eq!(BatteryBucket::from_percent(9), BatteryBucket::Critical);
    assert_eq!(BatteryBucket::from_percent(10), BatteryBucket::Low);
    assert_eq!(BatteryBucket::from_percent(24), BatteryBucket::Low);
    assert_eq!(BatteryBucket::from_percent(25), BatteryBucket::Medium);
    assert_eq!(BatteryBucket::from_percent(49), BatteryBucket::Medium);
    assert_eq!(BatteryBucket::from_percent(50), BatteryBucket::High);
    assert_eq!(BatteryBucket::from_percent(74), BatteryBucket::High);
    assert_eq!(BatteryBucket::from_percent(75), BatteryBucket::Full);
    assert_eq!(BatteryBucket::from_percent(100), BatteryBucket::Full);
}

#[test]
fn battery_bucket_out_of_range_saturates_to_full() {
    assert_eq!(BatteryBucket::from_percent(101), BatteryBucket::Full);
    assert_eq!(BatteryBucket::from_percent(u8::MAX), BatteryBucket::Full);
}

#[test]
fn baseline_eye_centers_are_horizontally_symmetric() {
    for &g in FaceGeometry::ALL {
        let (left, right, _) = g.baseline();
        let left_offset = 160 - left.center.x;
        let right_offset = right.center.x - 160;
        assert_eq!(
            left_offset, right_offset,
            "{g:?} eyes are not symmetric about x=160",
        );
        assert_eq!(left.center.y, right.center.y, "{g:?} eyes differ in y");
    }
}
