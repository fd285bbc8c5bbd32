use sprite_stage::angle::{
    norm_angle, norm_wide, resolve_render_angle, RenderAngle, RotationStyle,
};

#[test]
fn normalize_wraps_negative_angles() {
    assert_eq!(norm_angle(-190_000), 170_000);
}

#[test]
fn normalize_wraps_large_angles() {
    assert_eq!(norm_angle(540_000), -180_000);
}

#[test]
fn normalize_keeps_angles_in_range() {
    assert_eq!(norm_angle(0), 0);
    assert_eq!(norm_angle(179_999), 179_999);
    assert_eq!(norm_angle(-180_000), -180_000);
    assert_eq!(norm_angle(180_000), -180_000);
}

#[test]
fn normalize_is_idempotent() {
    for a in [-1_000_000, -360_001, -190_000, -1, 0, 90_500, 359_999, 720_000, i32::MAX, i32::MIN] {
        let once = norm_angle(a);
        assert!(-180_000 <= once && once < 180_000);
        assert_eq!(norm_angle(once), once);
    }
}

#[test]
fn rotation_style_codes() {
    assert_eq!(RotationStyle::from_i32(0), RotationStyle::AllAround);
    assert_eq!(RotationStyle::from_i32(1), RotationStyle::LeftRight);
    assert_eq!(RotationStyle::from_i32(2), RotationStyle::DontRotate);
    assert_eq!(RotationStyle::try_from_i32(3), None);
    assert_eq!(RotationStyle::try_from_i32(-1), None);
    assert_eq!(RotationStyle::try_from_i32(1), Some(RotationStyle::LeftRight));
}

#[test]
fn all_around_turns_a_quarter_less() {
    assert_eq!(
        resolve_render_angle(90_000, RotationStyle::AllAround),
        RenderAngle { rotation: 0, flip_x: false }
    );
    assert_eq!(
        resolve_render_angle(0, RotationStyle::AllAround),
        RenderAngle { rotation: -90_000, flip_x: false }
    );
}

#[test]
fn left_right_mirrors_when_facing_left() {
    assert_eq!(
        resolve_render_angle(-90_000, RotationStyle::LeftRight),
        RenderAngle { rotation: 0, flip_x: true }
    );
    assert_eq!(
        resolve_render_angle(90_000, RotationStyle::LeftRight),
        RenderAngle { rotation: 0, flip_x: false }
    );
    assert_eq!(
        resolve_render_angle(270_000, RotationStyle::LeftRight),
        RenderAngle { rotation: 0, flip_x: true }
    );
}

#[test]
fn dont_rotate_never_turns() {
    assert_eq!(
        resolve_render_angle(-90_000, RotationStyle::DontRotate),
        RenderAngle { rotation: 0, flip_x: false }
    );
}

#[test]
fn wide_angles_wrap_like_narrow_ones() {
    assert_eq!(norm_wide(-190_000), 170_000);
    assert_eq!(norm_wide(540_000), -180_000);
    assert_eq!(norm_wide(-180_001), 179_999);
    assert_eq!(norm_wide(-540_000), -180_000);
    assert_eq!(norm_wide(i32::MIN as i64 - 90_000), norm_angle(norm_angle(i32::MIN) - 90_000));
    for a in [i64::MIN, i64::MIN + 1, -360_000, -1, 0, 1, 179_999, 180_000, i64::MAX - 1, i64::MAX] {
        let floored = (a as i128 + 180_000).rem_euclid(360_000) - 180_000;
        assert_eq!(norm_wide(a) as i128, floored);
    }
}
