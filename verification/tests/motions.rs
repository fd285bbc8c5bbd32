use sprite_stage::angle::RotationStyle;
use sprite_stage::costume::Costume;
use sprite_stage::looks::BubbleType;
use sprite_stage::motion::{
    looks_say, motion_add_costume, motion_change_x, motion_change_y, motion_get_direction,
    motion_get_x, motion_get_y, motion_glide_to_cursor, motion_glide_to_random_position,
    motion_glide_to_sprite, motion_glide_to_xy, motion_go_to_cursor, motion_go_to_random_position,
    motion_go_to_sprite, motion_if_on_edge_bounce, motion_move_steps, motion_point_towards_cursor,
    motion_point_towards_sprite, motion_set_rotation_style, motion_set_x, motion_set_y,
    motion_turn_left, motion_turn_right, position_from_words, random_position, scale,
};
use sprite_stage::position::Position;
use sprite_stage::scene::Scene;
use sprite_stage::sprite::{new_sprite, Sprite};

fn sprite_at(x: i32, y: i32, direction: i32) -> Sprite {
    Sprite::new(0, x, y, direction, RotationStyle::AllAround)
}

fn with_costume(mut sprite: Sprite, cx: i32, cy: i32) -> Sprite {
    motion_add_costume(&mut sprite, Costume::new(String::from("<svg/>"), cx, cy));
    sprite
}

fn bearing(dx: i32, dy: i32) -> i32 {
    ((dy as f32).atan2(dx as f32).to_degrees() * 1000.0).round() as i32
}

#[test]
fn two_turns_add_up_without_wrapping() {
    let mut s = sprite_at(0, 0, 170_000);
    motion_turn_right(&mut s, 30_000);
    motion_turn_right(&mut s, 30_000);
    assert_eq!(motion_get_direction(&s), 230_000);
}

#[test]
fn turns_grow_past_a_full_turn() {
    let mut s = sprite_at(0, 0, 0);
    for _ in 0..25 {
        motion_turn_right(&mut s, 30_000);
    }
    assert_eq!(s.direction, 750_000);
    for _ in 0..60 {
        motion_turn_left(&mut s, 30_000);
    }
    assert_eq!(s.direction, -1_050_000);
}

#[test]
fn turns_stop_at_the_ends_of_the_range() {
    let mut s = sprite_at(0, 0, i32::MAX - 5);
    motion_turn_right(&mut s, 10);
    assert_eq!(s.direction, i32::MAX);
    let mut s = sprite_at(0, 0, i32::MIN + 5);
    motion_turn_left(&mut s, 10);
    assert_eq!(s.direction, i32::MIN);
}

#[test]
fn set_x_keeps_y() {
    let mut s = sprite_at(10_000, 20_000, 90_000);
    motion_set_x(&mut s, -5_000, 0);
    assert_eq!(s.position, Position::Constant(-5_000, 20_000));
    motion_set_y(&mut s, 7_000, 0);
    assert_eq!(s.position, Position::Constant(-5_000, 7_000));
    assert_eq!(s.direction, 90_000);
}

#[test]
fn change_x_and_y_add() {
    let mut s = sprite_at(10_000, 20_000, 90_000);
    motion_change_x(&mut s, 2_500, 0);
    motion_change_y(&mut s, -40_000, 0);
    assert_eq!(motion_get_x(&s, 0), 12_500);
    assert_eq!(motion_get_y(&s, 0), -20_000);
}

#[test]
fn change_stops_at_the_ends_of_the_range() {
    let mut s = sprite_at(i32::MAX - 1, i32::MIN + 1, 0);
    motion_change_x(&mut s, 10, 0);
    motion_change_y(&mut s, -10, 0);
    assert_eq!(s.position, Position::Constant(i32::MAX, i32::MIN));
}

#[test]
fn setting_a_coordinate_ends_a_glide_where_it_is() {
    let mut s = sprite_at(0, 0, 90_000);
    motion_glide_to_xy(&mut s, 100_000, 40_000, 2_000, 1_000);
    assert_eq!(motion_get_x(&s, 2_000), 50_000);
    assert_eq!(motion_get_y(&s, 2_000), 20_000);
    motion_set_x(&mut s, 0, 2_000);
    assert_eq!(s.position, Position::Constant(0, 20_000));
    assert_eq!(motion_get_y(&s, 3_000), 20_000);
}

#[test]
fn glide_is_installed_from_the_current_place() {
    let mut s = sprite_at(-10_000, 5_000, 0);
    motion_glide_to_xy(&mut s, 30_000, 5_000, 400, 77);
    assert_eq!(
        s.position,
        Position::Glide {
            start_x: -10_000,
            start_y: 5_000,
            end_x: 30_000,
            end_y: 5_000,
            duration: 400,
            start_time: 77
        }
    );
    assert_eq!(motion_get_x(&s, 77), -10_000);
    assert_eq!(motion_get_x(&s, 177), 0);
    assert_eq!(motion_get_x(&s, 477), 30_000);
}

#[test]
fn a_second_glide_starts_where_the_first_has_come() {
    let mut s = sprite_at(0, 0, 0);
    motion_glide_to_xy(&mut s, 100_000, 0, 1_000, 0);
    motion_glide_to_xy(&mut s, 0, 100_000, 1_000, 250);
    assert_eq!(
        s.position,
        Position::Glide { start_x: 25_000, start_y: 0, end_x: 0, end_y: 100_000, duration: 1_000, start_time: 250 }
    );
}

#[test]
fn glide_to_sprite_and_cursor() {
    let target = sprite_at(40_000, -30_000, 0);
    let mut s = sprite_at(0, 0, 0);
    motion_glide_to_sprite(&mut s, &target, 10, 5);
    assert_eq!(motion_get_x(&s, 15), 40_000);
    assert_eq!(motion_get_y(&s, 15), -30_000);
    let mut scene: Scene<Sprite> = Scene::new();
    scene.update_cursor(250_000, 100_000);
    motion_glide_to_cursor(&mut s, &scene, 10, 20);
    assert_eq!(motion_get_x(&s, 30), 10_000);
    assert_eq!(motion_get_y(&s, 30), 80_000);
}

#[test]
fn go_to_sprite_and_cursor() {
    let mut target = sprite_at(0, 0, 0);
    motion_glide_to_xy(&mut target, 80_000, 20_000, 4, 0);
    let mut s = sprite_at(1, 1, 0);
    motion_go_to_sprite(&mut s, &target, 1);
    assert_eq!(s.position, Position::Constant(20_000, 5_000));
    let mut scene: Scene<Sprite> = Scene::new();
    scene.update_cursor(0, 0);
    motion_go_to_cursor(&mut s, &scene);
    assert_eq!(s.position, Position::Constant(-240_000, 180_000));
}

fn heading(direction: i32) -> (i32, i32) {
    let radians = (direction as f64 / 1000.0).to_radians();
    ((radians.cos() * 1000.0).round() as i32, (radians.sin() * 1000.0).round() as i32)
}

#[test]
fn move_steps_goes_along_the_direction() {
    // Facing right.
    let mut s = sprite_at(0, 0, 90_000);
    let (cos, sin) = heading(90_000);
    assert_eq!((cos, sin), (0, 1_000));
    motion_move_steps(&mut s, 10_000, cos, sin, 0);
    assert_eq!(s.position, Position::Constant(10_000, 0));
    assert_eq!(s.direction, 90_000);
    // Facing up.
    let mut s = sprite_at(10_000, 10_000, 0);
    let (cos, sin) = heading(0);
    motion_move_steps(&mut s, 10_000, cos, sin, 0);
    assert_eq!(s.position, Position::Constant(10_000, 20_000));
    // Facing left, then down.
    let (cos, sin) = heading(-90_000);
    motion_move_steps(&mut s, 10_000, cos, sin, 0);
    assert_eq!(s.position, Position::Constant(0, 20_000));
    let (cos, sin) = heading(180_000);
    motion_move_steps(&mut s, 5_000, cos, sin, 0);
    assert_eq!(s.position, Position::Constant(0, 15_000));
}

#[test]
fn move_steps_takes_shares_of_a_step() {
    let mut s = sprite_at(0, 20_000, 45_000);
    motion_move_steps(&mut s, 3_000, 707, 707, 0);
    assert_eq!(s.position, Position::Constant(2_121, 22_121));
    // Backwards, and between right and down: the shares are rounded towards zero.
    motion_move_steps(&mut s, -1_000, 707, 707, 0);
    assert_eq!(s.position, Position::Constant(1_414, 21_414));
    motion_move_steps(&mut s, 1_999, -500, 866, 0);
    assert_eq!(s.position, Position::Constant(3_145, 20_415));
}

#[test]
fn move_steps_ends_a_glide_and_stops_at_the_ends_of_the_range() {
    let mut s = sprite_at(0, 0, 90_000);
    motion_glide_to_xy(&mut s, 100_000, 0, 10, 0);
    motion_move_steps(&mut s, 10_000, 0, 1_000, 5);
    assert_eq!(s.position, Position::Constant(60_000, 0));
    let mut s = sprite_at(i32::MAX - 1, i32::MIN + 1, 0);
    motion_move_steps(&mut s, 10_000, -1_000, 1_000, 0);
    assert_eq!(s.position, Position::Constant(i32::MAX, i32::MIN));
}

#[test]
fn scaling_rounds_towards_zero() {
    assert_eq!(scale(1_999, 1), 1);
    assert_eq!(scale(-1_999, 1), -1);
    assert_eq!(scale(1_999, -1), -1);
    assert_eq!(scale(-1_999, -1), 1);
    assert_eq!(scale(i32::MIN, i32::MIN), 4_611_686_018_427_387);
    assert_eq!(scale(i32::MIN, i32::MAX), -4_611_686_016_279_904);
}

#[test]
fn point_towards_straight_up_is_zero() {
    let mut s = sprite_at(0, 0, 45_000);
    s.point_towards(0, 10_000, 0, bearing(0, 10_000));
    assert_eq!(s.direction, 0);
}

#[test]
fn point_towards_the_right_is_ninety() {
    let mut s = sprite_at(0, 0, 45_000);
    s.point_towards(10_000, 0, 0, bearing(10_000, 0));
    assert_eq!(s.direction, 90_000);
}

#[test]
fn point_towards_its_own_place_is_ninety() {
    let mut s = sprite_at(3_000, 4_000, 45_000);
    s.point_towards(3_000, 4_000, 0, 123_456);
    assert_eq!(s.direction, 90_000);
}

#[test]
fn point_towards_along_the_axes_does_not_read_the_bearing() {
    let mut s = sprite_at(0, 0, 0);
    s.point_towards(-5, 0, 0, 1);
    assert_eq!(s.direction, -90_000);
    s.point_towards(0, -5, 0, 1);
    assert_eq!(s.direction, 180_000);
}

#[test]
fn point_towards_elsewhere_is_a_quarter_less_the_bearing() {
    let mut s = sprite_at(0, 0, 0);
    s.point_towards(10_000, 10_000, 0, bearing(10_000, 10_000));
    assert_eq!(s.direction, 45_000);
    s.point_towards(-10_000, -10_000, 0, bearing(-10_000, -10_000));
    assert_eq!(s.direction, 225_000);
}

#[test]
fn point_towards_sprite_and_cursor() {
    let target = sprite_at(0, 50_000, 0);
    let mut s = sprite_at(0, 0, 17);
    motion_point_towards_sprite(&mut s, &target, 0, 0);
    assert_eq!(s.direction, 0);
    let mut scene: Scene<Sprite> = Scene::new();
    scene.update_cursor(340_000, 80_000);
    motion_point_towards_cursor(&mut s, &scene, 0, 45_000);
    assert_eq!(scene.cursor, (100_000, 100_000));
    assert_eq!(s.direction, 45_000);
}

#[test]
fn bounce_off_the_right_edge() {
    let mut s = with_costume(sprite_at(241_000, 0, 90_000), 0, 0);
    motion_if_on_edge_bounce(&mut s, 0);
    assert_eq!(s.position, Position::Constant(240_000, 0));
    assert_eq!(s.direction, -90_000);
}

#[test]
fn bounce_off_the_left_edge() {
    let mut s = with_costume(sprite_at(-250_000, 10_000, -60_000), 0, 0);
    motion_if_on_edge_bounce(&mut s, 0);
    assert_eq!(s.position, Position::Constant(-240_000, 10_000));
    assert_eq!(s.direction, -60_000);
}

#[test]
fn bounce_off_the_upper_and_lower_edge() {
    let mut s = with_costume(sprite_at(0, 180_000, 30_000), 0, 0);
    motion_if_on_edge_bounce(&mut s, 0);
    assert_eq!(s.position, Position::Constant(0, 180_000));
    assert_eq!(s.direction, 30_000);
    let mut s = with_costume(sprite_at(0, -200_000, 30_000), 0, 0);
    motion_if_on_edge_bounce(&mut s, 0);
    assert_eq!(s.position, Position::Constant(0, -180_000));
    assert_eq!(s.direction, 150_000);
}

#[test]
fn bounce_in_a_corner_looks_at_both_edges() {
    let mut s = with_costume(sprite_at(300_000, -300_000, 100_000), 0, 0);
    motion_if_on_edge_bounce(&mut s, 0);
    assert_eq!(s.position, Position::Constant(240_000, -180_000));
    // Off the side: -100. Off the bottom: -(normalize(-190)) + 90 = -170 + 90.
    assert_eq!(s.direction, -80_000);
}

#[test]
fn bounce_counts_the_rotation_centre() {
    let mut s = with_costume(sprite_at(200_000, 100_000, 90_000), 40_000, 30_000);
    motion_if_on_edge_bounce(&mut s, 0);
    assert_eq!(s.position, Position::Constant(200_000, 100_000));
    assert_eq!(s.direction, -90_000);
    let mut s = with_costume(sprite_at(199_999, 0, 450_000), 40_000, 30_000);
    motion_if_on_edge_bounce(&mut s, 0);
    assert_eq!(s.position, Position::Constant(199_999, 0));
    assert_eq!(s.direction, 450_000);
}

#[test]
fn bounce_normalizes_the_direction_it_mirrors() {
    let mut s = with_costume(sprite_at(240_000, 0, 450_000), 0, 0);
    motion_if_on_edge_bounce(&mut s, 0);
    assert_eq!(s.direction, -90_000);
}

#[test]
fn bounce_away_from_the_edges_changes_nothing_but_ends_a_glide() {
    let mut s = with_costume(sprite_at(0, 0, 1_000_000), 0, 0);
    motion_glide_to_xy(&mut s, 100_000, 0, 10, 0);
    motion_if_on_edge_bounce(&mut s, 5);
    assert_eq!(s.position, Position::Constant(50_000, 0));
    assert_eq!(s.direction, 1_000_000);
}

#[test]
fn rotation_style_is_set_by_code() {
    let mut s = sprite_at(0, 0, 0);
    motion_set_rotation_style(&mut s, 1);
    assert_eq!(s.rotation_style, RotationStyle::LeftRight);
    motion_set_rotation_style(&mut s, 2);
    assert_eq!(s.rotation_style, RotationStyle::DontRotate);
    motion_set_rotation_style(&mut s, 0);
    assert_eq!(s.rotation_style, RotationStyle::AllAround);
}

#[test]
fn say_replaces_the_bubble() {
    let mut s = sprite_at(0, 0, 0);
    assert!(s.bubble.is_none());
    looks_say(&mut s, String::from("hello"));
    looks_say(&mut s, String::from("bye"));
    let bubble = s.bubble.as_ref().unwrap();
    assert_eq!(bubble.text, "bye");
    assert_eq!(bubble.bubble_type, BubbleType::Speech);
    assert!(bubble.lines.is_none());
}

#[test]
fn costumes_are_added_behind() {
    let mut s = sprite_at(0, 0, 0);
    motion_add_costume(&mut s, Costume::new(String::from("a"), 1, 2));
    motion_add_costume(&mut s, Costume::new(String::from("b"), 3, 4));
    assert_eq!(s.costumes.len(), 2);
    assert_eq!(s.costumes[1].rotation_center_x, 3);
    assert_eq!(s.costume().rotation_center_y, 2);
}

#[test]
fn new_sprite_takes_the_code_of_its_style() {
    let s = new_sprite(3, 1_000, -2_000, 90_000, 1);
    assert_eq!(s.current_costume, 3);
    assert_eq!(s.position, Position::Constant(1_000, -2_000));
    assert_eq!(s.direction, 90_000);
    assert_eq!(s.rotation_style, RotationStyle::LeftRight);
    assert!(s.costumes.is_empty());
    assert!(s.bubble.is_none());
}

#[test]
fn drawn_numbers_are_spread_over_the_stage() {
    assert_eq!(position_from_words(0, 0), (-240_000, -180_000));
    assert_eq!(position_from_words(u32::MAX, u32::MAX), (239_999, 179_999));
    assert_eq!(position_from_words(1 << 31, 1 << 31), (0, 0));
    assert_eq!(position_from_words(1 << 30, 3 << 30), (-120_000, 90_000));
}

#[test]
fn random_positions_are_on_the_stage() {
    let mut seen_different = false;
    let first = random_position();
    for _ in 0..200 {
        let (x, y) = random_position();
        assert!(-240_000 <= x && x < 240_000);
        assert!(-180_000 <= y && y < 180_000);
        if (x, y) != first {
            seen_different = true;
        }
    }
    assert!(seen_different);
}

#[test]
fn going_and_gliding_to_a_random_position() {
    let mut s = sprite_at(500_000, 0, 12);
    motion_go_to_random_position(&mut s);
    match s.position {
        Position::Constant(x, y) => {
            assert!(-240_000 <= x && x < 240_000);
            assert!(-180_000 <= y && y < 180_000);
        }
        _ => panic!("not at rest"),
    }
    let before = s.position.get_position(0);
    motion_glide_to_random_position(&mut s, 9, 3);
    match s.position {
        Position::Glide { start_x, start_y, end_x, end_y, duration, start_time } => {
            assert_eq!((start_x, start_y), before);
            assert!(-240_000 <= end_x && end_x < 240_000);
            assert!(-180_000 <= end_y && end_y < 180_000);
            assert_eq!((duration, start_time), (9, 3));
        }
        _ => panic!("not gliding"),
    }
    assert_eq!(s.direction, 12);
}
