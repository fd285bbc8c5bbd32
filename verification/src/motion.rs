//! What a script can tell a sprite to do: go, glide, turn, point, bounce.
//!
//! Each operation reads the place of the sprite at `now` and puts a new
//! position in its stead, so a glide that is under way ends there.
use vstd::prelude::*;
use crate::angle::{norm_angle, norm_wide, normalized, RotationStyle};
use crate::costume::Costume;
use crate::looks::{Bubble, BubbleType};
use crate::position::Position;
use crate::saturate;
use crate::saturate_i64;
use crate::scene::Scene;
use crate::sprite::{direction_along, Sprite};

verus! {

/// `after` is `before` put at rest at `(x, y)`.
pub open spec fn moved_to(before: Sprite, after: Sprite, x: int, y: int) -> bool {
    &&& after == (Sprite { position: after.position, ..before })
    &&& after.position is Constant
    &&& after.position->Constant_0 == x
    &&& after.position->Constant_1 == y
}

/// `after` is `before` with a glide from `start` to `end` that begins at
/// `start_time` and takes `duration`.
pub open spec fn gliding(
    before: Sprite,
    after: Sprite,
    start: (int, int),
    end: (int, int),
    duration: int,
    start_time: int,
) -> bool {
    &&& after == (Sprite { position: after.position, ..before })
    &&& after.position is Glide
    &&& after.position->start_x == start.0
    &&& after.position->start_y == start.1
    &&& after.position->end_x == end.0
    &&& after.position->end_y == end.1
    &&& after.position->duration == duration
    &&& after.position->start_time == start_time
}

/// `after` is `before` turned to `direction`.
pub open spec fn turned_to(before: Sprite, after: Sprite, direction: int) -> bool {
    &&& after == (Sprite { direction: after.direction, ..before })
    &&& after.direction == direction
}

/// Gives the sprite one more costume, behind those it has.
pub fn motion_add_costume(sprite: &mut Sprite, costume: Costume)
    ensures
        final(sprite).costumes@ == old(sprite).costumes@.push(costume),
        final(sprite).current_costume == old(sprite).current_costume,
        final(sprite).position == old(sprite).position,
        final(sprite).direction == old(sprite).direction,
        final(sprite).rotation_style == old(sprite).rotation_style,
        final(sprite).bubble == old(sprite).bubble,
{
    sprite.costumes.push(costume);
}

/// Puts the sprite at `x`, at the height at which it is at `now`.
pub fn motion_set_x(sprite: &mut Sprite, x: i32, now: u64)
    ensures
        moved_to(*old(sprite), *final(sprite), x as int, old(sprite).position.at(now as int).1),
{
    let (_, y) = sprite.position.get_position(now);
    sprite.position = Position::Constant(x, y);
}

/// Puts the sprite at the height `y`, as far right as it is at `now`.
pub fn motion_set_y(sprite: &mut Sprite, y: i32, now: u64)
    ensures
        moved_to(*old(sprite), *final(sprite), old(sprite).position.at(now as int).0, y as int),
{
    let (x, _) = sprite.position.get_position(now);
    sprite.position = Position::Constant(x, y);
}

/// Moves the sprite by `dx` to the right, as far as the numbers reach.
pub fn motion_change_x(sprite: &mut Sprite, dx: i32, now: u64)
    ensures
        moved_to(
            *old(sprite),
            *final(sprite),
            saturate(old(sprite).position.at(now as int).0 + dx),
            old(sprite).position.at(now as int).1,
        ),
{
    let (x, y) = sprite.position.get_position(now);
    sprite.position = Position::Constant(saturate_i64(x as i64 + dx as i64), y);
}

/// Moves the sprite up by `dy`, as far as the numbers reach.
pub fn motion_change_y(sprite: &mut Sprite, dy: i32, now: u64)
    ensures
        moved_to(
            *old(sprite),
            *final(sprite),
            old(sprite).position.at(now as int).0,
            saturate(old(sprite).position.at(now as int).1 + dy),
        ),
{
    let (x, y) = sprite.position.get_position(now);
    sprite.position = Position::Constant(x, saturate_i64(y as i64 + dy as i64));
}

/// How far right the sprite is at `now`.
pub fn motion_get_x(sprite: &Sprite, now: u64) -> (x: i32)
    ensures
        x == sprite.position.at(now as int).0,
{
    sprite.position.get_position(now).0
}

/// How high the sprite is at `now`.
pub fn motion_get_y(sprite: &Sprite, now: u64) -> (y: i32)
    ensures
        y == sprite.position.at(now as int).1,
{
    sprite.position.get_position(now).1
}

/// The direction of the sprite, as the turns have left it.
pub fn motion_get_direction(sprite: &Sprite) -> (direction: i32)
    ensures
        direction == sprite.direction,
{
    sprite.direction
}

/// Turns the sprite clockwise. The direction is not wrapped: it grows with
/// every turn, as far as the numbers reach.
pub fn motion_turn_right(sprite: &mut Sprite, degrees: i32)
    ensures
        turned_to(*old(sprite), *final(sprite), saturate(old(sprite).direction + degrees)),
{
    sprite.direction = saturate_i64(sprite.direction as i64 + degrees as i64);
}

/// Turns the sprite counterclockwise, see [`motion_turn_right`].
pub fn motion_turn_left(sprite: &mut Sprite, degrees: i32)
    ensures
        turned_to(*old(sprite), *final(sprite), saturate(old(sprite).direction - degrees)),
{
    sprite.direction = saturate_i64(sprite.direction as i64 - degrees as i64);
}

/// Two turns to the right add up, as long as the direction stays in range.
pub proof fn lemma_turns_add_up(direction: int, first: int, second: int)
    requires
        i32::MIN <= direction + first <= i32::MAX,
        i32::MIN <= direction + first + second <= i32::MAX,
    ensures
        saturate(saturate(direction + first) + second) == direction + first + second,
{
}

/// The share `factor` thousandths of `steps`, rounded towards zero.
pub open spec fn scaled(steps: int, factor: int) -> int {
    if steps * factor >= 0 {
        (steps * factor) / 1000
    } else {
        -((-(steps * factor)) / 1000)
    }
}

/// Scales a length, see [`scaled`].
pub fn scale(steps: i32, factor: i32) -> (r: i64)
    ensures
        r == scaled(steps as int, factor as int),
        -0x4000_0000_0000_0000 <= r <= 0x4000_0000_0000_0000,
{
    assert(-0x4000_0000_0000_0000 <= steps * factor <= 0x4000_0000_0000_0000) by (nonlinear_arith)
        requires
            -0x8000_0000 <= steps <= 0x7fff_ffff,
            -0x8000_0000 <= factor <= 0x7fff_ffff,
    ;
    let product: i64 = steps as i64 * factor as i64;
    if product >= 0 {
        product / 1000
    } else {
        -((-product) / 1000)
    }
}

/// Moves the sprite `steps` along its direction, as far as the numbers
/// reach. `heading_cos` and `heading_sin` are the cosine and the sine of the
/// direction, in thousandths. The direction is counted from the axis that
/// points up towards the one that points right, so the sine is the share of
/// a step that goes to the right and the cosine the share that goes up.
pub fn motion_move_steps(sprite: &mut Sprite, steps: i32, heading_cos: i32, heading_sin: i32, now: u64)
    ensures
        moved_to(
            *old(sprite),
            *final(sprite),
            saturate(old(sprite).position.at(now as int).0 + scaled(steps as int, heading_sin as int)),
            saturate(old(sprite).position.at(now as int).1 + scaled(steps as int, heading_cos as int)),
        ),
{
    let (x, y) = sprite.position.get_position(now);
    sprite.position = Position::Constant(
        saturate_i64(x as i64 + scale(steps, heading_sin)),
        saturate_i64(y as i64 + scale(steps, heading_cos)),
    );
}

/// Starts a glide from where the sprite is at `now` to `(x, y)`, which it
/// reaches after `duration` ticks.
pub fn motion_glide_to_xy(sprite: &mut Sprite, x: i32, y: i32, duration: u64, now: u64)
    ensures
        gliding(
            *old(sprite),
            *final(sprite),
            old(sprite).position.at(now as int),
            (x as int, y as int),
            duration as int,
            now as int,
        ),
{
    let (start_x, start_y) = sprite.position.get_position(now);
    sprite.position = Position::Glide { start_x, start_y, end_x: x, end_y: y, duration, start_time: now };
}

/// Starts a glide to where `target` is at `now`.
pub fn motion_glide_to_sprite(sprite: &mut Sprite, target: &Sprite, duration: u64, now: u64)
    ensures
        gliding(
            *old(sprite),
            *final(sprite),
            old(sprite).position.at(now as int),
            target.position.at(now as int),
            duration as int,
            now as int,
        ),
{
    let (x, y) = target.position.get_position(now);
    motion_glide_to_xy(sprite, x, y, duration, now);
}

/// Starts a glide to where the pointer was when the scene was last drawn.
pub fn motion_glide_to_cursor<S>(sprite: &mut Sprite, scene: &Scene<S>, duration: u64, now: u64)
    ensures
        gliding(
            *old(sprite),
            *final(sprite),
            old(sprite).position.at(now as int),
            (scene.cursor.0 as int, scene.cursor.1 as int),
            duration as int,
            now as int,
        ),
{
    motion_glide_to_xy(sprite, scene.cursor.0, scene.cursor.1, duration, now);
}

/// Calls `rand::random::<u32>()`. The number depends on chance, so
/// nothing is claimed of it.
#[verifier::external_body]
fn random_word() -> (word: u32) {
    rand::random::<u32>()
}

/// The place in a stretch of length `span` round zero that a number drawn
/// from all of `u32` stands for: equal shares of the numbers go to equal
/// parts of the stretch, the lowest to its lower end.
pub open spec fn spread(word: int, span: int) -> int {
    (word * span) / 0x1_0000_0000 - span / 2
}

/// The point of the stage that two drawn numbers stand for.
pub fn position_from_words(word_x: u32, word_y: u32) -> (p: (i32, i32))
    ensures
        p.0 == spread(word_x as int, 480000),
        p.1 == spread(word_y as int, 360000),
        -240000 <= p.0 < 240000,
        -180000 <= p.1 < 180000,
{
    assert(0 <= word_x * 480000 < 0x1_0000_0000 * 480000) by (nonlinear_arith)
        requires
            0 <= word_x < 0x1_0000_0000,
    ;
    assert(0 <= word_y * 360000 < 0x1_0000_0000 * 360000) by (nonlinear_arith)
        requires
            0 <= word_y < 0x1_0000_0000,
    ;
    let x: u64 = (word_x as u64 * 480000) / 0x1_0000_0000;
    let y: u64 = (word_y as u64 * 360000) / 0x1_0000_0000;
    ((x as i64 - 240000) as i32, (y as i64 - 180000) as i32)
}

/// A point of the stage drawn at random.
pub fn random_position() -> (p: (i32, i32))
    ensures
        -240000 <= p.0 < 240000,
        -180000 <= p.1 < 180000,
{
    let word_x = random_word();
    let word_y = random_word();
    position_from_words(word_x, word_y)
}

/// Puts the sprite at a point of the stage drawn at random.
pub fn motion_go_to_random_position(sprite: &mut Sprite)
    ensures
        moved_to(
            *old(sprite),
            *final(sprite),
            final(sprite).position->Constant_0 as int,
            final(sprite).position->Constant_1 as int,
        ),
        -240000 <= final(sprite).position->Constant_0 < 240000,
        -180000 <= final(sprite).position->Constant_1 < 180000,
{
    let (x, y) = random_position();
    sprite.position = Position::Constant(x, y);
}

/// Starts a glide from where the sprite is at `now` to a point of the stage
/// drawn at random.
pub fn motion_glide_to_random_position(sprite: &mut Sprite, duration: u64, now: u64)
    ensures
        gliding(
            *old(sprite),
            *final(sprite),
            old(sprite).position.at(now as int),
            (final(sprite).position->end_x as int, final(sprite).position->end_y as int),
            duration as int,
            now as int,
        ),
        -240000 <= final(sprite).position->end_x < 240000,
        -180000 <= final(sprite).position->end_y < 180000,
{
    let (x, y) = random_position();
    motion_glide_to_xy(sprite, x, y, duration, now);
}

/// Turns the sprite towards where `target` is at `now`. For `bearing` see
/// [`Sprite::point_towards`].
pub fn motion_point_towards_sprite(sprite: &mut Sprite, target: &Sprite, now: u64, bearing: i32)
    ensures
        turned_to(
            *old(sprite),
            *final(sprite),
            direction_along(
                target.position.at(now as int).0 - old(sprite).position.at(now as int).0,
                target.position.at(now as int).1 - old(sprite).position.at(now as int).1,
                bearing as int,
            ),
        ),
{
    let (x, y) = target.position.get_position(now);
    sprite.point_towards(x, y, now, bearing);
}

/// Turns the sprite towards where the pointer was when the scene was last
/// drawn. For `bearing` see [`Sprite::point_towards`].
pub fn motion_point_towards_cursor<S>(sprite: &mut Sprite, scene: &Scene<S>, now: u64, bearing: i32)
    ensures
        turned_to(
            *old(sprite),
            *final(sprite),
            direction_along(
                scene.cursor.0 - old(sprite).position.at(now as int).0,
                scene.cursor.1 - old(sprite).position.at(now as int).1,
                bearing as int,
            ),
        ),
{
    sprite.point_towards(scene.cursor.0, scene.cursor.1, now, bearing);
}

/// Puts the sprite where `target` is at `now`.
pub fn motion_go_to_sprite(sprite: &mut Sprite, target: &Sprite, now: u64)
    ensures
        moved_to(
            *old(sprite),
            *final(sprite),
            target.position.at(now as int).0,
            target.position.at(now as int).1,
        ),
{
    let (x, y) = target.position.get_position(now);
    sprite.position = Position::Constant(x, y);
}

/// Puts the sprite where the pointer was when the scene was last drawn.
pub fn motion_go_to_cursor<S>(sprite: &mut Sprite, scene: &Scene<S>)
    ensures
        moved_to(*old(sprite), *final(sprite), scene.cursor.0 as int, scene.cursor.1 as int),
{
    sprite.position = Position::Constant(scene.cursor.0, scene.cursor.1);
}

/// `1` for a coordinate on the right or upper half of the stage, the middle
/// included, and `-1` for one on the other half.
pub open spec fn sign_of(v: int) -> int {
    if v < 0 {
        -1
    } else {
        1
    }
}

/// The distance of a coordinate from the middle of the stage.
pub open spec fn magnitude(v: int) -> int {
    if v < 0 {
        -v
    } else {
        v
    }
}

/// The direction after the left or right edge has been met: where the
/// sprite at `x`, its rotation centre `center_x` into its costume, reaches
/// the edge, the direction is mirrored in the vertical axis.
pub open spec fn bounced_off_side(direction: int, x: int, center_x: int) -> int {
    if magnitude(x) >= 240000 - center_x {
        -normalized(direction) * sign_of(x)
    } else {
        direction
    }
}

/// The direction after the upper or lower edge has been met: where the
/// sprite at `y` reaches the edge, the direction is mirrored in the
/// horizontal axis.
pub open spec fn bounced_off_top(direction: int, y: int, center_y: int) -> int {
    if magnitude(y) >= 180000 - center_y {
        normalized(direction - 90000) * sign_of(y) + 90000
    } else {
        direction
    }
}

/// The value of `[low, high]` nearest to `v`.
pub open spec fn clamped(v: int, low: int, high: int) -> int {
    if v < low {
        low
    } else if v > high {
        high
    } else {
        v
    }
}

/// Turns the sprite back from the edge of the stage and keeps it on the
/// stage. The stage is 240 wide and 180 high to either side of its middle,
/// less the rotation centre of the costume. Both pairs of edges are looked
/// at, the left and right one first, each with the place that the sprite
/// has at `now`.
pub fn motion_if_on_edge_bounce(sprite: &mut Sprite, now: u64)
    requires
        old(sprite).has_costume(),
        old(sprite).costumes@[old(sprite).current_costume as int].rotation_center_x <= 240000,
        old(sprite).costumes@[old(sprite).current_costume as int].rotation_center_y <= 180000,
    ensures
        ({
            let costume = old(sprite).costumes@[old(sprite).current_costume as int];
            let (x, y) = old(sprite).position.at(now as int);
            let (cx, cy) = (costume.rotation_center_x as int, costume.rotation_center_y as int);
            &&& *final(sprite) == (Sprite {
                direction: final(sprite).direction,
                position: final(sprite).position,
                ..*old(sprite)
            })
            &&& final(sprite).direction == bounced_off_top(
                bounced_off_side(old(sprite).direction as int, x, cx),
                y,
                cy,
            )
            &&& final(sprite).position is Constant
            &&& final(sprite).position->Constant_0 == clamped(x, -240000 + cx, 240000 - cx)
            &&& final(sprite).position->Constant_1 == clamped(y, -180000 + cy, 180000 - cy)
        }),
        ({
            let costume = old(sprite).costumes@[old(sprite).current_costume as int];
            &&& -240000 + costume.rotation_center_x <= final(sprite).position->Constant_0 <= 240000
                - costume.rotation_center_x
            &&& -180000 + costume.rotation_center_y <= final(sprite).position->Constant_1 <= 180000
                - costume.rotation_center_y
        }),
{
    let (x, y) = sprite.position.get_position(now);
    let cx = sprite.costumes[sprite.current_costume].rotation_center_x as i64;
    let cy = sprite.costumes[sprite.current_costume].rotation_center_y as i64;
    let x_wide = x as i64;
    let y_wide = y as i64;
    let x_size = if x < 0 {
        -x_wide
    } else {
        x_wide
    };
    let y_size = if y < 0 {
        -y_wide
    } else {
        y_wide
    };
    if x_size >= 240000 - cx {
        let turned = norm_angle(sprite.direction);
        assert(-turned * sign_of(x as int) == if x < 0 {
            turned as int
        } else {
            -turned
        }) by (nonlinear_arith)
            requires
                sign_of(x as int) == if x < 0 {
                    -1int
                } else {
                    1int
                },
        ;
        sprite.direction = if x < 0 {
            turned
        } else {
            -turned
        };
    }
    assert(sprite.direction == bounced_off_side(old(sprite).direction as int, x as int, cx as int));
    if y_size >= 180000 - cy {
        let turned = norm_wide(sprite.direction as i64 - 90000);
        assert(turned * sign_of(y as int) == if y < 0 {
            -turned
        } else {
            turned as int
        }) by (nonlinear_arith)
            requires
                sign_of(y as int) == if y < 0 {
                    -1int
                } else {
                    1int
                },
        ;
        sprite.direction = if y < 0 {
            -turned + 90000
        } else {
            turned + 90000
        };
    }
    let low_x = -240000 + cx;
    let high_x = 240000 - cx;
    let low_y = -180000 + cy;
    let high_y = 180000 - cy;
    let new_x = if x_wide < low_x {
        low_x
    } else if x_wide > high_x {
        high_x
    } else {
        x_wide
    };
    let new_y = if y_wide < low_y {
        low_y
    } else if y_wide > high_y {
        high_y
    } else {
        y_wide
    };
    sprite.position = Position::Constant(new_x as i32, new_y as i32);
}

/// Sets how the direction shows in the drawing; `0`, `1` and `2` are the codes.
pub fn motion_set_rotation_style(sprite: &mut Sprite, rotation_style: i32)
    requires
        0 <= rotation_style <= 2,
    ensures
        *final(sprite) == (Sprite {
            rotation_style: RotationStyle::of_code(rotation_style as int),
            ..*old(sprite)
        }),
{
    sprite.rotation_style = RotationStyle::from_i32(rotation_style);
}

/// Lets the sprite say `text`: it gets a speech bubble, not yet wrapped, in
/// place of the bubble it had.
pub fn looks_say(sprite: &mut Sprite, text: String)
    ensures
        *final(sprite) == (Sprite {
            bubble: Some(Bubble { text, bubble_type: BubbleType::Speech, lines: None }),
            ..*old(sprite)
        }),
{
    sprite.bubble = Some(Bubble::new(text, BubbleType::Speech));
}

} // verus!
