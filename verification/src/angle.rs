//! Angles in thousandths of a degree, and the rotation style of a sprite.
use vstd::prelude::*;

verus! {

/// The angle in `[-180, 180)` degrees that differs from `angle` by whole turns.
pub open spec fn normalized(angle: int) -> int {
    (angle + 180000) % 360000 - 180000
}

/// Wraps an angle into `[-180, 180)` degrees. The remainder is the floored
/// one, so negative angles wrap like positive ones.
pub fn norm_angle(angle: i32) -> (r: i32)
    ensures
        r == normalized(angle as int),
        -180000 <= r < 180000,
        (r - angle) % 360000 == 0,
{
    norm_wide(angle as i64)
}

/// Wraps an angle that an addition may have taken out of the range of `i32`.
pub fn norm_wide(angle: i64) -> (r: i32)
    ensures
        r == normalized(angle as int),
        -180000 <= r < 180000,
        (r - angle) % 360000 == 0,
{
    let shifted: i128 = angle as i128 + 180000;
    // Below zero the remainder is counted down from the end of the turn.
    let rem: i128 = if shifted >= 0 {
        shifted % 360000
    } else {
        359999 - (-(shifted + 1)) % 360000
    };
    proof {
        let a: int = shifted as int;
        if a < 0 {
            let b: int = -(a + 1);
            vstd::arithmetic::div_mod::lemma_fundamental_div_mod(b, 360000);
            let q: int = b / 360000;
            assert(a == (-(q + 1)) * 360000 + rem) by (nonlinear_arith)
                requires
                    b == 360000 * q + b % 360000,
                    rem == 359999 - b % 360000,
                    a == -(b + 1),
            ;
            vstd::arithmetic::div_mod::lemma_fundamental_div_mod_converse(a, 360000, -(q + 1), rem as int);
        }
        assert(rem == a % 360000);
        vstd::arithmetic::div_mod::lemma_fundamental_div_mod(a, 360000);
        let turns: int = a / 360000;
        assert(rem - 180000 - angle == (-turns) * 360000) by (nonlinear_arith)
            requires
                a == 360000 * turns + rem,
                a == angle + 180000,
        ;
        vstd::arithmetic::div_mod::lemma_mod_multiples_basic(-turns, 360000);
    }
    (rem - 180000) as i32
}

/// Normalizing twice is the same as normalizing once.
pub proof fn lemma_normalized_idempotent(angle: int)
    ensures
        normalized(normalized(angle)) == normalized(angle),
        -180000 <= normalized(angle) < 180000,
{
    let r = normalized(angle);
    vstd::arithmetic::div_mod::lemma_small_mod((r + 180000) as nat, 360000);
}

/// How the direction of a sprite shows in the way its costume is drawn.
#[derive(Copy, Clone, Debug, PartialEq, Eq, Structural)]
pub enum RotationStyle {
    /// The costume turns with the direction.
    AllAround,
    /// The costume never turns; it is mirrored while the sprite faces left.
    LeftRight,
    /// The costume is always drawn upright.
    DontRotate,
}

impl RotationStyle {
    /// The style that a code stands for.
    pub open spec fn of_code(i: int) -> RotationStyle {
        if i == 0 {
            RotationStyle::AllAround
        } else if i == 1 {
            RotationStyle::LeftRight
        } else {
            RotationStyle::DontRotate
        }
    }

    /// Decodes a style: `0`, `1` and `2` are the only codes.
    pub fn from_i32(i: i32) -> (style: RotationStyle)
        requires
            0 <= i <= 2,
        ensures
            style == Self::of_code(i as int),
            i == 0 <==> style == RotationStyle::AllAround,
            i == 1 <==> style == RotationStyle::LeftRight,
            i == 2 <==> style == RotationStyle::DontRotate,
    {
        if i == 0 {
            RotationStyle::AllAround
        } else if i == 1 {
            RotationStyle::LeftRight
        } else {
            RotationStyle::DontRotate
        }
    }

    /// Decodes a style, or says that the code stands for none.
    pub fn try_from_i32(i: i32) -> (style: Option<RotationStyle>)
        ensures
            0 <= i <= 2 <==> style is Some,
            style is Some ==> style->0 == Self::of_code(i as int),
    {
        if 0 <= i && i <= 2 {
            Some(Self::from_i32(i))
        } else {
            None
        }
    }
}

/// Rotation and mirroring with which a costume is drawn.
#[derive(Copy, Clone, Debug, PartialEq, Eq, Structural)]
pub struct RenderAngle {
    /// Clockwise rotation, measured from the drawing axis that points right.
    pub rotation: i32,
    /// Whether the costume is mirrored left to right.
    pub flip_x: bool,
}

/// The rotation and mirroring that a direction has under a style.
pub open spec fn render_angle_of(direction: int, style: RotationStyle) -> RenderAngle {
    match style {
        RotationStyle::AllAround => RenderAngle {
            rotation: crate::saturate(direction - 90000) as i32,
            flip_x: false,
        },
        RotationStyle::LeftRight => RenderAngle { rotation: 0, flip_x: normalized(direction) < 0 },
        RotationStyle::DontRotate => RenderAngle { rotation: 0, flip_x: false },
    }
}

/// Resolves a direction, where 0 points up, into what the drawing needs,
/// where 0 points right: a quarter turn less under `AllAround`, and
/// otherwise no rotation, with a mirror image under `LeftRight` while the
/// direction points left.
pub fn resolve_render_angle(direction: i32, style: RotationStyle) -> (r: RenderAngle)
    ensures
        r == render_angle_of(direction as int, style),
{
    match style {
        RotationStyle::AllAround => RenderAngle {
            rotation: crate::saturate_i64(direction as i64 - 90000i64),
            flip_x: false,
        },
        RotationStyle::LeftRight => RenderAngle { rotation: 0, flip_x: norm_angle(direction) < 0 },
        RotationStyle::DontRotate => RenderAngle { rotation: 0, flip_x: false },
    }
}

} // verus!
