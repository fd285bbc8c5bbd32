//! A stage of sprites: positions that may glide, directions with a rotation
//! style, edge bounce, wrapped text and the placement of speech bubbles.
//!
//! All coordinates, lengths and angles are fixed-point integers counted in
//! thousandths: `1000` is one stage pixel or one degree.
use vstd::prelude::*;

pub mod angle;
pub mod costume;
pub mod font;
pub mod lists;
pub mod looks;
pub mod motion;
pub mod position;
pub mod scene;
pub mod slices;
pub mod sprite;
pub mod wrap;
pub mod wrap_laws;

verus! {

/// How many fixed-point steps make one stage pixel or one degree.
pub const UNIT: i32 = 1000;

/// The value of `i32` nearest to `v`.
pub open spec fn saturate(v: int) -> int {
    if v < i32::MIN {
        i32::MIN as int
    } else if v > i32::MAX {
        i32::MAX as int
    } else {
        v
    }
}

/// Narrows a wide intermediate result to `i32`, stopping at the ends of the range.
pub fn saturate_i64(v: i64) -> (r: i32)
    ensures
        r == saturate(v as int),
{
    if v < -2147483648i64 {
        -2147483648i32
    } else if v > 2147483647i64 {
        2147483647i32
    } else {
        v as i32
    }
}

} // verus!
