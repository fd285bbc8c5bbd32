//! Where a sprite is: at a fixed point, or gliding between two points.
use vstd::prelude::*;

verus! {

/// The place of a sprite on the stage. Times are counted in ticks of the
/// caller's clock; only their differences matter.
#[derive(Copy, Clone, Debug, PartialEq, Eq, Structural)]
pub enum Position {
    /// At rest at `(x, y)`.
    Constant(i32, i32),
    /// On the way from the start point to the end point, in a straight line
    /// and at constant speed.
    Glide { start_x: i32, start_y: i32, end_x: i32, end_y: i32, duration: u64, start_time: u64 },
}

/// The ticks of a glide that have passed at `now`, at least none and at most
/// the whole duration.
pub open spec fn elapsed_ticks(now: int, start_time: int, duration: int) -> int {
    if now <= start_time {
        0
    } else if now - start_time >= duration {
        duration
    } else {
        now - start_time
    }
}

/// One coordinate of a glide after `elapsed` of `duration` ticks: the share of
/// the way that has passed, rounded towards the start. A glide without
/// duration is at its end at once.
pub open spec fn glide_coord(start: int, end: int, elapsed: int, duration: int) -> int {
    if duration <= 0 || elapsed >= duration {
        end
    } else if end >= start {
        start + ((end - start) * elapsed) / duration
    } else {
        start - ((start - end) * elapsed) / duration
    }
}

impl Position {
    /// The coordinates at `now`.
    pub open spec fn at(self, now: int) -> (int, int) {
        match self {
            Position::Constant(x, y) => (x as int, y as int),
            Position::Glide { start_x, start_y, end_x, end_y, duration, start_time } => {
                let e = elapsed_ticks(now, start_time as int, duration as int);
                (
                    glide_coord(start_x as int, end_x as int, e, duration as int),
                    glide_coord(start_y as int, end_y as int, e, duration as int),
                )
            },
        }
    }

    /// Samples the position at `now`.
    pub fn get_position(&self, now: u64) -> (p: (i32, i32))
        ensures
            (p.0 as int, p.1 as int) == self.at(now as int),
    {
        match *self {
            Position::Constant(x, y) => (x, y),
            Position::Glide { start_x, start_y, end_x, end_y, duration, start_time } => {
                let elapsed: u64 = if now <= start_time {
                    0
                } else if now - start_time >= duration {
                    duration
                } else {
                    now - start_time
                };
                (
                    interpolate(start_x, end_x, elapsed, duration),
                    interpolate(start_y, end_y, elapsed, duration),
                )
            },
        }
    }
}

/// A sampled position fits the numbers that hold it.
pub proof fn lemma_at_in_range(position: Position, now: int)
    ensures
        i32::MIN <= position.at(now).0 <= i32::MAX,
        i32::MIN <= position.at(now).1 <= i32::MAX,
{
    match position {
        Position::Constant(_, _) => {},
        Position::Glide { start_x, start_y, end_x, end_y, duration, start_time } => {
            let e = elapsed_ticks(now, start_time as int, duration as int);
            lemma_glide_between(start_x as int, end_x as int, e, duration as int);
            lemma_glide_between(start_y as int, end_y as int, e, duration as int);
        },
    }
}

/// A glide starts at its start point, is at its end point once its
/// duration has passed, and stays there. A glide without duration is at its
/// end point at all times.
pub proof fn lemma_glide_ends(position: Position, now: int)
    requires
        position is Glide,
    ensures
        now <= position->start_time && position->duration > 0 ==> position.at(now) == (
            position->start_x as int,
            position->start_y as int,
        ),
        now >= position->start_time + position->duration || position->duration == 0
            ==> position.at(now) == (position->end_x as int, position->end_y as int),
{
    let duration = position->duration as int;
    if now <= position->start_time && duration > 0 {
        assert(0int / duration == 0) by (nonlinear_arith)
            requires
                duration > 0,
        ;
        assert((position->end_x - position->start_x) * 0 == 0);
        assert((position->start_x - position->end_x) * 0 == 0);
        assert((position->end_y - position->start_y) * 0 == 0);
        assert((position->start_y - position->end_y) * 0 == 0);
    }
}

/// A glide never goes back: a later sample is no nearer to the start.
pub proof fn lemma_glide_monotone(start: int, end: int, earlier: int, later: int, duration: int)
    requires
        0 <= earlier <= later,
    ensures
        start <= end ==> glide_coord(start, end, earlier, duration) <= glide_coord(
            start,
            end,
            later,
            duration,
        ),
        end <= start ==> glide_coord(start, end, earlier, duration) >= glide_coord(
            start,
            end,
            later,
            duration,
        ),
{
    lemma_glide_between(start, end, earlier, duration);
    lemma_glide_between(start, end, later, duration);
    if duration > 0 && later < duration {
        let span: int = if start <= end {
            end - start
        } else {
            start - end
        };
        assert(span * earlier <= span * later) by (nonlinear_arith)
            requires
                0 <= span,
                0 <= earlier <= later,
        ;
        vstd::arithmetic::div_mod::lemma_div_is_ordered(span * earlier, span * later, duration);
    }
}

/// One coordinate of a glide, see [`glide_coord`].
pub fn interpolate(start: i32, end: i32, elapsed: u64, duration: u64) -> (r: i32)
    ensures
        r == glide_coord(start as int, end as int, elapsed as int, duration as int),
{
    if duration == 0 || elapsed >= duration {
        return end;
    }
    proof {
        lemma_glide_between(start as int, end as int, elapsed as int, duration as int);
    }
    if end >= start {
        let span: u128 = (end as i64 - start as i64) as u128;
        assert(span * elapsed <= 0x1_0000_0000 * 0x1_0000_0000_0000_0000) by (nonlinear_arith)
            requires
                0 <= span <= 0x1_0000_0000,
                0 <= elapsed <= 0x1_0000_0000_0000_0000,
        ;
        let step: u128 = span * (elapsed as u128) / (duration as u128);
        (start as i64 + step as i64) as i32
    } else {
        let span: u128 = (start as i64 - end as i64) as u128;
        assert(span * elapsed <= 0x1_0000_0000 * 0x1_0000_0000_0000_0000) by (nonlinear_arith)
            requires
                0 <= span <= 0x1_0000_0000,
                0 <= elapsed <= 0x1_0000_0000_0000_0000,
        ;
        let step: u128 = span * (elapsed as u128) / (duration as u128);
        (start as i64 - step as i64) as i32
    }
}

/// A glide never leaves the stretch between its two ends.
pub proof fn lemma_glide_between(start: int, end: int, elapsed: int, duration: int)
    requires
        0 <= elapsed,
    ensures
        start <= end ==> start <= glide_coord(start, end, elapsed, duration) <= end,
        end <= start ==> end <= glide_coord(start, end, elapsed, duration) <= start,
        duration > 0 && elapsed < duration && start <= end ==> 0 <= ((end - start) * elapsed)
            / duration <= end - start,
        duration > 0 && elapsed < duration && end <= start ==> 0 <= ((start - end) * elapsed)
            / duration <= start - end,
{
    if duration > 0 && elapsed < duration {
        let span: int = if start <= end {
            end - start
        } else {
            start - end
        };
        assert(0 <= span * elapsed <= span * duration) by (nonlinear_arith)
            requires
                0 <= span,
                0 <= elapsed < duration,
        ;
        vstd::arithmetic::div_mod::lemma_div_is_ordered(0, span * elapsed, duration);
        vstd::arithmetic::div_mod::lemma_div_is_ordered(span * elapsed, span * duration, duration);
        vstd::arithmetic::div_mod::lemma_div_multiples_vanish(span, duration);
        assert(span * duration == duration * span) by (nonlinear_arith);
        assert(0int / duration == 0) by (nonlinear_arith)
            requires
                duration > 0,
        ;
    }
}

} // verus!
