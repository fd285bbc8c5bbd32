//! What holds of every wrapped text: the lines follow one another without a
//! gap, none is empty, and each fits unless it is a single character.
use vstd::prelude::*;
use vstd::utf8::*;
use crate::font::FontMetrics;
use crate::slices::{
    boundary_from, chars_between, lemma_chars_between_split, lemma_single_char, on_boundary,
};
use crate::wrap::{
    breaks_taken, byte_count, char_line_end, char_lines, fits, grown_line_end,
    lemma_boundary_from_bounds, lines_are, ordered_breaks, wrapped_lines, LineBreak,
};

verus! {

/// The ranges follow one another from `from` to `to`, each from one boundary
/// to a later one.
pub open spec fn tiles(text: Seq<char>, ranges: Seq<(int, int)>, from: int, to: int) -> bool
    decreases ranges.len(),
{
    if ranges.len() == 0 {
        from == to
    } else {
        &&& ranges[0].0 == from
        &&& from < ranges[0].1 <= to
        &&& on_boundary(text, ranges[0].1)
        &&& tiles(text, ranges.drop_first(), ranges[0].1, to)
    }
}

/// A range that fits, or that holds a single character.
pub open spec fn fits_or_single(
    text: Seq<char>,
    font: FontMetrics,
    max_width: u32,
    range: (int, int),
) -> bool {
    fits(text, font, max_width, range.0, range.1) || range.1 == boundary_from(text, range.0 + 1)
}

/// Every range fits or holds a single character.
pub open spec fn all_fit_or_single(
    text: Seq<char>,
    font: FontMetrics,
    max_width: u32,
    ranges: Seq<(int, int)>,
) -> bool {
    forall|k: int| 0 <= k < ranges.len() ==> fits_or_single(text, font, max_width, #[trigger] ranges[k])
}

/// Two tilings that meet make one.
pub proof fn lemma_tiles_join(
    text: Seq<char>,
    first: Seq<(int, int)>,
    second: Seq<(int, int)>,
    from: int,
    mid: int,
    to: int,
)
    requires
        tiles(text, first, from, mid),
        tiles(text, second, mid, to),
    ensures
        tiles(text, first + second, from, to),
    decreases first.len(),
{
    if first.len() == 0 {
        assert(first + second == second);
    } else {
        lemma_tiles_join(text, first.drop_first(), second, first[0].1, mid, to);
        assert((first + second).drop_first() == first.drop_first() + second);
    }
}

/// A line cut between characters ends on a boundary behind its start, and it
/// fits unless it has stayed at its first character.
pub proof fn lemma_grown_line_end(
    text: Seq<char>,
    font: FontMetrics,
    max_width: u32,
    from: int,
    reach: int,
    limit: int,
)
    requires
        from < reach <= limit,
        on_boundary(text, reach),
        on_boundary(text, limit),
    ensures
        reach <= grown_line_end(text, font, max_width, from, reach, limit) <= limit,
        on_boundary(text, grown_line_end(text, font, max_width, from, reach, limit)),
        grown_line_end(text, font, max_width, from, reach, limit) == reach || fits(
            text,
            font,
            max_width,
            from,
            grown_line_end(text, font, max_width, from, reach, limit),
        ),
    decreases limit - reach,
{
    let next = boundary_from(text, reach + 1);
    if reach < next <= limit && fits(text, font, max_width, from, next) {
        lemma_boundary_from_bounds(text, reach + 1, limit);
        lemma_grown_line_end(text, font, max_width, from, next, limit);
    }
}

/// The lines cut between characters tile their stretch, and each fits or
/// holds a single character.
pub proof fn lemma_char_lines(
    text: Seq<char>,
    font: FontMetrics,
    max_width: u32,
    from: int,
    limit: int,
)
    requires
        0 <= from <= limit,
        on_boundary(text, from),
        on_boundary(text, limit),
    ensures
        tiles(text, char_lines(text, font, max_width, from, limit), from, limit),
        all_fit_or_single(text, font, max_width, char_lines(text, font, max_width, from, limit)),
    decreases limit - from,
{
    if from < limit {
        lemma_boundary_from_bounds(text, from + 1, limit);
        let first = boundary_from(text, from + 1);
        lemma_grown_line_end(text, font, max_width, from, first, limit);
        let end = char_line_end(text, font, max_width, from, limit);
        lemma_char_lines(text, font, max_width, end, limit);
        let rest = char_lines(text, font, max_width, end, limit);
        let all = char_lines(text, font, max_width, from, limit);
        assert(all == seq![(from, end)] + rest);
        assert(all.drop_first() == rest);
        assert forall|k: int| 0 <= k < all.len() implies fits_or_single(
            text,
            font,
            max_width,
            #[trigger] all[k],
        ) by {
            if k > 0 {
                assert(all[k] == rest[k - 1]);
            }
        }
    }
}

/// A line that goes on over further breaks fits as its first stretch did.
pub proof fn lemma_breaks_taken_fits(
    text: Seq<char>,
    font: FontMetrics,
    max_width: u32,
    breaks: Seq<LineBreak>,
    from: int,
    at: int,
)
    requires
        0 <= at < breaks.len(),
        fits(text, font, max_width, from, breaks[at].position as int),
    ensures
        at + breaks_taken(text, font, max_width, breaks, from, at) < breaks.len(),
        fits(
            text,
            font,
            max_width,
            from,
            breaks[at + breaks_taken(text, font, max_width, breaks, from, at)].position as int,
        ),
    decreases breaks.len() - at,
{
    if at + 1 < breaks.len() && !breaks[at].mandatory && fits(
        text,
        font,
        max_width,
        from,
        breaks[at + 1].position as int,
    ) {
        lemma_breaks_taken_fits(text, font, max_width, breaks, from, at + 1);
    }
}

/// The wrapped lines tile the text from `from` to its end, and each fits or
/// holds a single character.
pub proof fn lemma_wrapped_lines(
    text: Seq<char>,
    font: FontMetrics,
    max_width: u32,
    breaks: Seq<LineBreak>,
    from: int,
    at: int,
)
    requires
        ordered_breaks(text, breaks),
        0 <= at <= breaks.len(),
        at == 0 ==> from == 0,
        at > 0 ==> from == breaks[at - 1].position,
    ensures
        tiles(text, wrapped_lines(text, font, max_width, breaks, from, at), from, byte_count(text)),
        all_fit_or_single(
            text,
            font,
            max_width,
            wrapped_lines(text, font, max_width, breaks, from, at),
        ),
    decreases breaks.len() - at,
{
    broadcast use encode_utf8_valid_utf8;

    is_char_boundary_start_end_of_seq(encode_utf8(text));
    let all = wrapped_lines(text, font, max_width, breaks, from, at);
    if at < breaks.len() {
        let first = breaks[at].position as int;
        assert(from < first) by {
            if at > 0 {
                assert(breaks[at - 1].position < breaks[at].position);
            }
        }
        if !fits(text, font, max_width, from, first) {
            let pieces = char_lines(text, font, max_width, from, first);
            let rest = wrapped_lines(text, font, max_width, breaks, first, at + 1);
            lemma_char_lines(text, font, max_width, from, first);
            lemma_wrapped_lines(text, font, max_width, breaks, first, at + 1);
            lemma_tiles_join(text, pieces, rest, from, first, byte_count(text));
            assert forall|k: int| 0 <= k < all.len() implies fits_or_single(
                text,
                font,
                max_width,
                #[trigger] all[k],
            ) by {
                if k < pieces.len() {
                    assert(all[k] == pieces[k]);
                } else {
                    assert(all[k] == rest[k - pieces.len()]);
                }
            }
        } else {
            lemma_breaks_taken_fits(text, font, max_width, breaks, from, at);
            let last = at + breaks_taken(text, font, max_width, breaks, from, at);
            let end = breaks[last].position as int;
            assert(first <= end) by {
                if at < last {
                    assert(breaks[at].position < breaks[last].position);
                }
            }
            assert(end <= byte_count(text)) by {
                if last < breaks.len() - 1 {
                    assert(breaks[last].position < breaks[breaks.len() - 1].position);
                }
            }
            let rest = wrapped_lines(text, font, max_width, breaks, end, last + 1);
            lemma_wrapped_lines(text, font, max_width, breaks, end, last + 1);
            assert(all == seq![(from, end)] + rest);
            assert(all.drop_first() == rest);
            assert forall|k: int| 0 <= k < all.len() implies fits_or_single(
                text,
                font,
                max_width,
                #[trigger] all[k],
            ) by {
                if k > 0 {
                    assert(all[k] == rest[k - 1]);
                }
            }
        }
    } else {
        if at > 0 {
            assert(breaks[at - 1] == breaks.last());
        }
    }
}

/// The lines one after the other, as one text.
pub open spec fn joined(lines: Seq<String>) -> Seq<char>
    decreases lines.len(),
{
    if lines.len() == 0 {
        Seq::empty()
    } else {
        lines[0]@ + joined(lines.drop_first())
    }
}

/// What holds of the lines of a wrapped text: together they are the text,
/// none is empty, and each fits unless it is a single character.
pub open spec fn wraps(lines: Seq<String>, text: Seq<char>, font: FontMetrics, max_width: u32) -> bool {
    &&& joined(lines) == text
    &&& forall|k: int| 0 <= k < lines.len() ==> (#[trigger] lines[k])@.len() > 0
    &&& forall|k: int|
        0 <= k < lines.len() ==> font.width_of((#[trigger] lines[k])@) <= max_width
            || lines[k]@.len() == 1
}

/// Lines that hold the parts of a tiling are, together, the stretch that is
/// tiled; none is empty, and each fits or is a single character if its range
/// says so.
pub proof fn lemma_tiled_lines(
    lines: Seq<String>,
    text: Seq<char>,
    font: FontMetrics,
    max_width: u32,
    ranges: Seq<(int, int)>,
    from: int,
    to: int,
)
    requires
        lines_are(lines, text, ranges),
        tiles(text, ranges, from, to),
        all_fit_or_single(text, font, max_width, ranges),
        on_boundary(text, from),
    ensures
        from <= to,
        on_boundary(text, to),
        joined(lines) == chars_between(text, from, to),
        forall|k: int| 0 <= k < lines.len() ==> (#[trigger] lines[k])@.len() > 0,
        forall|k: int|
            0 <= k < lines.len() ==> font.width_of((#[trigger] lines[k])@) <= max_width
                || lines[k]@.len() == 1,
    decreases ranges.len(),
{
    encode_utf8_valid_utf8(text);
    if ranges.len() == 0 {
        assert(encode_utf8(text).subrange(from, to).len() == 0);
    } else {
        let mid = ranges[0].1;
        let rest_lines = lines.drop_first();
        let rest = ranges.drop_first();
        assert(lines_are(rest_lines, text, rest)) by {
            assert forall|k: int| 0 <= k < rest_lines.len() implies (#[trigger] rest_lines[k])@
                == chars_between(text, rest[k].0, rest[k].1) by {
                assert(rest_lines[k] == lines[k + 1]);
            }
        }
        assert(all_fit_or_single(text, font, max_width, rest)) by {
            assert forall|k: int| 0 <= k < rest.len() implies fits_or_single(
                text,
                font,
                max_width,
                #[trigger] rest[k],
            ) by {
                assert(rest[k] == ranges[k + 1]);
            }
        }
        lemma_tiled_lines(rest_lines, text, font, max_width, rest, mid, to);
        lemma_chars_between_split(text, from, mid, to);
        assert(lines[0]@ == chars_between(text, from, mid));
        // A stretch between two different boundaries holds a character.
        lemma_single_char(text, from);
        let next = boundary_from(text, from + 1);
        crate::slices::lemma_next_boundary_is_first(text, from + 1);
        assert(next <= mid);
        lemma_chars_between_split(text, from, next, mid);
        assert(lines[0]@.len() > 0);
        assert(fits_or_single(text, font, max_width, ranges[0]));
        assert forall|k: int| 0 <= k < lines.len() implies (#[trigger] lines[k])@.len() > 0 by {
            if k > 0 {
                assert(lines[k] == rest_lines[k - 1]);
            }
        }
        assert forall|k: int| 0 <= k < lines.len() implies font.width_of((#[trigger] lines[k])@)
            <= max_width || lines[k]@.len() == 1 by {
            if k > 0 {
                assert(lines[k] == rest_lines[k - 1]);
            }
        }
    }
}

} // verus!
