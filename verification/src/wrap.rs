//! Breaking a text into lines that fit a width.
use vstd::prelude::*;
use vstd::utf8::*;
use crate::font::{measure_width, FontMetrics};
use crate::slices::{
    boundary_from, byte_len, chars_between, lemma_chars_between_all, next_boundary, on_boundary,
    slice,
};
use crate::wrap_laws::{lemma_char_lines, lemma_tiled_lines, lemma_wrapped_lines, wraps};

verus! {

/// A place where a line may end: the byte offset of the character that
/// would start the next line, and whether the line has to end there.
#[derive(Copy, Clone, Debug, PartialEq, Eq, Structural)]
pub struct LineBreak {
    pub position: usize,
    pub mandatory: bool,
}

/// The break opportunities that the Unicode line breaking algorithm finds in a text.
pub uninterp spec fn line_breaks(text: Seq<char>) -> Seq<LineBreak>;

/// Calls `unicode_linebreak::linebreaks` and collects what it yields, in its
/// order. The contract only names the result: nothing about the positions is
/// taken on trust.
#[verifier::external_body]
fn find_line_breaks(text: &str) -> (breaks: Vec<LineBreak>)
    ensures
        breaks@ == line_breaks(text@),
{
    unicode_linebreak::linebreaks(text).map(
        |(position, kind)| LineBreak {
            position,
            mandatory: match kind {
                unicode_linebreak::BreakOpportunity::Mandatory => true,
                unicode_linebreak::BreakOpportunity::Allowed => false,
            },
        },
    ).collect()
}

/// The length of a text in bytes.
pub open spec fn byte_count(text: Seq<char>) -> int {
    encode_utf8(text).len() as int
}

/// The breaks of `raw` that can be used after the offset `after`: each lies
/// on a boundary of the text and beyond the one before it. Unless the last of
/// them is the end of the text, the end is added as a mandatory break.
pub open spec fn usable_breaks(text: Seq<char>, raw: Seq<LineBreak>, after: int) -> Seq<LineBreak>
    decreases raw.len(),
{
    if raw.len() == 0 {
        if after < byte_count(text) {
            seq![LineBreak { position: byte_count(text) as usize, mandatory: true }]
        } else {
            Seq::empty()
        }
    } else if after < raw[0].position && on_boundary(text, raw[0].position as int) {
        seq![raw[0]] + usable_breaks(text, raw.drop_first(), raw[0].position as int)
    } else {
        usable_breaks(text, raw.drop_first(), after)
    }
}

/// Breaks in rising order, each on a boundary behind the start of the text,
/// the last of them at its end.
pub open spec fn ordered_breaks(text: Seq<char>, breaks: Seq<LineBreak>) -> bool {
    &&& forall|k: int| 0 <= k < breaks.len() ==> 0 < (#[trigger] breaks[k]).position
    &&& forall|k: int| 0 <= k < breaks.len() ==> on_boundary(text, (#[trigger] breaks[k]).position as int)
    &&& forall|j: int, k: int|
        0 <= j < k < breaks.len() ==> (#[trigger] breaks[j]).position < (#[trigger] breaks[k]).position
    &&& byte_count(text) > 0 ==> breaks.len() > 0 && breaks.last().position == byte_count(text)
    &&& byte_count(text) == 0 ==> breaks.len() == 0
}

/// Keeps the breaks that can be used, see [`usable_breaks`].
pub fn select_breaks(text: &str, raw: &Vec<LineBreak>) -> (breaks: Vec<LineBreak>)
    ensures
        breaks@ == usable_breaks(text@, raw@, 0),
        ordered_breaks(text@, breaks@),
{
    broadcast use encode_utf8_valid_utf8;

    let len = byte_len(text);
    let mut breaks: Vec<LineBreak> = Vec::new();
    let mut after: usize = 0;
    let mut i: usize = 0;
    assert(raw@.skip(0) == raw@);
    while i < raw.len()
        invariant
            i <= raw.len(),
            len == byte_count(text@),
            after <= len,
            breaks@ + usable_breaks(text@, raw@.skip(i as int), after as int) == usable_breaks(
                text@,
                raw@,
                0,
            ),
            forall|k: int| 0 <= k < breaks@.len() ==> 0 < (#[trigger] breaks@[k]).position,
            forall|k: int|
                0 <= k < breaks@.len() ==> on_boundary(text@, (#[trigger] breaks@[k]).position as int),
            forall|j: int, k: int|
                0 <= j < k < breaks@.len() ==> (#[trigger] breaks@[j]).position < (
                #[trigger] breaks@[k]).position,
            breaks@.len() == 0 ==> after == 0,
            breaks@.len() > 0 ==> breaks@.last().position == after,
        decreases raw.len() - i,
    {
        let ghost rest = raw@.skip(i as int);
        assert(rest[0] == raw@[i as int]);
        assert(rest.drop_first() == raw@.skip(i + 1));
        let b = raw[i];
        if after < b.position && b.position <= len && text.is_char_boundary(b.position) {
            proof {
                let tail = usable_breaks(text@, raw@.skip(i + 1), b.position as int);
                assert(breaks@.push(b) + tail == breaks@ + (seq![b] + tail));
            }
            breaks.push(b);
            after = b.position;
        }
        i += 1;
    }
    assert(raw@.skip(i as int).len() == 0);
    if after < len {
        let end = LineBreak { position: len, mandatory: true };
        proof {
            is_char_boundary_start_end_of_seq(encode_utf8(text@));
            assert(breaks@.push(end) == breaks@ + seq![end]);
        }
        breaks.push(end);
    } else {
        assert(breaks@ + Seq::<LineBreak>::empty() == breaks@);
    }
    breaks
}

/// Whether the text between two byte offsets is no wider than `max_width`.
pub open spec fn fits(text: Seq<char>, font: FontMetrics, max_width: u32, from: int, to: int) -> bool {
    font.width_of(chars_between(text, from, to)) <= max_width
}

/// Where a line of single characters ends that starts at `from` and reaches
/// `reach` already: it takes one more character as long as it then still
/// fits and stays within `limit`.
pub open spec fn grown_line_end(
    text: Seq<char>,
    font: FontMetrics,
    max_width: u32,
    from: int,
    reach: int,
    limit: int,
) -> int
    decreases limit - reach,
{
    let next = boundary_from(text, reach + 1);
    if reach < next <= limit && fits(text, font, max_width, from, next) {
        grown_line_end(text, font, max_width, from, next, limit)
    } else {
        reach
    }
}

/// Where the line ends that starts at `from` when lines are cut between any
/// two characters: it holds one character at least, and then as many more as fit.
pub open spec fn char_line_end(
    text: Seq<char>,
    font: FontMetrics,
    max_width: u32,
    from: int,
    limit: int,
) -> int {
    grown_line_end(text, font, max_width, from, boundary_from(text, from + 1), limit)
}

/// The lines, as pairs of byte offsets, into which the text between `from`
/// and `limit` is cut when every line takes as many characters as fit.
pub open spec fn char_lines(
    text: Seq<char>,
    font: FontMetrics,
    max_width: u32,
    from: int,
    limit: int,
) -> Seq<(int, int)>
    decreases limit - from,
{
    if from >= limit {
        Seq::empty()
    } else {
        let end = char_line_end(text, font, max_width, from, limit);
        if from < end <= limit {
            seq![(from, end)] + char_lines(text, font, max_width, end, limit)
        } else {
            seq![(from, limit)]
        }
    }
}

/// `lines` holds the parts of `text` that `ranges` names, in order.
pub open spec fn lines_are(lines: Seq<String>, text: Seq<char>, ranges: Seq<(int, int)>) -> bool {
    &&& lines.len() == ranges.len()
    &&& forall|k: int|
        0 <= k < lines.len() ==> (#[trigger] lines[k])@ == chars_between(
            text,
            ranges[k].0,
            ranges[k].1,
        )
}

/// The first boundary behind a boundary `from` is no later than any other behind it.
pub proof fn lemma_boundary_from_bounds(text: Seq<char>, index: int, limit: int)
    requires
        0 <= index <= limit,
        on_boundary(text, limit),
    ensures
        index <= boundary_from(text, index) <= limit,
        on_boundary(text, boundary_from(text, index)),
    decreases limit - index,
{
    broadcast use encode_utf8_valid_utf8;

    if index >= byte_count(text) {
        is_char_boundary_start_end_of_seq(encode_utf8(text));
    } else if on_boundary(text, index) {
    } else {
        lemma_boundary_from_bounds(text, index + 1, limit);
    }
}

/// Cuts the text between `from` and `limit` into lines of as many
/// characters as fit, one at least, and appends them to `lines`.
fn push_char_lines(
    text: &str,
    from: usize,
    limit: usize,
    max_width: u32,
    font: &FontMetrics,
    lines: &mut Vec<String>,
    Ghost(ranges): Ghost<Seq<(int, int)>>,
)
    requires
        from <= limit,
        on_boundary(text@, from as int),
        on_boundary(text@, limit as int),
        lines_are(old(lines)@, text@, ranges),
    ensures
        lines_are(
            final(lines)@,
            text@,
            ranges + char_lines(text@, *font, max_width, from as int, limit as int),
        ),
{
    let mut start = from;
    let ghost mut done = ranges;
    assert(done + char_lines(text@, *font, max_width, start as int, limit as int) == ranges
        + char_lines(text@, *font, max_width, from as int, limit as int));
    while start < limit
        invariant
            from <= start <= limit,
            on_boundary(text@, start as int),
            on_boundary(text@, limit as int),
            lines_are(lines@, text@, done),
            done + char_lines(text@, *font, max_width, start as int, limit as int) == ranges
                + char_lines(text@, *font, max_width, from as int, limit as int),
        decreases limit - start,
    {
        proof {
            lemma_boundary_from_bounds(text@, start + 1, limit as int);
        }
        let mut reach = next_boundary(text, start + 1);
        loop
            invariant
                start < reach <= limit,
                on_boundary(text@, start as int),
                on_boundary(text@, reach as int),
                on_boundary(text@, limit as int),
                grown_line_end(text@, *font, max_width, start as int, reach as int, limit as int)
                    == char_line_end(text@, *font, max_width, start as int, limit as int),
            ensures
                start < reach <= limit,
                on_boundary(text@, reach as int),
                reach == char_line_end(text@, *font, max_width, start as int, limit as int),
            decreases limit - reach,
        {
            if reach >= limit {
                proof {
                    if reach + 1 <= byte_count(text@) {
                        encode_utf8_valid_utf8(text@);
                        is_char_boundary_start_end_of_seq(encode_utf8(text@));
                        lemma_boundary_from_bounds(text@, reach + 1, byte_count(text@));
                    }
                }
                break;
            }
            proof {
                lemma_boundary_from_bounds(text@, reach + 1, limit as int);
            }
            let next = next_boundary(text, reach + 1);
            if measure_width(slice(text, start, next), font) > max_width {
                break;
            }
            reach = next;
        }
        let line = slice(text, start, reach).to_owned();
        proof {
            let rest = char_lines(text@, *font, max_width, reach as int, limit as int);
            let range = (start as int, reach as int);
            assert(done.push(range) + rest == done + (seq![range] + rest));
            done = done.push(range);
        }
        lines.push(line);
        start = reach;
    }
    proof {
        assert(done + Seq::<(int, int)>::empty() == done);
    }
}

/// Over how many further breaks the line goes on that starts at `from` and
/// reaches the break `at`: one more as long as the break reached is not
/// mandatory and the text up to the next one still fits.
pub open spec fn breaks_taken(
    text: Seq<char>,
    font: FontMetrics,
    max_width: u32,
    breaks: Seq<LineBreak>,
    from: int,
    at: int,
) -> nat
    decreases breaks.len() - at,
{
    if 0 <= at && at + 1 < breaks.len() && !breaks[at].mandatory && fits(
        text,
        font,
        max_width,
        from,
        breaks[at + 1].position as int,
    ) {
        1 + breaks_taken(text, font, max_width, breaks, from, at + 1)
    } else {
        0
    }
}

/// The lines, as pairs of byte offsets, of the text from `from` on, where
/// `at` is the first break behind `from`. A line ends at the last break up to
/// which the text fits, or at a mandatory break before that. Where not even
/// the text up to the first break fits, that stretch is cut between
/// characters, and the next line starts behind it.
pub open spec fn wrapped_lines(
    text: Seq<char>,
    font: FontMetrics,
    max_width: u32,
    breaks: Seq<LineBreak>,
    from: int,
    at: int,
) -> Seq<(int, int)>
    decreases breaks.len() - at,
{
    if at < 0 || at >= breaks.len() {
        Seq::empty()
    } else if !fits(text, font, max_width, from, breaks[at].position as int) {
        char_lines(text, font, max_width, from, breaks[at].position as int) + wrapped_lines(
            text,
            font,
            max_width,
            breaks,
            breaks[at].position as int,
            at + 1,
        )
    } else {
        let last = at + breaks_taken(text, font, max_width, breaks, from, at);
        if last < breaks.len() {
            seq![(from, breaks[last].position as int)] + wrapped_lines(
                text,
                font,
                max_width,
                breaks,
                breaks[last].position as int,
                last + 1,
            )
        } else {
            Seq::empty()
        }
    }
}

/// Wraps `text` at the given breaks, see [`wrapped_lines`].
pub fn wrap_at_breaks(
    text: &str,
    breaks: &Vec<LineBreak>,
    max_width: u32,
    font: &FontMetrics,
) -> (lines: Vec<String>)
    requires
        ordered_breaks(text@, breaks@),
    ensures
        lines_are(lines@, text@, wrapped_lines(text@, *font, max_width, breaks@, 0, 0)),
        wraps(lines@, text@, *font, max_width),
{
    broadcast use encode_utf8_valid_utf8;

    let mut lines: Vec<String> = Vec::new();
    let mut start: usize = 0;
    let mut at: usize = 0;
    let ghost mut done: Seq<(int, int)> = Seq::empty();
    let ghost all = wrapped_lines(text@, *font, max_width, breaks@, 0, 0);
    proof {
        is_char_boundary_start_end_of_seq(encode_utf8(text@));
        assert(done + all == all);
    }
    while at < breaks.len()
        invariant
            at <= breaks.len(),
            ordered_breaks(text@, breaks@),
            on_boundary(text@, start as int),
            at == 0 ==> start == 0,
            at > 0 ==> start == breaks@[at - 1].position,
            lines_are(lines@, text@, done),
            done + wrapped_lines(text@, *font, max_width, breaks@, start as int, at as int) == all,
        decreases breaks.len() - at,
    {
        let first = breaks[at].position;
        assert(start < first) by {
            if at > 0 {
                assert(breaks@[at - 1].position < breaks@[at as int].position);
            }
        }
        let ghost rest_before = wrapped_lines(
            text@,
            *font,
            max_width,
            breaks@,
            start as int,
            at as int,
        );
        if measure_width(slice(text, start, first), font) > max_width {
            let ghost pieces = char_lines(text@, *font, max_width, start as int, first as int);
            let ghost rest = wrapped_lines(
                text@,
                *font,
                max_width,
                breaks@,
                first as int,
                at + 1,
            );
            push_char_lines(text, start, first, max_width, font, &mut lines, Ghost(done));
            proof {
                assert(rest_before == pieces + rest);
                assert((done + pieces) + rest == done + (pieces + rest));
                done = done + pieces;
            }
            start = first;
            at += 1;
        } else {
            let mut last = at;
            while last + 1 < breaks.len() && !breaks[last].mandatory && measure_width(
                slice(text, start, breaks[last + 1].position),
                font,
            ) <= max_width
                invariant
                    at <= last < breaks.len(),
                    ordered_breaks(text@, breaks@),
                    on_boundary(text@, start as int),
                    start < breaks@[at as int].position,
                    last + breaks_taken(text@, *font, max_width, breaks@, start as int, last as int)
                        == at + breaks_taken(
                        text@,
                        *font,
                        max_width,
                        breaks@,
                        start as int,
                        at as int,
                    ),
                decreases breaks.len() - last,
            {
                assert(breaks@[at as int].position < breaks@[last + 1].position);
                last += 1;
            }
            assert(breaks@[at as int].position <= breaks@[last as int].position) by {
                if at < last {
                    assert(breaks@[at as int].position < breaks@[last as int].position);
                }
            }
            let end = breaks[last].position;
            let line = slice(text, start, end).to_owned();
            proof {
                let rest = wrapped_lines(text@, *font, max_width, breaks@, end as int, last + 1);
                let range = (start as int, end as int);
                assert(last == at + breaks_taken(
                    text@,
                    *font,
                    max_width,
                    breaks@,
                    start as int,
                    at as int,
                ));
                assert(rest_before == seq![range] + rest);
                assert(done.push(range) + rest == done + (seq![range] + rest));
                done = done.push(range);
            }
            lines.push(line);
            start = end;
            at = last + 1;
        }
    }
    proof {
        assert(done + Seq::<(int, int)>::empty() == done);
        lemma_wrapped_lines(text@, *font, max_width, breaks@, 0, 0);
        lemma_chars_between_all(text@);
        lemma_tiled_lines(lines@, text@, *font, max_width, all, 0, byte_count(text@));
    }
    lines
}

/// Wraps `text` into lines no wider than `max_width`, as far as that can be
/// done. A line ends at a break opportunity of the Unicode line breaking
/// rules; a stretch without one that is too wide is cut between characters.
/// The lines keep the blanks and line feeds at which they end.
pub fn wrap_text(text: &str, max_width: u32, font: &FontMetrics) -> (lines: Vec<String>)
    ensures
        lines_are(
            lines@,
            text@,
            wrapped_lines(
                text@,
                *font,
                max_width,
                usable_breaks(text@, line_breaks(text@), 0),
                0,
                0,
            ),
        ),
        wraps(lines@, text@, *font, max_width),
{
    let raw = find_line_breaks(text);
    let breaks = select_breaks(text, &raw);
    wrap_at_breaks(text, &breaks, max_width, font)
}

/// Wraps `text` without regard to words: every line takes as many
/// characters as fit into `max_width`, and one at least.
pub fn wrap_simple(text: &str, max_width: u32, font: &FontMetrics) -> (lines: Vec<String>)
    ensures
        lines_are(lines@, text@, char_lines(text@, *font, max_width, 0, byte_count(text@))),
        wraps(lines@, text@, *font, max_width),
{
    broadcast use encode_utf8_valid_utf8;

    let mut lines: Vec<String> = Vec::new();
    let len = byte_len(text);
    proof {
        is_char_boundary_start_end_of_seq(encode_utf8(text@));
        assert(Seq::<(int, int)>::empty() + char_lines(text@, *font, max_width, 0, len as int)
            == char_lines(text@, *font, max_width, 0, len as int));
    }
    push_char_lines(text, 0, len, max_width, font, &mut lines, Ghost(Seq::empty()));
    proof {
        let all = char_lines(text@, *font, max_width, 0, len as int);
        lemma_char_lines(text@, *font, max_width, 0, len as int);
        lemma_chars_between_all(text@);
        lemma_tiled_lines(lines@, text@, *font, max_width, all, 0, len as int);
    }
    lines
}

} // verus!
