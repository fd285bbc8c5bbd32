//! The widths of glyphs, as far as wrapping and bubble layout read them.
use vstd::prelude::*;
use vstd::std_specs::iter::IteratorSpec;

verus! {

/// The advance of one character: how far the pen moves after drawing it.
#[derive(Copy, Clone, Debug, PartialEq, Eq, Structural)]
pub struct Glyph {
    pub character: char,
    pub advance: u32,
}

/// A table of advances at one font size. The width of a run of text is the
/// sum of the advances of its characters.
#[derive(Clone, Debug)]
pub struct FontMetrics {
    /// The known glyphs; of two entries for one character the first counts.
    pub glyphs: Vec<Glyph>,
    /// The advance of every character that has no entry.
    pub fallback: u32,
}

/// The advance that the first entry for `c` gives, or `fallback` without one.
pub open spec fn advance_in(glyphs: Seq<Glyph>, fallback: u32, c: char) -> nat
    decreases glyphs.len(),
{
    if glyphs.len() == 0 {
        fallback as nat
    } else if glyphs[0].character == c {
        glyphs[0].advance as nat
    } else {
        advance_in(glyphs.drop_first(), fallback, c)
    }
}

/// The sum of the advances of `text`.
pub open spec fn run_width(text: Seq<char>, glyphs: Seq<Glyph>, fallback: u32) -> nat
    decreases text.len(),
{
    if text.len() == 0 {
        0
    } else {
        run_width(text.drop_last(), glyphs, fallback) + advance_in(glyphs, fallback, text.last())
    }
}

/// A width as it is measured: the sum of the advances, but never above `u32::MAX`.
pub open spec fn capped(width: nat) -> nat {
    if width > u32::MAX {
        u32::MAX as nat
    } else {
        width
    }
}

impl FontMetrics {
    /// The advance of `c`.
    pub open spec fn advance_of(&self, c: char) -> nat {
        advance_in(self.glyphs@, self.fallback, c)
    }

    /// The measured width of `text`.
    pub open spec fn width_of(&self, text: Seq<char>) -> nat {
        capped(run_width(text, self.glyphs@, self.fallback))
    }

    /// A font in which every character is `fallback` wide.
    pub fn monospace(fallback: u32) -> (font: FontMetrics)
        ensures
            font.glyphs@.len() == 0,
            font.fallback == fallback,
            forall|c: char| font.advance_of(c) == fallback,
    {
        FontMetrics { glyphs: Vec::new(), fallback }
    }

    /// Looks up the advance of `c`.
    pub fn advance(&self, c: char) -> (a: u32)
        ensures
            a == self.advance_of(c),
    {
        let mut i: usize = 0;
        assert(self.glyphs@.subrange(0, self.glyphs@.len() as int) == self.glyphs@);
        while i < self.glyphs.len()
            invariant
                i <= self.glyphs.len(),
                self.advance_of(c) == advance_in(
                    self.glyphs@.subrange(i as int, self.glyphs@.len() as int),
                    self.fallback,
                    c,
                ),
            decreases self.glyphs.len() - i,
        {
            let ghost rest = self.glyphs@.subrange(i as int, self.glyphs@.len() as int);
            assert(rest[0] == self.glyphs@[i as int]);
            assert(rest.drop_first() == self.glyphs@.subrange(i + 1, self.glyphs@.len() as int));
            if self.glyphs[i].character == c {
                return self.glyphs[i].advance;
            }
            i += 1;
        }
        assert(self.glyphs@.subrange(i as int, self.glyphs@.len() as int).len() == 0);
        self.fallback
    }
}

/// Adds an advance to a measured width, stopping at `u32::MAX`.
fn add_capped(width: u32, advance: u32) -> (r: u32)
    ensures
        r == capped((width + advance) as nat),
{
    if advance > u32::MAX - width {
        u32::MAX
    } else {
        width + advance
    }
}

/// Measures the width of `text` in `font`.
pub fn measure_width(text: &str, font: &FontMetrics) -> (w: u32)
    ensures
        w == font.width_of(text@),
{
    broadcast use vstd::string::axiom_spec_iter, vstd::string::next_postcondition;

    let mut chars = text.chars();
    let mut width: u32 = 0;
    let ghost mut seen: Seq<char> = Seq::empty();
    loop
        invariant
            chars.obeys_prophetic_iter_laws(),
            chars.decrease() is Some,
            seen + chars.remaining() == text@,
            width == font.width_of(seen),
        decreases chars.decrease()->0,
    {
        let ghost before = chars.remaining();
        match chars.next() {
            Some(c) => {
                proof {
                    assert(seen.push(c).drop_last() == seen);
                    assert(seen.push(c) + chars.remaining() == seen + before);
                    seen = seen.push(c);
                }
                width = add_capped(width, font.advance(c));
            },
            None => {
                assert(seen + before == seen);
                return width;
            },
        }
    }
}

} // verus!
