//! Cutting a string at byte offsets that lie between characters.
use vstd::prelude::*;
use vstd::string::StringSliceAdditionalSpecFns;
use vstd::utf8::*;

verus! {

/// Whether `index` lies between two characters of `text`, or at one of its ends.
pub open spec fn on_boundary(text: Seq<char>, index: int) -> bool {
    0 <= index <= encode_utf8(text).len() && is_char_boundary(encode_utf8(text), index)
}

/// The characters that `text` holds between the byte offsets `from` and `to`.
pub open spec fn chars_between(text: Seq<char>, from: int, to: int) -> Seq<char> {
    decode_utf8(encode_utf8(text).subrange(from, to))
}

/// The first boundary at or after `index`; the end of the text at the latest.
pub open spec fn boundary_from(text: Seq<char>, index: int) -> int
    decreases encode_utf8(text).len() - index,
{
    if index >= encode_utf8(text).len() {
        encode_utf8(text).len() as int
    } else if on_boundary(text, index) {
        index
    } else {
        boundary_from(text, index + 1)
    }
}

/// A boundary of a text is one of each prefix that reaches it.
pub proof fn lemma_boundary_in_prefix(bytes: Seq<u8>, from: int, to: int)
    requires
        valid_utf8(bytes),
        0 <= from <= to <= bytes.len(),
        is_char_boundary(bytes, from),
        is_char_boundary(bytes, to),
    ensures
        valid_utf8(bytes.subrange(0, to)),
        is_char_boundary(bytes.subrange(0, to), from),
{
    let head = bytes.subrange(0, to);
    valid_utf8_split(bytes, to);
    if from == to {
        is_char_boundary_start_end_of_seq(head);
    } else {
        is_char_boundary_iff_not_is_continuation_byte(bytes, from);
        is_char_boundary_iff_not_is_continuation_byte(head, from);
    }
}

/// The stretch of a text between two of its boundaries is a text itself, and
/// a boundary of the whole that lies in the stretch is one of the stretch.
pub proof fn lemma_boundary_in_stretch(bytes: Seq<u8>, from: int, mid: int, to: int)
    requires
        valid_utf8(bytes),
        0 <= from <= mid <= to <= bytes.len(),
        is_char_boundary(bytes, from),
        is_char_boundary(bytes, mid),
        is_char_boundary(bytes, to),
    ensures
        valid_utf8(bytes.subrange(from, to)),
        is_char_boundary(bytes.subrange(from, to), mid - from),
{
    let head = bytes.subrange(0, to);
    lemma_boundary_in_prefix(bytes, from, to);
    lemma_boundary_in_prefix(bytes, mid, to);
    valid_utf8_split(head, from);
    let part = head.subrange(from, head.len() as int);
    assert(part == bytes.subrange(from, to));
    if mid == from || mid == to {
        is_char_boundary_start_end_of_seq(part);
    } else {
        is_char_boundary_iff_not_is_continuation_byte(bytes, mid);
        is_char_boundary_iff_not_is_continuation_byte(part, mid - from);
    }
}

/// The characters of a stretch are those of its two parts, one after the other.
pub proof fn lemma_chars_between_split(text: Seq<char>, from: int, mid: int, to: int)
    requires
        from <= mid <= to,
        on_boundary(text, from),
        on_boundary(text, mid),
        on_boundary(text, to),
    ensures
        chars_between(text, from, to) == chars_between(text, from, mid) + chars_between(
            text,
            mid,
            to,
        ),
{
    let bytes = encode_utf8(text);
    encode_utf8_valid_utf8(text);
    lemma_boundary_in_stretch(bytes, from, mid, to);
    let part = bytes.subrange(from, to);
    decode_utf8_split(part, mid - from);
    assert(part.subrange(0, mid - from) == bytes.subrange(from, mid));
    assert(part.subrange(mid - from, part.len() as int) == bytes.subrange(mid, to));
}

/// The characters between the two ends of a text are the text.
pub proof fn lemma_chars_between_all(text: Seq<char>)
    ensures
        chars_between(text, 0, encode_utf8(text).len() as int) == text,
        on_boundary(text, 0),
        on_boundary(text, encode_utf8(text).len() as int),
{
    let bytes = encode_utf8(text);
    encode_utf8_valid_utf8(text);
    encode_utf8_decode_utf8(text);
    is_char_boundary_start_end_of_seq(bytes);
    assert(bytes.subrange(0, bytes.len() as int) == bytes);
}

/// Between a boundary and the next one lies exactly one character.
pub proof fn lemma_single_char(text: Seq<char>, from: int)
    requires
        on_boundary(text, from),
        from < encode_utf8(text).len(),
    ensures
        from < boundary_from(text, from + 1) <= encode_utf8(text).len(),
        on_boundary(text, boundary_from(text, from + 1)),
        chars_between(text, from, boundary_from(text, from + 1)).len() == 1,
{
    let bytes = encode_utf8(text);
    encode_utf8_valid_utf8(text);
    is_char_boundary_start_end_of_seq(bytes);
    lemma_next_boundary_is_first(text, from + 1);
    let next = boundary_from(text, from + 1);
    lemma_boundary_in_stretch(bytes, from, next, next);
    let part = bytes.subrange(from, next);
    let width = length_of_first_scalar(part);
    let rest = pop_first_scalar(part);
    assert(0 < width <= part.len() && valid_utf8(rest)) by {
        reveal_with_fuel(valid_utf8, 2);
    }
    if width < part.len() {
        // The end of the first character would be a boundary before `next`.
        assert(is_char_boundary(part, width)) by {
            reveal_with_fuel(is_char_boundary, 2);
        }
        is_char_boundary_iff_not_is_continuation_byte(part, width);
        is_char_boundary_iff_not_is_continuation_byte(bytes, from + width);
        assert(part[width] == bytes[from + width]);
        assert(!is_continuation_byte(part[width]));
        assert(is_char_boundary(bytes, from + width));
        assert(on_boundary(text, from + width));
        assert(false);
    }
    assert(rest.len() == 0);
    assert(decode_utf8(part).len() == 1) by {
        reveal_with_fuel(decode_utf8, 2);
    }
}

/// No boundary lies between `index` and the first boundary at or after it.
pub proof fn lemma_next_boundary_is_first(text: Seq<char>, index: int)
    requires
        0 <= index <= encode_utf8(text).len(),
    ensures
        index <= boundary_from(text, index) <= encode_utf8(text).len(),
        on_boundary(text, boundary_from(text, index)),
        forall|k: int| index <= k < boundary_from(text, index) ==> !on_boundary(text, k),
    decreases encode_utf8(text).len() - index,
{
    encode_utf8_valid_utf8(text);
    is_char_boundary_start_end_of_seq(encode_utf8(text));
    if index < encode_utf8(text).len() && !on_boundary(text, index) {
        lemma_next_boundary_is_first(text, index + 1);
    }
}

/// The part of `text` between two boundaries.
pub fn slice<'a>(text: &'a str, from: usize, to: usize) -> (part: &'a str)
    requires
        from <= to,
        on_boundary(text@, from as int),
        on_boundary(text@, to as int),
    ensures
        part@ == chars_between(text@, from as int, to as int),
        part.spec_bytes() == text.spec_bytes().subrange(from as int, to as int),
{
    broadcast use encode_utf8_valid_utf8, encode_utf8_decode_utf8;

    let ghost bytes = text.spec_bytes();
    let (head, _) = text.split_at(to);
    proof {
        lemma_boundary_in_prefix(bytes, from as int, to as int);
        assert(head.spec_bytes() == bytes.subrange(0, to as int));
    }
    let (_, part) = head.split_at(from);
    proof {
        assert(part.spec_bytes() == bytes.subrange(from as int, to as int));
        assert(decode_utf8(encode_utf8(part@)) == part@);
    }
    part
}

/// The length of `text` in bytes.
pub fn byte_len(text: &str) -> (len: usize)
    ensures
        len == text.spec_bytes().len(),
{
    broadcast use vstd::slice::axiom_spec_len;

    text.as_bytes().len()
}

/// Finds the first boundary at or after `index`.
pub fn next_boundary(text: &str, index: usize) -> (next: usize)
    ensures
        next == boundary_from(text@, index as int),
        index <= text.spec_bytes().len() ==> index <= next <= text.spec_bytes().len(),
        on_boundary(text@, next as int) || index > text.spec_bytes().len(),
{
    broadcast use encode_utf8_valid_utf8, is_char_boundary_start_end_of_seq;

    let len = byte_len(text);
    let mut next = index;
    while next < len && !text.is_char_boundary(next)
        invariant
            len == text.spec_bytes().len(),
            index <= next,
            boundary_from(text@, next as int) == boundary_from(text@, index as int),
        decreases len - next,
    {
        next += 1;
    }
    if next >= len {
        len
    } else {
        next
    }
}

} // verus!
