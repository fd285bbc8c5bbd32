use sprite_stage::slices::{byte_len, next_boundary, slice};

#[test]
fn lengths_are_counted_in_bytes() {
    assert_eq!(byte_len(""), 0);
    assert_eq!(byte_len("abc"), 3);
    assert_eq!(byte_len("aä€😀"), 1 + 2 + 3 + 4);
}

#[test]
fn the_next_boundary_skips_the_inside_of_a_character() {
    let text = "aä€😀";
    assert_eq!(next_boundary(text, 0), 0);
    assert_eq!(next_boundary(text, 1), 1);
    assert_eq!(next_boundary(text, 2), 3);
    assert_eq!(next_boundary(text, 3), 3);
    assert_eq!(next_boundary(text, 4), 6);
    assert_eq!(next_boundary(text, 5), 6);
    assert_eq!(next_boundary(text, 7), 10);
    assert_eq!(next_boundary(text, 9), 10);
    assert_eq!(next_boundary(text, 10), 10);
    assert_eq!(next_boundary(text, 11), 10);
    assert_eq!(next_boundary("", 0), 0);
}

#[test]
fn a_slice_holds_the_characters_between_two_boundaries() {
    let text = "aä€😀";
    assert_eq!(slice(text, 0, 10), text);
    assert_eq!(slice(text, 0, 0), "");
    assert_eq!(slice(text, 10, 10), "");
    assert_eq!(slice(text, 1, 3), "ä");
    assert_eq!(slice(text, 3, 10), "€😀");
    assert_eq!(slice(text, 1, 6), "ä€");
}
