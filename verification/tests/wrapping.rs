use sprite_stage::font::{measure_width, FontMetrics, Glyph};
use sprite_stage::wrap::{select_breaks, wrap_at_breaks, wrap_simple, wrap_text, LineBreak};

fn mono() -> FontMetrics {
    FontMetrics::monospace(10_000)
}

fn lines(v: &[&str]) -> Vec<String> {
    v.iter().map(|s| s.to_string()).collect()
}

#[test]
fn six_words_three_to_a_line() {
    let text = "one two three four five six";
    let font = mono();
    let wrapped = wrap_text(text, 140_000, &font);
    assert_eq!(wrapped, lines(&["one two three ", "four five six"]));
    for line in &wrapped {
        assert!(measure_width(line, &font) <= 140_000);
    }
    let words: Vec<&str> = wrapped.iter().flat_map(|l| l.split_whitespace()).collect();
    assert_eq!(words, vec!["one", "two", "three", "four", "five", "six"]);
    assert_eq!(wrapped.concat(), text);
}

#[test]
fn six_words_do_not_fit_four_to_a_line() {
    let wrapped = wrap_text("one two three four five six", 180_000, &mono());
    assert_eq!(wrapped, lines(&["one two three ", "four five six"]));
    let wrapped = wrap_text("one two three four five six", 190_000, &mono());
    assert_eq!(wrapped, lines(&["one two three four ", "five six"]));
}

#[test]
fn empty_text_has_no_lines() {
    assert_eq!(wrap_text("", 170_000, &mono()), Vec::<String>::new());
    assert_eq!(wrap_simple("", 170_000, &mono()), Vec::<String>::new());
}

#[test]
fn short_text_is_one_line() {
    assert_eq!(wrap_text("hello", 170_000, &mono()), lines(&["hello"]));
    assert_eq!(wrap_text("hello", 50_000, &mono()), lines(&["hello"]));
}

#[test]
fn text_that_fits_is_one_line() {
    assert_eq!(wrap_text("a b c", 50_000, &mono()), lines(&["a b c"]));
}

#[test]
fn a_word_too_wide_is_cut_between_characters() {
    assert_eq!(wrap_text("abcdefghij", 40_000, &mono()), lines(&["abcd", "efgh", "ij"]));
}

#[test]
fn the_line_behind_a_cut_word_starts_afresh() {
    assert_eq!(
        wrap_text("abcdefghij kl mn", 40_000, &mono()),
        lines(&["abcd", "efgh", "ij ", "kl ", "mn"])
    );
}

#[test]
fn a_wide_word_in_the_middle() {
    assert_eq!(
        wrap_text("ab cdefghijk lm", 50_000, &mono()),
        lines(&["ab ", "cdefg", "hijk ", "lm"])
    );
}

#[test]
fn a_line_feed_ends_the_line() {
    assert_eq!(wrap_text("a\nb", 170_000, &mono()), lines(&["a\n", "b"]));
    assert_eq!(wrap_text("a b\n\nc d", 170_000, &mono()), lines(&["a b\n", "\n", "c d"]));
}

#[test]
fn a_line_feed_behind_a_full_line() {
    assert_eq!(wrap_text("aa bb\ncc", 40_000, &mono()), lines(&["aa ", "bb\n", "cc"]));
}

#[test]
fn a_character_wider_than_the_line_stands_alone() {
    assert_eq!(wrap_text("abc", 5_000, &mono()), lines(&["a", "b", "c"]));
    assert_eq!(wrap_simple("abc", 0, &mono()), lines(&["a", "b", "c"]));
}

#[test]
fn characters_of_several_bytes_are_kept_whole() {
    assert_eq!(wrap_text("ää öö", 20_000, &mono()), lines(&["ää", " ", "öö"]));
    assert_eq!(wrap_text("日本語のテキスト", 1_000, &mono()).len(), 8);
    assert_eq!(wrap_simple("a€😀b", 20_000, &mono()), lines(&["a€", "😀b"]));
}

#[test]
fn simple_wrap_takes_as_many_characters_as_fit() {
    assert_eq!(wrap_simple("hello world", 40_000, &mono()), lines(&["hell", "o wo", "rld"]));
    assert_eq!(wrap_simple("hello", 50_000, &mono()), lines(&["hello"]));
    assert_eq!(wrap_simple("hello", 49_999, &mono()), lines(&["hell", "o"]));
}

#[test]
fn widths_come_from_the_glyphs() {
    let font = FontMetrics {
        glyphs: vec![
            Glyph { character: 'i', advance: 3_000 },
            Glyph { character: 'm', advance: 15_000 },
            Glyph { character: 'i', advance: 99_000 },
        ],
        fallback: 10_000,
    };
    assert_eq!(font.advance('i'), 3_000);
    assert_eq!(font.advance('m'), 15_000);
    assert_eq!(font.advance('x'), 10_000);
    assert_eq!(measure_width("", &font), 0);
    assert_eq!(measure_width("mix", &font), 28_000);
    assert_eq!(wrap_simple("iiiimm", 15_000, &font), lines(&["iiii", "m", "m"]));
    assert_eq!(wrap_text("iii iii mm", 38_000, &font), lines(&["iii iii ", "mm"]));
    assert_eq!(wrap_text("iii iii mm", 37_999, &font), lines(&["iii ", "iii ", "mm"]));
}

#[test]
fn widths_stop_at_the_largest_number() {
    let font = FontMetrics::monospace(u32::MAX);
    assert_eq!(measure_width("a", &font), u32::MAX);
    assert_eq!(measure_width("ab", &font), u32::MAX);
    let font = FontMetrics::monospace(u32::MAX / 2 + 1);
    assert_eq!(measure_width("ab", &font), u32::MAX);
}

#[test]
fn every_wrap_gives_the_text_back() {
    let texts = [
        "The quick brown fox jumps over the lazy dog.",
        "  leading and trailing  ",
        "tab\tseparated\tvalues",
        "hy-phen-ated words-and-more",
        "Zeile eins\r\nZeile zwei\nZeile drei\n",
        "supercalifragilisticexpialidocious",
        "Ünïcödé – „Anführungszeichen“ … €uro",
        "\n\n\n",
        " ",
    ];
    let font = mono();
    for text in texts {
        for budget in [0, 10_000, 30_000, 70_000, 170_000, u32::MAX] {
            let wrapped = wrap_text(text, budget, &font);
            assert_eq!(wrapped.concat(), text);
            for line in &wrapped {
                assert!(!line.is_empty());
                assert!(measure_width(line, &font) <= budget || line.chars().count() == 1);
            }
            let simple = wrap_simple(text, budget, &font);
            assert_eq!(simple.concat(), text);
            for line in &simple {
                assert!(!line.is_empty());
                assert!(measure_width(line, &font) <= budget || line.chars().count() == 1);
            }
        }
    }
}

#[test]
fn breaks_that_cannot_be_used_are_left_out() {
    let raw = vec![
        LineBreak { position: 0, mandatory: false },
        LineBreak { position: 2, mandatory: false },
        LineBreak { position: 2, mandatory: true },
        LineBreak { position: 4, mandatory: false },
        LineBreak { position: 1, mandatory: true },
        LineBreak { position: 99, mandatory: true },
    ];
    // "aäb c": the bytes 2 and 3 hold the one character "ä".
    assert_eq!(
        select_breaks("aäb c", &raw),
        vec![
            LineBreak { position: 4, mandatory: false },
            LineBreak { position: 6, mandatory: true },
        ]
    );
    assert_eq!(
        select_breaks("ab", &raw),
        vec![LineBreak { position: 2, mandatory: false }]
    );
    assert_eq!(select_breaks("", &raw), vec![]);
    assert_eq!(select_breaks("abc", &vec![]), vec![LineBreak { position: 3, mandatory: true }]);
}

#[test]
fn wrapping_at_given_breaks() {
    let text = "aa,bb,cc";
    let breaks = vec![
        LineBreak { position: 3, mandatory: false },
        LineBreak { position: 6, mandatory: false },
        LineBreak { position: 8, mandatory: true },
    ];
    assert_eq!(wrap_at_breaks(text, &breaks, 60_000, &mono()), lines(&["aa,bb,", "cc"]));
    assert_eq!(wrap_at_breaks(text, &breaks, 80_000, &mono()), lines(&["aa,bb,cc"]));
    assert_eq!(wrap_at_breaks(text, &breaks, 30_000, &mono()), lines(&["aa,", "bb,", "cc"]));
    assert_eq!(
        wrap_at_breaks(text, &breaks, 20_000, &mono()),
        lines(&["aa", ",", "bb", ",", "cc"])
    );
    let forced = vec![
        LineBreak { position: 3, mandatory: true },
        LineBreak { position: 8, mandatory: false },
    ];
    assert_eq!(wrap_at_breaks(text, &forced, 80_000, &mono()), lines(&["aa,", "bb,cc"]));
}
