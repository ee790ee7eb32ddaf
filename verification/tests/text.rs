use simpled::env_loader::trim_bounds;
use simpled::text::{chars_of, concat2, concat3, find_char, same_text, slice_text};

#[test]
fn chars_are_counted_one_by_one() {
    assert_eq!(chars_of(""), Vec::<char>::new());
    assert_eq!(chars_of("aß€😀"), vec!['a', 'ß', '€', '😀']);
}

#[test]
fn same_text_compares_characters() {
    assert!(same_text("", ""));
    assert!(same_text("abc", "abc"));
    assert!(!same_text("abc", "abd"));
    assert!(!same_text("abc", "ab"));
    assert!(!same_text("a", "A"));
}

#[test]
fn slice_text_counts_characters_not_bytes() {
    assert_eq!(slice_text("aß€😀z", 1, 4), "ß€😀");
    assert_eq!(slice_text("abc", 0, 3), "abc");
    assert_eq!(slice_text("abc", 2, 2), "");
    assert_eq!(slice_text("", 0, 0), "");
}

#[test]
fn concat_joins_in_order() {
    assert_eq!(concat2("ab", "cd"), "abcd");
    assert_eq!(concat2("", ""), "");
    assert_eq!(concat3("a", "-", "b"), "a-b");
    assert_eq!(concat3("", "x", ""), "x");
}

#[test]
fn find_char_finds_the_first_from_an_index() {
    let chars = chars_of("a=b=c");
    assert_eq!(find_char(&chars, '=', 0), Some(1));
    assert_eq!(find_char(&chars, '=', 1), Some(1));
    assert_eq!(find_char(&chars, '=', 2), Some(3));
    assert_eq!(find_char(&chars, '=', 4), None);
    assert_eq!(find_char(&chars, '=', 5), None);
    assert_eq!(find_char(&chars, '=', 99), None);
    assert_eq!(find_char(&chars, 'x', 0), None);
}

#[test]
fn trim_bounds_skips_white_space_at_both_ends() {
    let chars = chars_of(" \t ab c \n");
    assert_eq!(trim_bounds(&chars, 0, chars.len()), (3, 7));
    assert_eq!(trim_bounds(&chars, 4, 6), (4, 5));
    assert_eq!(trim_bounds(&chars, 0, 3), (3, 3));
    assert_eq!(trim_bounds(&chars, 5, 5), (5, 5));
    let blank = chars_of("\u{a0}\u{2003}\u{3000}\u{85}\u{1680}\u{2028}\u{2029}\u{202f}\u{205f}x\u{b}\u{c}\r");
    assert_eq!(trim_bounds(&blank, 0, blank.len()), (9, 10));
    // A zero-width space is no white space.
    let other = chars_of("\u{200b}x\u{feff}");
    assert_eq!(trim_bounds(&other, 0, other.len()), (0, 3));
}
