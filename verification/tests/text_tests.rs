use tlcs::text::{
    chars_of, decimal_text, find_char, is_space, matches_ignoring_case, only_digits,
    parse_decimal, slice_text, split_words, starts_with, text_equals, trim_bounds,
};

fn trimmed(s: &str) -> String {
    let v = chars_of(s);
    let (a, b) = trim_bounds(&v, 0, v.len());
    slice_text(s, a, b)
}

fn parsed(s: &str) -> Option<u64> {
    let v = chars_of(s);
    parse_decimal(&v, 0, v.len())
}

fn split(s: &str, dots: bool) -> Vec<String> {
    let v = chars_of(s);
    split_words(&v, 0, v.len(), dots)
        .into_iter()
        .map(|(a, b)| slice_text(s, a, b))
        .collect()
}

#[test]
fn chars_of_keeps_every_character() {
    assert_eq!(chars_of("a\u{e9}z"), vec!['a', '\u{e9}', 'z']);
    assert_eq!(chars_of(""), Vec::<char>::new());
}

#[test]
fn whitespace_is_the_unicode_class() {
    for c in ['\t', '\n', '\u{b}', '\u{c}', '\r', ' ', '\u{85}', '\u{a0}', '\u{1680}', '\u{2000}', '\u{200a}', '\u{2028}', '\u{2029}', '\u{202f}', '\u{205f}', '\u{3000}'] {
        assert!(is_space(c));
    }
    for c in ['a', '.', '\u{200b}', '\u{feff}', '0', '\u{1c}'] {
        assert_eq!(is_space(c), c.is_whitespace());
    }
}

#[test]
fn whitespace_agrees_with_std_on_all_of_the_basic_plane() {
    let mut code: u32 = 0;
    while code < 0x11000 {
        if let Some(c) = char::from_u32(code) {
            assert_eq!(is_space(c), c.is_whitespace());
        }
        code += 1;
    }
}

#[test]
fn trim_removes_both_ends_only() {
    assert_eq!(trimmed("  fen a b \r\n"), "fen a b");
    assert_eq!(trimmed("\u{3000}x\u{a0}"), "x");
    assert_eq!(trimmed("   "), "");
    assert_eq!(trimmed(""), "");
    assert_eq!(trimmed("a"), "a");
}

#[test]
fn prefix_is_found_at_the_start_only() {
    let v = chars_of("clock w=1");
    assert!(starts_with(&v, 0, v.len(), &chars_of("clock ")));
    assert!(!starts_with(&v, 1, v.len(), &chars_of("clock ")));
    assert!(!starts_with(&v, 0, 3, &chars_of("clock ")));
    assert!(starts_with(&v, 0, v.len(), &chars_of("")));
}

#[test]
fn words_are_split_at_whitespace() {
    assert_eq!(split("  w=1\t b=2  ", false), vec!["w=1", "b=2"]);
    assert_eq!(split("1. e4", false), vec!["1.", "e4"]);
    assert_eq!(split("", false), Vec::<String>::new());
    assert_eq!(split(" \n ", false), Vec::<String>::new());
}

#[test]
fn words_are_split_at_full_stops_on_request() {
    assert_eq!(split("12.e4 e5 13...Nf3", true), vec!["12", "e4", "e5", "13", "Nf3"]);
    assert_eq!(split("...", true), Vec::<String>::new());
}

#[test]
fn numbers_parse_as_std_parses_them() {
    for s in ["0", "7", "007", "+5", "59000", "18446744073709551615", "18446744073709551616",
        "", "+", "-1", "++1", "1a", " 1", "1 ", "99999999999999999999999", "000000000000000000000000001"] {
        assert_eq!(parsed(s), s.parse::<u64>().ok());
    }
    assert_eq!(parsed("18446744073709551615"), Some(u64::MAX));
    assert_eq!(parsed("18446744073709551616"), None);
    assert_eq!(parsed("+5"), Some(5));
}

#[test]
fn digits_only() {
    let v = chars_of("12a");
    assert!(only_digits(&v, 0, 2));
    assert!(!only_digits(&v, 0, 3));
    assert!(only_digits(&v, 1, 1));
}

#[test]
fn case_of_ascii_letters_is_ignored() {
    let v = chars_of("Offer DRAW");
    assert!(matches_ignoring_case(&v, 0, v.len(), &chars_of("offer draw")));
    assert!(!matches_ignoring_case(&v, 0, v.len(), &chars_of("offer draws")));
    let k = chars_of("\u{212a}");
    assert!(!matches_ignoring_case(&k, 0, 1, &chars_of("k")));
    let at = chars_of("@");
    assert!(!matches_ignoring_case(&at, 0, 1, &chars_of("`")));
}

#[test]
fn first_space_is_found() {
    let v = chars_of("ab cd e");
    assert_eq!(find_char(&v, 0, v.len(), ' '), 2);
    assert_eq!(find_char(&v, 3, v.len(), ' '), 5);
    assert_eq!(find_char(&v, 6, v.len(), ' '), 7);
}

#[test]
fn decimal_text_writes_base_ten() {
    assert_eq!(decimal_text(0), "0");
    assert_eq!(decimal_text(9), "9");
    assert_eq!(decimal_text(10), "10");
    assert_eq!(decimal_text(8080), "8080");
    assert_eq!(decimal_text(u64::MAX), "18446744073709551615");
}

#[test]
fn texts_compare_by_content() {
    assert!(text_equals("1-0", "1-0"));
    assert!(!text_equals("1-0", "0-1"));
    assert!(text_equals("", ""));
}
