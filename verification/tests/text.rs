use spinploy::text::{
    chars_less, chars_of, copy_opt_text, copy_text, join2, parse_u64, same_chars, same_text,
    same_text_ignoring_ascii_case, split, starts_with, string_of, strip_prefix, to_ascii_lower,
    to_ascii_lowercase, trim_end_char, trim_start_char, trimmed, u64_to_string, white,
};

fn text(v: Vec<char>) -> String {
    v.into_iter().collect()
}

#[test]
fn chars_and_strings_round_trip() {
    assert_eq!(chars_of("a\u{e9}z"), vec!['a', '\u{e9}', 'z']);
    assert_eq!(chars_of(""), Vec::<char>::new());
    let v = chars_of("hello");
    assert_eq!(string_of(&v, 1, 4), "ell");
    assert_eq!(string_of(&v, 0, 5), "hello");
    assert_eq!(string_of(&v, 2, 2), "");
    assert_eq!(copy_text("abc"), "abc");
    assert_eq!(join2("ab", "cd"), "abcd");
    assert_eq!(copy_opt_text(&Some("x".to_string())), Some("x".to_string()));
    assert_eq!(copy_opt_text(&None), None);
}

#[test]
fn texts_compare_by_their_characters() {
    assert!(same_text("abc", "abc"));
    assert!(!same_text("abc", "abd"));
    assert!(!same_text("abc", "ab"));
    assert!(same_text("", ""));
    assert!(same_chars(&chars_of("xy"), &chars_of("xy")));
    assert!(!same_chars(&chars_of("xy"), &chars_of("x")));
}

#[test]
fn ascii_capitals_are_lowered_and_nothing_else() {
    assert_eq!(to_ascii_lower('A'), 'a');
    assert_eq!(to_ascii_lower('Z'), 'z');
    assert_eq!(to_ascii_lower('a'), 'a');
    assert_eq!(to_ascii_lower('@'), '@');
    assert_eq!(to_ascii_lower('['), '[');
    assert_eq!(to_ascii_lower('\u{c9}'), '\u{c9}');
    assert_eq!(text(to_ascii_lowercase(&chars_of("MiXed-09"))), "mixed-09");
    assert!(same_text_ignoring_ascii_case("Completed", "completed"));
    assert!(same_text_ignoring_ascii_case("FAILED", "failed"));
    assert!(!same_text_ignoring_ascii_case("failed", "failure"));
}

#[test]
fn prefixes_are_found_and_stripped() {
    assert!(starts_with(&chars_of("preview-x"), &chars_of("preview-")));
    assert!(starts_with(&chars_of("abc"), &chars_of("")));
    assert!(!starts_with(&chars_of("ab"), &chars_of("abc")));
    assert!(!starts_with(&chars_of("xbc"), &chars_of("ab")));
    assert_eq!(strip_prefix("pr-12", "pr-"), Some("12".to_string()));
    assert_eq!(strip_prefix("pr-", "pr-"), Some("".to_string()));
    assert_eq!(strip_prefix("br-12", "pr-"), None);
}

#[test]
fn a_text_splits_into_one_piece_more_than_it_has_separators() {
    assert_eq!(split("a-b-c", '-'), vec!["a", "b", "c"]);
    assert_eq!(split("abc", '-'), vec!["abc"]);
    assert_eq!(split("", '-'), vec![""]);
    assert_eq!(split("-", '-'), vec!["", ""]);
    assert_eq!(split("a--b-", '-'), vec!["a", "", "b", ""]);
}

#[test]
fn numerals_are_read() {
    assert_eq!(parse_u64("0"), Some(0));
    assert_eq!(parse_u64("42"), Some(42));
    assert_eq!(parse_u64("007"), Some(7));
    assert_eq!(parse_u64("18446744073709551615"), Some(u64::MAX));
    assert_eq!(parse_u64("18446744073709551616"), None);
    assert_eq!(parse_u64("99999999999999999999999"), None);
    assert_eq!(parse_u64(""), None);
    assert_eq!(parse_u64("12a"), None);
    assert_eq!(parse_u64("+5"), None);
    assert_eq!(parse_u64("-5"), None);
    assert_eq!(parse_u64(" 5"), None);
}

#[test]
fn numbers_are_written() {
    assert_eq!(u64_to_string(0), "0");
    assert_eq!(u64_to_string(7), "7");
    assert_eq!(u64_to_string(10), "10");
    assert_eq!(u64_to_string(1774), "1774");
    assert_eq!(u64_to_string(u64::MAX), "18446744073709551615");
}

#[test]
fn written_numbers_are_read_back() {
    let numbers: Vec<u64> = vec![0, 1, 9, 10, 99, 100, 12345, u64::MAX - 1, u64::MAX];
    for n in numbers {
        assert_eq!(parse_u64(&u64_to_string(n)), Some(n));
    }
}

#[test]
fn runs_of_a_character_are_trimmed() {
    assert_eq!(trim_start_char("//a/b/", '/'), "a/b/");
    assert_eq!(trim_start_char("a", '/'), "a");
    assert_eq!(trim_start_char("///", '/'), "");
    assert_eq!(trim_end_char("http://x//", '/'), "http://x");
    assert_eq!(trim_end_char("x", '/'), "x");
    assert_eq!(trim_end_char("//", '/'), "");
}

#[test]
fn white_space_is_trimmed() {
    assert!(white(' '));
    assert!(white('\t'));
    assert!(white('\n'));
    assert!(white('\r'));
    assert!(white('\u{a0}'));
    assert!(white('\u{3000}'));
    assert!(!white('a'));
    assert!(!white('\u{200b}'));
    assert_eq!(text(trimmed("  a b \n")), "a b");
    assert_eq!(text(trimmed("   ")), "");
    assert_eq!(text(trimmed("")), "");
    assert_eq!(text(trimmed("x")), "x");
}

#[test]
fn white_space_agrees_with_the_standard_library() {
    let mut n: u32 = 0;
    while n < 0x3100 {
        if let Some(c) = char::from_u32(n) {
            assert_eq!(white(c), c.is_whitespace());
        }
        n += 1;
    }
}

#[test]
fn texts_are_ordered_as_strings_are() {
    let samples = vec!["", "a", "ab", "b", "B", "2024-01-01", "2024-01-02", "\u{e9}", "z"];
    for x in samples.iter() {
        for y in samples.iter() {
            assert_eq!(chars_less(&chars_of(x), &chars_of(y)), x < y);
        }
    }
}
