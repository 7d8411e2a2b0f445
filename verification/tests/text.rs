use open_interpreter::lines::{join_lines, normalize_newlines, split_lines};
use open_interpreter::text;
use open_interpreter::text::{
    chars_of, count_matches, decimal_text, replace_first, same_text, string_of,
    text_contains, text_starts_with, to_ascii_lower, trim, white_space, MatchCount,
};

#[test]
fn characters_and_strings_are_two_forms_of_one_text() {
    let chars = chars_of("na\u{ef}ve \u{1f600}");
    assert_eq!(chars.len(), 7);
    assert_eq!(string_of(&chars, 0, chars.len()), "na\u{ef}ve \u{1f600}");
    assert_eq!(string_of(&chars, 2, 4), "\u{ef}v");
    assert_eq!(text::concat("ab", "c"), "abc");
}

#[test]
fn texts_are_compared() {
    assert!(same_text("", ""));
    assert!(same_text("abc", "abc"));
    assert!(!same_text("abc", "abd"));
    assert!(!same_text("abc", "ab"));
    assert!(text_starts_with("--remote=x", "--remote="));
    assert!(!text_starts_with("--remot", "--remote="));
    assert!(text_contains("xaby", "ab"));
    assert!(!text_contains("xayb", "ab"));
    assert!(text_contains("", ""));
}

#[test]
fn white_space_is_that_of_unicode() {
    for code in 0..=0x10ffffu32 {
        if let Some(c) = char::from_u32(code) {
            assert_eq!(white_space(c), c.is_whitespace());
        }
    }
}

#[test]
fn trimming_and_lowering_agree_with_the_standard_library() {
    for s in ["", " ", "a", " a b ", "\t\u{2028}X\u{3000}\n", "\u{200b}z"] {
        let trimmed: String = trim(s).into_iter().collect();
        assert_eq!(trimmed, s.trim());
        assert_eq!(to_ascii_lower(&chars_of(s)), s.to_ascii_lowercase());
    }
    assert_eq!(to_ascii_lower(&chars_of("@AZ[\u{c4}")), "@az[\u{c4}");
}

#[test]
fn numbers_are_written_in_decimal() {
    for n in [0usize, 7, 10, 99, 100, 120, 65535, usize::MAX] {
        assert_eq!(decimal_text(n), n.to_string());
    }
}

#[test]
fn matches_are_counted_one_behind_the_other() {
    for (s, pattern) in [
        ("", ""),
        ("", "a"),
        ("a", ""),
        ("aaa", "aa"),
        ("aaaa", "aa"),
        ("abcabc", "abc"),
        ("abcab", "abc"),
        ("\u{e9}x\u{e9}", "\u{e9}"),
    ] {
        let expected = match s.match_indices(pattern).count() {
            0 => MatchCount::Zero,
            1 => MatchCount::One,
            _ => MatchCount::Many,
        };
        assert_eq!(count_matches(s, pattern), expected);
        assert_eq!(replace_first(s, pattern, "-"), s.replacen(pattern, "-", 1));
    }
}

#[test]
fn lines_agree_with_the_standard_library() {
    for s in [
        "", "\n", "a", "a\n", "a\nb", "a\r\nb\r\n", "a\r", "\r\n", "\n\n", "a\r\r\nb", "\rb\n",
    ] {
        let expected: Vec<String> = s.lines().map(str::to_string).collect();
        assert_eq!(split_lines(s), expected);
        assert_eq!(join_lines(&expected), expected.join("\n"));
    }
}

#[test]
fn newlines_agree_with_the_standard_library() {
    for s in ["", "\r", "\r\n", "\n\r", "\r\r\n\n", "a\rb\r\nc\nd\r\r"] {
        let expected = s.replace("\r\n", "\n").replace('\r', "\n");
        let normalized = normalize_newlines(s);
        assert_eq!(normalized, expected);
        assert_eq!(normalize_newlines(&normalized), normalized);
    }
}
