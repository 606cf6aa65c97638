use kannaka_tui::text::{
    concat2, concat3, contains, decimal, flatten_lines, is_white_space, join, one_text, pad_left,
    pad_right, repeat, same_text, signed_decimal, split_whitespace, starts_with, strip_prefix,
    take_chars, trim, truncate, two_texts, Edge,
};

#[test]
fn white_space_is_that_of_the_standard_library() {
    for u in 0..=0x10ffff_u32 {
        if let Some(c) = char::from_u32(u) {
            assert_eq!(is_white_space(c), c.is_whitespace(), "{:x}", u);
        }
    }
}

#[test]
fn trimming_agrees_with_the_standard_library() {
    for s in ["", " ", "a", "  a b \n", "\u{3000}x\u{a0}", "\u{200b}x", "\t\r\n"] {
        assert_eq!(trim(Edge::White, s), s.trim());
    }
    for s in ["", "\"", "\"a\"", "\"\"a b\"", "a\"b", " \"a\" "] {
        assert_eq!(trim(Edge::Quote, s), s.trim_matches('"'));
    }
}

#[test]
fn trimming_twice_is_trimming_once() {
    let once = trim(Edge::White, "  a  b\t");
    assert_eq!(once, "a  b");
    assert_eq!(trim(Edge::White, &once), once);
}

#[test]
fn prefixes_are_found_and_stripped() {
    assert_eq!(strip_prefix("recall x", "recall "), Some("x".to_string()));
    assert_eq!(strip_prefix("recall ", "recall "), Some(String::new()));
    assert_eq!(strip_prefix("recall", "recall "), None);
    assert_eq!(strip_prefix("\u{3b8}=1", "\u{3b8}"), Some("=1".to_string()));
    assert!(starts_with("voice", "voice"));
    assert!(starts_with("x", ""));
    assert!(!starts_with("voic", "voice"));
    assert!(!starts_with("", "a"));
}

#[test]
fn parts_are_found_anywhere() {
    assert!(contains("{\"kind\":\"ready\"}", "\"ready\""));
    assert!(!contains("{\"kind\":\"read\"}", "\"ready\""));
    assert!(contains("aab", "ab"));
    assert!(contains("", ""));
    assert!(!contains("", "a"));
}

#[test]
fn texts_are_compared_and_put_together() {
    assert!(same_text("\u{2605}", "\u{2605}"));
    assert!(!same_text("a", "b"));
    assert!(!same_text("a", "ab"));
    assert_eq!(concat2("a", "b"), "ab");
    assert_eq!(concat3("a", "", "c"), "ac");
    assert_eq!(one_text("a"), vec!["a"]);
    assert_eq!(two_texts("a", "b"), vec!["a", "b"]);
    assert_eq!(repeat('\u{2588}', 3), "\u{2588}\u{2588}\u{2588}");
    assert_eq!(repeat('x', 0), "");
}

#[test]
fn words_are_split_at_white_space() {
    for s in ["", "  ", "a", " swarm  join\thive\n", "a\u{3000}b"] {
        let expected: Vec<&str> = s.split_whitespace().collect();
        let words = split_whitespace(s);
        assert_eq!(words, expected);
        for w in words {
            assert!(!w.is_empty() && !w.chars().any(char::is_whitespace));
        }
    }
}

#[test]
fn numbers_are_written_in_decimal() {
    assert_eq!(decimal(0), "0");
    assert_eq!(decimal(9), "9");
    assert_eq!(decimal(10), "10");
    assert_eq!(decimal(u64::MAX), "18446744073709551615");
    assert_eq!(signed_decimal(-1), "-1");
    assert_eq!(signed_decimal(127), "127");
    assert_eq!(signed_decimal(i32::MIN), "-2147483648");
}

#[test]
fn padding_counts_characters() {
    assert_eq!(pad_right("ab", 4), format!("{:<4}", "ab"));
    assert_eq!(pad_left("ab", 4), format!("{:>4}", "ab"));
    assert_eq!(pad_left("\u{3b8}\u{3b8}", 3), format!("{:>3}", "\u{3b8}\u{3b8}"));
    assert_eq!(pad_right("abcde", 4), "abcde");
    assert_eq!(pad_left("", 2), "  ");
}

#[test]
fn truncate_keeps_what_fits() {
    assert_eq!(truncate("abc", 3), "abc");
    assert_eq!(truncate("abcd", 3), "ab\u{2026}");
    assert_eq!(truncate("\u{3b8}\u{3b8}\u{3b8}", 2), "\u{3b8}\u{2026}");
    assert_eq!(truncate("", 0), "");
    assert_eq!(truncate("a", 0), "\u{2026}");
    assert_eq!(truncate("ab", 1), "\u{2026}");
}

#[test]
fn beginnings_are_taken_by_characters() {
    assert_eq!(take_chars("abc", 2), "ab");
    assert_eq!(take_chars("abc", 3), "abc");
    assert_eq!(take_chars("abc", 9), "abc");
    assert_eq!(take_chars("\u{3b8}x", 1), "\u{3b8}");
    assert_eq!(take_chars("abc", 0), "");
}

#[test]
fn lines_are_flattened_and_joined_with_a_dot() {
    assert_eq!(flatten_lines("a\nb\n"), "a \u{b7} b \u{b7} ");
    assert_eq!(flatten_lines("a\r\nb"), "a\r \u{b7} b");
    assert_eq!(flatten_lines(""), "");
    assert_eq!(join(&vec![]), "");
    assert_eq!(join(&one_text("a")), "a");
    assert_eq!(join(&two_texts("a", "b")), "a \u{b7} b");
}
