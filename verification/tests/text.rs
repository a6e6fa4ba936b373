use media_prompt::text;

#[test]
fn white_space_agrees_with_std() {
    for n in 0u32..0x11_0000 {
        if let Some(c) = char::from_u32(n) {
            assert_eq!(text::white_space(c), c.is_whitespace(), "U+{:04X}", n);
        }
    }
}

#[test]
fn blank_texts_are_empty_once_trimmed() {
    for s in ["", " ", "\t\n", "\u{3000}", " a ", "a", "\u{a0}x"] {
        assert_eq!(text::blank(s), s.trim().is_empty());
        let trimmed: String = text::trim_chars(s).into_iter().collect();
        assert_eq!(trimmed, s.trim());
    }
}

#[test]
fn decimals_agree_with_std() {
    for n in [0u64, 1, 9, 10, 99, 100, 12_345_678_901, u64::MAX] {
        let mut out = String::from("n=");
        text::push_decimal(&mut out, n);
        assert_eq!(out, format!("n={n}"));
    }
    for n in [0i64, -1, 7, i64::MIN, i64::MAX] {
        let mut out = String::new();
        text::push_signed_decimal(&mut out, n);
        assert_eq!(out, n.to_string());
    }
}

#[test]
fn prefixes_count_characters() {
    assert_eq!(text::prefix("", 3), "");
    assert_eq!(text::prefix("提示词生成", 3), "提示词");
    assert_eq!(text::prefix("ab", 3), "ab");
    assert_eq!(text::prefix("abc", 0), "");
}

#[test]
fn joining_puts_separators_between() {
    assert_eq!(text::join(&[], ", "), "");
    assert_eq!(text::join(&["a"], ", "), "a");
    assert_eq!(text::join(&["a", "", "c"], ", "), "a, , c");
}

#[test]
fn ascii_case_is_ignored_and_no_other() {
    assert!(text::same_ignoring_ascii_case("Simple_TEXT_json", "simple_text_json"));
    assert!(!text::same_ignoring_ascii_case("Ä", "ä"));
    assert!(!text::same_ignoring_ascii_case("a", "ab"));
}

#[test]
fn end_slashes_are_left_out() {
    assert!(text::ends_with_before_slashes("http://h/mock-llm///", "/mock-llm"));
    assert!(text::ends_with_before_slashes("/mock-llm", "/mock-llm"));
    assert!(!text::ends_with_before_slashes("http://h/mock-llm/x", "/mock-llm"));
    assert!(!text::ends_with_before_slashes("", "/mock-llm"));
}

#[test]
fn texts_are_compared_by_character() {
    assert!(text::same_text("提示", "提示"));
    assert!(!text::same_text("提示", "提"));
    assert!(!text::same_text("a", "A"));
}
