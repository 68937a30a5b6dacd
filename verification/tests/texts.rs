use aa_proxy::text::{
    align_right, contains, decimal_text, is_white_space, some_line_contains, split_lines, split_words,
    starts_with, trim, trim_trailing,
};

#[test]
fn trimming_agrees_with_the_standard_library() {
    for s in ["", "  ", "a", " a b ", "\u{a0}x\u{3000}", "\t\r\nzeta\u{85}", "\u{200b}x"] {
        assert_eq!(trim(s), s.trim());
    }
}

#[test]
fn white_space_agrees_with_the_standard_library() {
    for n in 0..0x11_0000u32 {
        if let Some(c) = char::from_u32(n) {
            assert_eq!(is_white_space(c), c.is_whitespace());
        }
    }
}

#[test]
fn trailing_characters_are_dropped() {
    assert_eq!(trim_trailing("abc\0\0", '\0'), "abc");
    assert_eq!(trim_trailing("\0abc", '\0'), "\0abc");
    assert_eq!(trim_trailing("\0\0", '\0'), "");
}

#[test]
fn words_agree_with_the_standard_library() {
    for s in ["", " ", "a", " a  bc\td ", "192.168.1.5   0x1  0x2\u{2003}aa:bb"] {
        let expected: Vec<String> = s.split_whitespace().map(|w| w.to_string()).collect();
        assert_eq!(split_words(s), expected);
    }
}

#[test]
fn lines_agree_with_the_standard_library() {
    for s in ["", "\n", "a", "a\n", "a\nb", "a\r\nb\r\n", "a\rb", "a\n\nb", "a\r", "\r\n"] {
        let expected: Vec<String> = s.lines().map(|l| l.to_string()).collect();
        assert_eq!(split_lines(s), expected);
    }
}

#[test]
fn search_agrees_with_the_standard_library() {
    for s in ["", "a", "abcab", "aab", "br-connection-page-timeout"] {
        for p in ["", "a", "ab", "aab", "cab", "abcabc", "page-timeout"] {
            assert_eq!(contains(s, p), s.contains(p));
            assert_eq!(starts_with(s, p), s.starts_with(p));
        }
    }
}

#[test]
fn line_search_is_substring_search() {
    let s = "* 2412.0 MHz [1]\n\t* 5180.0 MHz [36]\nend";
    assert!(some_line_contains(s, "5180.0 MHz"));
    assert!(!some_line_contains(s, "5955.0 MHz"));
    assert!(!some_line_contains(s, "[1]\n"));
    assert!(some_line_contains(s, ""));
    assert!(!some_line_contains("", ""));
}

#[test]
fn numbers_are_written_in_decimal() {
    for n in [0u64, 9, 10, 99, 100, 5288, u64::MAX] {
        assert_eq!(decimal_text(n), n.to_string());
    }
}

#[test]
fn texts_are_aligned_to_the_right() {
    assert_eq!(align_right("12 B", 9), "     12 B");
    assert_eq!(align_right("1023.9 MiB", 9), "1023.9 MiB");
    assert_eq!(align_right("é", 2), " é");
    assert_eq!(align_right("", 0), "");
}
