use clambake_github::text::{is_whitespace, same_text, to_decimal, trim};

#[test]
fn whitespace_is_what_unicode_says() {
    let mut code: u32 = 0;
    while code <= 0x10FFFF {
        if let Some(c) = char::from_u32(code) {
            assert_eq!(is_whitespace(c), c.is_whitespace(), "U+{:04X}", code);
        }
        code += 1;
    }
}

#[test]
fn whitespace_at_the_edges_of_its_ranges() {
    for c in ['\u{9}', '\n', '\u{b}', '\u{c}', '\r', ' ', '\u{85}', '\u{a0}', '\u{1680}'] {
        assert!(is_whitespace(c));
    }
    for c in ['\u{2000}', '\u{200a}', '\u{2028}', '\u{2029}', '\u{202f}', '\u{205f}', '\u{3000}'] {
        assert!(is_whitespace(c));
    }
    for c in ['\u{8}', '\u{e}', '\u{1f}', '!', 'a', '\u{84}', '\u{86}', '\u{180e}', '\u{1fff}'] {
        assert!(!is_whitespace(c));
    }
    for c in ['\u{200b}', '\u{2027}', '\u{202a}', '\u{2060}', '\u{2fff}', '\u{3001}', '\u{feff}'] {
        assert!(!is_whitespace(c));
    }
}

#[test]
fn trim_removes_surrounding_whitespace_only() {
    assert_eq!(trim(""), "");
    assert_eq!(trim("   "), "");
    assert_eq!(trim("\n"), "");
    assert_eq!(trim("abc"), "abc");
    assert_eq!(trim("  abc"), "abc");
    assert_eq!(trim("abc\r\n"), "abc");
    assert_eq!(trim(" \t a b  c \n "), "a b  c");
    assert_eq!(trim("x"), "x");
    assert_eq!(trim(" x "), "x");
    assert_eq!(trim("\u{a0}\u{3000}tok\u{2003}\u{85}"), "tok");
    assert_eq!(trim(" \u{1f511} k\u{e9}y \u{2500} "), "\u{1f511} k\u{e9}y \u{2500}");
    assert_eq!(trim("\u{200b} a \u{200b}"), "\u{200b} a \u{200b}");
}

#[test]
fn trim_agrees_with_the_standard_library() {
    let samples = [
        "",
        " ",
        "a",
        " a",
        "a ",
        " a ",
        "\ta\tb\t",
        "  ghp_ABC123  \n\n",
        "\u{2028}line\u{2029}",
        "\u{1680}ogham\u{1680}mark\u{1680}",
        "no-trim",
        " \u{feff}bom ",
        "\u{205f}\u{202f}",
    ];
    for s in samples {
        assert_eq!(trim(s), s.trim());
    }
}

#[test]
fn decimal_numerals() {
    assert_eq!(to_decimal(0), "0");
    assert_eq!(to_decimal(7), "7");
    assert_eq!(to_decimal(9), "9");
    assert_eq!(to_decimal(10), "10");
    assert_eq!(to_decimal(42), "42");
    assert_eq!(to_decimal(100), "100");
    assert_eq!(to_decimal(1234567890), "1234567890");
    assert_eq!(to_decimal(u64::MAX), "18446744073709551615");
    let mut n: u64 = 1;
    for _ in 0..19 {
        assert_eq!(to_decimal(n), n.to_string());
        assert_eq!(to_decimal(n - 1), (n - 1).to_string());
        n *= 10;
    }
}

#[test]
fn same_text_compares_characters() {
    assert!(same_text("", ""));
    assert!(same_text("abc", "abc"));
    assert!(same_text("\u{1f511} key", "\u{1f511} key"));
    assert!(!same_text("abc", "abd"));
    assert!(!same_text("abc", "ab"));
    assert!(!same_text("", "a"));
    assert!(!same_text("YOUR_GITHUB_TOKEN_HERE", "your_github_token_here"));
    assert!(!same_text("\u{e9}", "e\u{301}"));
}
