use zero2prod::text::{chars_of, concat_str, is_white_space_char, push_decimal, str_eq, trim_str};

#[test]
fn white_space_matches_std() {
    for code in 0u32..0x3100 {
        if let Some(c) = char::from_u32(code) {
            assert_eq!(is_white_space_char(c), c.is_whitespace(), "U+{:04X}", code);
        }
    }
}

#[test]
fn trim_matches_std() {
    let samples = [
        "",
        "   ",
        "a",
        " a ",
        "\t\n a b \r\n",
        "\u{3000}x\u{2029}",
        "\u{200b}x\u{200b}",
        "  le guin ",
        "\u{85}\u{a0}\u{1680}\u{2000}\u{200a}\u{2028}\u{202f}\u{205f}",
    ];
    for s in samples {
        assert_eq!(trim_str(s), s.trim(), "{:?}", s);
    }
}

#[test]
fn chars_and_concatenation() {
    assert_eq!(chars_of("añb"), vec!['a', 'ñ', 'b']);
    assert_eq!(concat_str("ab", "cd"), "abcd");
    assert!(str_eq("dev", "dev"));
    assert!(!str_eq("dev", "Dev"));
}

#[test]
fn decimal_rendering() {
    for n in [0u16, 7, 10, 99, 100, 8080, 65535] {
        let mut s = "port ".to_string();
        push_decimal(&mut s, n);
        assert_eq!(s, format!("port {}", n));
    }
}
