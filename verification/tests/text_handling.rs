use pye_cli::text::{
    chars_of, decimal_string, first_dot, has_visible_text, parse_decimal_u64, trim_bounds,
    white_space,
};

fn parse(s: &str) -> Option<u64> {
    let v = chars_of(s);
    parse_decimal_u64(&v, 0, v.len())
}

#[test]
fn white_space_follows_unicode() {
    for c in [' ', '\t', '\n', '\u{0b}', '\u{0c}', '\r', '\u{85}', '\u{a0}', '\u{1680}', '\u{2000}',
        '\u{200a}', '\u{2028}', '\u{2029}', '\u{202f}', '\u{205f}', '\u{3000}']
    {
        assert!(white_space(c), "{:?}", c);
        assert_eq!(white_space(c), c.is_whitespace());
    }
    for c in ['a', '0', '.', '\u{200b}', '\u{1f}', '\u{feff}'] {
        assert!(!white_space(c), "{:?}", c);
        assert_eq!(white_space(c), c.is_whitespace());
    }
}

#[test]
fn chars_of_keeps_every_character() {
    assert_eq!(chars_of("héllo ✓"), vec!['h', 'é', 'l', 'l', 'o', ' ', '✓']);
    assert_eq!(chars_of(""), Vec::<char>::new());
}

#[test]
fn trim_bounds_match_str_trim() {
    for s in ["  abc  ", "abc", "   ", "", "\u{3000}x y\t", "\n\nz"] {
        let v = chars_of(s);
        let (lo, hi) = trim_bounds(&v);
        let kept: String = v[lo..hi].iter().collect();
        assert_eq!(kept, s.trim());
    }
}

#[test]
fn visible_text_needs_a_non_white_character() {
    assert!(has_visible_text("ops@example.com"));
    assert!(has_visible_text("  a  "));
    assert!(!has_visible_text(""));
    assert!(!has_visible_text(" \t\u{a0} "));
}

#[test]
fn first_dot_finds_the_integer_part() {
    let v = chars_of("197164398.00000000");
    assert_eq!(first_dot(&v, 0, v.len()), 9);
    let w = chars_of("no dot");
    assert_eq!(first_dot(&w, 0, w.len()), 6);
    let x = chars_of("1.2.3");
    assert_eq!(first_dot(&x, 2, x.len()), 3);
}

#[test]
fn parse_accepts_what_u64_from_str_accepts() {
    for s in ["0", "7", "+7", "0042", "18446744073709551615", "197164398"] {
        assert_eq!(parse(s), s.parse::<u64>().ok(), "{:?}", s);
        assert!(parse(s).is_some());
    }
    assert_eq!(parse("18446744073709551615"), Some(u64::MAX));
}

#[test]
fn parse_refuses_what_u64_from_str_refuses() {
    for s in ["", "+", "-1", "-0", "12a", " 1", "1 ", "18446744073709551616", "99999999999999999999999",
        "1.0", "++1"]
    {
        assert_eq!(parse(s), None, "{:?}", s);
        assert_eq!(s.parse::<u64>().ok(), None, "{:?}", s);
    }
}

#[test]
fn decimal_string_writes_like_to_string() {
    for n in [0u64, 1, 9, 10, 99, 100, 1234567890, u64::MAX] {
        assert_eq!(decimal_string(n), n.to_string());
    }
}

#[test]
fn decimal_round_trip() {
    for n in [0u64, 5, 10, 4096, 197164398, u64::MAX - 1, u64::MAX] {
        assert_eq!(parse(&decimal_string(n)), Some(n));
    }
}
