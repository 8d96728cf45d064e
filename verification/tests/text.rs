use aspeak::text::{
    bytes_eq, chars_eq, find_from, has_at, has_prefix, has_suffix, is_whitespace_char,
    push_decimal, push_signed_decimal, split_on, str_eq, to_chars, trim_bounds,
};

fn chars(s: &str) -> Vec<char> {
    s.chars().collect()
}

#[test]
fn to_chars_gives_every_character() {
    assert_eq!(to_chars("aß\u{1f600}c"), vec!['a', 'ß', '\u{1f600}', 'c']);
    assert!(to_chars("").is_empty());
}

#[test]
fn find_from_gives_the_leftmost_occurrence() {
    let s = chars("ab\r\ncd\r\n\r\nef");
    assert_eq!(find_from(&s, 0, &chars("\r\n")), Some(2));
    assert_eq!(find_from(&s, 3, &chars("\r\n")), Some(6));
    assert_eq!(find_from(&s, 0, &chars("\r\n\r\n")), Some(6));
    assert_eq!(find_from(&s, 9, &chars("\r\n")), None);
    assert_eq!(find_from(&s, 0, &chars("xyz")), None);
    assert_eq!(find_from(&s, 12, &chars("f")), None);
    assert_eq!(find_from(&s, 4, &[]), Some(4));
    assert_eq!(find_from(&[], 0, &chars("a")), None);
}

#[test]
fn find_from_handles_overlapping_candidates() {
    let s = chars("\r\r\n\r\n\r\n");
    assert_eq!(find_from(&s, 0, &chars("\r\n\r\n")), Some(1));
    assert_eq!(find_from(&chars("aaab"), 0, &chars("aab")), Some(1));
}

#[test]
fn split_on_matches_std_split() {
    for s in ["", "a", "\r\n", "a\r\nb", "a\r\n\r\nb\r\n", "\r\na", "a\rb\nc", "\r\r\n\n"] {
        let expected: Vec<Vec<char>> = s.split("\r\n").map(chars).collect();
        assert_eq!(split_on(&chars(s), &chars("\r\n")), expected);
    }
}

#[test]
fn trim_bounds_matches_std_trim() {
    for s in ["", " ", "a", "  a b \t", "\u{a0}x\u{3000}", "\r\n", "x\u{85}", "\u{200b}x"] {
        let c = chars(s);
        let (start, end) = trim_bounds(&c);
        let trimmed: String = c[start..end].iter().collect();
        assert_eq!(trimmed, s.trim());
    }
}

#[test]
fn whitespace_matches_std() {
    for code in 0u32..0x3100 {
        if let Some(c) = char::from_u32(code) {
            assert_eq!(is_whitespace_char(c), c.is_whitespace());
        }
    }
}

#[test]
fn prefix_suffix_and_position() {
    let s = chars("Path: audio");
    assert!(has_prefix(&s, &chars("Path")));
    assert!(!has_prefix(&s, &chars("path")));
    assert!(has_suffix(&s, &chars("audio")));
    assert!(!has_suffix(&s, &chars("audio ")));
    assert!(has_at(&s, 4, &chars(": ")));
    assert!(!has_at(&s, 10, &chars("oo")));
    assert!(has_at(&s, 11, &[]));
    assert!(!has_at(&s, 12, &[]));
    assert!(!has_prefix(&chars("Pa"), &chars("Path")));
}

#[test]
fn equality_of_texts_and_bytes() {
    assert!(str_eq("wss", "wss"));
    assert!(!str_eq("wss", "ws"));
    assert!(!str_eq("é", "e"));
    assert!(str_eq("", ""));
    assert!(chars_eq(&chars("ab"), &chars("ab")));
    assert!(!chars_eq(&chars("ab"), &chars("ac")));
    assert!(bytes_eq(&[1, 2], &[1, 2]));
    assert!(!bytes_eq(&[1, 2], &[1]));
}

#[test]
fn decimal_of_numbers() {
    for n in [0u64, 7, 10, 443, 1006, 65535, u64::MAX] {
        let mut out = String::from("p=");
        push_decimal(&mut out, n);
        assert_eq!(out, format!("p={}", n));
    }
    for i in [0i32, -1, 3, -128, 127, i32::MIN, i32::MAX] {
        let mut out = String::new();
        push_signed_decimal(&mut out, i);
        assert_eq!(out, format!("{}", i));
    }
}
