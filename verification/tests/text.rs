use stream_chat::text::{starts_with, take_chars_str, to_chars, trim_str, utf8_len_at_most};

fn white_space_table(c: char) -> bool {
    let u = c as u32;
    (0x09..=0x0d).contains(&u)
        || u == 0x20
        || u == 0x85
        || u == 0xa0
        || u == 0x1680
        || (0x2000..=0x200a).contains(&u)
        || u == 0x2028
        || u == 0x2029
        || u == 0x202f
        || u == 0x205f
        || u == 0x3000
}

#[test]
fn whitespace_table_matches_std() {
    for u in 0u32..=0x10FFFF {
        if let Some(c) = char::from_u32(u) {
            let mut buf = [0u8; 4];
            let one: &str = c.encode_utf8(&mut buf);
            assert_eq!(trim_str(one).is_empty(), white_space_table(c), "U+{:04X}", u);
        }
    }
}

#[test]
fn trim_removes_unicode_whitespace() {
    assert_eq!(trim_str("  a b  "), "a b");
    assert_eq!(trim_str("\u{3000}\u{a0}x\u{2029}"), "x");
    assert_eq!(trim_str(" \t\n "), "");
    assert_eq!(trim_str(""), "");
    assert_eq!(trim_str("x"), "x");
    for s in ["  héllo wörld\t", "\u{85}é\u{85}", "a\u{200b}"] {
        assert_eq!(trim_str(s), s.trim());
    }
}

#[test]
fn starts_with_matches_std() {
    for (s, p) in [("!tts hi", "!tts "), ("!tt", "!tts "), ("", ""), ("abc", ""), ("é!", "é"), ("ab", "b")] {
        assert_eq!(starts_with(s, p), s.starts_with(p));
    }
}

#[test]
fn take_chars_counts_characters() {
    assert_eq!(take_chars_str("héllo", 2), "hé");
    assert_eq!(take_chars_str("hi", 16), "hi");
    assert_eq!(take_chars_str("abcdefghijklmnopq", 16), "abcdefghijklmnop");
    assert_eq!(format!("{:.3}", "äöüß"), take_chars_str("äöüß", 3));
}

#[test]
fn byte_length_bound_matches_len() {
    for s in ["", "a", "é", "€", "🙂", "a€🙂é"] {
        for max in 0..12usize {
            assert_eq!(utf8_len_at_most(s, max), s.len() <= max, "{:?} {}", s, max);
        }
    }
    assert!(utf8_len_at_most("abc", usize::MAX));
}

#[test]
fn characters_in_order() {
    assert_eq!(to_chars("aé🙂"), vec!['a', 'é', '🙂']);
    assert_eq!(to_chars(""), Vec::<char>::new());
}
