use godot_agent::text::{
    begins_with, configured_port, finishes_with, is_blank, parse_port, push_decimal, read_integer, same,
    split_lines, strip_prefixes, trim,
};

#[test]
fn same_compares_characters() {
    assert!(same("", ""));
    assert!(same("grüße", "grüße"));
    assert!(!same("abc", "abd"));
    assert!(!same("abc", "ab"));
}

#[test]
fn prefixes_and_suffixes() {
    assert!(begins_with("res://a.tscn", "res://"));
    assert!(!begins_with("res:/", "res://"));
    assert!(begins_with("x", ""));
    assert!(finishes_with("res://a.tscn", ".tscn"));
    assert!(!finishes_with("tscn", ".tscn"));
    assert!(finishes_with("é", "é"));
}

#[test]
fn strip_prefixes_takes_every_copy() {
    assert_eq!(strip_prefixes("ababc", "ab"), "ababc".trim_start_matches("ab"));
    assert_eq!(strip_prefixes("ababc", "ab"), "c");
    assert_eq!(strip_prefixes("cab", "ab"), "cab");
    assert_eq!(strip_prefixes("abab", "ab"), "");
}

#[test]
fn trim_and_blank_agree_with_std() {
    for s in [
        "", " ", "\t\r\n", " a ", "a b", "\u{3000}x\u{00a0}", "\u{2028}\u{205f}", "\u{200b}", "é ",
    ] {
        assert_eq!(trim(s), s.trim());
        assert_eq!(is_blank(s), s.trim().is_empty());
    }
    assert_eq!(trim("  /usr/bin/x\n"), "/usr/bin/x");
}

#[test]
fn lines_agree_with_std() {
    for s in [
        "", "\n", "\n\n", "a", "a\n", "a\nb", "a\r\nb\r\n", "a\r\r\nb", "a\r", "\r", "\r\n", "\n\r",
        "x\n\ny", "é\nü",
    ] {
        let expected: Vec<String> = s.lines().map(String::from).collect();
        assert_eq!(split_lines(s), expected);
    }
    assert_eq!(split_lines("a\r\nb\r"), vec!["a".to_string(), "b\r".to_string()]);
}

#[test]
fn decimals_agree_with_std() {
    for n in [0usize, 7, 10, 99, 100, 6010, 65535, 123456789] {
        let mut out = String::from("n=");
        push_decimal(&mut out, n);
        assert_eq!(out, format!("n={}", n));
    }
}

#[test]
fn ports_agree_with_std() {
    for s in [
        "", "+", "-", "0", "00", "+0", "-0", "6010", "+6011", "65535", "65536", "0000065535", "99999999999999999999",
        " 80", "80 ", "8_0", "8.0", "abc", "++1", "٣",
    ] {
        assert_eq!(parse_port(s), s.parse::<u16>().ok());
    }
    assert_eq!(parse_port("6010"), Some(6010));
}

#[test]
fn port_reads_back() {
    for port in [0u16, 1, 9, 10, 6010, 6011, 65535] {
        let mut out = String::new();
        push_decimal(&mut out, port as usize);
        assert_eq!(parse_port(&out), Some(port));
    }
}

#[test]
fn port_falls_back_to_default() {
    assert_eq!(configured_port(None, 6010), 6010);
    assert_eq!(configured_port(Some("nope"), 6010), 6010);
    assert_eq!(configured_port(Some("70000"), 6010), 6010);
    assert_eq!(configured_port(Some("7000"), 6010), 7000);
}

#[test]
fn white_space_is_the_listed_characters() {
    for code in 0..=0x10ffffu32 {
        let listed = matches!(
            code,
            0x09..=0x0d | 0x20 | 0x85 | 0xa0 | 0x1680 | 0x2000..=0x200a | 0x2028 | 0x2029 | 0x202f | 0x205f | 0x3000
        );
        if let Some(c) = char::from_u32(code) {
            assert_eq!(is_blank(&c.to_string()), listed);
        }
    }
}

#[test]
fn integers_are_read_from_number_texts() {
    assert_eq!(read_integer("7.00"), Some(7));
    assert_eq!(read_integer("7.01"), None);
    for n in [0usize, 9, 10, 4095, 123456789] {
        let mut plain = String::new();
        push_decimal(&mut plain, n);
        assert_eq!(read_integer(&plain), Some(n as i64));
        assert_eq!(read_integer(&format!("{}.000", plain)), Some(n as i64));
    }
}
