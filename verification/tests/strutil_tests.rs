use http_serv::strutil::{parse_usize, split_char, split_segments, trim_str, usize_to_string};

#[test]
fn parse_usize_accepts_plain_decimals() {
    assert_eq!(parse_usize("0"), Some(0));
    assert_eq!(parse_usize("4"), Some(4));
    assert_eq!(parse_usize("1234"), Some(1234));
    assert_eq!(parse_usize("0007"), Some(7));
}

#[test]
fn parse_usize_rejects_non_decimals() {
    assert_eq!(parse_usize(""), None);
    assert_eq!(parse_usize("abc"), None);
    assert_eq!(parse_usize("12a"), None);
    assert_eq!(parse_usize("-4"), None);
    assert_eq!(parse_usize(" 4"), None);
    assert_eq!(parse_usize("99999999999999999999999999999"), None);
}

#[test]
fn usize_formatting_is_decimal() {
    assert_eq!(usize_to_string(0), "0");
    assert_eq!(usize_to_string(9), "9");
    assert_eq!(usize_to_string(10), "10");
    assert_eq!(usize_to_string(90210), "90210");
}

#[test]
fn trim_removes_surrounding_whitespace_only() {
    assert_eq!(trim_str("  a b\t"), "a b");
    assert_eq!(trim_str("\r\nx\r\n"), "x");
    assert_eq!(trim_str("   "), "");
    assert_eq!(trim_str(""), "");
    assert_eq!(trim_str("plain"), "plain");
}

#[test]
fn trim_matches_std_trim_on_unicode_whitespace() {
    assert_eq!(trim_str("\u{a0}\u{3000}x\u{2028}"), "x");
    assert_eq!(trim_str("\u{85}\u{2000}a b\u{200a}\u{205f}"), "a b");
    let samples = ["  a b\t", "\r\nx\r\n", "\u{1680}y\u{202f}", "\u{b}\u{c}z", "inner\u{a0}kept"];
    for s in samples {
        assert_eq!(trim_str(s), s.trim());
    }
}

#[test]
fn split_keeps_empty_pieces_and_segments_drop_them() {
    assert_eq!(split_char("a,b,,c", ','), vec!["a", "b", "", "c"]);
    assert_eq!(split_char("", ','), vec![""]);
    assert_eq!(split_segments("//a//b/"), vec!["a", "b"]);
    assert_eq!(split_segments("/"), Vec::<String>::new());
}
