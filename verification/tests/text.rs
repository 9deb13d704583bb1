use joblode::text::{
    decimal_string, join_strings, parse_i64, split, split_whitespace, to_ascii_lowercase, trim,
    Separator,
};

#[test]
fn trim_follows_unicode_whitespace() {
    assert_eq!(trim("  a b \t\n"), "a b");
    assert_eq!(trim("\u{3000}x\u{A0}"), "x");
    assert_eq!(trim(""), "");
    assert_eq!(trim("\u{2028} "), "");
}

#[test]
fn splitting_keeps_empty_pieces_and_words_drop_them() {
    assert_eq!(split("a,,b", Separator::Comma), vec!["a", "", "b"]);
    assert_eq!(split("", Separator::Comma), vec![""]);
    assert_eq!(split("x.y\nz", Separator::LineOrPeriod), vec!["x", "y", "z"]);
    assert_eq!(split_whitespace("  3  days\tago "), vec!["3", "days", "ago"]);
}

#[test]
fn integers_parse_as_std_does() {
    assert_eq!(parse_i64("42"), Some(42));
    assert_eq!(parse_i64("+7"), Some(7));
    assert_eq!(parse_i64("-9223372036854775808"), Some(i64::MIN));
    assert_eq!(parse_i64("9223372036854775807"), Some(i64::MAX));
    assert_eq!(parse_i64("9223372036854775808"), None);
    assert_eq!(parse_i64("-"), None);
    assert_eq!(parse_i64(""), None);
    assert_eq!(parse_i64("1a"), None);
    for s in ["0", "007", "-12", "+0", "x", " 1", "99999999999999999999"] {
        assert_eq!(parse_i64(s), s.parse::<i64>().ok());
    }
}

#[test]
fn numbers_and_joins_render() {
    assert_eq!(decimal_string(0), "0");
    assert_eq!(decimal_string(1234567), "1234567");
    assert_eq!(join_strings(&vec!["a".into(), "b".into(), "c".into()], ", "), "a, b, c");
    assert_eq!(join_strings(&vec![], ", "), "");
    assert_eq!(to_ascii_lowercase("ÀBc"), "Àbc");
}
