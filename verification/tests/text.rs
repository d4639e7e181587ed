use oto::text::{
    contains, decimal_i64, decimal_u128, ends_with, eq_ignore_ascii_case, is_blank, join,
    starts_with, str_eq, to_ascii_lowercase, trim, trim_end_matches,
};

#[test]
fn searching() {
    assert!(contains("hello world", "o w"));
    assert!(contains("abc", ""));
    assert!(!contains("abc", "abcd"));
    assert!(starts_with("Oto Beta", "Oto"));
    assert!(!starts_with("Ot", "Oto"));
    assert!(ends_with("X.app", ".app"));
    assert!(str_eq("a", "a") && !str_eq("a", "b"));
}

#[test]
fn trimming_like_std() {
    for s in ["  a b  ", "\u{3000}x\u{85}", "", "   ", "\t\n", "x"] {
        assert_eq!(trim(s), s.trim());
        assert_eq!(is_blank(s), s.trim().is_empty());
    }
    assert_eq!(trim_end_matches("a.app.app", ".app"), "a");
    assert_eq!(trim_end_matches("a.ap", ".app"), "a.ap");
    assert_eq!(trim_end_matches("abc", ""), "abc");
}

#[test]
fn ascii_case_like_std() {
    assert_eq!(to_ascii_lowercase("Dev.OTO.Mac-Ä"), "dev.oto.mac-Ä");
    assert!(eq_ignore_ascii_case("DEV.oto.MAC", "dev.oto.mac"));
    assert!(!eq_ignore_ascii_case("Ä", "ä"));
}

#[test]
fn numbers_like_display() {
    for n in [0i64, 7, 10, -1, -10, 1234567, i64::MAX, i64::MIN] {
        assert_eq!(decimal_i64(n), n.to_string());
    }
    assert_eq!(decimal_u128(u128::MAX), u128::MAX.to_string());
    assert_eq!(join(&vec!["a".into(), "b".into(), "c".into()], ", "), "a, b, c");
    assert_eq!(join(&vec![], ", "), "");
}
