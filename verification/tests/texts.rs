//! Texts and numbers.
use poly_5min_bot::decimal::Decimal;
use poly_5min_bot::text::{
    cut_text, full_text, i64_text, is_true, parse_i64, parse_u32, parse_u64, same_text,
    split_commas, trimmed_pieces, u64_text,
};

#[test]
fn commas_split() {
    assert_eq!(split_commas(""), [""]);
    assert_eq!(split_commas("a,,b "), ["a", "", "b "]);
    assert_eq!(split_commas(",é"), ["", "é"]);
    assert_eq!(trimmed_pieces(" a , ,b c\t"), ["a", "", "b c"]);
}

#[test]
fn texts_are_compared() {
    assert!(same_text("é", "é") && !same_text("a", "A"));
    assert!(is_true("True") && is_true("TRUE") && !is_true("true ") && !is_true("ttue"));
}

#[test]
fn whole_numbers() {
    for n in [0, 9, 10, 1234567890, u64::MAX] {
        assert_eq!(u64_text(n), n.to_string());
        assert_eq!(parse_u64(&n.to_string()), Some(n));
    }
    for n in [i64::MIN, -10, -1, 0, 7, i64::MAX] {
        assert_eq!(i64_text(n), n.to_string());
        assert_eq!(parse_i64(&n.to_string()), Some(n));
    }
    for s in ["", "+", "-", "+5", "-0", "00012", " 1", "1 ", "1_0", "٣", "18446744073709551616", "--1", "+-1"] {
        assert_eq!(parse_u64(s), s.parse().ok());
        assert_eq!(parse_u32(s), s.parse().ok());
        assert_eq!(parse_i64(s), s.parse().ok());
    }
    assert_eq!(parse_u32("4294967295"), Some(u32::MAX));
    assert_eq!(parse_u32("4294967296"), None);
    assert_eq!(parse_i64("9223372036854775808"), None);
    assert_eq!(parse_i64("-9223372036854775809"), None);
}

#[test]
fn decimals_as_texts() {
    assert_eq!(full_text(Decimal::new(-1050, 3)), "-1.050");
    assert_eq!(full_text(Decimal::new(0, 2)), "0.00");
    assert_eq!(cut_text(Decimal::new(19999, 4), 2), "1.99");
    assert_eq!(cut_text(Decimal::new(5, 1), 4), "0.5000");
    assert_eq!(cut_text(Decimal::new(7, 0), 0), "7");
}
