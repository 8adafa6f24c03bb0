use meal_review::text::{join_from, parse_i64, push_int, split_fields};

#[test]
fn parse_i64_accepts_signs_and_bounds() {
    assert_eq!(parse_i64("0"), Some(0));
    assert_eq!(parse_i64("+17"), Some(17));
    assert_eq!(parse_i64("-1"), Some(-1));
    assert_eq!(parse_i64("007"), Some(7));
    assert_eq!(parse_i64("9223372036854775807"), Some(i64::MAX));
    assert_eq!(parse_i64("-9223372036854775808"), Some(i64::MIN));
}

#[test]
fn parse_i64_rejects_malformed() {
    assert_eq!(parse_i64(""), None);
    assert_eq!(parse_i64("-"), None);
    assert_eq!(parse_i64("+"), None);
    assert_eq!(parse_i64("1a"), None);
    assert_eq!(parse_i64(" 1"), None);
    assert_eq!(parse_i64("9223372036854775808"), None);
    assert_eq!(parse_i64("-9223372036854775809"), None);
    assert_eq!(parse_i64("99999999999999999999999"), None);
}

#[test]
fn push_int_renders_base_ten() {
    let mut s = String::from("n=");
    push_int(&mut s, -305);
    assert_eq!(s, "n=-305");
    let mut s = String::new();
    push_int(&mut s, i64::MIN);
    assert_eq!(s, "-9223372036854775808");
    let mut s = String::new();
    push_int(&mut s, 0);
    assert_eq!(s, "0");
}

#[test]
fn split_and_join_fields() {
    let f = split_fields("a  b c", ' ');
    assert_eq!(f, vec!["a".to_string(), "".to_string(), "b".to_string(), "c".to_string()]);
    assert_eq!(join_from(&f, 2, ' '), "b c");
    assert_eq!(join_from(&f, 4, ' '), "");
    assert_eq!(split_fields("", '-'), vec!["".to_string()]);
}
