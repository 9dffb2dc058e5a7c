use addition_drill::parse::parse_answer;

#[test]
fn plain_integers_parse() {
    assert_eq!(parse_answer("0"), Some(0));
    assert_eq!(parse_answer("5"), Some(5));
    assert_eq!(parse_answer("42"), Some(42));
    assert_eq!(parse_answer("007"), Some(7));
}

#[test]
fn negative_integers_parse() {
    assert_eq!(parse_answer("-1"), Some(-1));
    assert_eq!(parse_answer("-0"), Some(0));
    assert_eq!(parse_answer("-273"), Some(-273));
}

#[test]
fn non_numeric_input_is_rejected() {
    assert_eq!(parse_answer(""), None);
    assert_eq!(parse_answer("q"), None);
    assert_eq!(parse_answer("-"), None);
    assert_eq!(parse_answer("12a"), None);
    assert_eq!(parse_answer("a12"), None);
    assert_eq!(parse_answer(" 1"), None);
    assert_eq!(parse_answer("1 "), None);
    assert_eq!(parse_answer("+5"), None);
    assert_eq!(parse_answer("--5"), None);
    assert_eq!(parse_answer("1.5"), None);
}

#[test]
fn extreme_values_respect_the_i32_range() {
    assert_eq!(parse_answer("2147483647"), Some(i32::MAX));
    assert_eq!(parse_answer("2147483648"), None);
    assert_eq!(parse_answer("-2147483648"), Some(i32::MIN));
    assert_eq!(parse_answer("-2147483649"), None);
    assert_eq!(parse_answer("99999999999999999999"), None);
    assert_eq!(parse_answer("-99999999999999999999"), None);
}
