use step_graph::text::{eq_ignore_ascii_case, parse_i32, same_text};

#[test]
fn same_text_tells_texts_apart() {
    assert!(same_text("convert", "convert"));
    assert!(same_text("", ""));
    assert!(!same_text("convert", "Convert"));
    assert!(!same_text("convert", "conver"));
    assert!(!same_text("a", ""));
}

#[test]
fn case_of_ascii_letters_is_ignored() {
    assert!(eq_ignore_ascii_case("GET", "get"));
    assert!(eq_ignore_ascii_case("gEt", "get"));
    assert!(eq_ignore_ascii_case("get", "GET"));
    assert!(eq_ignore_ascii_case("", ""));
    assert!(!eq_ignore_ascii_case("gets", "get"));
    assert!(!eq_ignore_ascii_case("ge", "get"));
    assert!(!eq_ignore_ascii_case("put", "get"));
    assert!(eq_ignore_ascii_case("a-1", "A-1"));
    assert!(!eq_ignore_ascii_case("@", "`"));
    assert!(!eq_ignore_ascii_case("[", "{"));
}

#[test]
fn case_of_other_letters_is_not_ignored() {
    assert!(!eq_ignore_ascii_case("É", "é"));
    assert!(eq_ignore_ascii_case("é", "é"));
    // The Kelvin sign is no ASCII letter, although its lower-case form is `k`.
    assert!(!eq_ignore_ascii_case("\u{212A}", "k"));
}

#[test]
fn ignoring_case_agrees_with_lowercasing_for_get_and_post() {
    let samples = [
        "get", "GET", "Get", "gET", "post", "POST", "Post", "pOsT", "", "ge", "gett", "pos",
        "posts", "put", "g\u{0301}et", "ｇｅｔ", "p\u{00D6}st", "\u{212A}", "get ", " get",
    ];
    for sample in samples {
        assert_eq!(eq_ignore_ascii_case(sample, "get"), sample.to_lowercase() == "get");
        assert_eq!(eq_ignore_ascii_case(sample, "post"), sample.to_lowercase() == "post");
    }
}

#[test]
fn decimal_numbers_are_read() {
    assert_eq!(parse_i32("0"), Some(0));
    assert_eq!(parse_i32("7"), Some(7));
    assert_eq!(parse_i32("42"), Some(42));
    assert_eq!(parse_i32("-42"), Some(-42));
    assert_eq!(parse_i32("+42"), Some(42));
    assert_eq!(parse_i32("007"), Some(7));
    assert_eq!(parse_i32("-0"), Some(0));
    assert_eq!(parse_i32("2147483647"), Some(i32::MAX));
    assert_eq!(parse_i32("-2147483648"), Some(i32::MIN));
    assert_eq!(parse_i32("0000000000000000000000002147483647"), Some(i32::MAX));
}

#[test]
fn other_texts_are_no_numbers() {
    assert_eq!(parse_i32(""), None);
    assert_eq!(parse_i32("-"), None);
    assert_eq!(parse_i32("+"), None);
    assert_eq!(parse_i32("+-1"), None);
    assert_eq!(parse_i32("--1"), None);
    assert_eq!(parse_i32("1-"), None);
    assert_eq!(parse_i32(" 1"), None);
    assert_eq!(parse_i32("1 "), None);
    assert_eq!(parse_i32("1_000"), None);
    assert_eq!(parse_i32("1.0"), None);
    assert_eq!(parse_i32("0x10"), None);
    assert_eq!(parse_i32("١٢"), None);
    assert_eq!(parse_i32("twelve"), None);
}

#[test]
fn numbers_out_of_range_are_refused() {
    assert_eq!(parse_i32("2147483648"), None);
    assert_eq!(parse_i32("-2147483649"), None);
    assert_eq!(parse_i32("99999999999999999999999999999999"), None);
    assert_eq!(parse_i32("-99999999999999999999999999999999"), None);
    assert_eq!(parse_i32("21474836470"), None);
}

#[test]
fn reading_agrees_with_the_standard_library() {
    let samples = [
        "", "0", "-0", "+0", "1", "-1", "+1", "12", "-12", "2147483647", "2147483648",
        "-2147483648", "-2147483649", "4294967296", "00", "-00012", "+", "-", "+-1", "-+1", "1+",
        "1a", "a1", " 1", "1 ", "1_0", "1.5", "1e3", "９", "", "٣", "-", "99999999999",
        "000000000000000000000000000000000001",
    ];
    for sample in samples {
        assert_eq!(parse_i32(sample), sample.parse::<i32>().ok(), "reading {:?}", sample);
    }
    let mut n: i64 = -3_000_000_000;
    while n <= 3_000_000_000 {
        let text = format!("{}", n);
        assert_eq!(parse_i32(&text), text.parse::<i32>().ok(), "reading {:?}", text);
        n += 7_654_321;
    }
}
