use console_client::text::{
    copy_option, copy_strings, decimal_text, eq_ignore_ascii_case, padded_decimal_text,
    parse_number, same, short_id, string_or, trim_end_slashes,
};

#[test]
fn short_id_keeps_eight_characters() {
    assert_eq!(short_id("0123456789abcdef"), "01234567");
    assert_eq!(short_id("01234567"), "01234567");
    assert_eq!(short_id("abc"), "abc");
    assert_eq!(short_id(""), "");
}

#[test]
fn short_id_counts_characters_not_bytes() {
    assert_eq!(short_id("дюжина-букв"), "дюжина-б");
}

#[test]
fn short_id_of_a_short_id_is_itself() {
    let short = short_id("f81d4fae-7dec-11d0-a765-00a0c91e6bf6");
    assert_eq!(short, "f81d4fae");
    assert_eq!(short_id(&short), short);
}

#[test]
fn every_end_slash_is_removed() {
    assert_eq!(trim_end_slashes("http://host/"), "http://host");
    assert_eq!(trim_end_slashes("http://host///"), "http://host");
    assert_eq!(trim_end_slashes("http://host"), "http://host");
    assert_eq!(trim_end_slashes("///"), "");
    assert_eq!(trim_end_slashes(""), "");
}

#[test]
fn only_ascii_letters_lose_their_case() {
    assert!(eq_ignore_ascii_case("PhOnE", "phone"));
    assert!(eq_ignore_ascii_case("", ""));
    assert!(eq_ignore_ascii_case("[1]", "[1]"));
    assert!(!eq_ignore_ascii_case("phone", "phones"));
    assert!(!eq_ignore_ascii_case("@", "`"));
    assert!(!eq_ignore_ascii_case("Ä", "ä"));
}

#[test]
fn numbers_are_written_in_decimal() {
    assert_eq!(decimal_text(0), "0");
    assert_eq!(decimal_text(9), "9");
    assert_eq!(decimal_text(10), "10");
    assert_eq!(decimal_text(90210), "90210");
    assert_eq!(decimal_text(usize::MAX), format!("{}", usize::MAX));
}

#[test]
fn numbers_are_aligned_in_two_columns() {
    assert_eq!(padded_decimal_text(7), " 7");
    assert_eq!(padded_decimal_text(42), "42");
    assert_eq!(padded_decimal_text(100), "100");
}

#[test]
fn numbers_are_read() {
    assert_eq!(parse_number("0"), Some(0));
    assert_eq!(parse_number("12"), Some(12));
    assert_eq!(parse_number("+5"), Some(5));
    assert_eq!(parse_number("007"), Some(7));
}

#[test]
fn other_texts_are_no_numbers() {
    assert_eq!(parse_number(""), None);
    assert_eq!(parse_number("+"), None);
    assert_eq!(parse_number("++1"), None);
    assert_eq!(parse_number("-1"), None);
    assert_eq!(parse_number("1 2"), None);
    assert_eq!(parse_number("1a"), None);
    assert_eq!(parse_number("٣"), None);
}

#[test]
fn numbers_out_of_range_are_refused() {
    let max = format!("{}", usize::MAX);
    assert_eq!(parse_number(&max), Some(usize::MAX));
    assert_eq!(parse_number(&format!("{max}0")), None);
    assert_eq!(parse_number(&format!("0{max}")), Some(usize::MAX));
    assert_eq!(parse_number("340282366920938463463374607431768211456"), None);
}

#[test]
fn written_numbers_are_read_back() {
    for n in [0, 1, 9, 10, 99, 1234567, usize::MAX] {
        assert_eq!(parse_number(&decimal_text(n)), Some(n));
    }
}

#[test]
fn parsing_agrees_with_the_standard_library() {
    for s in ["", "0", "+0", "+", "1", "+1", "01", "1_0", " 1", "1 ", "99999999999999999999", "a"] {
        assert_eq!(parse_number(s), s.parse::<usize>().ok(), "{s:?}");
    }
}

#[test]
fn comparison_is_exact() {
    assert!(same("abc", "abc"));
    assert!(!same("abc", "abd"));
    assert!(!same("abc", "ab"));
}

#[test]
fn absent_strings_are_replaced() {
    assert_eq!(string_or(&Some("id".to_string()), "n/a"), "id");
    assert_eq!(string_or(&None, "n/a"), "n/a");
    assert_eq!(copy_option(&Some("x".to_string())), Some("x".to_string()));
    assert_eq!(copy_option(&None), None);
    let list = vec!["a".to_string(), "b".to_string()];
    assert_eq!(copy_strings(&list), list);
}
