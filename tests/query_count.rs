use tfb_updates::query_count::{decimal_text, translate_query_count};

#[test]
fn translates_declared_test_cases() {
    assert_eq!(translate_query_count("2", 1, 500), 2);
    assert_eq!(translate_query_count("0", 1, 500), 1);
    assert_eq!(translate_query_count("foo", 1, 500), 1);
    assert_eq!(translate_query_count("501", 1, 500), 500);
    assert_eq!(translate_query_count("", 1, 500), 1);
}

#[test]
fn translates_signed_and_malformed_values() {
    assert_eq!(translate_query_count("+7", 1, 500), 7);
    assert_eq!(translate_query_count("-3", 1, 500), 1);
    assert_eq!(translate_query_count("-", 1, 500), 1);
    assert_eq!(translate_query_count("+", 1, 500), 1);
    assert_eq!(translate_query_count("12a", 1, 500), 1);
    assert_eq!(translate_query_count("1 2", 1, 500), 1);
    assert_eq!(translate_query_count("500", 1, 500), 500);
    assert_eq!(translate_query_count("499", 1, 500), 499);
    assert_eq!(translate_query_count("1", 1, 500), 1);
}

#[test]
fn translates_very_large_numbers_to_max() {
    assert_eq!(translate_query_count("99999999999999999999999999", 1, 500), 500);
    assert_eq!(translate_query_count("4294967296", 1, 500), 500);
}

#[test]
fn translation_is_idempotent_and_bounded() {
    for case in ["2", "0", "foo", "501", "", "-9", "250", "100000"] {
        let r = translate_query_count(case, 1, 500);
        assert!((1..=500).contains(&r));
        let again = translate_query_count(decimal_text(r as u64).as_str(), 1, 500);
        assert_eq!(again, r);
    }
}

#[test]
fn renders_decimal_text() {
    assert_eq!(decimal_text(0), "0");
    assert_eq!(decimal_text(7), "7");
    assert_eq!(decimal_text(10), "10");
    assert_eq!(decimal_text(1234567), "1234567");
    assert_eq!(decimal_text(u64::MAX), "18446744073709551615");
}
