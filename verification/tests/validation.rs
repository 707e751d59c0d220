//! Tests for the validators, the whitespace normalizer and the renderers.

use bookstore::money::validate_money;
use bookstore::numfmt::{cents_to_string, i64_to_string, u64_to_string};
use bookstore::text::{fix_whitespace, validate_alphanumeric_input, validate_title_and_author};

#[test]
fn text_validator_rejects_symbols() {
    let r = validate_alphanumeric_input("abc<def", "title");
    assert_eq!(
        r.unwrap_err(),
        "Please input a valid title:\n\t Please use only alphabet and numeric values."
    );
    let r = validate_alphanumeric_input("price: $5", "name");
    assert!(r.is_err());
    let r = validate_alphanumeric_input("a\u{1F49C}b", "author");
    assert!(r.is_err());
}

#[test]
fn text_validator_rejects_empty_and_whitespace() {
    let r = validate_alphanumeric_input("", "title");
    assert_eq!(
        r.unwrap_err(),
        "Please input a valid title:\n\t Please do not input only empty space."
    );
    let r = validate_alphanumeric_input("   \t\n ", "name");
    assert_eq!(
        r.unwrap_err(),
        "Please input a valid name:\n\t Please do not input only empty space."
    );
}

#[test]
fn text_validator_accepts_letters_digits_spaces() {
    assert!(validate_alphanumeric_input("Dune 2", "title").is_ok());
    assert!(validate_alphanumeric_input("Frank Herbert", "author").is_ok());
    // Alphanumeric beyond ASCII passes too.
    assert!(validate_alphanumeric_input("Ren\u{e9}e", "name").is_ok());
}

#[test]
fn title_and_author_reported_in_order() {
    let r = validate_title_and_author("", "");
    assert_eq!(
        r.unwrap_err(),
        "Please input a valid title:\n\t Please do not input only empty space."
    );
    let r = validate_title_and_author("Dune", "<>");
    assert_eq!(
        r.unwrap_err(),
        "Please input a valid author:\n\t Please use only alphabet and numeric values."
    );
    assert!(validate_title_and_author("Dune", "Herbert").is_ok());
}

#[test]
fn normalizer_trims_and_collapses() {
    assert_eq!(fix_whitespace("  a   b  ".to_string()), "a b");
    assert_eq!(fix_whitespace("\t Frank \n Herbert ".to_string()), "Frank Herbert");
    assert_eq!(fix_whitespace("one".to_string()), "one");
    assert_eq!(fix_whitespace("".to_string()), "");
    assert_eq!(fix_whitespace(" \t ".to_string()), "");
}

#[test]
fn normalizer_is_idempotent_on_samples() {
    for s in ["  a   b  ", "x", "", "  ", "a\u{a0}b", " spaced  out  words "] {
        let once = fix_whitespace(s.to_string());
        let twice = fix_whitespace(once.clone());
        assert_eq!(once, twice);
        assert!(!once.starts_with(' '));
        assert!(!once.ends_with(' '));
        assert!(!once.contains("  "));
    }
}

#[test]
fn money_accepts_valid_shapes() {
    assert_eq!(validate_money("12.50", "price").unwrap(), 1250);
    assert_eq!(validate_money("0.99", "price").unwrap(), 99);
    assert_eq!(validate_money("9999.00", "balance").unwrap(), 999900);
    // A whole number gets the point synthesized.
    assert_eq!(validate_money("12", "price").unwrap(), 1200);
    assert_eq!(validate_money("12.5", "balance").unwrap(), 1250);
}

#[test]
fn money_rejects_bad_shapes() {
    assert_eq!(
        validate_money("12.555", "price").unwrap_err(),
        "Please input a valid price of form X.YY: 0 <= X <= 9999, 0 <= Y <= 9"
    );
    assert_eq!(
        validate_money("99999.00", "balance").unwrap_err(),
        "Please input a valid balance of form X.YY: 0 <= X <= 9999, 0 <= Y <= 9"
    );
    assert!(validate_money("12a", "price").is_err());
    assert!(validate_money(".50", "price").is_err());
}

#[test]
fn money_rejects_zero_and_negative_for_every_label() {
    for label in ["price", "balance"] {
        for value in ["0", "0.00", "-1.00", "-0.5", "000.0"] {
            let r = validate_money(value, label);
            assert_eq!(
                r.unwrap_err(),
                format!("Please give a positive value (>0) for {}", label)
            );
        }
    }
}

#[test]
fn renderers_write_decimal() {
    assert_eq!(u64_to_string(0), "0");
    assert_eq!(u64_to_string(90210), "90210");
    assert_eq!(i64_to_string(-45), "-45");
    assert_eq!(i64_to_string(7), "7");
    assert_eq!(cents_to_string(1250), "12.50");
    assert_eq!(cents_to_string(99), "0.99");
    assert_eq!(cents_to_string(500), "5.00");
    assert_eq!(cents_to_string(1), "0.01");
}
