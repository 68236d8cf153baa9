//! Tests of decimal balance parsing.

use merkle_validation::motes::{from_dec_str, motes_eq};

#[test]
fn plain_number_parses_to_its_digits() {
    let m = from_dec_str(b"123").expect("digits must parse");
    assert_eq!(m.digits, vec![1, 2, 3]);
}

#[test]
fn leading_zeros_are_stripped() {
    let m = from_dec_str(b"000123").expect("digits must parse");
    assert_eq!(m.digits, vec![1, 2, 3]);
}

#[test]
fn zero_is_the_empty_canonical_form() {
    let m = from_dec_str(b"0").expect("zero must parse");
    assert_eq!(m.digits, Vec::<u8>::new());
    let n = from_dec_str(b"000").expect("zero must parse");
    assert!(motes_eq(&m, &n));
}

#[test]
fn a_very_large_number_parses() {
    let s = b"340282366920938463463374607431768211456";
    let m = from_dec_str(s).expect("large number must parse");
    assert_eq!(m.digits.len(), s.len());
    assert_eq!(m.digits[0], 3);
}

#[test]
fn empty_string_is_rejected() {
    assert!(from_dec_str(b"").is_none());
}

#[test]
fn non_digits_are_rejected() {
    assert!(from_dec_str(b"12a3").is_none());
    assert!(from_dec_str(b"-5").is_none());
    assert!(from_dec_str(b" 5").is_none());
}

#[test]
fn equal_numbers_written_differently_compare_equal() {
    let a = from_dec_str(b"007").unwrap();
    let b = from_dec_str(b"7").unwrap();
    let c = from_dec_str(b"70").unwrap();
    assert!(motes_eq(&a, &b));
    assert!(!motes_eq(&a, &c));
}
