//! The exact-decimal arithmetic cross-checked against a reference
//! decimal library, the numeric renderings, and the text helpers.

use helpernote::decimal::{
    dec_add, dec_eq, dec_to_string, fee_amount, rate_in_range, Dec,
};
use helpernote::numeric::{i64_to_string, parse_i64, parse_u64, u64_to_string};
use helpernote::textutil::normalize_answer;
use rust_decimal::Decimal;

fn dec_of(reference: Decimal) -> Dec {
    // A reference decimal as this library's pair of mantissa and scale.
    Dec {
        m: reference.mantissa(),
        s: reference.scale(),
    }
}

#[test]
fn fee_agrees_with_the_reference_decimal_library() {
    // The reference computation the service is specified by:
    // salary * rate / 100 in exact decimal arithmetic.
    let cases: [(i64, i64, u32); 4] =
        [(5_000_000, 15, 0), (5_000_000, 125, 1), (1, 1, 0), (999_999, 33, 2)];
    for (salary, rate_m, rate_s) in cases {
        let reference = (Decimal::from(salary) * Decimal::new(rate_m, rate_s))
            / Decimal::from(100);
        let ours = fee_amount(&Dec::new(salary, 0), &Dec::new(rate_m, rate_s)).unwrap();
        assert!(dec_eq(&ours, &dec_of(reference)));
    }
}

#[test]
fn addition_agrees_with_the_reference_decimal_library() {
    let a = Decimal::new(12_345, 2);
    let b = Decimal::new(678_901, 3);
    let ours = dec_add(&Dec::new(12_345, 2), &Dec::new(678_901, 3)).unwrap();
    assert!(dec_eq(&ours, &dec_of(a + b)));
}

#[test]
fn equal_values_at_different_scales_compare_equal() {
    assert!(dec_eq(&Dec::new(7_500, 1), &Dec::new(750, 0)));
    assert!(!dec_eq(&Dec::new(7_501, 1), &Dec::new(750, 0)));
    assert!(dec_eq(&Dec::new(0, 5), &Dec::new(0, 0)));
}

#[test]
fn rendering_shows_the_scale() {
    assert_eq!(dec_to_string(&Dec::new(750_000, 0)), "750000");
    assert_eq!(dec_to_string(&Dec::new(75_000_000, 2)), "750000.00");
    assert_eq!(dec_to_string(&Dec::new(125, 1)), "12.5");
    assert_eq!(dec_to_string(&Dec::new(-1_205, 2)), "-12.05");
    assert_eq!(dec_to_string(&Dec::new(5, 3)), "0.005");
}

#[test]
fn rate_range_check_is_inclusive() {
    assert!(rate_in_range(&Dec::new(0, 0)));
    assert!(rate_in_range(&Dec::new(100, 0)));
    assert!(rate_in_range(&Dec::new(10_000, 2)));
    assert!(!rate_in_range(&Dec::new(10_001, 2)));
    assert!(!rate_in_range(&Dec::new(-1, 0)));
}

#[test]
fn integers_render_and_parse_back() {
    assert_eq!(u64_to_string(0), "0");
    assert_eq!(u64_to_string(9_876_543_210), "9876543210");
    assert_eq!(i64_to_string(-42), "-42");
    assert_eq!(parse_u64("9876543210"), Some(9_876_543_210));
    assert_eq!(parse_u64(""), None);
    assert_eq!(parse_u64("12a"), None);
    assert_eq!(parse_u64("18446744073709551615"), Some(u64::MAX));
    assert_eq!(parse_u64("18446744073709551616"), None);
    assert_eq!(parse_i64("-42"), Some(-42));
    assert_eq!(parse_i64("-9223372036854775808"), Some(i64::MIN));
    assert_eq!(parse_i64("9223372036854775808"), None);
}

#[test]
fn security_answers_normalize_case_and_whitespace() {
    assert_eq!(normalize_answer("  FlUfFy  "), "fluffy");
    assert_eq!(normalize_answer("fluffy"), "fluffy");
    assert_eq!(normalize_answer("   "), "");
}
