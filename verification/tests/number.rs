use sass_core::text::{nat_to_string, quote, str_eq, str_starts_with};
use sass_core::unit::{Quantity, Unit};
use sass_core::value::number::Number;

#[test]
fn number_from_whole() {
    assert_eq!(Number::from(1).units, 10_000_000_000);
    assert_eq!(Number::from(-3).units, -30_000_000_000);
    assert_eq!(Number::from(0), Number::zero());
    assert_eq!(Number::from(1), Number::one());
    assert_eq!(Number::from(i64::MAX).units, (i64::MAX as i128) * 10_000_000_000);
    assert_eq!(Number::from(i64::MIN).units, (i64::MIN as i128) * 10_000_000_000);
}

#[test]
fn number_one_is_one_point_zero() {
    assert_eq!(Number::from(1), Number::from_units(10_000_000_000));
}

#[test]
fn number_writes_whole_numbers() {
    assert_eq!(Number::from(0).to_string(), "0");
    assert_eq!(Number::from(7).to_string(), "7");
    assert_eq!(Number::from(120).to_string(), "120");
    assert_eq!(Number::from(-45).to_string(), "-45");
    assert_eq!(Number::from(1_000_000).to_string(), "1000000");
}

#[test]
fn number_writes_decimal_places_without_trailing_zeros() {
    assert_eq!(Number::from_units(5_000_000_000).to_string(), "0.5");
    assert_eq!(Number::from_units(12_500_000_000).to_string(), "1.25");
    assert_eq!(Number::from_units(-5_000_000_000).to_string(), "-0.5");
    assert_eq!(Number::from_units(1).to_string(), "0.0000000001");
    assert_eq!(Number::from_units(-1).to_string(), "-0.0000000001");
    assert_eq!(Number::from_units(10_000_000_001).to_string(), "1.0000000001");
    assert_eq!(Number::from_units(33_333_333_333).to_string(), "3.3333333333");
    assert_eq!(Number::from_units(1_010_000_000).to_string(), "0.101");
    assert_eq!(Number::from_units(100_000_000).to_string(), "0.01");
}

#[test]
fn number_writes_the_extremes() {
    assert_eq!(
        Number::from_units(i128::MAX).to_string(),
        "17014118346046923173168730371.5884105727"
    );
    assert_eq!(
        Number::from_units(i128::MIN).to_string(),
        "-17014118346046923173168730371.5884105728"
    );
}

#[test]
fn number_hundredth_rounds_toward_zero() {
    assert_eq!(Number::from(50).hundredth(), Number::from_units(5_000_000_000));
    assert_eq!(Number::from(100).hundredth(), Number::one());
    assert_eq!(Number::from_units(199).hundredth(), Number::from_units(1));
    assert_eq!(Number::from_units(-199).hundredth(), Number::from_units(-1));
    assert_eq!(Number::from_units(99).hundredth(), Number::zero());
    assert_eq!(Number::from_units(-99).hundredth(), Number::zero());
}

#[test]
fn number_compares() {
    assert!(Number::from(1).lt(&Number::from(2)));
    assert!(!Number::from(2).lt(&Number::from(2)));
    assert!(Number::from(3).gt(&Number::from(2)));
    assert!(!Number::from(2).gt(&Number::from(2)));
    assert!(Number::from(-1).is_negative());
    assert!(!Number::zero().is_negative());
    assert!(Number::zero().is_zero());
    assert!(!Number::from_units(1).is_zero());
}

#[test]
fn number_eq_scaled_is_exact() {
    // one inch is ninety-six pixels
    assert!(Number::from(1).eq_scaled(36576, &Number::from(96), 381));
    assert!(!Number::from(1).eq_scaled(36576, &Number::from(95), 381));
    assert!(Number::from(-2).eq_scaled(3, &Number::from(-3), 2));
    assert!(!Number::from(2).eq_scaled(3, &Number::from(-3), 2));
    assert!(Number::zero().eq_scaled(7, &Number::zero(), 9));
    // products beyond 128 bits are still compared exactly
    let big = Number::from_units(i128::MAX);
    assert!(big.eq_scaled(60000, &big, 60000));
    assert!(!big.eq_scaled(60000, &big, 59999));
    assert!(!big.eq_scaled(60000, &Number::from_units(i128::MAX - 1), 60000));
    let small = Number::from_units(i128::MIN);
    assert!(small.eq_scaled(65535, &small, 65535));
    assert!(!small.eq_scaled(65535, &big, 65535));
}

#[test]
fn unit_writes() {
    assert_eq!(Unit::Px.as_str(), "px");
    assert_eq!(Unit::Percent.as_str(), "%");
    assert_eq!(Unit::Unitless.as_str(), "");
    assert_eq!(Unit::Deg.to_string(), "deg");
    assert_eq!(Unit::Khz.to_string(), "kHz");
    assert_eq!(Unit::Q.to_string(), "q");
}

#[test]
fn unit_measures() {
    assert_eq!(Unit::In.measure(), Some((Quantity::Length, 36576)));
    assert_eq!(Unit::Px.measure(), Some((Quantity::Length, 381)));
    assert_eq!(Unit::Turn.measure(), Some((Quantity::Angle, 3600)));
    assert_eq!(Unit::Ms.measure(), Some((Quantity::Time, 1)));
    assert_eq!(Unit::Khz.measure(), Some((Quantity::Frequency, 1000)));
    assert_eq!(Unit::Dppx.measure(), Some((Quantity::Resolution, 4800)));
    assert_eq!(Unit::Rad.measure(), None);
    assert_eq!(Unit::Em.measure(), None);
    assert_eq!(Unit::Percent.measure(), None);
    assert_eq!(Unit::Unitless.measure(), None);
}

#[test]
fn unit_comparable() {
    assert!(Unit::Px.comparable(Unit::In));
    assert!(Unit::Deg.comparable(Unit::Turn));
    assert!(Unit::Em.comparable(Unit::Em));
    assert!(Unit::Rad.comparable(Unit::Rad));
    assert!(!Unit::Rad.comparable(Unit::Deg));
    assert!(!Unit::Px.comparable(Unit::Deg));
    assert!(!Unit::Px.comparable(Unit::Unitless));
    assert!(!Unit::Em.comparable(Unit::Rem));
}

#[test]
fn text_str_eq() {
    assert!(str_eq("", ""));
    assert!(str_eq("abc", "abc"));
    assert!(!str_eq("abc", "abd"));
    assert!(!str_eq("abc", "ab"));
    assert!(str_eq("grün", "grün"));
    assert!(!str_eq("grün", "grun"));
}

#[test]
fn text_starts_with() {
    assert!(str_starts_with("calc(1px)", "calc("));
    assert!(!str_starts_with("cal", "calc("));
    assert!(!str_starts_with("xcalc(", "calc("));
    assert!(str_starts_with("abc", ""));
    assert!(str_starts_with("äbc", "ä"));
}

#[test]
fn text_quote_escapes() {
    assert_eq!(quote("abc", false), "\"abc\"");
    assert_eq!(quote("", false), "\"\"");
    assert_eq!(quote("a\"b", false), "\"a\\\"b\"");
    assert_eq!(quote("a\\b", false), "\"a\\\\b\"");
    assert_eq!(quote("ü'x", false), "\"ü'x\"");
}

#[test]
fn text_quote_in_single_quotes() {
    assert_eq!(quote("abc", true), "'abc'");
    assert_eq!(quote("", true), "''");
    assert_eq!(quote("a'b", true), "'a\\'b'");
    assert_eq!(quote("a\"b", true), "'a\"b'");
    assert_eq!(quote("a\\b", true), "'a\\\\b'");
}

#[test]
fn text_nat_to_string() {
    assert_eq!(nat_to_string(0), "0");
    assert_eq!(nat_to_string(9), "9");
    assert_eq!(nat_to_string(10), "10");
    assert_eq!(nat_to_string(4096), "4096");
    assert_eq!(nat_to_string(usize::MAX), format!("{}", usize::MAX));
}
