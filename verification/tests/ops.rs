use codemap::{CodeMap, Span};
use sass_core::error::{ErrorKind, SassResult};
use sass_core::unit::Unit;
use sass_core::value::number::Number;
use sass_core::value::ops::{compare, divided_by, minus, plus, times, Order};

fn span() -> Span {
    CodeMap::new().add_file("test.scss".to_string(), "a { b: c }".to_string()).span
}

fn n(x: i64) -> Number {
    Number::from(x)
}

fn units(x: i128) -> Number {
    Number::from_units(x)
}

fn failure<T: std::fmt::Debug>(r: SassResult<T>, kind: ErrorKind) -> String {
    let e = r.unwrap_err();
    assert_eq!(e.kind, kind);
    assert_eq!(e.span, span());
    e.to_string()
}

#[test]
fn ops_checked_number_arithmetic() {
    assert_eq!(n(2).checked_add(n(3)), Some(n(5)));
    assert_eq!(units(i128::MAX).checked_add(units(1)), None);
    assert_eq!(n(2).checked_sub(n(3)), Some(n(-1)));
    assert_eq!(units(i128::MIN).checked_sub(units(1)), None);
    assert_eq!(n(2).checked_mul(n(3)), Some(n(6)));
    assert_eq!(units(5_000_000_000).checked_mul(units(5_000_000_000)), Some(units(2_500_000_000)));
    assert_eq!(units(1).checked_mul(units(1)), Some(units(0)));
    assert_eq!(units(-15_000_000_000).checked_mul(units(1)), Some(units(-1)));
    assert_eq!(units(i128::MAX).checked_mul(n(2)), None);
    assert_eq!(n(6).checked_div(n(3)), Some(n(2)));
    assert_eq!(n(1).checked_div(n(3)), Some(units(3_333_333_333)));
    assert_eq!(n(-1).checked_div(n(3)), Some(units(-3_333_333_333)));
    assert_eq!(n(1).checked_div(n(-3)), Some(units(-3_333_333_333)));
    assert_eq!(n(-1).checked_div(n(-3)), Some(units(3_333_333_333)));
    assert_eq!(n(1).checked_div(n(0)), None);
    assert_eq!(units(i128::MAX).checked_div(n(1)), None);
    assert_eq!(n(1).checked_div(units(i128::MIN)), Some(units(0)));
}

#[test]
fn ops_lt_scaled() {
    assert!(n(1).lt_scaled(381, &n(1), 36576));
    assert!(!n(1).lt_scaled(36576, &n(96), 381));
    assert!(n(1).lt_scaled(36576, &n(97), 381));
    assert!(n(-1).lt_scaled(2, &n(-1), 1));
    assert!(!n(-1).lt_scaled(1, &n(-1), 2));
    assert!(units(i128::MIN).lt_scaled(65535, &units(i128::MAX), 65535));
    assert!(units(i128::MAX - 1).lt_scaled(65535, &units(i128::MAX), 65535));
    assert!(!units(i128::MAX).lt_scaled(65535, &units(i128::MAX), 65535));
}

#[test]
fn ops_adding_a_unitless_number_inherits_the_unit() {
    assert_eq!(plus(n(1), Unit::Px, n(2), Unit::Unitless, span()).unwrap(), (n(3), Unit::Px));
    assert_eq!(plus(n(1), Unit::Unitless, n(2), Unit::Px, span()).unwrap(), (n(3), Unit::Px));
    assert_eq!(
        plus(n(1), Unit::Unitless, n(2), Unit::Unitless, span()).unwrap(),
        (n(3), Unit::Unitless)
    );
    assert_eq!(minus(n(1), Unit::Em, n(2), Unit::Unitless, span()).unwrap(), (n(-1), Unit::Em));
}

#[test]
fn ops_adding_converts_to_the_first_unit() {
    assert_eq!(plus(n(1), Unit::In, n(96), Unit::Px, span()).unwrap(), (n(2), Unit::In));
    assert_eq!(plus(n(1), Unit::Px, n(1), Unit::In, span()).unwrap(), (n(97), Unit::Px));
    assert_eq!(
        minus(n(1), Unit::In, n(48), Unit::Px, span()).unwrap(),
        (units(5_000_000_000), Unit::In)
    );
    assert_eq!(plus(n(1), Unit::S, n(500), Unit::Ms, span()).unwrap(), (units(15_000_000_000), Unit::S));
    assert_eq!(plus(n(90), Unit::Deg, n(1), Unit::Turn, span()).unwrap(), (n(450), Unit::Deg));
    assert_eq!(
        plus(n(0), Unit::Cm, n(1), Unit::In, span()).unwrap(),
        (units(25_400_000_000), Unit::Cm)
    );
}

#[test]
fn ops_incompatible_units_are_an_error() {
    let r = plus(n(1), Unit::Px, n(1), Unit::Deg, span());
    assert_eq!(failure(r, ErrorKind::Type), "Incompatible units px and deg.");
    let r = minus(n(1), Unit::Em, n(1), Unit::Rem, span());
    assert_eq!(failure(r, ErrorKind::Type), "Incompatible units em and rem.");
    let r = plus(n(1), Unit::Percent, n(1), Unit::Px, span());
    assert_eq!(failure(r, ErrorKind::Type), "Incompatible units % and px.");
    let r = compare(n(1), Unit::Rad, n(1), Unit::Deg, span());
    assert_eq!(failure(r, ErrorKind::Type), "Incompatible units rad and deg.");
}

#[test]
fn ops_results_too_large_are_an_error() {
    let r = plus(units(i128::MAX), Unit::Px, units(1), Unit::Px, span());
    assert_eq!(failure(r, ErrorKind::Range), "The result is too large.");
    let r = minus(units(i128::MIN), Unit::Px, units(1), Unit::Unitless, span());
    assert_eq!(failure(r, ErrorKind::Range), "The result is too large.");
    let r = plus(n(0), Unit::Px, units(i128::MAX), Unit::In, span());
    assert_eq!(failure(r, ErrorKind::Range), "The result is too large.");
    let r = times(units(i128::MAX), Unit::Px, n(2), Unit::Unitless, span());
    assert_eq!(failure(r, ErrorKind::Range), "The result is too large.");
    let r = divided_by(units(i128::MAX), Unit::Px, n(2), Unit::Unitless, span());
    assert_eq!(failure(r, ErrorKind::Range), "The result is too large.");
}

#[test]
fn ops_multiplying() {
    assert_eq!(times(n(2), Unit::Px, n(3), Unit::Unitless, span()).unwrap(), (n(6), Unit::Px));
    assert_eq!(times(n(2), Unit::Unitless, n(3), Unit::Deg, span()).unwrap(), (n(6), Unit::Deg));
    assert_eq!(
        times(units(5_000_000_000), Unit::Unitless, units(5_000_000_000), Unit::Unitless, span())
            .unwrap(),
        (units(2_500_000_000), Unit::Unitless)
    );
    let r = times(n(2), Unit::Px, n(3), Unit::Px, span());
    assert_eq!(failure(r, ErrorKind::Type), "Incompatible units px and px.");
    let r = times(n(2), Unit::Px, n(3), Unit::Percent, span());
    assert_eq!(failure(r, ErrorKind::Type), "Incompatible units px and %.");
}

#[test]
fn ops_dividing() {
    assert_eq!(divided_by(n(6), Unit::Px, n(3), Unit::Unitless, span()).unwrap(), (n(2), Unit::Px));
    assert_eq!(divided_by(n(6), Unit::Px, n(3), Unit::Px, span()).unwrap(), (n(2), Unit::Unitless));
    assert_eq!(
        divided_by(n(1), Unit::Unitless, n(3), Unit::Unitless, span()).unwrap(),
        (units(3_333_333_333), Unit::Unitless)
    );
    let r = divided_by(n(6), Unit::Px, n(3), Unit::Deg, span());
    assert_eq!(failure(r, ErrorKind::Type), "Incompatible units px and deg.");
    let r = divided_by(n(6), Unit::Unitless, n(3), Unit::Px, span());
    assert_eq!(failure(r, ErrorKind::Type), "Incompatible units  and px.");
}

#[test]
fn ops_division_by_zero_is_an_error() {
    let r = divided_by(n(6), Unit::Px, n(0), Unit::Unitless, span());
    assert_eq!(failure(r, ErrorKind::Range), "Division by zero.");
    let r = divided_by(n(0), Unit::Px, n(0), Unit::Px, span());
    assert_eq!(failure(r, ErrorKind::Range), "Division by zero.");
}

#[test]
fn ops_comparing_by_magnitude_after_conversion() {
    assert_eq!(compare(n(1), Unit::In, n(96), Unit::Px, span()).unwrap(), Order::Equal);
    assert_eq!(compare(n(1), Unit::In, n(97), Unit::Px, span()).unwrap(), Order::Less);
    assert_eq!(compare(n(1), Unit::In, n(95), Unit::Px, span()).unwrap(), Order::Greater);
    assert_eq!(compare(n(1), Unit::Px, n(1), Unit::In, span()).unwrap(), Order::Less);
    assert_eq!(compare(n(2), Unit::Unitless, n(1), Unit::Px, span()).unwrap(), Order::Greater);
    assert_eq!(compare(n(1), Unit::Em, n(1), Unit::Em, span()).unwrap(), Order::Equal);
    assert_eq!(compare(n(-1), Unit::S, n(-999), Unit::Ms, span()).unwrap(), Order::Less);
    assert_eq!(
        compare(units(i128::MAX), Unit::In, units(i128::MAX), Unit::Px, span()).unwrap(),
        Order::Greater
    );
    assert_eq!(
        compare(units(i128::MIN), Unit::In, units(i128::MIN), Unit::Px, span()).unwrap(),
        Order::Less
    );
}
