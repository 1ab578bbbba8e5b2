use codemap::{CodeMap, Span};
use sass_core::color::Color;
use sass_core::common::{Brackets, ListSeparator, QuoteKind};
use sass_core::error::ErrorKind;
use sass_core::unit::Unit;
use sass_core::value::map::SassMap;
use sass_core::value::number::Number;
use sass_core::value::{dimension_equals, Value};

fn span() -> Span {
    CodeMap::new().add_file("test.scss".to_string(), "a { b: c }".to_string()).span
}

fn num(n: i64, unit: Unit) -> Value {
    Value::Dimension(Number::from(n), unit)
}

fn word(s: &str) -> Value {
    Value::String(s.to_string(), QuoteKind::Unquoted)
}

fn quoted(s: &str) -> Value {
    Value::String(s.to_string(), QuoteKind::Quoted)
}

fn single_quoted(s: &str) -> Value {
    Value::String(s.to_string(), QuoteKind::SingleQuoted)
}

fn list(items: Vec<Value>, separator: ListSeparator) -> Value {
    Value::List(items, separator, Brackets::Bare)
}

fn css(v: &Value) -> String {
    v.to_css_string(span()).unwrap()
}

fn css_error(v: &Value) -> String {
    let e = v.to_css_string(span()).unwrap_err();
    assert_eq!(e.kind, ErrorKind::Type);
    assert_eq!(e.span, span());
    e.to_string()
}

#[test]
fn value_numbers_equal_across_convertible_units() {
    assert_eq!(num(1, Unit::In), num(96, Unit::Px));
    assert_eq!(num(96, Unit::Px), num(1, Unit::In));
    assert_eq!(num(1, Unit::In), num(72, Unit::Pt));
    assert_eq!(num(1, Unit::In), num(6, Unit::Pc));
    assert_eq!(num(254, Unit::Cm), num(100, Unit::In));
    assert_eq!(num(1, Unit::Cm), num(10, Unit::Mm));
    assert_eq!(num(1, Unit::Mm), num(4, Unit::Q));
    assert_eq!(num(1, Unit::Turn), num(360, Unit::Deg));
    assert_eq!(num(400, Unit::Grad), num(360, Unit::Deg));
    assert_eq!(num(1, Unit::S), num(1000, Unit::Ms));
    assert_eq!(num(1, Unit::Khz), num(1000, Unit::Hz));
    assert_eq!(num(1, Unit::Dppx), num(96, Unit::Dpi));
    assert_eq!(num(50, Unit::Dpcm), num(127, Unit::Dpi));
    assert_ne!(num(1, Unit::In), num(95, Unit::Px));
}

#[test]
fn value_numbers_differ_across_other_units() {
    assert_ne!(num(1, Unit::Px), num(1, Unit::Unitless));
    assert_ne!(num(1, Unit::Px), num(1, Unit::Deg));
    assert_ne!(num(1, Unit::Em), num(1, Unit::Rem));
    assert_ne!(num(1, Unit::Percent), num(1, Unit::Unitless));
    assert_ne!(num(0, Unit::Px), num(0, Unit::Deg));
    assert_ne!(num(1, Unit::Rad), num(1, Unit::Deg));
    assert_eq!(num(3, Unit::Em), num(3, Unit::Em));
    assert_eq!(num(3, Unit::Rad), num(3, Unit::Rad));
    assert_ne!(num(3, Unit::Em), num(4, Unit::Em));
}

#[test]
fn value_dimension_equals() {
    assert!(dimension_equals(&Number::from(2), Unit::Cm, &Number::from(20), Unit::Mm));
    assert!(!dimension_equals(&Number::from(2), Unit::Cm, &Number::from(2), Unit::Mm));
}

#[test]
fn value_one_equals_one_point_zero() {
    let a = Value::Dimension(Number::from(1), Unit::Unitless);
    let b = Value::Dimension(Number::from_units(10_000_000_000), Unit::Unitless);
    assert_eq!(a, b);
    assert!(a.equals(&b));
}

#[test]
fn value_strings_equal_by_text() {
    assert_eq!(word("a"), quoted("a"));
    assert_eq!(single_quoted("a"), quoted("a"));
    assert_eq!(word("a"), single_quoted("a"));
    assert_eq!(quoted("a b"), quoted("a b"));
    assert_ne!(word("a"), word("b"));
    assert_ne!(word("A"), word("a"));
    assert_ne!(word("1"), num(1, Unit::Unitless));
}

#[test]
fn value_of_different_kinds_differ() {
    assert_eq!(Value::Null, Value::Null);
    assert_eq!(Value::Bool(true), Value::Bool(true));
    assert_ne!(Value::Bool(true), Value::Bool(false));
    assert_ne!(Value::Null, Value::Bool(false));
    assert_ne!(Value::Null, word(""));
    assert_eq!(Value::Function("f".to_string()), Value::Function("f".to_string()));
    assert_ne!(Value::Function("f".to_string()), Value::Function("g".to_string()));
    assert_ne!(Value::Function("f".to_string()), word("f"));
}

#[test]
fn value_colors_equal_by_channels() {
    let half = Number::from_units(5_000_000_000);
    let a = Value::Color(Color::from_hsla(Number::from(0), Number::zero(), half, Number::one()));
    let b = Value::Color(Color::from_hsla(Number::from(90), Number::zero(), half, Number::one()));
    let c = Value::Color(Color::from_hsla(Number::from(90), Number::one(), half, Number::one()));
    assert_eq!(a, b);
    assert_ne!(a, c);
}

#[test]
fn value_lists_equal_by_separator_brackets_and_elements() {
    let a = list(vec![num(1, Unit::In), word("x")], ListSeparator::Space);
    let b = list(vec![num(96, Unit::Px), quoted("x")], ListSeparator::Space);
    assert_eq!(a, b);
    assert_ne!(a, list(vec![num(96, Unit::Px), quoted("x")], ListSeparator::Comma));
    assert_ne!(a, list(vec![num(96, Unit::Px)], ListSeparator::Space));
    assert_ne!(a, list(vec![num(96, Unit::Px), quoted("y")], ListSeparator::Space));
    assert_ne!(
        a,
        Value::List(vec![num(96, Unit::Px), quoted("x")], ListSeparator::Space, Brackets::Bracketed)
    );
    assert_eq!(list(vec![], ListSeparator::Space), list(vec![], ListSeparator::Space));
    let nested = list(vec![a.clone(), a.clone()], ListSeparator::Comma);
    assert_eq!(nested, list(vec![b.clone(), b.clone()], ListSeparator::Comma));
}

#[test]
fn value_captured_arguments_equal_a_comma_list() {
    let args = Value::ArgList(vec![num(1, Unit::Px), num(2, Unit::Px)]);
    assert_eq!(args, Value::ArgList(vec![num(1, Unit::Px), num(2, Unit::Px)]));
    assert_eq!(args, list(vec![num(1, Unit::Px), num(2, Unit::Px)], ListSeparator::Comma));
    assert_ne!(args, list(vec![num(1, Unit::Px), num(2, Unit::Px)], ListSeparator::Space));
    assert_eq!(list(vec![num(1, Unit::Px), num(2, Unit::Px)], ListSeparator::Comma), args);
    assert_ne!(list(vec![num(1, Unit::Px), num(2, Unit::Px)], ListSeparator::Space), args);
    assert_ne!(list(vec![num(1, Unit::Px)], ListSeparator::Comma), args);
}

#[test]
fn value_maps_equal_entry_by_entry() {
    let mut a = SassMap::new();
    a.insert(word("k"), num(1, Unit::In));
    a.insert(word("l"), num(2, Unit::Px));
    let mut b = SassMap::new();
    b.insert(quoted("k"), num(96, Unit::Px));
    b.insert(word("l"), num(2, Unit::Px));
    let mut c = SassMap::new();
    c.insert(word("l"), num(2, Unit::Px));
    c.insert(word("k"), num(1, Unit::In));
    assert_eq!(Value::Mapping(a.clone()), Value::Mapping(b));
    assert_ne!(Value::Mapping(a), Value::Mapping(c));
}

#[test]
fn value_clone_is_equal() {
    let mut m = SassMap::new();
    m.insert(word("k"), list(vec![num(1, Unit::In), Value::Null], ListSeparator::Slash));
    let values = vec![
        Value::Null,
        Value::Bool(true),
        num(3, Unit::Deg),
        quoted("q"),
        Value::Mapping(m),
        Value::ArgList(vec![word("a")]),
        Value::Function("f".to_string()),
    ];
    for v in &values {
        assert_eq!(&v.clone(), v);
    }
    assert_eq!(css(&values[3].clone()), "\"q\"");
}

#[test]
fn value_css_of_numbers() {
    assert_eq!(css(&num(50, Unit::Percent)), "50%");
    assert_eq!(css(&num(120, Unit::Deg)), "120deg");
    assert_eq!(css(&num(-3, Unit::Px)), "-3px");
    assert_eq!(css(&num(7, Unit::Unitless)), "7");
    assert_eq!(css(&Value::Dimension(Number::from_units(15_000_000_000), Unit::Em)), "1.5em");
}

#[test]
fn value_css_of_strings_and_booleans() {
    assert_eq!(css(&word("calc(1px + 2px)")), "calc(1px + 2px)");
    assert_eq!(css(&word("")), "");
    assert_eq!(css(&quoted("a b")), "\"a b\"");
    assert_eq!(css(&quoted("say \"hi\"")), "\"say \\\"hi\\\"\"");
    assert_eq!(css(&single_quoted("a b")), "'a b'");
    assert_eq!(css(&single_quoted("it's")), "'it\\'s'");
    assert_eq!(css(&single_quoted("say \"hi\"")), "'say \"hi\"'");
    assert_eq!(css(&Value::Bool(true)), "true");
    assert_eq!(css(&Value::Bool(false)), "false");
}

#[test]
fn value_css_of_colors() {
    let half = Number::from_units(5_000_000_000);
    let c = Color::from_hsla(Number::from(120), half, half, Number::one());
    assert_eq!(css(&Value::Color(c)), "#40bf40");
    let d = Color::from_hsla(Number::from(120), half, half, half);
    assert_eq!(css(&Value::Color(d)), "rgba(64, 191, 64, 0.5)");
}

#[test]
fn value_css_of_lists() {
    let items = || vec![num(1, Unit::Px), num(2, Unit::Px), word("solid")];
    assert_eq!(css(&list(items(), ListSeparator::Space)), "1px 2px solid");
    assert_eq!(css(&list(items(), ListSeparator::Comma)), "1px, 2px, solid");
    assert_eq!(css(&list(items(), ListSeparator::Slash)), "1px / 2px / solid");
    assert_eq!(
        css(&Value::List(items(), ListSeparator::Comma, Brackets::Bracketed)),
        "[1px, 2px, solid]"
    );
    assert_eq!(css(&Value::List(vec![], ListSeparator::Comma, Brackets::Bracketed)), "[]");
    assert_eq!(css(&list(vec![num(1, Unit::Px)], ListSeparator::Comma)), "1px");
    let nested = list(
        vec![list(items(), ListSeparator::Space), word("x")],
        ListSeparator::Comma,
    );
    assert_eq!(css(&nested), "1px 2px solid, x");
    assert_eq!(css(&Value::ArgList(items())), "1px, 2px, solid");
}

#[test]
fn value_css_refuses_what_css_cannot_hold() {
    assert_eq!(css_error(&Value::Null), "null isn't a valid CSS value.");
    assert_eq!(css_error(&Value::Mapping(SassMap::new())), "A map isn't a valid CSS value.");
    assert_eq!(
        css_error(&Value::Function("f".to_string())),
        "A function isn't a valid CSS value."
    );
    assert_eq!(css_error(&list(vec![], ListSeparator::Space)), "() isn't a valid CSS value.");
    assert_eq!(css_error(&Value::ArgList(vec![])), "() isn't a valid CSS value.");
}

#[test]
fn value_css_of_a_list_fails_as_its_first_bad_element() {
    let v = list(
        vec![num(1, Unit::Px), Value::Mapping(SassMap::new()), Value::Null],
        ListSeparator::Space,
    );
    assert_eq!(css_error(&v), "A map isn't a valid CSS value.");
    let w = list(
        vec![list(vec![Value::Null], ListSeparator::Space), Value::Function("f".to_string())],
        ListSeparator::Comma,
    );
    assert_eq!(css_error(&w), "null isn't a valid CSS value.");
}

#[test]
fn value_special_functions() {
    assert!(word("calc(1px + 2px)").is_special_function());
    assert!(word("var(--x)").is_special_function());
    assert!(word("env(safe)").is_special_function());
    assert!(word("min(1px, 2px)").is_special_function());
    assert!(word("max(1px, 2px)").is_special_function());
    assert!(word("calc(").is_special_function());
    assert!(!word("calc").is_special_function());
    assert!(!word("Calc(1px)").is_special_function());
    assert!(!word(" calc(1px)").is_special_function());
    assert!(!word("").is_special_function());
    assert!(!quoted("calc(1px)").is_special_function());
    assert!(!single_quoted("calc(1px)").is_special_function());
    assert!(!num(1, Unit::Px).is_special_function());
    assert!(!Value::Null.is_special_function());
}

#[test]
fn value_equality_does_not_depend_on_the_side() {
    let values = vec![
        Value::Null,
        Value::Bool(true),
        num(1, Unit::In),
        num(96, Unit::Px),
        word("a"),
        quoted("a"),
        list(vec![], ListSeparator::Comma),
        Value::List(vec![], ListSeparator::Comma, Brackets::Bracketed),
        Value::ArgList(vec![]),
        Value::ArgList(vec![num(1, Unit::In)]),
        list(vec![num(96, Unit::Px)], ListSeparator::Comma),
        Value::Mapping(SassMap::new()),
        Value::Function("f".to_string()),
    ];
    for a in &values {
        assert!(a.equals(a));
        for b in &values {
            assert_eq!(a.equals(b), b.equals(a), "{:?} and {:?}", a, b);
        }
    }
}
