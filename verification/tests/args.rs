use codemap::{CodeMap, Span};
use sass_core::args::{new_missing_argument, CallArg, CallArgs};
use sass_core::builtin::GlobalFunctionMap;
use sass_core::common::QuoteKind;
use sass_core::error::{ErrorKind, SassError};
use sass_core::parse::Parser;
use sass_core::unit::Unit;
use sass_core::value::number::Number;
use sass_core::value::Value;

fn span() -> Span {
    CodeMap::new().add_file("test.scss".to_string(), "a { b: c }".to_string()).span
}

fn num(n: i64) -> Value {
    Value::Dimension(Number::from(n), Unit::Unitless)
}

fn word(s: &str) -> Value {
    Value::String(s.to_string(), QuoteKind::Unquoted)
}

fn parser() -> Parser {
    Parser::new(GlobalFunctionMap::new())
}

#[test]
fn args_new_is_empty() {
    let a = CallArgs::new(span());
    assert!(a.is_empty());
    assert_eq!(a.len(), 0);
    assert_eq!(a.span(), span());
}

#[test]
fn args_from_positional_counts_from_zero() {
    let mut a = CallArgs::from_positional(vec![num(10), num(20), num(30)], span());
    assert_eq!(a.len(), 3);
    assert_eq!(a.take(1, "x"), Some(num(20)));
    assert_eq!(a.take(0, "x"), Some(num(10)));
    assert_eq!(a.take(2, "x"), Some(num(30)));
    assert!(a.is_empty());
}

#[test]
fn args_insert_overwrites_same_key() {
    let mut a = CallArgs::new(span());
    a.insert(CallArg::Positional(0), num(1));
    a.insert(CallArg::Named("x".to_string()), num(2));
    a.insert(CallArg::Positional(0), num(3));
    a.insert(CallArg::Named("x".to_string()), num(4));
    assert_eq!(a.len(), 2);
    assert_eq!(a.take(0, "none"), Some(num(3)));
    assert_eq!(a.take(9, "x"), Some(num(4)));
}

#[test]
fn args_binding_is_positional_first() {
    let mut p = parser();
    let mut a = CallArgs::new(span());
    a.insert(CallArg::Named("color".to_string()), word("named"));
    a.insert(CallArg::Positional(0), word("positional"));
    assert_eq!(p.arg(&mut a, 0, "color").unwrap(), word("positional"));
    assert_eq!(a.len(), 1);
    assert_eq!(p.arg(&mut a, 0, "color").unwrap(), word("named"));
    assert!(a.is_empty());
}

#[test]
fn args_bound_argument_is_consumed() {
    let mut p = parser();
    let mut a = CallArgs::from_positional(vec![num(1)], span());
    assert_eq!(p.arg(&mut a, 0, "x").unwrap(), num(1));
    let e = p.arg(&mut a, 0, "x").unwrap_err();
    assert_eq!(e.to_string(), "Missing argument $x.");
    assert_eq!(e.kind, ErrorKind::Arity);
    assert_eq!(e.span, span());
}

#[test]
fn args_missing_argument_names_the_parameter() {
    let mut p = parser();
    let mut a = CallArgs::new(span());
    a.insert(CallArg::Named("other".to_string()), num(1));
    let e = p.arg(&mut a, 0, "channels").unwrap_err();
    assert_eq!(e.to_string(), "Missing argument $channels.");
    assert_eq!(a.len(), 1);
    let made: SassError = new_missing_argument("weight", span());
    assert_eq!(made.to_string(), "Missing argument $weight.");
    assert_eq!(made.kind, ErrorKind::Arity);
}

#[test]
fn args_default_arg_falls_back() {
    let mut p = parser();
    let mut a = CallArgs::from_positional(vec![num(1)], span());
    assert_eq!(p.default_arg(&mut a, 1, "weight", num(100)).unwrap(), num(100));
    assert_eq!(a.len(), 1);
    assert_eq!(p.default_arg(&mut a, 0, "color", num(100)).unwrap(), num(1));
    assert!(a.is_empty());
    let mut b = CallArgs::new(span());
    b.insert(CallArg::Named("weight".to_string()), num(7));
    assert_eq!(p.default_arg(&mut b, 1, "weight", num(100)).unwrap(), num(7));
}

#[test]
fn args_max_args_reports_the_count() {
    let a = CallArgs::from_positional(vec![num(1), num(2), num(3)], span());
    assert!(a.max_args(3).is_ok());
    assert!(a.max_args(4).is_ok());
    let e = a.max_args(2).unwrap_err();
    assert_eq!(e.to_string(), "Only 2 arguments allowed, but 3 were passed.");
    assert_eq!(e.kind, ErrorKind::Arity);
    assert_eq!(e.span, span());
    let e = a.max_args(1).unwrap_err();
    assert_eq!(e.to_string(), "Only 1 argument allowed, but 3 were passed.");
    let e = a.max_args(0).unwrap_err();
    assert_eq!(e.to_string(), "Only 0 arguments allowed, but 3 were passed.");
    let b = CallArgs::from_positional(vec![num(1)], span());
    let e = b.max_args(0).unwrap_err();
    assert_eq!(e.to_string(), "Only 0 arguments allowed, but 1 was passed.");
}

#[test]
fn args_max_args_counts_named_arguments() {
    let mut a = CallArgs::from_positional(vec![num(1)], span());
    a.insert(CallArg::Named("x".to_string()), num(2));
    assert!(a.max_args(2).is_ok());
    let e = a.max_args(1).unwrap_err();
    assert_eq!(e.to_string(), "Only 1 argument allowed, but 2 were passed.");
}

#[test]
fn args_call_arg_equals() {
    assert!(CallArg::Positional(1).equals(&CallArg::Positional(1)));
    assert!(!CallArg::Positional(1).equals(&CallArg::Positional(2)));
    assert!(CallArg::Named("a".to_string()).equals(&CallArg::Named("a".to_string())));
    assert!(!CallArg::Named("a".to_string()).equals(&CallArg::Named("b".to_string())));
    assert!(!CallArg::Named("1".to_string()).equals(&CallArg::Positional(1)));
}
