use codemap::{CodeMap, Span};
use sass_core::args::{CallArg, CallArgs};
use sass_core::builtin::color::hsl::{
    adjust_hue, complement, darken, declare, desaturate, fraction, grayscale, hsl, hsla, hue,
    inner_hsl, invert, lighten, lightness, new_type_error, saturate, saturation,
};
use sass_core::builtin::{Builtin, GlobalFunctionMap};
use sass_core::color::Color;
use sass_core::common::{Brackets, ListSeparator, QuoteKind};
use sass_core::error::{ErrorKind, SassError, SassResult};
use sass_core::parse::Parser;
use sass_core::unit::Unit;
use sass_core::value::map::SassMap;
use sass_core::value::number::Number;
use sass_core::value::Value;

fn span() -> Span {
    CodeMap::new().add_file("test.scss".to_string(), "a { b: c }".to_string()).span
}

fn parser() -> Parser {
    Parser::new(GlobalFunctionMap::new())
}

fn num(n: i64, unit: Unit) -> Value {
    Value::Dimension(Number::from(n), unit)
}

fn plain(n: i64) -> Value {
    num(n, Unit::Unitless)
}

fn percent(n: i64) -> Value {
    num(n, Unit::Percent)
}

fn word(s: &str) -> Value {
    Value::String(s.to_string(), QuoteKind::Unquoted)
}

fn list(items: Vec<Value>) -> Value {
    Value::List(items, ListSeparator::Comma, Brackets::Bare)
}

fn args(values: Vec<Value>) -> CallArgs {
    CallArgs::from_positional(values, span())
}

fn named(pairs: Vec<(&str, Value)>) -> CallArgs {
    let mut a = CallArgs::new(span());
    for (name, value) in pairs {
        a.insert(CallArg::Named(name.to_string()), value);
    }
    a
}

fn green() -> Value {
    let half = Number::from_units(5_000_000_000);
    Value::Color(Color::from_hsla(Number::from(120), half, half, Number::one()))
}

fn color_of(r: SassResult<Value>) -> Color {
    match r.unwrap() {
        Value::Color(c) => c,
        other => panic!("not a color: {:?}", other),
    }
}

fn text_of(r: SassResult<Value>) -> String {
    match r.unwrap() {
        Value::String(s, QuoteKind::Unquoted) => s,
        other => panic!("not an unquoted string: {:?}", other),
    }
}

fn error_of(r: SassResult<Value>) -> SassError {
    let e = r.unwrap_err();
    assert_eq!(e.span, span());
    e
}

fn message_of(r: SassResult<Value>, kind: ErrorKind) -> String {
    let e = error_of(r);
    assert_eq!(e.kind, kind);
    e.to_string()
}

#[test]
fn hsl_positional_form() {
    let c = color_of(hsl(args(vec![plain(120), percent(50), percent(50)]), &mut parser()));
    assert_eq!(c.to_string(), "#40bf40");
    assert_eq!(c.hue(), Number::from(120));
    assert_eq!(c.saturation(), Number::from(50));
    assert_eq!(c.lightness(), Number::from(50));
    assert_eq!(c.alpha(), Number::one());
}

#[test]
fn hsl_list_form_equals_positional_form() {
    let a = named(vec![("channels", list(vec![plain(120), percent(50), percent(50)]))]);
    let from_list = hsl(a, &mut parser()).unwrap();
    let from_arguments = hsl(args(vec![plain(120), percent(50), percent(50)]), &mut parser())
        .unwrap();
    assert_eq!(from_list, from_arguments);
    assert_eq!(color_of(Ok(from_list)).to_string(), "#40bf40");
    let positional = hsl(args(vec![list(vec![plain(120), percent(50), percent(50)])]), &mut parser())
        .unwrap();
    assert_eq!(positional, from_arguments);
}

#[test]
fn hsl_round_trips_through_the_accessors() {
    for (h, s, l) in [(0, 0, 0), (359, 100, 100), (120, 50, 50), (17, 33, 81), (400, 1, 99)] {
        let c = hsl(args(vec![num(h, Unit::Deg), percent(s), percent(l)]), &mut parser()).unwrap();
        let got_h = hue(args(vec![c.clone()]), &mut parser()).unwrap();
        assert_eq!(got_h, num(h % 360, Unit::Deg));
        let got_s = saturation(args(vec![c.clone()]), &mut parser()).unwrap();
        assert_eq!(got_s, percent(s));
        let got_l = lightness(args(vec![c]), &mut parser()).unwrap();
        assert_eq!(got_l, percent(l));
    }
}

#[test]
fn hsl_round_trip_loses_at_most_the_last_two_decimal_places() {
    let s = Number::from_units(333_333_333_333);
    let c = hsl(
        args(vec![plain(10), Value::Dimension(s, Unit::Percent), percent(50)]),
        &mut parser(),
    )
    .unwrap();
    match saturation(args(vec![c]), &mut parser()).unwrap() {
        Value::Dimension(n, Unit::Percent) => assert_eq!(n, Number::from_units(333_333_333_300)),
        other => panic!("not a percentage: {:?}", other),
    }
}

#[test]
fn hsl_hue_is_within_the_circle() {
    for h in [-1, -360, -725, 360, 3600, 100000] {
        let c = hsl(args(vec![plain(h), percent(50), percent(50)]), &mut parser()).unwrap();
        match hue(args(vec![c]), &mut parser()).unwrap() {
            Value::Dimension(n, Unit::Deg) => {
                assert!(!n.is_negative());
                assert!(n.lt(&Number::from(360)));
                assert_eq!(n, Number::from(h.rem_euclid(360)));
            }
            other => panic!("not an angle: {:?}", other),
        }
    }
}

#[test]
fn hsl_special_function_as_hue_passes_through() {
    let r = hsl(
        args(vec![word("calc(1px + 2px)"), percent(50), percent(50)]),
        &mut parser(),
    );
    assert_eq!(text_of(r), "hsl(calc(1px + 2px), 50%, 50%)");
}

#[test]
fn hsl_special_function_at_each_place_passes_through() {
    let r = hsl(args(vec![num(120, Unit::Deg), word("var(--s)"), percent(50)]), &mut parser());
    assert_eq!(text_of(r), "hsl(120deg, var(--s), 50%)");
    let r = hsl(args(vec![plain(120), percent(40), word("env(l)")]), &mut parser());
    assert_eq!(text_of(r), "hsl(120, 40%, env(l))");
    let r = hsla(
        args(vec![plain(120), percent(40), percent(50), word("var(--a)")]),
        &mut parser(),
    );
    assert_eq!(text_of(r), "hsla(120, 40%, 50%, var(--a))");
}

#[test]
fn hsl_passthrough_writes_the_alpha_where_one_is_passed() {
    let r = hsla(
        args(vec![word("var(--h)"), percent(50), percent(50), Value::Dimension(Number::from_units(5_000_000_000), Unit::Unitless)]),
        &mut parser(),
    );
    assert_eq!(text_of(r), "hsla(var(--h), 50%, 50%, 0.5)");
    let r = hsl(
        args(vec![plain(1), word("min(1%, 2%)"), word("anything"), word("goes")]),
        &mut parser(),
    );
    assert_eq!(text_of(r), "hsl(1, min(1%, 2%), anything, goes)");
    let mut a = args(vec![word("max(1, 2)"), percent(50)]);
    a.insert(CallArg::Named("alpha".to_string()), percent(30));
    a.insert(CallArg::Named("lightness".to_string()), percent(20));
    assert_eq!(text_of(hsl(a, &mut parser())), "hsl(max(1, 2), 50%, 20%, 30%)");
}

#[test]
fn hsl_passthrough_needs_the_other_channels() {
    let r = hsl(args(vec![word("calc(1)"), percent(50)]), &mut parser());
    assert_eq!(message_of(r, ErrorKind::Arity), "Missing argument $lightness.");
    let mut a = args(vec![word("calc(1)"), percent(50), percent(50)]);
    a.insert(CallArg::Named("other".to_string()), plain(1));
    assert_eq!(message_of(hsl(a, &mut parser()), ErrorKind::Arity), "Missing argument $alpha.");
    let r = hsl(args(vec![word("calc(1)"), Value::Null, percent(50)]), &mut parser());
    assert_eq!(message_of(r, ErrorKind::Type), "null isn't a valid CSS value.");
}

#[test]
fn hsl_without_arguments_misses_channels() {
    let r = hsl(args(vec![]), &mut parser());
    assert_eq!(message_of(r, ErrorKind::Arity), "Missing argument $channels.");
    let r = hsla(CallArgs::new(span()), &mut parser());
    assert_eq!(message_of(r, ErrorKind::Arity), "Missing argument $channels.");
}

#[test]
fn hsl_one_argument_must_be_the_list() {
    let r = hsl(args(vec![plain(120)]), &mut parser());
    assert_eq!(message_of(r, ErrorKind::Arity), "Missing argument $channels.");
    let r = hsl(named(vec![("hue", list(vec![plain(1), plain(2), plain(3)]))]), &mut parser());
    assert_eq!(message_of(r, ErrorKind::Arity), "Missing argument $channels.");
}

#[test]
fn hsl_list_of_four_elements_fails() {
    let r = hsl(
        args(vec![list(vec![plain(120), percent(50), percent(50), plain(1)])]),
        &mut parser(),
    );
    assert_eq!(message_of(r, ErrorKind::Structure), "Only 3 elements allowed, but 4 were passed.");
}

#[test]
fn hsl_list_is_read_from_its_end() {
    let r = hsl(args(vec![list(vec![])]), &mut parser());
    assert_eq!(message_of(r, ErrorKind::Structure), "Missing element $lightness.");
    let r = hsl(args(vec![list(vec![percent(50)])]), &mut parser());
    assert_eq!(message_of(r, ErrorKind::Structure), "Missing element $saturation.");
    let r = hsl(args(vec![list(vec![percent(50), percent(50)])]), &mut parser());
    assert_eq!(message_of(r, ErrorKind::Structure), "Missing element $hue.");
    let r = hsl(args(vec![list(vec![word("a"), word("b"), word("c")])]), &mut parser());
    assert_eq!(message_of(r, ErrorKind::Type), "$lightness: c is not a number.");
    let r = hsl(args(vec![list(vec![word("a"), word("b"), percent(1)])]), &mut parser());
    assert_eq!(message_of(r, ErrorKind::Type), "$saturation: b is not a number.");
    let r = hsl(args(vec![list(vec![word("calc(1)"), percent(1), percent(1)])]), &mut parser());
    assert_eq!(message_of(r, ErrorKind::Type), "$hue: calc(1) is not a number.");
}

#[test]
fn hsl_channels_must_be_numbers() {
    let r = hsl(args(vec![word("red"), percent(50), percent(50)]), &mut parser());
    assert_eq!(message_of(r, ErrorKind::Type), "$hue: red is not a number.");
    let r = hsl(args(vec![plain(1), Value::Bool(true), percent(50)]), &mut parser());
    assert_eq!(message_of(r, ErrorKind::Type), "$saturation: true is not a number.");
    let r = hsl(args(vec![plain(1), percent(50), green()]), &mut parser());
    assert_eq!(message_of(r, ErrorKind::Type), "$lightness: #40bf40 is not a number.");
    let r = hsl(args(vec![plain(1), percent(50), percent(50), word("x")]), &mut parser());
    assert_eq!(message_of(r, ErrorKind::Type), "$alpha: x is not a number.");
    let r = hsl(args(vec![Value::Mapping(SassMap::new()), percent(50)]), &mut parser());
    assert_eq!(message_of(r, ErrorKind::Type), "A map isn't a valid CSS value.");
}

#[test]
fn hsl_channels_must_all_be_there() {
    let r = hsl(args(vec![plain(1), percent(50)]), &mut parser());
    assert_eq!(message_of(r, ErrorKind::Arity), "Missing argument $lightness.");
    let r = hsl(named(vec![("hue", plain(1)), ("lightness", percent(5))]), &mut parser());
    assert_eq!(message_of(r, ErrorKind::Arity), "Missing argument $saturation.");
    let r = hsl(
        named(vec![("saturation", plain(1)), ("lightness", percent(5))]),
        &mut parser(),
    );
    assert_eq!(message_of(r, ErrorKind::Arity), "Missing argument $hue.");
}

#[test]
fn hsl_named_arguments() {
    let a = named(vec![
        ("lightness", percent(50)),
        ("hue", plain(120)),
        ("saturation", percent(50)),
    ]);
    assert_eq!(color_of(hsl(a, &mut parser())).to_string(), "#40bf40");
}

#[test]
fn hsla_alpha_forms() {
    let half = Value::Dimension(Number::from_units(5_000_000_000), Unit::Unitless);
    let c = color_of(hsla(args(vec![plain(120), percent(50), percent(50), half]), &mut parser()));
    assert_eq!(c.to_string(), "rgba(64, 191, 64, 0.5)");
    let c = color_of(hsla(
        args(vec![plain(120), percent(50), percent(50), percent(50)]),
        &mut parser(),
    ));
    assert_eq!(c.alpha(), Number::from_units(5_000_000_000));
    let c = color_of(hsl(
        args(vec![plain(120), percent(50), percent(50), plain(3)]),
        &mut parser(),
    ));
    assert_eq!(c.alpha(), Number::one());
    let r = hsla(
        args(vec![plain(120), percent(50), percent(50), num(1, Unit::Px)]),
        &mut parser(),
    );
    assert_eq!(
        message_of(r, ErrorKind::Type),
        "$alpha: Expected 1px to have no units or \"%\"."
    );
}

#[test]
fn inner_hsl_writes_the_name_it_is_given() {
    let r = inner_hsl("hsla", args(vec![word("calc(1)"), plain(2), plain(3)]), &mut parser());
    assert_eq!(text_of(r), "hsla(calc(1), 2, 3)");
    let r = inner_hsl("hsl", args(vec![word("calc(1)"), plain(2), plain(3)]), &mut parser());
    assert_eq!(text_of(r), "hsl(calc(1), 2, 3)");
}

#[test]
fn hue_saturation_lightness_of_a_color() {
    assert_eq!(hue(args(vec![green()]), &mut parser()).unwrap(), num(120, Unit::Deg));
    assert_eq!(saturation(args(vec![green()]), &mut parser()).unwrap(), percent(50));
    assert_eq!(lightness(args(vec![green()]), &mut parser()).unwrap(), percent(50));
    assert_eq!(hue(named(vec![("color", green())]), &mut parser()).unwrap(), num(120, Unit::Deg));
}

#[test]
fn accessors_refuse_what_is_no_color() {
    let r = hue(args(vec![num(5, Unit::Px)]), &mut parser());
    assert_eq!(message_of(r, ErrorKind::Type), "$color: 5px is not a color.");
    let r = saturation(args(vec![word("red")]), &mut parser());
    assert_eq!(message_of(r, ErrorKind::Type), "$color: red is not a color.");
    let r = lightness(args(vec![Value::Null]), &mut parser());
    assert_eq!(message_of(r, ErrorKind::Type), "null isn't a valid CSS value.");
    let r = hue(args(vec![]), &mut parser());
    assert_eq!(message_of(r, ErrorKind::Arity), "Missing argument $color.");
    let r = hue(args(vec![green(), green()]), &mut parser());
    assert_eq!(
        message_of(r, ErrorKind::Arity),
        "Only 1 argument allowed, but 2 were passed."
    );
    let r = saturation(named(vec![("colour", green())]), &mut parser());
    assert_eq!(message_of(r, ErrorKind::Arity), "Missing argument $color.");
}

#[test]
fn adjust_hue_turns_the_hue() {
    let c = color_of(adjust_hue(args(vec![green(), num(60, Unit::Deg)]), &mut parser()));
    assert_eq!(c.hue(), Number::from(180));
    let c = color_of(adjust_hue(args(vec![green(), plain(-180)]), &mut parser()));
    assert_eq!(c.hue(), Number::from(300));
    let r = adjust_hue(args(vec![green(), word("x")]), &mut parser());
    assert_eq!(message_of(r, ErrorKind::Type), "$degrees: x is not a number.");
    let r = adjust_hue(args(vec![plain(1), plain(2)]), &mut parser());
    assert_eq!(message_of(r, ErrorKind::Type), "$color: 1 is not a color.");
    let r = adjust_hue(args(vec![green()]), &mut parser());
    assert_eq!(message_of(r, ErrorKind::Arity), "Missing argument $degrees.");
    let r = adjust_hue(args(vec![green(), plain(1), plain(2)]), &mut parser());
    assert_eq!(
        message_of(r, ErrorKind::Arity),
        "Only 2 arguments allowed, but 3 were passed."
    );
}

#[test]
fn lighten_and_darken_move_the_lightness() {
    let c = color_of(lighten(args(vec![green(), percent(20)]), &mut parser()));
    assert_eq!(c.lightness(), Number::from(70));
    let c = color_of(lighten(args(vec![green(), percent(100)]), &mut parser()));
    assert_eq!(c.lightness(), Number::from(100));
    let c = color_of(darken(args(vec![green(), percent(20)]), &mut parser()));
    assert_eq!(c.lightness(), Number::from(30));
    let c = color_of(darken(args(vec![green(), percent(0)]), &mut parser()));
    assert_eq!(c.lightness(), Number::from(50));
    let c = color_of(darken(named(vec![("amount", plain(50)), ("color", green())]), &mut parser()));
    assert_eq!(c.lightness(), Number::from(0));
}

#[test]
fn lighten_by_150_percent_is_out_of_range() {
    let e = error_of(lighten(args(vec![green(), percent(150)]), &mut parser()));
    assert_eq!(e.kind, ErrorKind::Range);
    assert_eq!(e.to_string(), "$amount: Expected 150% to be within 0% and 100%.");
}

#[test]
fn amounts_are_bounded() {
    let r = darken(args(vec![green(), plain(-1)]), &mut parser());
    assert_eq!(
        message_of(r, ErrorKind::Range),
        "$amount: Expected -1 to be within 0 and 100."
    );
    let just_over = Value::Dimension(Number::from_units(1_000_000_000_001), Unit::Px);
    let r = desaturate(args(vec![green(), just_over]), &mut parser());
    assert_eq!(
        message_of(r, ErrorKind::Range),
        "$amount: Expected 100.0000000001px to be within 0px and 100px."
    );
    let r = saturate(args(vec![green(), percent(101)]), &mut parser());
    assert_eq!(
        message_of(r, ErrorKind::Range),
        "$amount: Expected 101% to be within 0% and 100%."
    );
    let r = invert(args(vec![green(), percent(101)]), &mut parser());
    assert_eq!(
        message_of(r, ErrorKind::Range),
        "$weight: Expected 101% to be within 0% and 100%."
    );
    let r = lighten(args(vec![green(), word("much")]), &mut parser());
    assert_eq!(message_of(r, ErrorKind::Type), "$amount: much is not a number.");
    let r = lighten(args(vec![green()]), &mut parser());
    assert_eq!(message_of(r, ErrorKind::Arity), "Missing argument $amount.");
    let r = lighten(args(vec![word("x"), percent(500)]), &mut parser());
    assert_eq!(message_of(r, ErrorKind::Type), "$color: x is not a color.");
}

#[test]
fn fraction_of_a_percentage() {
    let f = fraction("amount", &percent(25), span()).unwrap();
    assert_eq!(f, Number::from_units(2_500_000_000));
    assert_eq!(fraction("amount", &percent(0), span()).unwrap(), Number::zero());
    assert_eq!(fraction("amount", &percent(100), span()).unwrap(), Number::one());
    let e = fraction("weight", &percent(-5), span()).unwrap_err();
    assert_eq!(e.kind, ErrorKind::Range);
    assert_eq!(e.to_string(), "$weight: Expected -5% to be within 0% and 100%.");
}

#[test]
fn type_error_echoes_the_value() {
    let e = new_type_error("color", &num(5, Unit::Px), "a color", span());
    assert_eq!(e.kind, ErrorKind::Type);
    assert_eq!(e.to_string(), "$color: 5px is not a color.");
    let e = new_type_error("x", &Value::String("q".to_string(), QuoteKind::Quoted), "a number", span());
    assert_eq!(e.to_string(), "$x: \"q\" is not a number.");
}

#[test]
fn saturate_and_desaturate_move_the_saturation() {
    let c = color_of(saturate(args(vec![green(), percent(20)]), &mut parser()));
    assert_eq!(c.saturation(), Number::from(70));
    let c = color_of(desaturate(args(vec![green(), percent(20)]), &mut parser()));
    assert_eq!(c.saturation(), Number::from(30));
    let c = color_of(desaturate(args(vec![green(), percent(100)]), &mut parser()));
    assert_eq!(c.saturation(), Number::from(0));
}

#[test]
fn saturate_as_the_css_function() {
    assert_eq!(text_of(saturate(args(vec![percent(50)]), &mut parser())), "saturate(50%)");
    assert_eq!(text_of(saturate(args(vec![word("var(--x)")]), &mut parser())), "saturate(var(--x))");
    assert_eq!(
        text_of(saturate(named(vec![("amount", plain(2))]), &mut parser())),
        "saturate(2)"
    );
    assert_eq!(
        text_of(saturate(args(vec![num(3, Unit::Px), percent(50)]), &mut parser())),
        "saturate(3px)"
    );
    let r = saturate(named(vec![("color", green())]), &mut parser());
    assert_eq!(message_of(r, ErrorKind::Arity), "Missing argument $amount.");
    let r = saturate(args(vec![Value::Null]), &mut parser());
    assert_eq!(message_of(r, ErrorKind::Type), "null isn't a valid CSS value.");
}

#[test]
fn saturate_binds_the_color_first() {
    let r = saturate(args(vec![word("foo"), percent(150)]), &mut parser());
    assert_eq!(message_of(r, ErrorKind::Type), "$color: foo is not a color.");
    let r = saturate(args(vec![word("x"), percent(50)]), &mut parser());
    assert_eq!(message_of(r, ErrorKind::Type), "$color: x is not a color.");
    let r = saturate(args(vec![green(), percent(150)]), &mut parser());
    assert_eq!(
        message_of(r, ErrorKind::Range),
        "$amount: Expected 150% to be within 0% and 100%."
    );
    let r = saturate(args(vec![num(3, Unit::Px), percent(150)]), &mut parser());
    assert_eq!(
        message_of(r, ErrorKind::Range),
        "$amount: Expected 150% to be within 0% and 100%."
    );
    let r = saturate(named(vec![("amount", percent(150)), ("other", green())]), &mut parser());
    assert_eq!(message_of(r, ErrorKind::Arity), "Missing argument $color.");
}

#[test]
fn invert_binds_the_color_first() {
    let r = invert(args(vec![word("foo"), percent(150)]), &mut parser());
    assert_eq!(message_of(r, ErrorKind::Type), "$color: foo is not a color.");
    let r = invert(args(vec![num(1, Unit::Px), percent(150)]), &mut parser());
    assert_eq!(
        message_of(r, ErrorKind::Arity),
        "Only one argument may be passed to the plain-CSS invert() function."
    );
    let r = invert(args(vec![green(), percent(150)]), &mut parser());
    assert_eq!(
        message_of(r, ErrorKind::Range),
        "$weight: Expected 150% to be within 0% and 100%."
    );
    let r = invert(args(vec![percent(30), percent(150)]), &mut parser());
    assert_eq!(
        message_of(r, ErrorKind::Range),
        "$weight: Expected 150% to be within 0% and 100%."
    );
    assert_eq!(text_of(invert(args(vec![percent(30), percent(50)]), &mut parser())), "invert(30%)");
    let r = invert(named(vec![("weight", percent(150))]), &mut parser());
    assert_eq!(message_of(r, ErrorKind::Arity), "Missing argument $color.");
}

#[test]
fn hsl_takes_at_most_four_arguments() {
    let five = vec![plain(0), percent(100), percent(50), plain(1), plain(1)];
    let r = hsl(args(five), &mut parser());
    assert_eq!(
        message_of(r, ErrorKind::Arity),
        "Only 4 arguments allowed, but 5 were passed."
    );
    let six = vec![word("calc(1)"), plain(1), plain(1), plain(1), plain(1), plain(1)];
    let r = hsla(args(six), &mut parser());
    assert_eq!(
        message_of(r, ErrorKind::Arity),
        "Only 4 arguments allowed, but 6 were passed."
    );
    let mut a = args(vec![plain(0), percent(100), percent(50), plain(1)]);
    a.insert(CallArg::Named("alpha".to_string()), plain(1));
    let r = inner_hsl("hsl", a, &mut parser());
    assert_eq!(
        message_of(r, ErrorKind::Arity),
        "Only 4 arguments allowed, but 5 were passed."
    );
    let four = vec![plain(0), percent(100), percent(50), plain(1)];
    assert_eq!(color_of(hsl(args(four), &mut parser())).to_string(), "#ff0000");
}

#[test]
fn grayscale_equals_desaturate_by_100_percent() {
    let a = grayscale(args(vec![green()]), &mut parser()).unwrap();
    let b = desaturate(args(vec![green(), percent(100)]), &mut parser()).unwrap();
    assert_eq!(a, b);
    let (a, b) = (color_of(Ok(a)), color_of(Ok(b)));
    assert_eq!(a.hue(), b.hue());
    assert_eq!(a.saturation(), Number::zero());
    assert_eq!(a.lightness(), b.lightness());
    assert_eq!(a.to_string(), "#808080");
}

#[test]
fn grayscale_as_the_css_function() {
    assert_eq!(text_of(grayscale(args(vec![percent(50)]), &mut parser())), "grayscale(50%)");
    assert_eq!(text_of(grayscale(args(vec![plain(1)]), &mut parser())), "grayscale(1)");
    let r = grayscale(args(vec![word("x")]), &mut parser());
    assert_eq!(message_of(r, ErrorKind::Type), "$color: x is not a color.");
    let r = grayscale(args(vec![green(), percent(1)]), &mut parser());
    assert_eq!(
        message_of(r, ErrorKind::Arity),
        "Only 1 argument allowed, but 2 were passed."
    );
}

#[test]
fn complement_equals_adjust_hue_by_180() {
    let a = complement(args(vec![green()]), &mut parser()).unwrap();
    let b = adjust_hue(args(vec![green(), num(180, Unit::Deg)]), &mut parser()).unwrap();
    assert_eq!(a, b);
    let (a, b) = (color_of(Ok(a)), color_of(Ok(b)));
    assert_eq!(a.hue(), Number::from(300));
    assert_eq!(a.hue(), b.hue());
    assert_eq!(a.saturation(), b.saturation());
    assert_eq!(a.lightness(), b.lightness());
    let r = complement(args(vec![plain(1)]), &mut parser());
    assert_eq!(message_of(r, ErrorKind::Type), "$color: 1 is not a color.");
}

#[test]
fn invert_twice_is_the_identity() {
    let once = invert(args(vec![green()]), &mut parser()).unwrap();
    assert_ne!(once, green());
    assert_eq!(color_of(Ok(once.clone())).to_string(), "#bf40bf");
    let twice = invert(args(vec![once]), &mut parser()).unwrap();
    assert_eq!(twice, green());
    let once = invert(args(vec![green(), percent(100)]), &mut parser()).unwrap();
    let twice = invert(args(vec![once, percent(100)]), &mut parser()).unwrap();
    assert_eq!(twice, green());
}

#[test]
fn invert_by_weight() {
    let c = color_of(invert(args(vec![green(), percent(0)]), &mut parser()));
    assert_eq!(Value::Color(c), green());
    assert_eq!(c.hue(), Number::from(120));
    let c = color_of(invert(args(vec![green(), percent(50)]), &mut parser()));
    assert_eq!(c.to_string(), "#808080");
    let c = color_of(invert(named(vec![("weight", percent(100)), ("color", green())]), &mut parser()));
    assert_eq!(c.to_string(), "#bf40bf");
}

#[test]
fn invert_as_the_css_function() {
    assert_eq!(text_of(invert(args(vec![percent(30)]), &mut parser())), "invert(30%)");
    let r = invert(args(vec![plain(1)]), &mut parser());
    assert_eq!(
        message_of(r, ErrorKind::Arity),
        "Only one argument may be passed to the plain-CSS invert() function."
    );
    let r = invert(args(vec![num(1, Unit::Px)]), &mut parser());
    assert_eq!(
        message_of(r, ErrorKind::Arity),
        "Only one argument may be passed to the plain-CSS invert() function."
    );
    let r = invert(args(vec![word("x")]), &mut parser());
    assert_eq!(message_of(r, ErrorKind::Type), "$color: x is not a color.");
    let r = invert(args(vec![green(), word("w")]), &mut parser());
    assert_eq!(message_of(r, ErrorKind::Type), "$weight: w is not a number.");
    let r = invert(args(vec![]), &mut parser());
    assert_eq!(message_of(r, ErrorKind::Arity), "Missing argument $color.");
}

#[test]
fn declare_registers_every_function() {
    let mut f = GlobalFunctionMap::new();
    assert_eq!(f.get("hsl"), None);
    declare(&mut f);
    let all = [
        ("hsl", Builtin::Hsl),
        ("hsla", Builtin::Hsla),
        ("hue", Builtin::Hue),
        ("saturation", Builtin::Saturation),
        ("adjust-hue", Builtin::AdjustHue),
        ("lightness", Builtin::Lightness),
        ("lighten", Builtin::Lighten),
        ("darken", Builtin::Darken),
        ("saturate", Builtin::Saturate),
        ("desaturate", Builtin::Desaturate),
        ("grayscale", Builtin::Grayscale),
        ("complement", Builtin::Complement),
        ("invert", Builtin::Invert),
    ];
    for (name, function) in all {
        assert_eq!(f.get(name), Some(function));
    }
    assert_eq!(f.get("adjust_hue"), None);
    assert_eq!(f.get("rgb"), None);
    assert_eq!(f.get(""), None);
}

#[test]
fn registry_insert_replaces() {
    let mut f = GlobalFunctionMap::new();
    f.insert("x", Builtin::Hue);
    assert_eq!(f.get("x"), Some(Builtin::Hue));
    f.insert("x", Builtin::Invert);
    assert_eq!(f.get("x"), Some(Builtin::Invert));
}

#[test]
fn builtin_call_dispatches() {
    let mut p = parser();
    assert_eq!(Builtin::Hue.call(args(vec![green()]), &mut p).unwrap(), num(120, Unit::Deg));
    assert_eq!(Builtin::Saturation.call(args(vec![green()]), &mut p).unwrap(), percent(50));
    assert_eq!(Builtin::Lightness.call(args(vec![green()]), &mut p).unwrap(), percent(50));
    let made = Builtin::Hsl.call(args(vec![plain(120), percent(50), percent(50)]), &mut p);
    assert_eq!(made.unwrap(), green());
    let r = Builtin::Hsla.call(args(vec![word("calc(1)"), plain(2), plain(3)]), &mut p);
    assert_eq!(text_of(r), "hsla(calc(1), 2, 3)");
    let c = color_of(Builtin::AdjustHue.call(args(vec![green(), plain(10)]), &mut p));
    assert_eq!(c.hue(), Number::from(130));
    let c = color_of(Builtin::Lighten.call(args(vec![green(), percent(10)]), &mut p));
    assert_eq!(c.lightness(), Number::from(60));
    let c = color_of(Builtin::Darken.call(args(vec![green(), percent(10)]), &mut p));
    assert_eq!(c.lightness(), Number::from(40));
    let c = color_of(Builtin::Saturate.call(args(vec![green(), percent(10)]), &mut p));
    assert_eq!(c.saturation(), Number::from(60));
    let c = color_of(Builtin::Desaturate.call(args(vec![green(), percent(10)]), &mut p));
    assert_eq!(c.saturation(), Number::from(40));
    let c = color_of(Builtin::Grayscale.call(args(vec![green()]), &mut p));
    assert_eq!(c.saturation(), Number::zero());
    let c = color_of(Builtin::Complement.call(args(vec![green()]), &mut p));
    assert_eq!(c.hue(), Number::from(300));
    let c = color_of(Builtin::Invert.call(args(vec![green()]), &mut p));
    assert_eq!(c.to_string(), "#bf40bf");
}

#[test]
fn parser_calls_by_name() {
    let mut f = GlobalFunctionMap::new();
    declare(&mut f);
    let mut p = Parser::new(f);
    let r = p.call("adjust-hue", args(vec![green(), plain(60)])).unwrap();
    assert_eq!(color_of(r).hue(), Number::from(180));
    let r = p.call("lighten", args(vec![green(), percent(150)])).unwrap();
    assert_eq!(error_of(r).kind, ErrorKind::Range);
    assert!(p.call("my-own-function", args(vec![green()])).is_none());
    assert!(p.call("HSL", args(vec![])).is_none());
    assert!(parser().call("hsl", args(vec![])).is_none());
}
