//! The built-in functions on hue, saturation and lightness.

use crate::args::{
    bound, index_from, missing_argument, named, new_missing_argument, positional,
    too_many_arguments, CallArgs, CallArgsView,
};
use crate::builtin::{Builtin, GlobalFunctionMap};
use crate::color::{
    hsla_view, hue_adjusted, inverted, lemma_invert_twice, lightened, same_color, saturated, valid,
    Color, ColorView,
};
use crate::common::{Brackets, ListSeparator, QuoteKind};
use crate::error::{ErrorKind, ErrorView, SassError, SassResult};
use crate::parse::Parser;
use crate::text::{append_nat, nat_text};
use crate::unit::Unit;
use crate::value::number::{number_text, scale, trunc_div, Number};
use crate::value::{css_text, is_special, join_css, joined_text, values_view, Value, ValueView};
use codemap::Span;
use vstd::prelude::*;

verus! {

/// What a built-in function gives, in mathematical terms.
pub type Outcome = Result<ValueView, ErrorView>;

/// The mathematical content of the result of a built-in function.
pub open spec fn result_view(r: SassResult<Value>) -> Outcome {
    match r {
        Ok(v) => Ok(v@),
        Err(e) => Err(e@),
    }
}

/// The error for a value `v` that was passed for the parameter `name` and is
/// not `what` the parameter takes. It shows the value as CSS writes it; where
/// CSS cannot hold the value, that is the error.
pub open spec fn type_error(name: Seq<char>, v: ValueView, what: Seq<char>, span: Span) -> ErrorView {
    match css_text(v) {
        Ok(t) => ErrorView {
            kind: ErrorKind::Type,
            message: "$"@ + name + ": "@ + t + " is not "@ + what + "."@,
            span,
        },
        Err(m) => ErrorView { kind: ErrorKind::Type, message: m, span },
    }
}

/// The error for a number `n` with unit `u` that was passed for the parameter
/// `name` and does not lie between `low` and `high`.
pub open spec fn range_error(name: Seq<char>, n: int, u: Unit, low: nat, high: nat, span: Span) -> ErrorView {
    ErrorView {
        kind: ErrorKind::Range,
        message: "$"@ + name + ": Expected "@ + number_text(n) + u.text() + " to be within "@
            + nat_text(low) + u.text() + " and "@ + nat_text(high) + u.text() + "."@,
        span,
    }
}

/// Binding the parameter `name` at `position` to a percentage between 0 and
/// 100: the fraction that it stands for, and the arguments that are left.
pub open spec fn fraction_bound(a: CallArgsView, position: nat, name: Seq<char>) -> Result<
    (int, CallArgsView),
    ErrorView,
> {
    match bound(a, position, name) {
        None => Err(missing_argument(name, a.span)),
        Some((v, rest)) => match fraction_of(name, v, a.span) {
            Ok(n) => Ok((n, rest)),
            Err(e) => Err(e),
        },
    }
}

/// The fraction that the value `v`, passed for the parameter `name`, stands
/// for as a percentage between 0 and 100.
pub open spec fn fraction_of(name: Seq<char>, v: ValueView, span: Span) -> Result<int, ErrorView> {
    match v {
        ValueView::Dimension(n, u) => if 0 <= n <= 100 * scale() {
            Ok(trunc_div(n, 100))
        } else {
            Err(range_error(name, n, u, 0, 100, span))
        },
        _ => Err(type_error(name, v, "a number"@, span)),
    }
}

/// What `hue`, `saturation` and `lightness` give: the channel that `channel`
/// picks of the color passed as `$color`.
pub open spec fn channel_result(a: CallArgsView, channel: spec_fn(ColorView) -> ValueView) -> Outcome {
    if a.entries.len() > 1 {
        Err(too_many_arguments(1, a.entries.len(), a.span))
    } else {
        match bound(a, 0, "color"@) {
            None => Err(missing_argument("color"@, a.span)),
            Some((ValueView::Color(c), _)) => Ok(channel(c)),
            Some((v, _)) => Err(type_error("color"@, v, "a color"@, a.span)),
        }
    }
}

/// What `hue` gives: the hue of the color, in degrees.
pub open spec fn hue_result(a: CallArgsView) -> Outcome {
    channel_result(a, |c: ColorView| ValueView::Dimension(c.hue, Unit::Deg))
}

/// What `saturation` gives: the saturation of the color, as a percentage.
pub open spec fn saturation_result(a: CallArgsView) -> Outcome {
    channel_result(a, |c: ColorView| ValueView::Dimension(c.saturation * 100, Unit::Percent))
}

/// What `lightness` gives: the lightness of the color, as a percentage.
pub open spec fn lightness_result(a: CallArgsView) -> Outcome {
    channel_result(a, |c: ColorView| ValueView::Dimension(c.lightness * 100, Unit::Percent))
}

/// What `adjust-hue` gives: the color passed as `$color` with its hue turned
/// by the number passed as `$degrees`, whatever its unit.
pub open spec fn adjust_hue_result(a: CallArgsView) -> Outcome {
    if a.entries.len() > 2 {
        Err(too_many_arguments(2, a.entries.len(), a.span))
    } else {
        match bound(a, 0, "color"@) {
            None => Err(missing_argument("color"@, a.span)),
            Some((ValueView::Color(c), rest)) => match bound(rest, 1, "degrees"@) {
                None => Err(missing_argument("degrees"@, a.span)),
                Some((ValueView::Dimension(n, _), _)) => Ok(ValueView::Color(hue_adjusted(c, n))),
                Some((v, _)) => Err(type_error("degrees"@, v, "a number"@, a.span)),
            },
            Some((v, _)) => Err(type_error("color"@, v, "a color"@, a.span)),
        }
    }
}

/// What `lighten`, `darken` and `desaturate` give: the color passed as
/// `$color`, changed by `change` with the fraction passed as `$amount`.
pub open spec fn amount_result(a: CallArgsView, change: spec_fn(ColorView, int) -> ColorView) -> Outcome {
    if a.entries.len() > 2 {
        Err(too_many_arguments(2, a.entries.len(), a.span))
    } else {
        match bound(a, 0, "color"@) {
            None => Err(missing_argument("color"@, a.span)),
            Some((ValueView::Color(c), rest)) => match fraction_bound(rest, 1, "amount"@) {
                Ok((amount, _)) => Ok(ValueView::Color(change(c, amount))),
                Err(e) => Err(e),
            },
            Some((v, _)) => Err(type_error("color"@, v, "a color"@, a.span)),
        }
    }
}

/// What `lighten` gives: the color with the amount added to its lightness.
pub open spec fn lighten_result(a: CallArgsView) -> Outcome {
    amount_result(a, |c: ColorView, amount: int| lightened(c, amount))
}

/// What `darken` gives: the color with the amount taken from its lightness.
pub open spec fn darken_result(a: CallArgsView) -> Outcome {
    amount_result(a, |c: ColorView, amount: int| lightened(c, -amount))
}

/// What `desaturate` gives: the color with the amount taken from its
/// saturation.
pub open spec fn desaturate_result(a: CallArgsView) -> Outcome {
    amount_result(a, |c: ColorView, amount: int| saturated(c, -amount))
}

/// The unquoted string that stands for a call of the CSS function `name`
/// with the one argument `argument`.
pub open spec fn plain_call(name: Seq<char>, argument: Seq<char>) -> ValueView {
    ValueView::String(name + "("@ + argument + ")"@, QuoteKind::Unquoted)
}

/// What `saturate` gives. With one argument it is the CSS function of that
/// name, and the argument is its amount. Else `$color` is bound, then
/// `$amount`, a percentage between 0 and 100: a color gains that fraction in
/// saturation; for a number in place of the color the result is the CSS
/// function of that name, of that number.
pub open spec fn saturate_result(a: CallArgsView) -> Outcome {
    if a.entries.len() > 2 {
        Err(too_many_arguments(2, a.entries.len(), a.span))
    } else if a.entries.len() == 1 {
        match bound(a, 0, "amount"@) {
            None => Err(missing_argument("amount"@, a.span)),
            Some((v, _)) => match css_text(v) {
                Ok(t) => Ok(plain_call("saturate"@, t)),
                Err(m) => Err(ErrorView { kind: ErrorKind::Type, message: m, span: a.span }),
            },
        }
    } else {
        match bound(a, 0, "color"@) {
            None => Err(missing_argument("color"@, a.span)),
            Some((ValueView::Color(c), rest)) => match fraction_bound(rest, 1, "amount"@) {
                Ok((amount, _)) => Ok(ValueView::Color(saturated(c, amount))),
                Err(e) => Err(e),
            },
            Some((ValueView::Dimension(n, u), rest)) => match fraction_bound(rest, 1, "amount"@) {
                Ok(_) => Ok(plain_call("saturate"@, number_text(n) + u.text())),
                Err(e) => Err(e),
            },
            Some((v, _)) => Err(type_error("color"@, v, "a color"@, a.span)),
        }
    }
}

/// What `grayscale` gives: the color passed as `$color` without any
/// saturation; for a number, the CSS function of that name.
pub open spec fn grayscale_result(a: CallArgsView) -> Outcome {
    if a.entries.len() > 1 {
        Err(too_many_arguments(1, a.entries.len(), a.span))
    } else {
        match bound(a, 0, "color"@) {
            None => Err(missing_argument("color"@, a.span)),
            Some((ValueView::Color(c), _)) => Ok(ValueView::Color(saturated(c, -scale()))),
            Some((ValueView::Dimension(n, u), _)) => Ok(
                plain_call("grayscale"@, number_text(n) + u.text()),
            ),
            Some((v, _)) => Err(type_error("color"@, v, "a color"@, a.span)),
        }
    }
}

/// What `complement` gives: the color passed as `$color` with its hue turned
/// by half a circle.
pub open spec fn complement_result(a: CallArgsView) -> Outcome {
    if a.entries.len() > 1 {
        Err(too_many_arguments(1, a.entries.len(), a.span))
    } else {
        match bound(a, 0, "color"@) {
            None => Err(missing_argument("color"@, a.span)),
            Some((ValueView::Color(c), _)) => Ok(ValueView::Color(hue_adjusted(c, 180 * scale()))),
            Some((v, _)) => Err(type_error("color"@, v, "a color"@, a.span)),
        }
    }
}

/// The error for a number other than a percentage in place of the color of
/// `invert`.
pub open spec fn plain_invert_error(span: Span) -> ErrorView {
    ErrorView {
        kind: ErrorKind::Arity,
        message: "Only one argument may be passed to the plain-CSS invert() function."@,
        span,
    }
}

/// Binding the weight of `invert`, a percentage between 0 and 100: the
/// fraction that it stands for, which is all where none is passed.
pub open spec fn weight_bound(a: CallArgsView) -> Result<int, ErrorView> {
    match bound(a, 1, "weight"@) {
        None => Ok(scale()),
        Some((v, _)) => fraction_of("weight"@, v, a.span),
    }
}

/// What `invert` gives. `$color` is bound, then `$weight`. A color is mixed
/// with its inverse by that weight; for a percentage in place of the color
/// the result is the CSS function of that name, of that percentage; any
/// other number in place of the color is an error, whatever the weight.
pub open spec fn invert_result(a: CallArgsView) -> Outcome {
    if a.entries.len() > 2 {
        Err(too_many_arguments(2, a.entries.len(), a.span))
    } else {
        match bound(a, 0, "color"@) {
            None => Err(missing_argument("color"@, a.span)),
            Some((ValueView::Color(c), rest)) => match weight_bound(rest) {
                Ok(w) => Ok(ValueView::Color(inverted(c, w))),
                Err(e) => Err(e),
            },
            Some((ValueView::Dimension(n, Unit::Percent), rest)) => match weight_bound(rest) {
                Ok(_) => Ok(plain_call("invert"@, number_text(n) + "%"@)),
                Err(e) => Err(e),
            },
            Some((ValueView::Dimension(_, _), _)) => Err(plain_invert_error(a.span)),
            Some((v, _)) => Err(type_error("color"@, v, "a color"@, a.span)),
        }
    }
}

/// The parameters of `hsl` and `hsla`, in order.
pub open spec fn channel_name(i: int) -> Seq<char> {
    if i == 0 {
        "hue"@
    } else if i == 1 {
        "saturation"@
    } else if i == 2 {
        "lightness"@
    } else {
        "alpha"@
    }
}

/// The error for a list of channels that lacks the element for `name`.
pub open spec fn missing_element(name: Seq<char>, span: Span) -> ErrorView {
    ErrorView { kind: ErrorKind::Structure, message: "Missing element $"@ + name + "."@, span }
}

/// The error for a list of `len` channels, where `len` is more than three.
pub open spec fn too_many_elements(len: nat, span: Span) -> ErrorView {
    ErrorView {
        kind: ErrorKind::Structure,
        message: "Only 3 elements allowed, but "@ + nat_text(len) + " were passed."@,
        span,
    }
}

/// The error for an alpha channel with a unit other than the percent sign.
pub open spec fn alpha_unit_error(n: int, u: Unit, span: Span) -> ErrorView {
    ErrorView {
        kind: ErrorKind::Type,
        message: "$alpha: Expected "@ + number_text(n) + u.text() + " to have no units or \"%\"."@,
        span,
    }
}

/// The error at `span` for a value that CSS cannot hold, for the reason `m`.
pub open spec fn css_error(m: Seq<char>, span: Span) -> ErrorView {
    ErrorView { kind: ErrorKind::Type, message: m, span }
}

/// The number at `i` in a list of channels, as the channel `name`. A place
/// before the start of the list stands for an element that the list lacks.
pub open spec fn element_number(items: Seq<ValueView>, i: int, name: Seq<char>, span: Span) -> Result<
    int,
    ErrorView,
> {
    if i < 0 || i >= items.len() {
        Err(missing_element(name, span))
    } else {
        match items[i] {
            ValueView::Dimension(n, _) => Ok(n),
            v => Err(type_error(name, v, "a number"@, span)),
        }
    }
}

/// The color with hue `h`, and with saturation `s`, lightness `l` and alpha
/// `a` as fractions.
pub open spec fn hsla_value(h: int, s: int, l: int, a: int) -> ValueView {
    ValueView::Color(hsla_view(h, s, l, a))
}

/// What `hsl` and `hsla` give for one argument: it is the list of the
/// channels, and they are read from its end: the last element is the
/// lightness, the one before it the saturation, the one before that the hue.
/// Saturation and lightness are percentages. The color is opaque.
pub open spec fn channels_result(a: CallArgsView) -> Outcome {
    match bound(a, 0, "channels"@) {
        Some((ValueView::List(items, _, _), _)) => if items.len() > 3 {
            Err(too_many_elements(items.len(), a.span))
        } else {
            match element_number(items, items.len() - 1, "lightness"@, a.span) {
                Err(e) => Err(e),
                Ok(l) => match element_number(items, items.len() - 2, "saturation"@, a.span) {
                    Err(e) => Err(e),
                    Ok(s) => match element_number(items, items.len() - 3, "hue"@, a.span) {
                        Err(e) => Err(e),
                        Ok(h) => Ok(
                            hsla_value(h, trunc_div(s, 100), trunc_div(l, 100), scale()),
                        ),
                    },
                },
            }
        },
        _ => Err(missing_argument("channels"@, a.span)),
    }
}

/// The call of `name` written out again, because one of its arguments is a
/// call of a CSS function that has to reach the output as it is. `seen` holds
/// the arguments bound so far, hue first, and `a` those that are left. Hue,
/// saturation and lightness are bound first; then the three are written as
/// CSS writes them; then the alpha is bound and written, where an argument
/// is left for it.
pub open spec fn passthrough_result(name: Seq<char>, seen: Seq<ValueView>, a: CallArgsView) -> Outcome
    decreases 3 - seen.len(),
{
    if seen.len() < 3 {
        match bound(a, seen.len(), channel_name(seen.len() as int)) {
            None => Err(missing_argument(channel_name(seen.len() as int), a.span)),
            Some((v, rest)) => passthrough_result(name, seen.push(v), rest),
        }
    } else {
        match joined_text(seen, ", "@) {
            Err(m) => Err(css_error(m, a.span)),
            Ok(t) => if a.entries.len() == 0 {
                Ok(plain_call(name, t))
            } else {
                match bound(a, 3, "alpha"@) {
                    None => Err(missing_argument("alpha"@, a.span)),
                    Some((v, _)) => match css_text(v) {
                        Err(m) => Err(css_error(m, a.span)),
                        Ok(alpha) => Ok(plain_call(name, t + ", "@ + alpha)),
                    },
                }
            },
        }
    }
}

/// What `hsl` and `hsla` give for the alpha channel `v`, once hue, saturation
/// and lightness are bound to the numbers `seen`.
pub open spec fn alpha_result(name: Seq<char>, seen: Seq<ValueView>, v: ValueView, span: Span) -> Outcome {
    let h = seen[0]->Dimension_0;
    let s = trunc_div(seen[1]->Dimension_0, 100);
    let l = trunc_div(seen[2]->Dimension_0, 100);
    match v {
        ValueView::Dimension(n, Unit::Unitless) => Ok(hsla_value(h, s, l, n)),
        ValueView::Dimension(n, Unit::Percent) => Ok(hsla_value(h, s, l, trunc_div(n, 100))),
        ValueView::Dimension(n, u) => Err(alpha_unit_error(n, u, span)),
        _ => if is_special(v) {
            match joined_text(seen.push(v), ", "@) {
                Ok(t) => Ok(plain_call(name, t)),
                Err(m) => Err(css_error(m, span)),
            }
        } else {
            Err(type_error("alpha"@, v, "a number"@, span))
        },
    }
}

/// What `hsl` and `hsla` give for more than one argument. Hue, saturation,
/// lightness and alpha are bound in that order, and `seen` holds those bound
/// so far, all numbers. Of a number only the magnitude counts, whatever its
/// unit; saturation and lightness are percentages. The alpha is 1 where none
/// is passed. The first argument that is a call of a CSS function that has
/// to reach the output as it is turns the whole call into a string; any other
/// value that is not a number is an error.
pub open spec fn positional_result(name: Seq<char>, seen: Seq<ValueView>, a: CallArgsView) -> Outcome
    decreases 3 - seen.len(),
{
    if seen.len() < 3 {
        match bound(a, seen.len(), channel_name(seen.len() as int)) {
            None => Err(missing_argument(channel_name(seen.len() as int), a.span)),
            Some((v, rest)) => if v is Dimension {
                positional_result(name, seen.push(v), rest)
            } else if is_special(v) {
                passthrough_result(name, seen.push(v), rest)
            } else {
                Err(type_error(channel_name(seen.len() as int), v, "a number"@, a.span))
            },
        }
    } else {
        match bound(a, 3, "alpha"@) {
            None => alpha_result(name, seen, ValueView::Dimension(scale(), Unit::Unitless), a.span),
            Some((v, _)) => alpha_result(name, seen, v, a.span),
        }
    }
}

/// What `hsl` and `hsla` give, `name` being the one that is called. A call
/// passes at most four arguments. One argument is the list of the channels;
/// more are the channels themselves.
pub open spec fn hsl_result(name: Seq<char>, a: CallArgsView) -> Outcome {
    if a.entries.len() > 4 {
        Err(too_many_arguments(4, a.entries.len(), a.span))
    } else if a.entries.len() == 0 {
        Err(missing_argument("channels"@, a.span))
    } else if a.entries.len() == 1 {
        channels_result(a)
    } else {
        positional_result(name, Seq::empty(), a)
    }
}

/// The error for a value that was passed for the parameter `name` and is not
/// `what` the parameter takes.
pub fn new_type_error(name: &str, v: &Value, what: &str, span: Span) -> (e: SassError)
    ensures
        e@ == type_error(name@, v@, what@, span),
{
    match v.to_css_string(span) {
        Ok(t) => {
            let mut message = String::from_str("$");
            message.append(name);
            message.append(": ");
            message.append(t.as_str());
            message.append(" is not ");
            message.append(what);
            message.append(".");
            SassError::new(ErrorKind::Type, message, span)
        },
        Err(e) => e,
    }
}

/// The fraction that a value passed for the parameter `name` stands for as a
/// percentage between 0 and 100.
pub fn fraction(name: &str, v: &Value, span: Span) -> (r: SassResult<Number>)
    ensures
        match fraction_of(name@, v@, span) {
            Ok(n) => r matches Ok(x) && x@ == n,
            Err(e) => r matches Err(x) && x@ == e,
        },
{
    match v {
        Value::Dimension(n, u) => {
            if n.gt(&Number::from(100)) || n.lt(&Number::from(0)) {
                let mut message = String::from_str("$");
                message.append(name);
                message.append(": Expected ");
                message.append(n.to_string().as_str());
                message.append(u.as_str());
                message.append(" to be within ");
                append_nat(&mut message, 0);
                message.append(u.as_str());
                message.append(" and ");
                append_nat(&mut message, 100);
                message.append(u.as_str());
                message.append(".");
                Err(SassError::new(ErrorKind::Range, message, span))
            } else {
                Ok(n.hundredth())
            }
        },
        _ => Err(new_type_error(name, v, "a number", span)),
    }
}

/// The unquoted string that stands for a call of the CSS function `name`
/// with the one argument `argument`.
fn new_plain_call(name: &str, argument: &str) -> (v: Value)
    ensures
        v@ == plain_call(name@, argument@),
{
    let mut text = String::from_str(name);
    text.append("(");
    text.append(argument);
    text.append(")");
    Value::String(text, QuoteKind::Unquoted)
}

/// The hue of a color, in degrees.
pub fn hue(args: CallArgs, parser: &mut Parser) -> (r: SassResult<Value>)
    ensures
        *final(parser) == *old(parser),
        result_view(r) == hue_result(args@),
        r matches Ok(Value::Dimension(n, _)) ==> 0 <= n@ < 360 * scale(),
{
    let mut args = args;
    args.max_args(1)?;
    match parser.arg(&mut args, 0, "color")? {
        Value::Color(c) => Ok(Value::Dimension(c.hue(), Unit::Deg)),
        v => Err(new_type_error("color", &v, "a color", args.span())),
    }
}

/// The saturation of a color, as a percentage.
pub fn saturation(args: CallArgs, parser: &mut Parser) -> (r: SassResult<Value>)
    ensures
        *final(parser) == *old(parser),
        result_view(r) == saturation_result(args@),
{
    let mut args = args;
    args.max_args(1)?;
    match parser.arg(&mut args, 0, "color")? {
        Value::Color(c) => Ok(Value::Dimension(c.saturation(), Unit::Percent)),
        v => Err(new_type_error("color", &v, "a color", args.span())),
    }
}

/// The lightness of a color, as a percentage.
pub fn lightness(args: CallArgs, parser: &mut Parser) -> (r: SassResult<Value>)
    ensures
        *final(parser) == *old(parser),
        result_view(r) == lightness_result(args@),
{
    let mut args = args;
    args.max_args(1)?;
    match parser.arg(&mut args, 0, "color")? {
        Value::Color(c) => Ok(Value::Dimension(c.lightness(), Unit::Percent)),
        v => Err(new_type_error("color", &v, "a color", args.span())),
    }
}

/// A color with its hue turned by a number of degrees.
pub fn adjust_hue(args: CallArgs, parser: &mut Parser) -> (r: SassResult<Value>)
    ensures
        *final(parser) == *old(parser),
        result_view(r) == adjust_hue_result(args@),
{
    let mut args = args;
    args.max_args(2)?;
    let color = match parser.arg(&mut args, 0, "color")? {
        Value::Color(c) => c,
        v => {
            return Err(new_type_error("color", &v, "a color", args.span()));
        },
    };
    let degrees = match parser.arg(&mut args, 1, "degrees")? {
        Value::Dimension(n, _) => n,
        v => {
            return Err(new_type_error("degrees", &v, "a number", args.span()));
        },
    };
    Ok(Value::Color(color.adjust_hue(degrees)))
}

/// A color made lighter by a percentage of the whole range.
pub fn lighten(args: CallArgs, parser: &mut Parser) -> (r: SassResult<Value>)
    ensures
        *final(parser) == *old(parser),
        result_view(r) == lighten_result(args@),
{
    let mut args = args;
    args.max_args(2)?;
    let color = match parser.arg(&mut args, 0, "color")? {
        Value::Color(c) => c,
        v => {
            return Err(new_type_error("color", &v, "a color", args.span()));
        },
    };
    let amount = fraction("amount", &parser.arg(&mut args, 1, "amount")?, args.span())?;
    Ok(Value::Color(color.lighten(amount)))
}

/// A color made darker by a percentage of the whole range.
pub fn darken(args: CallArgs, parser: &mut Parser) -> (r: SassResult<Value>)
    ensures
        *final(parser) == *old(parser),
        result_view(r) == darken_result(args@),
{
    let mut args = args;
    args.max_args(2)?;
    let color = match parser.arg(&mut args, 0, "color")? {
        Value::Color(c) => c,
        v => {
            return Err(new_type_error("color", &v, "a color", args.span()));
        },
    };
    let amount = fraction("amount", &parser.arg(&mut args, 1, "amount")?, args.span())?;
    Ok(Value::Color(color.darken(amount)))
}

/// A color made more saturated by a percentage of the whole range; with one
/// argument, or with a number in place of the color, the CSS function of the
/// same name.
pub fn saturate(args: CallArgs, parser: &mut Parser) -> (r: SassResult<Value>)
    ensures
        *final(parser) == *old(parser),
        result_view(r) == saturate_result(args@),
{
    let mut args = args;
    args.max_args(2)?;
    if args.len() == 1 {
        let text = parser.arg(&mut args, 0, "amount")?.to_css_string(args.span())?;
        return Ok(new_plain_call("saturate", text.as_str()));
    }
    match parser.arg(&mut args, 0, "color")? {
        Value::Color(c) => {
            let amount = fraction("amount", &parser.arg(&mut args, 1, "amount")?, args.span())?;
            Ok(Value::Color(c.saturate(amount)))
        },
        Value::Dimension(n, u) => {
            fraction("amount", &parser.arg(&mut args, 1, "amount")?, args.span())?;
            let mut text = n.to_string();
            text.append(u.as_str());
            Ok(new_plain_call("saturate", text.as_str()))
        },
        v => Err(new_type_error("color", &v, "a color", args.span())),
    }
}

/// A color made less saturated by a percentage of the whole range.
pub fn desaturate(args: CallArgs, parser: &mut Parser) -> (r: SassResult<Value>)
    ensures
        *final(parser) == *old(parser),
        result_view(r) == desaturate_result(args@),
{
    let mut args = args;
    args.max_args(2)?;
    let color = match parser.arg(&mut args, 0, "color")? {
        Value::Color(c) => c,
        v => {
            return Err(new_type_error("color", &v, "a color", args.span()));
        },
    };
    let amount = fraction("amount", &parser.arg(&mut args, 1, "amount")?, args.span())?;
    Ok(Value::Color(color.desaturate(amount)))
}

/// A color without any saturation; for a number, the CSS function of the
/// same name.
pub fn grayscale(args: CallArgs, parser: &mut Parser) -> (r: SassResult<Value>)
    ensures
        *final(parser) == *old(parser),
        result_view(r) == grayscale_result(args@),
{
    let mut args = args;
    args.max_args(1)?;
    let color = match parser.arg(&mut args, 0, "color")? {
        Value::Color(c) => c,
        Value::Dimension(n, u) => {
            let mut text = n.to_string();
            text.append(u.as_str());
            return Ok(new_plain_call("grayscale", text.as_str()));
        },
        v => {
            return Err(new_type_error("color", &v, "a color", args.span()));
        },
    };
    Ok(Value::Color(color.desaturate(Number::one())))
}

/// The color on the other side of the color wheel.
pub fn complement(args: CallArgs, parser: &mut Parser) -> (r: SassResult<Value>)
    ensures
        *final(parser) == *old(parser),
        result_view(r) == complement_result(args@),
{
    let mut args = args;
    args.max_args(1)?;
    let color = match parser.arg(&mut args, 0, "color")? {
        Value::Color(c) => c,
        v => {
            return Err(new_type_error("color", &v, "a color", args.span()));
        },
    };
    Ok(Value::Color(color.complement()))
}

/// A color mixed with its inverse by a weight, which is all where none is
/// passed; for a percentage in place of the color, the CSS function of the
/// same name. The color is bound before the weight.
pub fn invert(args: CallArgs, parser: &mut Parser) -> (r: SassResult<Value>)
    ensures
        *final(parser) == *old(parser),
        result_view(r) == invert_result(args@),
{
    let mut args = args;
    args.max_args(2)?;
    match parser.arg(&mut args, 0, "color")? {
        Value::Color(c) => {
            let weight = weight(&mut args, parser)?;
            Ok(Value::Color(c.invert(weight)))
        },
        Value::Dimension(n, Unit::Percent) => {
            weight(&mut args, parser)?;
            let mut text = n.to_string();
            text.append("%");
            Ok(new_plain_call("invert", text.as_str()))
        },
        Value::Dimension(..) => Err(
            SassError::new(
                ErrorKind::Arity,
                String::from_str(
                    "Only one argument may be passed to the plain-CSS invert() function.",
                ),
                args.span(),
            ),
        ),
        v => Err(new_type_error("color", &v, "a color", args.span())),
    }
}

/// Binds the weight of `invert`, which is all where none is passed.
fn weight(args: &mut CallArgs, parser: &mut Parser) -> (r: SassResult<Number>)
    ensures
        *final(parser) == *old(parser),
        match weight_bound(old(args)@) {
            Ok(w) => r matches Ok(x) && x@ == w,
            Err(e) => r matches Err(x) && x@ == e,
        },
{
    let passed = parser.default_arg(
        args,
        1,
        "weight",
        Value::Dimension(Number::from(100), Unit::Percent),
    )?;
    fraction("weight", &passed, args.span())
}

/// The parameters of `hsl` and `hsla`, in order.
fn parameter(i: usize) -> (name: &'static str)
    ensures
        name@ == channel_name(i as int),
{
    if i == 0 {
        "hue"
    } else if i == 1 {
        "saturation"
    } else if i == 2 {
        "lightness"
    } else {
        "alpha"
    }
}

/// The number at `i` in a list of channels, as the channel `name`.
fn element(items: &Vec<Value>, i: Option<usize>, name: &str, span: Span) -> (r: SassResult<Number>)
    requires
        i matches Some(at) ==> at < items.len(),
    ensures
        match element_number(
            values_view(items@),
            match i {
                Some(at) => at as int,
                None => -1,
            },
            name@,
            span,
        ) {
            Ok(n) => r matches Ok(x) && x@ == n,
            Err(e) => r matches Err(x) && x@ == e,
        },
{
    match i {
        None => {
            let mut message = String::from_str("Missing element $");
            message.append(name);
            message.append(".");
            Err(SassError::new(ErrorKind::Structure, message, span))
        },
        Some(at) => match &items[at] {
            Value::Dimension(n, _) => Ok(*n),
            v => Err(new_type_error(name, v, "a number", span)),
        },
    }
}

/// Writes the call of `name` out again, as `passthrough_result` says.
fn passthrough(name: &'static str, seen: Vec<Value>, args: CallArgs, parser: &mut Parser) -> (r:
    SassResult<Value>)
    requires
        seen.len() <= 3,
    ensures
        *final(parser) == *old(parser),
        result_view(r) == passthrough_result(name@, values_view(seen@), args@),
{
    let ghost goal = passthrough_result(name@, values_view(seen@), args@);
    let mut got = seen;
    let mut rest = args;
    while got.len() < 3
        invariant
            got.len() <= 3,
            *parser == *old(parser),
            passthrough_result(name@, values_view(got@), rest@) == goal,
            goal == passthrough_result(name@, values_view(seen@), args@),
        decreases 3 - got.len(),
    {
        let ghost before = values_view(got@);
        let v = parser.arg(&mut rest, got.len(), parameter(got.len()))?;
        got.push(v);
        assert(values_view(got@) =~= before.push(v@));
    }
    let mut text = join_css(&got, ", ", rest.span())?;
    if rest.is_empty() {
        return Ok(new_plain_call(name, text.as_str()));
    }
    let alpha = parser.arg(&mut rest, 3, "alpha")?.to_css_string(rest.span())?;
    text.append(", ");
    text.append(alpha.as_str());
    Ok(new_plain_call(name, text.as_str()))
}

/// The color for the alpha channel `v`, once hue, saturation and lightness
/// are bound to the numbers `seen`.
fn with_alpha(name: &'static str, seen: Vec<Value>, v: Value, span: Span) -> (r: SassResult<Value>)
    requires
        seen.len() == 3,
        forall|i: int| 0 <= i < 3 ==> (#[trigger] seen[i]) is Dimension,
    ensures
        result_view(r) == alpha_result(name@, values_view(seen@), v@, span),
{
    let h = match &seen[0] {
        Value::Dimension(n, _) => *n,
        _ => Number::zero(),
    };
    let s = match &seen[1] {
        Value::Dimension(n, _) => n.hundredth(),
        _ => Number::zero(),
    };
    let l = match &seen[2] {
        Value::Dimension(n, _) => n.hundredth(),
        _ => Number::zero(),
    };
    match v {
        Value::Dimension(n, Unit::Unitless) => Ok(Value::Color(Color::from_hsla(h, s, l, n))),
        Value::Dimension(n, Unit::Percent) => Ok(
            Value::Color(Color::from_hsla(h, s, l, n.hundredth())),
        ),
        Value::Dimension(n, u) => {
            let mut message = String::from_str("$alpha: Expected ");
            message.append(n.to_string().as_str());
            message.append(u.as_str());
            message.append(" to have no units or \"%\".");
            Err(SassError::new(ErrorKind::Type, message, span))
        },
        v => {
            if v.is_special_function() {
                let mut seen = seen;
                let ghost before = values_view(seen@);
                seen.push(v);
                assert(values_view(seen@) =~= before.push(v@));
                let text = join_css(&seen, ", ", span)?;
                Ok(new_plain_call(name, text.as_str()))
            } else {
                Err(new_type_error("alpha", &v, "a number", span))
            }
        },
    }
}

/// The color whose channels are the elements of the one argument of the
/// call.
fn from_channels(args: CallArgs, parser: &mut Parser) -> (r: SassResult<Value>)
    ensures
        *final(parser) == *old(parser),
        result_view(r) == channels_result(args@),
{
    let mut rest = args;
    let channels = match parser.arg(&mut rest, 0, "channels") {
        Ok(Value::List(v, _, _)) => v,
        _ => {
            return Err(new_missing_argument("channels", rest.span()));
        },
    };
    let n = channels.len();
    if n > 3 {
        let mut message = String::from_str("Only 3 elements allowed, but ");
        append_nat(&mut message, n as u128);
        message.append(" were passed.");
        return Err(SassError::new(ErrorKind::Structure, message, rest.span()));
    }
    let lightness = element(
        &channels,
        if n >= 1 {
            Some(n - 1)
        } else {
            None
        },
        "lightness",
        rest.span(),
    )?.hundredth();
    let saturation = element(
        &channels,
        if n >= 2 {
            Some(n - 2)
        } else {
            None
        },
        "saturation",
        rest.span(),
    )?.hundredth();
    let hue = element(
        &channels,
        if n >= 3 {
            Some(n - 3)
        } else {
            None
        },
        "hue",
        rest.span(),
    )?;
    Ok(Value::Color(Color::from_hsla(hue, saturation, lightness, Number::one())))
}

/// The color whose channels are the arguments of the call, as
/// `positional_result` says.
fn from_arguments(name: &'static str, args: CallArgs, parser: &mut Parser) -> (r: SassResult<Value>)
    ensures
        *final(parser) == *old(parser),
        result_view(r) == positional_result(name@, Seq::empty(), args@),
{
    let ghost goal = positional_result(name@, Seq::empty(), args@);
    let mut rest = args;
    let mut seen: Vec<Value> = Vec::new();
    assert(values_view(seen@) =~= Seq::<ValueView>::empty());
    while seen.len() < 3
        invariant
            seen.len() <= 3,
            *parser == *old(parser),
            forall|i: int| 0 <= i < seen.len() ==> (#[trigger] seen[i]) is Dimension,
            positional_result(name@, values_view(seen@), rest@) == goal,
            goal == positional_result(name@, Seq::empty(), args@),
        decreases 3 - seen.len(),
    {
        let ghost before = values_view(seen@);
        let i = seen.len();
        let v = parser.arg(&mut rest, i, parameter(i))?;
        match v {
            Value::Dimension(..) => {
                seen.push(v);
                assert(values_view(seen@) =~= before.push(v@));
            },
            v => {
                if v.is_special_function() {
                    seen.push(v);
                    assert(values_view(seen@) =~= before.push(v@));
                    return passthrough(name, seen, rest, parser);
                }
                return Err(new_type_error(parameter(i), &v, "a number", rest.span()));
            },
        }
    }
    let alpha = parser.default_arg(
        &mut rest,
        3,
        "alpha",
        Value::Dimension(Number::one(), Unit::Unitless),
    )?;
    with_alpha(name, seen, alpha, rest.span())
}

/// The color with the given hue, saturation and lightness, and the given
/// alpha where one is passed, under the name `name`: `hsl` and `hsla` are the
/// same function. One argument is the list of the channels; more are the
/// channels themselves.
pub fn inner_hsl(name: &'static str, args: CallArgs, parser: &mut Parser) -> (r: SassResult<Value>)
    ensures
        *final(parser) == *old(parser),
        result_view(r) == hsl_result(name@, args@),
{
    args.max_args(4)?;
    if args.is_empty() {
        return Err(new_missing_argument("channels", args.span()));
    }
    if args.len() == 1 {
        from_channels(args, parser)
    } else {
        from_arguments(name, args, parser)
    }
}

/// The color with the given hue, saturation and lightness.
pub fn hsl(args: CallArgs, parser: &mut Parser) -> (r: SassResult<Value>)
    ensures
        *final(parser) == *old(parser),
        result_view(r) == hsl_result("hsl"@, args@),
{
    inner_hsl("hsl", args, parser)
}

/// The color with the given hue, saturation, lightness and alpha.
pub fn hsla(args: CallArgs, parser: &mut Parser) -> (r: SassResult<Value>)
    ensures
        *final(parser) == *old(parser),
        result_view(r) == hsl_result("hsla"@, args@),
{
    inner_hsl("hsla", args, parser)
}

/// A color made by `hsl` or `hsla` from a hue and from a saturation and a lightness
/// between 0% and 100% gives them back: `hue` gives the hue modulo 360, which
/// lies from 0 up to 360, and `saturation` and `lightness` give what was
/// passed to within a hundred-millionth, the last two decimal places of a
/// percentage being lost where it is held as a fraction.
pub proof fn law_hsl_round_trip(
    name: Seq<char>,
    h: int,
    hu: Unit,
    s: int,
    su: Unit,
    l: int,
    lu: Unit,
    span: Span,
)
    requires
        0 <= s <= 100 * scale(),
        0 <= l <= 100 * scale(),
    ensures
        hsl_result(
            name,
            positional(
                seq![
                    ValueView::Dimension(h, hu),
                    ValueView::Dimension(s, su),
                    ValueView::Dimension(l, lu),
                ],
                span,
            ),
        ) matches Ok(ValueView::Color(c)) && {
            &&& hue_result(positional(seq![ValueView::Color(c)], span)) == Ok::<
                ValueView,
                ErrorView,
            >(ValueView::Dimension(h % (360 * scale()), Unit::Deg))
            &&& 0 <= h % (360 * scale()) < 360 * scale()
            &&& saturation_result(positional(seq![ValueView::Color(c)], span)) matches Ok(
                ValueView::Dimension(x, Unit::Percent),
            ) && s - 100 < x <= s
            &&& lightness_result(positional(seq![ValueView::Color(c)], span)) matches Ok(
                ValueView::Dimension(y, Unit::Percent),
            ) && l - 100 < y <= l
        },
{
    reveal_with_fuel(index_from, 5);
    reveal_with_fuel(positional_result, 5);
    let a0 = positional(
        seq![ValueView::Dimension(h, hu), ValueView::Dimension(s, su), ValueView::Dimension(l, lu)],
        span,
    );
    let a1 = bound(a0, 0, "hue"@).unwrap().1;
    let a2 = bound(a1, 1, "saturation"@).unwrap().1;
    let a3 = bound(a2, 2, "lightness"@).unwrap().1;
    assert(a3.entries.len() == 0);
    let c = hsla_view(h, trunc_div(s, 100), trunc_div(l, 100), scale());
    assert(hsl_result(name, a0) == Ok::<ValueView, ErrorView>(ValueView::Color(c)));
}

/// Inverting a color twice with all the weight gives the color back, in red,
/// green, blue and alpha. No weight passed is all the weight.
pub proof fn law_invert_twice(c: ColorView, u: Unit, span: Span)
    requires
        valid(c),
    ensures
        invert_result(positional(seq![ValueView::Color(c)], span)) matches Ok(
            ValueView::Color(d),
        ) && invert_result(positional(seq![ValueView::Color(d)], span)) matches Ok(
            ValueView::Color(e),
        ) && same_color(e, c),
        invert_result(
            positional(seq![ValueView::Color(c), ValueView::Dimension(100 * scale(), u)], span),
        ) matches Ok(ValueView::Color(d)) && invert_result(
            positional(seq![ValueView::Color(d), ValueView::Dimension(100 * scale(), u)], span),
        ) matches Ok(ValueView::Color(e)) && same_color(e, c),
{
    reveal_with_fuel(index_from, 4);
    lemma_invert_twice(c);
    let d = inverted(c, scale());
    let w = ValueView::Dimension(100 * scale(), u);
    assert(invert_result(positional(seq![ValueView::Color(c)], span)) == Ok::<
        ValueView,
        ErrorView,
    >(ValueView::Color(d)));
    assert(invert_result(positional(seq![ValueView::Color(d)], span)) == Ok::<
        ValueView,
        ErrorView,
    >(ValueView::Color(inverted(d, scale()))));
    let a = positional(seq![ValueView::Color(c), w], span);
    assert(bound(a, 1, "weight"@).unwrap().1.entries =~= seq![a.entries[0]]);
    assert(invert_result(a) == Ok::<ValueView, ErrorView>(ValueView::Color(d)));
    let b = positional(seq![ValueView::Color(d), w], span);
    assert(bound(b, 1, "weight"@).unwrap().1.entries =~= seq![b.entries[0]]);
    assert(invert_result(b) == Ok::<ValueView, ErrorView>(ValueView::Color(inverted(d, scale()))));
}

/// `grayscale` of a color is `desaturate` of that color by 100%.
pub proof fn law_grayscale_is_desaturate(c: ColorView, u: Unit, span: Span)
    ensures
        grayscale_result(positional(seq![ValueView::Color(c)], span)) == desaturate_result(
            positional(seq![ValueView::Color(c), ValueView::Dimension(100 * scale(), u)], span),
        ),
{
    reveal_with_fuel(index_from, 4);
    let a = positional(seq![ValueView::Color(c), ValueView::Dimension(100 * scale(), u)], span);
    assert(bound(a, 0, "color"@).unwrap().1.entries =~= seq![a.entries[1]]);
}

/// `complement` of a color is `adjust-hue` of that color by 180 degrees.
pub proof fn law_complement_is_adjust_hue(c: ColorView, u: Unit, span: Span)
    ensures
        complement_result(positional(seq![ValueView::Color(c)], span)) == adjust_hue_result(
            positional(seq![ValueView::Color(c), ValueView::Dimension(180 * scale(), u)], span),
        ),
{
    reveal_with_fuel(index_from, 4);
    let a = positional(seq![ValueView::Color(c), ValueView::Dimension(180 * scale(), u)], span);
    assert(bound(a, 0, "color"@).unwrap().1.entries =~= seq![a.entries[1]]);
}

/// `hsl` and `hsla` give the same for one list of three numbers, passed as
/// `$channels`, as for the three numbers passed one by one.
pub proof fn law_hsl_list_form(
    name: Seq<char>,
    h: ValueView,
    s: ValueView,
    l: ValueView,
    separator: ListSeparator,
    brackets: Brackets,
    span: Span,
)
    requires
        h is Dimension,
        s is Dimension,
        l is Dimension,
    ensures
        hsl_result(
            name,
            named("channels"@, ValueView::List(seq![h, s, l], separator, brackets), span),
        ) == hsl_result(name, positional(seq![h, s, l], span)),
{
    reveal_with_fuel(index_from, 5);
    reveal_with_fuel(positional_result, 5);
    let a0 = positional(seq![h, s, l], span);
    let a1 = bound(a0, 0, "hue"@).unwrap().1;
    let a2 = bound(a1, 1, "saturation"@).unwrap().1;
    let a3 = bound(a2, 2, "lightness"@).unwrap().1;
    assert(a3.entries.len() == 0);
    let c = hsla_value(
        h->Dimension_0,
        trunc_div(s->Dimension_0, 100),
        trunc_div(l->Dimension_0, 100),
        scale(),
    );
    assert(hsl_result(name, a0) == Ok::<ValueView, ErrorView>(c));
}

/// The registry `m` with the functions on hue, saturation and lightness
/// added, each under the name by which a style sheet calls it.
pub open spec fn declared(m: Map<Seq<char>, Builtin>) -> Map<Seq<char>, Builtin> {
    m.insert("hsl"@, Builtin::Hsl).insert("hsla"@, Builtin::Hsla).insert("hue"@, Builtin::Hue)
        .insert("saturation"@, Builtin::Saturation).insert("adjust-hue"@, Builtin::AdjustHue)
        .insert("lightness"@, Builtin::Lightness).insert("lighten"@, Builtin::Lighten).insert(
        "darken"@,
        Builtin::Darken,
    ).insert("saturate"@, Builtin::Saturate).insert("desaturate"@, Builtin::Desaturate).insert(
        "grayscale"@,
        Builtin::Grayscale,
    ).insert("complement"@, Builtin::Complement).insert("invert"@, Builtin::Invert)
}

/// Registers the functions on hue, saturation and lightness.
pub fn declare(f: &mut GlobalFunctionMap)
    ensures
        final(f)@ == declared(old(f)@),
{
    f.insert("hsl", Builtin::Hsl);
    f.insert("hsla", Builtin::Hsla);
    f.insert("hue", Builtin::Hue);
    f.insert("saturation", Builtin::Saturation);
    f.insert("adjust-hue", Builtin::AdjustHue);
    f.insert("lightness", Builtin::Lightness);
    f.insert("lighten", Builtin::Lighten);
    f.insert("darken", Builtin::Darken);
    f.insert("saturate", Builtin::Saturate);
    f.insert("desaturate", Builtin::Desaturate);
    f.insert("grayscale", Builtin::Grayscale);
    f.insert("complement", Builtin::Complement);
    f.insert("invert", Builtin::Invert);
}

} // verus!
