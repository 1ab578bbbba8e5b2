//! Comparison and arithmetic of numbers with units.

use crate::error::{ErrorKind, ErrorView, SassError, SassResult};
use crate::unit::Unit;
use crate::value::number::{fits, scale, trunc_div, Number};
use codemap::Span;
use vstd::prelude::*;

verus! {

/// How one number stands to another.
#[derive(Copy, Clone, Debug, PartialEq, Eq, Structural)]
pub enum Order {
    Less,
    Equal,
    Greater,
}

/// How `a` stands to `b`.
pub open spec fn order_of(a: int, b: int) -> Order {
    if a < b {
        Order::Less
    } else if a == b {
        Order::Equal
    } else {
        Order::Greater
    }
}

/// The unit in which numbers of the units `u1` and `u2` are compared, added
/// and subtracted: the one unit where they are the same; the other where one
/// number has none; the first where the two measure the same quantity; none
/// where the units do not go together.
pub open spec fn common_unit(u1: Unit, u2: Unit) -> Option<Unit> {
    if u1 == u2 || u2 == Unit::Unitless {
        Some(u1)
    } else if u1 == Unit::Unitless {
        Some(u2)
    } else {
        match (u1.size(), u2.size()) {
            (Some((q1, _)), Some((q2, _))) => if q1 == q2 {
                Some(u1)
            } else {
                None
            },
            _ => None,
        }
    }
}

/// How many times the smallest part of its quantity a unit is, or one where
/// it has no fixed size.
pub open spec fn size_of(u: Unit) -> int {
    match u.size() {
        Some((_, k)) => k,
        None => 1,
    }
}

/// Whether numbers of the units `u1` and `u2` have to be brought to one unit
/// before they are compared or added: the units differ and both have a size.
pub open spec fn converts(u1: Unit, u2: Unit) -> bool {
    u1 != u2 && u1.size() is Some && u2.size() is Some
}

/// The error for two numbers whose units do not go together.
pub open spec fn incompatible_units(u1: Unit, u2: Unit, span: Span) -> ErrorView {
    ErrorView {
        kind: ErrorKind::Type,
        message: "Incompatible units "@ + u1.text() + " and "@ + u2.text() + "."@,
        span,
    }
}

/// The error for a result that is beyond what a number can hold.
pub open spec fn overflow(span: Span) -> ErrorView {
    ErrorView { kind: ErrorKind::Range, message: "The result is too large."@, span }
}

/// The error for a division by zero.
pub open spec fn division_by_zero(span: Span) -> ErrorView {
    ErrorView { kind: ErrorKind::Range, message: "Division by zero."@, span }
}

/// How the number `n1` of unit `u1` stands to the number `n2` of unit `u2`.
/// Numbers of units that measure the same quantity are compared as that
/// quantity, exactly; a number without unit is compared as it is; units that
/// do not go together are an error.
pub open spec fn compared(n1: int, u1: Unit, n2: int, u2: Unit, span: Span) -> Result<
    Order,
    ErrorView,
> {
    if common_unit(u1, u2) is None {
        Err(incompatible_units(u1, u2, span))
    } else if converts(u1, u2) {
        Ok(order_of(n1 * size_of(u1), n2 * size_of(u2)))
    } else {
        Ok(order_of(n1, n2))
    }
}

/// The number `n` of unit `from` in the unit `to`, rounded toward zero at the
/// tenth decimal place. A number stays as it is where the units are the same
/// or one of them has no size.
pub open spec fn converted(n: int, from: Unit, to: Unit) -> int {
    if converts(from, to) {
        trunc_div(n * size_of(from), size_of(to))
    } else {
        n
    }
}

/// The sum of two numbers with units, `sign` being 1, or their difference,
/// `sign` being -1. The second number is brought to the unit of the result,
/// which is the unit that the two have in common. Units that do not go
/// together are an error, and so is a result that cannot be held.
pub open spec fn summed(n1: int, u1: Unit, n2: int, u2: Unit, sign: int, span: Span) -> Result<
    (int, Unit),
    ErrorView,
> {
    match common_unit(u1, u2) {
        None => Err(incompatible_units(u1, u2, span)),
        Some(u) => if converts(u1, u2) && !fits(n2 * size_of(u2)) {
            Err(overflow(span))
        } else if !fits(n1 + sign * converted(n2, u2, u1)) {
            Err(overflow(span))
        } else {
            Ok((n1 + sign * converted(n2, u2, u1), u))
        },
    }
}

/// The product of two numbers with units. One of the two has to be without
/// unit, and the product has the unit of the other: there are no units for
/// areas. A product that cannot be held is an error.
pub open spec fn multiplied(n1: int, u1: Unit, n2: int, u2: Unit, span: Span) -> Result<
    (int, Unit),
    ErrorView,
> {
    if u1 != Unit::Unitless && u2 != Unit::Unitless {
        Err(incompatible_units(u1, u2, span))
    } else if !fits(n1 * n2) {
        Err(overflow(span))
    } else {
        Ok(
            (
                trunc_div(n1 * n2, scale()),
                if u1 == Unit::Unitless {
                    u2
                } else {
                    u1
                },
            ),
        )
    }
}

/// The quotient of two numbers with units. A number is divided by a number
/// without unit, and keeps its unit, or by a number of its own unit, and
/// loses it. Division by zero is an error, and so are other units and a
/// quotient that cannot be held.
pub open spec fn divided(n1: int, u1: Unit, n2: int, u2: Unit, span: Span) -> Result<
    (int, Unit),
    ErrorView,
> {
    if u2 != Unit::Unitless && u1 != u2 {
        Err(incompatible_units(u1, u2, span))
    } else if n2 == 0 {
        Err(division_by_zero(span))
    } else if !fits(n1 * scale()) {
        Err(overflow(span))
    } else {
        Ok(
            (
                trunc_div(n1 * scale(), n2),
                if u2 == Unit::Unitless {
                    u1
                } else {
                    Unit::Unitless
                },
            ),
        )
    }
}

/// Whether `r` is the outcome `expected`.
pub open spec fn is_outcome<T>(r: SassResult<T>, expected: Result<T, ErrorView>) -> bool {
    match expected {
        Ok(x) => r == Ok::<T, SassError>(x),
        Err(e) => r matches Err(x) && x@ == e,
    }
}

/// Whether `r` is the number with unit, or the error, that `expected` says.
pub open spec fn is_number_outcome(r: SassResult<(Number, Unit)>, expected: Result<
    (int, Unit),
    ErrorView,
>) -> bool {
    match expected {
        Ok((n, u)) => r matches Ok((x, y)) && x@ == n && y == u,
        Err(e) => r matches Err(x) && x@ == e,
    }
}

fn new_incompatible_units(u1: Unit, u2: Unit, span: Span) -> (e: SassError)
    ensures
        e@ == incompatible_units(u1, u2, span),
{
    let mut message = String::from_str("Incompatible units ");
    message.append(u1.as_str());
    message.append(" and ");
    message.append(u2.as_str());
    message.append(".");
    SassError::new(ErrorKind::Type, message, span)
}

fn new_overflow(span: Span) -> (e: SassError)
    ensures
        e@ == overflow(span),
{
    SassError::new(ErrorKind::Range, String::from_str("The result is too large."), span)
}

/// The unit in which numbers of the two units are compared, added and
/// subtracted, and the sizes of the two units where the numbers have to be
/// brought to one unit first.
fn unify(u1: Unit, u2: Unit) -> (r: Option<(Unit, Option<(u16, u16)>)>)
    ensures
        match r {
            Some((u, sizes)) => common_unit(u1, u2) == Some(u) && match sizes {
                Some((k1, k2)) => converts(u1, u2) && k1 == size_of(u1) && k2 == size_of(u2) && k1
                    > 0,
                None => !converts(u1, u2),
            },
            None => common_unit(u1, u2) is None,
        },
{
    if u1 == u2 || u2 == Unit::Unitless {
        return Some((u1, None));
    }
    if u1 == Unit::Unitless {
        return Some((u2, None));
    }
    match (u1.measure(), u2.measure()) {
        (Some((q1, k1)), Some((q2, k2))) => if q1 == q2 {
            Some((u1, Some((k1, k2))))
        } else {
            None
        },
        _ => None,
    }
}

/// How the number `n1` of unit `u1` stands to the number `n2` of unit `u2`.
pub fn compare(n1: Number, u1: Unit, n2: Number, u2: Unit, span: Span) -> (r: SassResult<Order>)
    ensures
        is_outcome(r, compared(n1@, u1, n2@, u2, span)),
{
    match unify(u1, u2) {
        None => Err(new_incompatible_units(u1, u2, span)),
        Some((_, Some((k1, k2)))) => {
            if n1.lt_scaled(k1, &n2, k2) {
                Ok(Order::Less)
            } else if n1.eq_scaled(k1, &n2, k2) {
                Ok(Order::Equal)
            } else {
                Ok(Order::Greater)
            }
        },
        Some((_, None)) => {
            if n1.lt(&n2) {
                Ok(Order::Less)
            } else if n1.gt(&n2) {
                Ok(Order::Greater)
            } else {
                Ok(Order::Equal)
            }
        },
    }
}

/// The sum or the difference of two numbers with units, as `summed` says.
fn sum(n1: Number, u1: Unit, n2: Number, u2: Unit, negate: bool, span: Span) -> (r: SassResult<
    (Number, Unit),
>)
    ensures
        is_number_outcome(
            r,
            summed(
                n1@,
                u1,
                n2@,
                u2,
                if negate {
                    -1
                } else {
                    1
                },
                span,
            ),
        ),
{
    let (unit, sizes) = match unify(u1, u2) {
        None => {
            return Err(new_incompatible_units(u1, u2, span));
        },
        Some(found) => found,
    };
    let second = match sizes {
        Some((k1, k2)) => match n2.units.checked_mul(k2 as i128) {
            Some(parts) => Number { units: parts / (k1 as i128) },
            None => {
                return Err(new_overflow(span));
            },
        },
        None => n2,
    };
    let result = if negate {
        n1.checked_sub(second)
    } else {
        n1.checked_add(second)
    };
    match result {
        Some(n) => Ok((n, unit)),
        None => Err(new_overflow(span)),
    }
}

/// The sum of two numbers with units. A number without unit takes the unit
/// of the other; a number of a unit that measures the same quantity is
/// brought to the unit of the first. Units that do not go together are an
/// error, and so is a sum that cannot be held.
pub fn plus(n1: Number, u1: Unit, n2: Number, u2: Unit, span: Span) -> (r: SassResult<
    (Number, Unit),
>)
    ensures
        is_number_outcome(r, summed(n1@, u1, n2@, u2, 1, span)),
{
    sum(n1, u1, n2, u2, false, span)
}

/// The difference of two numbers with units, under the rules of `plus`.
pub fn minus(n1: Number, u1: Unit, n2: Number, u2: Unit, span: Span) -> (r: SassResult<
    (Number, Unit),
>)
    ensures
        is_number_outcome(r, summed(n1@, u1, n2@, u2, -1, span)),
{
    sum(n1, u1, n2, u2, true, span)
}

/// The product of two numbers, of which one has to be without unit.
pub fn times(n1: Number, u1: Unit, n2: Number, u2: Unit, span: Span) -> (r: SassResult<
    (Number, Unit),
>)
    ensures
        is_number_outcome(r, multiplied(n1@, u1, n2@, u2, span)),
{
    if u1 != Unit::Unitless && u2 != Unit::Unitless {
        return Err(new_incompatible_units(u1, u2, span));
    }
    match n1.checked_mul(n2) {
        Some(n) => Ok(
            (
                n,
                if u1 == Unit::Unitless {
                    u2
                } else {
                    u1
                },
            ),
        ),
        None => Err(new_overflow(span)),
    }
}

/// The quotient of two numbers, of which the second has to be without unit
/// or of the unit of the first. Division by zero is an error.
pub fn divided_by(n1: Number, u1: Unit, n2: Number, u2: Unit, span: Span) -> (r: SassResult<
    (Number, Unit),
>)
    ensures
        is_number_outcome(r, divided(n1@, u1, n2@, u2, span)),
{
    if u2 != Unit::Unitless && u1 != u2 {
        return Err(new_incompatible_units(u1, u2, span));
    }
    if n2.is_zero() {
        return Err(
            SassError::new(ErrorKind::Range, String::from_str("Division by zero."), span),
        );
    }
    match n1.checked_div(n2) {
        Some(n) => Ok(
            (
                n,
                if u2 == Unit::Unitless {
                    u1
                } else {
                    Unit::Unitless
                },
            ),
        ),
        None => Err(new_overflow(span)),
    }
}

} // verus!
