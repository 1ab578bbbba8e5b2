//! Decimal numbers with ten places after the point.

use crate::text::{append_nat, digit_char, digit_str, nat_text};
use vstd::prelude::*;

verus! {

/// How many units make one: ten places after the decimal point.
pub open spec fn scale() -> int {
    10_000_000_000
}

/// The quotient of `a` by `b`, rounded toward zero.
pub open spec fn trunc_div(a: int, b: int) -> int {
    if b > 0 {
        if a >= 0 {
            a / b
        } else {
            -((-a) / b)
        }
    } else {
        if a >= 0 {
            -(a / (-b))
        } else {
            (-a) / (-b)
        }
    }
}

/// Whether `units` ten-billionths can be held.
pub open spec fn fits(units: int) -> bool {
    i128::MIN <= units <= i128::MAX
}

/// The digits after the decimal point of `frac / (10 * unit)`, where `unit` is
/// a power of ten: one digit for each place, up to the last that is not zero.
pub open spec fn fraction_text(frac: nat, unit: nat) -> Seq<char>
    decreases unit,
{
    if frac == 0 || unit == 0 {
        Seq::empty()
    } else {
        seq![digit_char((frac / unit) as int)] + fraction_text(frac % unit, unit / 10)
    }
}

/// The place values of the ten decimal places, and zero for none.
pub open spec fn is_place_value(unit: int) -> bool {
    ||| unit == 0
    ||| unit == 1
    ||| unit == 10
    ||| unit == 100
    ||| unit == 1_000
    ||| unit == 10_000
    ||| unit == 100_000
    ||| unit == 1_000_000
    ||| unit == 10_000_000
    ||| unit == 100_000_000
    ||| unit == 1_000_000_000
}

/// A number of `units` ten-billionths as CSS writes it: a minus sign where it
/// is negative, the whole part, and the decimal places where there are any.
pub open spec fn number_text(units: int) -> Seq<char> {
    let mag = if units < 0 {
        -units
    } else {
        units
    };
    let whole = nat_text((mag / scale()) as nat);
    let frac = mag % scale();
    let body = if frac == 0 {
        whole
    } else {
        whole + seq!['.'] + fraction_text(frac as nat, (scale() / 10) as nat)
    };
    if units < 0 {
        seq!['-'] + body
    } else {
        body
    }
}

/// The size of `x`, whatever its sign.
fn magnitude(x: i128) -> (m: u128)
    ensures
        m == if x < 0 {
            -x
        } else {
            x as int
        },
{
    if x < 0 {
        ((-(x + 1)) as u128) + 1
    } else {
        x as u128
    }
}

/// The product `a * k` in two parts, `high * 2^32 + low`, with `low` from 0 up
/// to `2^32`: the product itself may not fit in 128 bits.
fn split_product(a: i128, k: u16) -> (r: (i128, i128))
    ensures
        r.0 * 0x1_0000_0000 + r.1 == a * k,
        0 <= r.1 < 0x1_0000_0000,
{
    let q = a / 0x1_0000_0000;
    let rest = a % 0x1_0000_0000;
    let factor: i128 = k as i128;
    assert(-0x1_0000_0000_0000 < rest * factor < 0x1_0000_0000_0000) by (nonlinear_arith)
        requires
            -0x1_0000_0000 < rest < 0x1_0000_0000,
            0 <= factor < 0x1_0000,
    ;
    assert(-0x8000_0000_0000_0000_0000_0000_0000 <= q * factor
        <= 0x8000_0000_0000_0000_0000_0000_0000) by (nonlinear_arith)
        requires
            -0x8000_0000_0000_0000_0000_0000 <= q <= 0x8000_0000_0000_0000_0000_0000,
            0 <= factor < 0x1_0000,
    ;
    let t = rest * factor;
    let high = q * factor;
    let mut carry = t / 0x1_0000_0000;
    let mut low = t % 0x1_0000_0000;
    if low < 0 {
        carry = carry - 1;
        low = low + 0x1_0000_0000;
    }
    assert((high + carry) * 0x1_0000_0000 + low == a * k) by (nonlinear_arith)
        requires
            a == q * 0x1_0000_0000 + rest,
            t == rest * factor,
            high == q * factor,
            t == carry * 0x1_0000_0000 + low,
            factor == k,
    ;
    (high + carry, low)
}

/// A decimal number, held exactly as a count of ten-billionths.
#[derive(Copy, Clone, Debug, PartialEq, Eq, Structural)]
pub struct Number {
    pub units: i128,
}

impl View for Number {
    type V = int;

    /// The number as its count of ten-billionths.
    open spec fn view(&self) -> int {
        self.units as int
    }
}

impl vstd::std_specs::convert::FromSpecImpl<i64> for Number {
    open spec fn obeys_from_spec() -> bool {
        true
    }

    open spec fn from_spec(n: i64) -> Number {
        Number { units: (n * scale()) as i128 }
    }
}

impl From<i64> for Number {
    /// The whole number `n`.
    fn from(n: i64) -> (r: Number)
        ensures
            r@ == n * scale(),
    {
        Number { units: (n as i128) * 10_000_000_000 }
    }
}

impl Number {
    /// The number of `units` ten-billionths.
    pub fn from_units(units: i128) -> (r: Number)
        ensures
            r@ == units,
    {
        Number { units }
    }

    /// The number 0.
    pub fn zero() -> (r: Number)
        ensures
            r@ == 0,
    {
        Number { units: 0 }
    }

    /// The number 1.
    pub fn one() -> (r: Number)
        ensures
            r@ == scale(),
    {
        Number { units: 10_000_000_000 }
    }

    /// Whether the number is 0.
    pub fn is_zero(&self) -> (r: bool)
        ensures
            r == (self@ == 0),
    {
        self.units == 0
    }

    /// Whether the number is less than 0.
    pub fn is_negative(&self) -> (r: bool)
        ensures
            r == (self@ < 0),
    {
        self.units < 0
    }

    /// Whether this number is less than `other`.
    pub fn lt(&self, other: &Number) -> (r: bool)
        ensures
            r == (self@ < other@),
    {
        self.units < other.units
    }

    /// Whether this number is greater than `other`.
    pub fn gt(&self, other: &Number) -> (r: bool)
        ensures
            r == (self@ > other@),
    {
        self.units > other.units
    }

    /// Whether `k1` times this number is `k2` times `other`: whether the two
    /// are the same quantity, where this number counts parts of size `k1`
    /// and `other` parts of size `k2`.
    pub fn eq_scaled(&self, k1: u16, other: &Number, k2: u16) -> (r: bool)
        ensures
            r == (self@ * k1 == other@ * k2),
    {
        let a = split_product(self.units, k1);
        let b = split_product(other.units, k2);
        a.0 == b.0 && a.1 == b.1
    }

    /// Whether `k1` times this number is less than `k2` times `other`.
    pub fn lt_scaled(&self, k1: u16, other: &Number, k2: u16) -> (r: bool)
        ensures
            r == (self@ * k1 < other@ * k2),
    {
        let a = split_product(self.units, k1);
        let b = split_product(other.units, k2);
        a.0 < b.0 || (a.0 == b.0 && a.1 < b.1)
    }

    /// The sum of the two numbers, where it can be held.
    pub fn checked_add(self, other: Number) -> (r: Option<Number>)
        ensures
            r == if fits(self@ + other@) {
                Some(Number { units: (self@ + other@) as i128 })
            } else {
                None
            },
    {
        match self.units.checked_add(other.units) {
            Some(units) => Some(Number { units }),
            None => None,
        }
    }

    /// The difference of the two numbers, where it can be held.
    pub fn checked_sub(self, other: Number) -> (r: Option<Number>)
        ensures
            r == if fits(self@ - other@) {
                Some(Number { units: (self@ - other@) as i128 })
            } else {
                None
            },
    {
        match self.units.checked_sub(other.units) {
            Some(units) => Some(Number { units }),
            None => None,
        }
    }

    /// The product of the two numbers, rounded toward zero at the tenth
    /// decimal place, where the product of their counts of ten-billionths
    /// can be held.
    pub fn checked_mul(self, other: Number) -> (r: Option<Number>)
        ensures
            r == if fits(self@ * other@) {
                Some(Number { units: trunc_div(self@ * other@, scale()) as i128 })
            } else {
                None
            },
    {
        match self.units.checked_mul(other.units) {
            Some(product) => Some(Number { units: product / 10_000_000_000 }),
            None => None,
        }
    }

    /// The quotient of this number by `other`, rounded toward zero at the
    /// tenth decimal place, where `other` is not zero and ten billion times
    /// this number's count of ten-billionths can be held.
    pub fn checked_div(self, other: Number) -> (r: Option<Number>)
        ensures
            r == if other@ != 0 && fits(self@ * scale()) {
                Some(Number { units: trunc_div(self@ * scale(), other@) as i128 })
            } else {
                None
            },
    {
        if other.units == 0 {
            return None;
        }
        match self.units.checked_mul(10_000_000_000) {
            Some(scaled) => {
                assert(scaled % 10_000_000_000 == 0);
                let dividend = magnitude(scaled);
                let divisor = magnitude(other.units);
                let quotient = (dividend / divisor) as i128;
                if (scaled < 0) != (other.units < 0) {
                    Some(Number { units: -quotient })
                } else {
                    Some(Number { units: quotient })
                }
            },
            None => None,
        }
    }

    /// A hundredth of the number, rounded toward zero at the tenth decimal
    /// place: what a percentage is as a fraction.
    pub fn hundredth(self) -> (r: Number)
        ensures
            r@ == trunc_div(self@, 100),
    {
        Number { units: self.units / 100 }
    }

    /// The number as CSS writes it.
    pub fn to_string(&self) -> (s: String)
        ensures
            s@ == number_text(self@),
    {
        let mut s = String::new();
        let mag: u128 = if self.units < 0 {
            s.append("-");
            proof {
                reveal_strlit("-");
            }
            ((-(self.units + 1)) as u128) + 1
        } else {
            self.units as u128
        };
        let ghost sign = s@;
        assert(sign =~= if self@ < 0 { seq!['-'] } else { Seq::<char>::empty() });
        append_nat(&mut s, mag / 10_000_000_000);
        let frac: u128 = mag % 10_000_000_000;
        if frac != 0 {
            s.append(".");
            proof {
                reveal_strlit(".");
            }
            let ghost head = s@;
            let mut rest: u128 = frac;
            let mut unit: u128 = 1_000_000_000;
            while rest != 0 && unit != 0
                invariant
                    is_place_value(unit as int),
                    rest == 0 || rest < 10 * unit,
                    s@ + fraction_text(rest as nat, unit as nat) == head + fraction_text(
                        frac as nat,
                        1_000_000_000,
                    ),
                decreases unit,
            {
                assert(rest / unit < 10);
                let d: u8 = (rest / unit) as u8;
                let ghost before = s@;
                s.append(digit_str(d));
                assert(s@ + fraction_text((rest % unit) as nat, (unit / 10) as nat) =~= before
                    + fraction_text(rest as nat, unit as nat));
                rest = rest % unit;
                unit = unit / 10;
            }
            assert(s@ =~= head + fraction_text(frac as nat, 1_000_000_000));
        }
        assert(s@ =~= number_text(self@));
        s
    }
}

} // verus!
