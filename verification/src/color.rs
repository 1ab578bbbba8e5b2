//! Colors, held at once as red, green and blue and as hue, saturation and
//! lightness, with an alpha channel.
//!
//! Every channel is a count of ten-billionths, as a [`Number`] is: red, green
//! and blue run from 0 to 255, the hue from 0 up to but not including 360,
//! saturation, lightness and alpha from 0 to 1.

pub mod round_trip;

use crate::text::{append_hex, append_nat, hex_text, nat_text};
use crate::value::number::{number_text, scale, trunc_div, Number};
use vstd::arithmetic::div_mod::lemma_add_mod_noop_right;
use vstd::prelude::*;

verus! {

/// The mathematical content of a color: its seven channels in ten-billionths.
pub struct ColorView {
    pub red: int,
    pub green: int,
    pub blue: int,
    pub hue: int,
    pub saturation: int,
    pub lightness: int,
    pub alpha: int,
}

/// The value in `[low, high]` that is nearest to `x`.
pub open spec fn clamp(x: int, low: int, high: int) -> int {
    if x < low {
        low
    } else if x > high {
        high
    } else {
        x
    }
}

/// The lesser of two.
pub open spec fn min2(a: int, b: int) -> int {
    if a < b {
        a
    } else {
        b
    }
}

/// The greater of two.
pub open spec fn max2(a: int, b: int) -> int {
    if a > b {
        a
    } else {
        b
    }
}

/// Whether the channels lie in their ranges.
pub open spec fn valid(v: ColorView) -> bool {
    &&& 0 <= v.red <= 255 * scale()
    &&& 0 <= v.green <= 255 * scale()
    &&& 0 <= v.blue <= 255 * scale()
    &&& 0 <= v.hue < 360 * scale()
    &&& 0 <= v.saturation <= scale()
    &&& 0 <= v.lightness <= scale()
    &&& 0 <= v.alpha <= scale()
}

/// One of red (`n` = 0), green (`n` = 8) and blue (`n` = 4), from 0 to 255, of
/// the color with hue `h`, saturation `s` and lightness `l`. With `k` the
/// place of the channel on the color wheel, in twelfths of the circle, the
/// channel is `l - a * max(-1, min(k - 3, 9 - k, 1))`, where
/// `a = s * min(l, 1 - l)`.
pub open spec fn hsl_channel(n: int, h: int, s: int, l: int) -> int {
    let k = (n * scale() + h / 30) % (12 * scale());
    let a = s * min2(l, scale() - l) / scale();
    let t = clamp(min2(k - 3 * scale(), 9 * scale() - k), -scale(), scale());
    (l - trunc_div(a * t, scale())) * 255
}

/// The color with the given hue, saturation, lightness and alpha: the hue is
/// taken modulo 360, the others are clamped to `[0, 1]`.
pub open spec fn hsla_view(h: int, s: int, l: int, a: int) -> ColorView {
    let hue = h % (360 * scale());
    let saturation = clamp(s, 0, scale());
    let lightness = clamp(l, 0, scale());
    ColorView {
        red: hsl_channel(0, hue, saturation, lightness),
        green: hsl_channel(8, hue, saturation, lightness),
        blue: hsl_channel(4, hue, saturation, lightness),
        hue,
        saturation,
        lightness,
        alpha: clamp(a, 0, scale()),
    }
}

/// The hue, in degrees, of the color with red `r`, green `g` and blue `b`,
/// each from 0 to 255.
pub open spec fn rgb_hue(r: int, g: int, b: int) -> int {
    let high = max2(r, max2(g, b));
    let d = high - min2(r, min2(g, b));
    if d == 0 {
        0
    } else if high == r {
        trunc_div(60 * scale() * (g - b), d) % (360 * scale())
    } else if high == g {
        trunc_div(60 * scale() * (b - r), d) + 120 * scale()
    } else {
        trunc_div(60 * scale() * (r - g), d) + 240 * scale()
    }
}

/// The saturation, from 0 to 1, of the color with red `r`, green `g` and
/// blue `b`.
pub open spec fn rgb_saturation(r: int, g: int, b: int) -> int {
    let high = max2(r, max2(g, b));
    let low = min2(r, min2(g, b));
    let sum = high + low;
    if high == low {
        0
    } else if sum <= 255 * scale() {
        (high - low) * scale() / sum
    } else {
        (high - low) * scale() / (510 * scale() - sum)
    }
}

/// The lightness, from 0 to 1, of the color with red `r`, green `g` and
/// blue `b`.
pub open spec fn rgb_lightness(r: int, g: int, b: int) -> int {
    (max2(r, max2(g, b)) + min2(r, min2(g, b))) / 510
}

/// The color with the given red, green, blue and alpha: red, green and blue
/// are clamped to `[0, 255]`, alpha to `[0, 1]`.
pub open spec fn rgba_view(r: int, g: int, b: int, a: int) -> ColorView {
    let red = clamp(r, 0, 255 * scale());
    let green = clamp(g, 0, 255 * scale());
    let blue = clamp(b, 0, 255 * scale());
    ColorView {
        red,
        green,
        blue,
        hue: rgb_hue(red, green, blue),
        saturation: rgb_saturation(red, green, blue),
        lightness: rgb_lightness(red, green, blue),
        alpha: clamp(a, 0, scale()),
    }
}

/// A channel `c` of red, green or blue mixed with its inverse `255 - c`, of
/// which the result takes the share `w`, from 0 to 1.
pub open spec fn mix_channel(c: int, w: int) -> int {
    (255 * scale() - c) * w / scale() + c * (scale() - w) / scale()
}

/// The color `v` with its hue turned by `degrees`.
pub open spec fn hue_adjusted(v: ColorView, degrees: int) -> ColorView {
    hsla_view(v.hue + degrees, v.saturation, v.lightness, v.alpha)
}

/// The color `v` with `amount` added to its lightness.
pub open spec fn lightened(v: ColorView, amount: int) -> ColorView {
    hsla_view(v.hue, v.saturation, v.lightness + amount, v.alpha)
}

/// The color `v` with `amount` added to its saturation.
pub open spec fn saturated(v: ColorView, amount: int) -> ColorView {
    hsla_view(v.hue, v.saturation + amount, v.lightness, v.alpha)
}

/// The color `v` mixed with its inverse, of which the result takes the share
/// `weight`, clamped to `[0, 1]`. With no share of the inverse the color stays
/// as it is.
pub open spec fn inverted(v: ColorView, weight: int) -> ColorView {
    let w = clamp(weight, 0, scale());
    if w == 0 {
        v
    } else {
        rgba_view(mix_channel(v.red, w), mix_channel(v.green, w), mix_channel(v.blue, w), v.alpha)
    }
}

/// A channel from 0 to 255 rounded to a whole number, halves upward.
pub open spec fn rounded(c: int) -> int {
    (c + scale() / 2) / scale()
}

/// The color as CSS writes it: `#rrggbb` where it is opaque, else
/// `rgba(r, g, b, a)`, with red, green and blue rounded to whole numbers.
pub open spec fn color_text(v: ColorView) -> Seq<char> {
    if v.alpha == scale() {
        seq!['#'] + hex_text(rounded(v.red)) + hex_text(rounded(v.green)) + hex_text(
            rounded(v.blue),
        )
    } else {
        "rgba("@ + nat_text(rounded(v.red) as nat) + ", "@ + nat_text(rounded(v.green) as nat)
            + ", "@ + nat_text(rounded(v.blue) as nat) + ", "@ + number_text(v.alpha) + ")"@
    }
}

/// Two colors are the same color when they agree in red, green, blue and
/// alpha.
pub open spec fn same_color(a: ColorView, b: ColorView) -> bool {
    a.red == b.red && a.green == b.green && a.blue == b.blue && a.alpha == b.alpha
}

/// Inverting a color twice with all the weight gives back its red, green,
/// blue and alpha.
pub proof fn lemma_invert_twice(v: ColorView)
    requires
        valid(v),
    ensures
        same_color(inverted(inverted(v, scale()), scale()), v),
{
}

proof fn lemma_product_bounds(a: int, b: int, x: int, y: int)
    requires
        0 <= a <= x,
        0 <= b <= y,
    ensures
        0 <= a * b <= x * y,
{
    assert(0 <= a * b <= x * y) by (nonlinear_arith)
        requires
            0 <= a <= x,
            0 <= b <= y,
    ;
}

/// A quotient is at most `k` where the dividend is at most `k` times the
/// divisor.
proof fn lemma_quotient_bound(x: int, d: int, k: int)
    requires
        d > 0,
        0 <= x <= k * d,
    ensures
        0 <= x / d <= k,
{
    assert(0 <= x / d <= k) by (nonlinear_arith)
        requires
            d > 0,
            0 <= x <= k * d,
    ;
}

/// A color.
#[derive(Copy, Clone, Debug)]
pub struct Color {
    red: i128,
    green: i128,
    blue: i128,
    hue: i128,
    saturation: i128,
    lightness: i128,
    alpha: i128,
}

impl View for Color {
    type V = ColorView;

    closed spec fn view(&self) -> ColorView {
        ColorView {
            red: self.red as int,
            green: self.green as int,
            blue: self.blue as int,
            hue: self.hue as int,
            saturation: self.saturation as int,
            lightness: self.lightness as int,
            alpha: self.alpha as int,
        }
    }
}

const ONE: i128 = 10_000_000_000;

const FULL: i128 = 2_550_000_000_000;

const TURN: i128 = 3_600_000_000_000;

fn clamp_units(x: i128, low: i128, high: i128) -> (r: i128)
    ensures
        r == clamp(x as int, low as int, high as int),
{
    if x < low {
        low
    } else if x > high {
        high
    } else {
        x
    }
}

/// An angle in degrees brought into the full circle, from 0 up to 360.
fn wrap_angle(x: i128) -> (r: i128)
    ensures
        r == (x as int) % (360 * scale()),
{
    let r = x % TURN;
    if r < 0 {
        r + TURN
    } else {
        r
    }
}

fn channel(n: i128, h: i128, s: i128, l: i128) -> (c: i128)
    requires
        0 <= n <= 8,
        0 <= h < 360 * scale(),
        0 <= s <= scale(),
        0 <= l <= scale(),
    ensures
        c == hsl_channel(n as int, h as int, s as int, l as int),
        0 <= c <= 255 * scale(),
{
    let k = (n * ONE + h / 30) % (12 * ONE);
    let m = if l < ONE - l {
        l
    } else {
        ONE - l
    };
    proof {
        lemma_product_bounds(s as int, m as int, scale(), scale());
        lemma_product_bounds(m as int, s as int, m as int, scale());
        assert(s * m == m * s) by (nonlinear_arith);
        lemma_quotient_bound(s * m, scale(), m as int);
    }
    let a = s * m / ONE;
    let x = k - 3 * ONE;
    let y = 9 * ONE - k;
    let t = clamp_units(if x < y { x } else { y }, -ONE, ONE);
    proof {
        if t >= 0 {
            lemma_product_bounds(a as int, t as int, a as int, scale());
        } else {
            lemma_product_bounds(a as int, -t as int, a as int, scale());
            assert(a * t == -(a * (-t))) by (nonlinear_arith);
        }
    }
    let q = a * t / ONE;
    (l - q) * 255
}

/// Sixty times `x / d`, for an `x` between `-d` and `d`.
fn sixty_times(x: i128, d: i128) -> (q: i128)
    requires
        0 < d <= 255 * scale(),
        -d <= x <= d,
    ensures
        q == trunc_div(60 * scale() * x, d as int),
        -60 * scale() <= q <= 60 * scale(),
{
    let p = 60 * ONE * x;
    proof {
        if p >= 0 {
            lemma_quotient_bound(p as int, d as int, 60 * scale());
        } else {
            lemma_quotient_bound(-p as int, d as int, 60 * scale());
        }
    }
    p / d
}

fn hue_of(r: i128, g: i128, b: i128) -> (h: i128)
    requires
        0 <= r <= 255 * scale(),
        0 <= g <= 255 * scale(),
        0 <= b <= 255 * scale(),
    ensures
        h == rgb_hue(r as int, g as int, b as int),
        0 <= h < 360 * scale(),
{
    let high = if g > b { if r > g { r } else { g } } else { if r > b { r } else { b } };
    let low = if g < b { if r < g { r } else { g } } else { if r < b { r } else { b } };
    let d = high - low;
    if d == 0 {
        0
    } else if high == r {
        wrap_angle(sixty_times(g - b, d))
    } else if high == g {
        sixty_times(b - r, d) + 120 * ONE
    } else {
        sixty_times(r - g, d) + 240 * ONE
    }
}

fn saturation_of(r: i128, g: i128, b: i128) -> (s: i128)
    requires
        0 <= r <= 255 * scale(),
        0 <= g <= 255 * scale(),
        0 <= b <= 255 * scale(),
    ensures
        s == rgb_saturation(r as int, g as int, b as int),
        0 <= s <= scale(),
{
    let high = if g > b { if r > g { r } else { g } } else { if r > b { r } else { b } };
    let low = if g < b { if r < g { r } else { g } } else { if r < b { r } else { b } };
    let sum = high + low;
    if high == low {
        0
    } else if sum <= FULL {
        proof {
            lemma_quotient_bound((high - low) * scale(), sum as int, scale());
        }
        (high - low) * ONE / sum
    } else {
        proof {
            lemma_quotient_bound((high - low) * scale(), 510 * scale() - sum, scale());
        }
        (high - low) * ONE / (2 * FULL - sum)
    }
}

fn lightness_of(r: i128, g: i128, b: i128) -> (l: i128)
    requires
        0 <= r <= 255 * scale(),
        0 <= g <= 255 * scale(),
        0 <= b <= 255 * scale(),
    ensures
        l == rgb_lightness(r as int, g as int, b as int),
        0 <= l <= scale(),
{
    let high = if g > b { if r > g { r } else { g } } else { if r > b { r } else { b } };
    let low = if g < b { if r < g { r } else { g } } else { if r < b { r } else { b } };
    (high + low) / 510
}

fn mix(c: i128, w: i128) -> (r: i128)
    requires
        0 <= c <= 255 * scale(),
        0 <= w <= scale(),
    ensures
        r == mix_channel(c as int, w as int),
{
    proof {
        lemma_product_bounds(255 * scale() - c, w as int, 255 * scale(), scale());
        lemma_product_bounds(c as int, scale() - w, 255 * scale(), scale());
    }
    (FULL - c) * w / ONE + c * (ONE - w) / ONE
}

/// A channel from 0 to 255 as a whole number.
fn round_channel(c: i128) -> (r: u8)
    requires
        0 <= c <= 255 * scale(),
    ensures
        r == rounded(c as int),
{
    ((c + ONE / 2) / ONE) as u8
}

impl Color {
    /// Whether the channels lie in their ranges. This holds of every color.
    #[verifier::type_invariant]
    pub closed spec fn well_formed(self) -> bool {
        valid(self@)
    }

    /// The color with the given hue in degrees, and saturation, lightness and
    /// alpha as fractions. The hue is taken modulo 360, the others are
    /// clamped to `[0, 1]`.
    pub fn from_hsla(hue: Number, saturation: Number, lightness: Number, alpha: Number) -> (c:
        Color)
        ensures
            c@ == hsla_view(hue@, saturation@, lightness@, alpha@),
    {
        let h = wrap_angle(hue.units);
        let s = clamp_units(saturation.units, 0, ONE);
        let l = clamp_units(lightness.units, 0, ONE);
        let a = clamp_units(alpha.units, 0, ONE);
        Color {
            red: channel(0, h, s, l),
            green: channel(8, h, s, l),
            blue: channel(4, h, s, l),
            hue: h,
            saturation: s,
            lightness: l,
            alpha: a,
        }
    }

    /// The color with the given red, green and blue, from 0 to 255, and alpha
    /// as a fraction. Each is clamped to its range.
    pub fn from_rgba(red: Number, green: Number, blue: Number, alpha: Number) -> (c: Color)
        ensures
            c@ == rgba_view(red@, green@, blue@, alpha@),
    {
        let r = clamp_units(red.units, 0, FULL);
        let g = clamp_units(green.units, 0, FULL);
        let b = clamp_units(blue.units, 0, FULL);
        Color {
            red: r,
            green: g,
            blue: b,
            hue: hue_of(r, g, b),
            saturation: saturation_of(r, g, b),
            lightness: lightness_of(r, g, b),
            alpha: clamp_units(alpha.units, 0, ONE),
        }
    }

    /// The red channel, from 0 to 255.
    pub fn red(&self) -> (n: Number)
        ensures
            n@ == self@.red,
            0 <= n@ <= 255 * scale(),
    {
        proof {
            use_type_invariant(self);
        }
        Number { units: self.red }
    }

    /// The green channel, from 0 to 255.
    pub fn green(&self) -> (n: Number)
        ensures
            n@ == self@.green,
            0 <= n@ <= 255 * scale(),
    {
        proof {
            use_type_invariant(self);
        }
        Number { units: self.green }
    }

    /// The blue channel, from 0 to 255.
    pub fn blue(&self) -> (n: Number)
        ensures
            n@ == self@.blue,
            0 <= n@ <= 255 * scale(),
    {
        proof {
            use_type_invariant(self);
        }
        Number { units: self.blue }
    }

    /// The alpha channel, from 0 to 1.
    pub fn alpha(&self) -> (n: Number)
        ensures
            n@ == self@.alpha,
            0 <= n@ <= scale(),
    {
        proof {
            use_type_invariant(self);
        }
        Number { units: self.alpha }
    }

    /// The hue in degrees, from 0 up to but not including 360.
    pub fn hue(&self) -> (n: Number)
        ensures
            n@ == self@.hue,
            0 <= n@ < 360 * scale(),
    {
        proof {
            use_type_invariant(self);
        }
        Number { units: self.hue }
    }

    /// The saturation as a percentage, from 0 to 100.
    pub fn saturation(&self) -> (n: Number)
        ensures
            n@ == self@.saturation * 100,
            0 <= n@ <= 100 * scale(),
    {
        proof {
            use_type_invariant(self);
        }
        Number { units: self.saturation * 100 }
    }

    /// The lightness as a percentage, from 0 to 100.
    pub fn lightness(&self) -> (n: Number)
        ensures
            n@ == self@.lightness * 100,
            0 <= n@ <= 100 * scale(),
    {
        proof {
            use_type_invariant(self);
        }
        Number { units: self.lightness * 100 }
    }

    /// The color with its hue turned by `degrees`.
    pub fn adjust_hue(&self, degrees: Number) -> (c: Color)
        ensures
            c@ == hue_adjusted(self@, degrees@),
    {
        proof {
            use_type_invariant(self);
            lemma_add_mod_noop_right(self.hue as int, degrees@, 360 * scale());
        }
        let turned = Number { units: self.hue + wrap_angle(degrees.units) };
        Color::from_hsla(
            turned,
            Number { units: self.saturation },
            Number { units: self.lightness },
            Number { units: self.alpha },
        )
    }

    /// The color made lighter by `amount`, a fraction of the whole range.
    pub fn lighten(&self, amount: Number) -> (c: Color)
        ensures
            c@ == lightened(self@, amount@),
    {
        proof {
            use_type_invariant(self);
        }
        let l = Number { units: self.lightness + clamp_units(amount.units, -ONE, ONE) };
        Color::from_hsla(
            Number { units: self.hue },
            Number { units: self.saturation },
            l,
            Number { units: self.alpha },
        )
    }

    /// The color made darker by `amount`, a fraction of the whole range.
    pub fn darken(&self, amount: Number) -> (c: Color)
        ensures
            c@ == lightened(self@, -amount@),
    {
        proof {
            use_type_invariant(self);
        }
        let l = Number { units: self.lightness - clamp_units(amount.units, -ONE, ONE) };
        Color::from_hsla(
            Number { units: self.hue },
            Number { units: self.saturation },
            l,
            Number { units: self.alpha },
        )
    }

    /// The color made more saturated by `amount`, a fraction of the whole
    /// range.
    pub fn saturate(&self, amount: Number) -> (c: Color)
        ensures
            c@ == saturated(self@, amount@),
    {
        proof {
            use_type_invariant(self);
        }
        let s = Number { units: self.saturation + clamp_units(amount.units, -ONE, ONE) };
        Color::from_hsla(
            Number { units: self.hue },
            s,
            Number { units: self.lightness },
            Number { units: self.alpha },
        )
    }

    /// The color made less saturated by `amount`, a fraction of the whole
    /// range.
    pub fn desaturate(&self, amount: Number) -> (c: Color)
        ensures
            c@ == saturated(self@, -amount@),
    {
        proof {
            use_type_invariant(self);
        }
        let s = Number { units: self.saturation - clamp_units(amount.units, -ONE, ONE) };
        Color::from_hsla(
            Number { units: self.hue },
            s,
            Number { units: self.lightness },
            Number { units: self.alpha },
        )
    }

    /// The color on the other side of the color wheel.
    pub fn complement(&self) -> (c: Color)
        ensures
            c@ == hue_adjusted(self@, 180 * scale()),
    {
        self.adjust_hue(Number { units: 180 * ONE })
    }

    /// The color mixed with its inverse, of which the result takes the share
    /// `weight`, clamped to `[0, 1]`.
    pub fn invert(&self, weight: Number) -> (c: Color)
        ensures
            c@ == inverted(self@, weight@),
    {
        proof {
            use_type_invariant(self);
        }
        let w = clamp_units(weight.units, 0, ONE);
        if w == 0 {
            return *self;
        }
        Color::from_rgba(
            Number { units: mix(self.red, w) },
            Number { units: mix(self.green, w) },
            Number { units: mix(self.blue, w) },
            Number { units: self.alpha },
        )
    }

    /// Whether the two are the same color.
    pub fn equals(&self, other: &Color) -> (r: bool)
        ensures
            r == same_color(self@, other@),
    {
        self.red == other.red && self.green == other.green && self.blue == other.blue
            && self.alpha == other.alpha
    }

    /// The color as CSS writes it.
    pub fn to_string(&self) -> (s: String)
        ensures
            s@ == color_text(self@),
    {
        proof {
            use_type_invariant(self);
        }
        let r = round_channel(self.red);
        let g = round_channel(self.green);
        let b = round_channel(self.blue);
        if self.alpha == ONE {
            proof {
                reveal_strlit("#");
            }
            let mut s = String::from_str("#");
            append_hex(&mut s, r);
            append_hex(&mut s, g);
            append_hex(&mut s, b);
            assert(s@ =~= color_text(self@));
            s
        } else {
            let mut s = String::from_str("rgba(");
            append_nat(&mut s, r as u128);
            s.append(", ");
            append_nat(&mut s, g as u128);
            s.append(", ");
            append_nat(&mut s, b as u128);
            s.append(", ");
            let alpha = Number { units: self.alpha }.to_string();
            s.append(alpha.as_str());
            s.append(")");
            assert(s@ =~= color_text(self@));
            s
        }
    }
}

impl vstd::std_specs::cmp::PartialEqSpecImpl for Color {
    open spec fn obeys_eq_spec() -> bool {
        true
    }

    open spec fn eq_spec(&self, other: &Color) -> bool {
        same_color(self@, other@)
    }
}

impl PartialEq for Color {
    /// Whether the two are the same color.
    fn eq(&self, other: &Color) -> (r: bool) {
        self.equals(other)
    }
}

} // verus!
