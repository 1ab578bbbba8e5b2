//! What survives when a color goes from hue, saturation and lightness to red,
//! green and blue and back, and the other way round. Every channel is held to
//! ten decimal places, so each way rounds; the laws here say by how much.

use crate::color::{
    clamp, hsl_channel, hsla_view, lemma_product_bounds, lemma_quotient_bound, lightened, max2,
    min2, rgb_hue, rgb_lightness, rgb_saturation, rgba_view, same_color, valid, ColorView,
};
use crate::value::number::{scale, trunc_div};
use vstd::arithmetic::div_mod::{
    lemma_div_multiples_vanish_quotient, lemma_fundamental_div_mod,
    lemma_fundamental_div_mod_converse, lemma_mod_bound,
};
use vstd::prelude::*;

verus! {

/// How far red, green and blue of the color with saturation `s` and
/// lightness `l` lie from its lightness, at most.
pub open spec fn chroma(s: int, l: int) -> int {
    s * min2(l, scale() - l) / scale()
}

/// A channel of a color lies within its chroma of its lightness, below it
/// by the whole chroma in the middle third of its wheel, above it by the
/// whole chroma on the far third.
proof fn lemma_channel_range(n: int, h: int, s: int, l: int)
    requires
        0 <= n <= 8,
        0 <= h < 360 * scale(),
        0 <= s <= scale(),
        0 <= l <= scale(),
    ensures
        0 <= chroma(s, l) <= min2(l, scale() - l),
        (l - chroma(s, l)) * 255 <= hsl_channel(n, h, s, l) <= (l + chroma(s, l)) * 255,
        ({
            let k = (n * scale() + h / 30) % (12 * scale());
            &&& 4 * scale() <= k <= 8 * scale() ==> hsl_channel(n, h, s, l) == (l - chroma(s, l))
                * 255
            &&& (k <= 2 * scale() || k >= 10 * scale()) ==> hsl_channel(n, h, s, l) == (l
                + chroma(s, l)) * 255
        }),
{
    let m = min2(l, scale() - l);
    lemma_product_bounds(m, s, m, scale());
    assert(s * m == m * s) by (nonlinear_arith);
    lemma_quotient_bound(s * m, scale(), m);
    let a = chroma(s, l);
    let k = (n * scale() + h / 30) % (12 * scale());
    let t = clamp(min2(k - 3 * scale(), 9 * scale() - k), -scale(), scale());
    if t >= 0 {
        lemma_product_bounds(a, t, a, scale());
    } else {
        lemma_product_bounds(a, -t, a, scale());
        assert(a * t == -(a * (-t))) by (nonlinear_arith);
    }
    if t == scale() {
        assert(a * t == a * scale());
    }
    if t == -scale() {
        assert(a * t == -(a * scale())) by (nonlinear_arith)
            requires
                t == -scale(),
        ;
    }
}

/// The lightness of a color made from hue, saturation and lightness is the
/// lightness of its red, green and blue, exactly: it survives the way
/// through red, green and blue and back.
pub proof fn law_lightness_survives(h: int, s: int, l: int, a: int)
    ensures
        ({
            let v = hsla_view(h, s, l, a);
            &&& valid(v)
            &&& rgba_view(v.red, v.green, v.blue, v.alpha).lightness == v.lightness
            &&& same_color(rgba_view(v.red, v.green, v.blue, v.alpha), v)
        }),
{
    let v = hsla_view(h, s, l, a);
    lemma_channel_range(0, v.hue, v.saturation, v.lightness);
    lemma_channel_range(8, v.hue, v.saturation, v.lightness);
    lemma_channel_range(4, v.hue, v.saturation, v.lightness);
}

/// The saturation of a color made from hue, saturation and lightness comes
/// back from its red, green and blue no larger than it was, and smaller by
/// little. With `m` the lesser of the lightness and what it lacks to 1, and
/// with the loss `d` and `m` both counted in ten-billionths,
/// `(d - 1) * m < 10^10`: at half lightness the saturation loses at most
/// three ten-billionths. The loss grows as the color nears black or white,
/// where red, green and blue have little room to tell saturations apart.
pub proof fn law_saturation_survives(h: int, s: int, l: int, a: int)
    ensures
        ({
            let v = hsla_view(h, s, l, a);
            let back = rgba_view(v.red, v.green, v.blue, v.alpha).saturation;
            let m = min2(v.lightness, scale() - v.lightness);
            &&& 0 <= back <= v.saturation
            &&& (v.saturation - back - 1) * m < scale()
        }),
{
    let v = hsla_view(h, s, l, a);
    lemma_channel_range(0, v.hue, v.saturation, v.lightness);
    lemma_channel_range(8, v.hue, v.saturation, v.lightness);
    lemma_channel_range(4, v.hue, v.saturation, v.lightness);
    let m = min2(v.lightness, scale() - v.lightness);
    let c = chroma(v.saturation, v.lightness);
    let back = rgb_saturation(v.red, v.green, v.blue);
    let high = max2(v.red, max2(v.green, v.blue));
    let low = min2(v.red, min2(v.green, v.blue));
    lemma_places(v.hue / 30);
    assert(high == (v.lightness + c) * 255);
    assert(low == (v.lightness - c) * 255);
    if c == 0 {
        assert(back == 0);
        assert((v.saturation - back - 1) * m < scale()) by (nonlinear_arith)
            requires
                v.saturation * m < scale(),
                back == 0,
                m >= 0,
                v.saturation >= 0,
        ;
    } else {
        let x = 510 * c * scale();
        let d = 510 * m;
        assert(back == x / d);
        lemma_fundamental_div_mod(x, d);
        lemma_mod_bound(x, d);
        assert(back * m <= c * scale() < (back + 1) * m) by (nonlinear_arith)
            requires
                x == d * back + x % d,
                0 <= x % d < d,
                x == 510 * c * scale(),
                d == 510 * m,
        ;
        assert(c * scale() <= v.saturation * m < c * scale() + scale());
        assert(back <= v.saturation && (v.saturation - back - 1) * m < scale() && back >= 0)
            by (nonlinear_arith)
            requires
                back * m <= c * scale() < (back + 1) * m,
                c * scale() <= v.saturation * m < c * scale() + scale(),
                m > 0,
                c > 0,
        ;
    }
}

/// How far apart two angles in degrees are on the circle.
pub open spec fn turn_distance(x: int, y: int) -> int {
    min2((x - y) % (360 * scale()), (y - x) % (360 * scale()))
}

/// Where a channel stands between the lowest and the highest, from -1 for
/// the highest to 1 for the lowest: `n` is 0 for red, 8 for green and 4 for
/// blue, and `q` is the hue in twelfths of the circle.
pub open spec fn place(n: int, q: int) -> int {
    let k = (n * scale() + q) % (12 * scale());
    clamp(min2(k - 3 * scale(), 9 * scale() - k), -scale(), scale())
}

/// Where red, green and blue stand in each sixth of the circle: one is the
/// highest, one the lowest, and the third moves from the one to the other.
proof fn lemma_places(q: int)
    requires
        0 <= q < 12 * scale(),
    ensures
        q <= 2 * scale() ==> place(0, q) == -scale() && place(4, q) == scale() && place(8, q)
            == scale() - q,
        2 * scale() <= q <= 4 * scale() ==> place(8, q) == -scale() && place(4, q) == scale()
            && place(0, q) == q - 3 * scale(),
        4 * scale() <= q <= 6 * scale() ==> place(8, q) == -scale() && place(0, q) == scale()
            && place(4, q) == 5 * scale() - q,
        6 * scale() <= q <= 8 * scale() ==> place(4, q) == -scale() && place(0, q) == scale()
            && place(8, q) == q - 7 * scale(),
        8 * scale() <= q <= 10 * scale() ==> place(4, q) == -scale() && place(8, q) == scale()
            && place(0, q) == 9 * scale() - q,
        10 * scale() <= q ==> place(0, q) == -scale() && place(8, q) == scale() && place(4, q)
            == q - 11 * scale(),
{
    let big = scale();
    let k0 = (0 * big + q) % (12 * big);
    let k8 = (8 * big + q) % (12 * big);
    let k4 = (4 * big + q) % (12 * big);
    let turn = 12 * big;
    lemma_fundamental_div_mod_converse(0 * big + q, turn, 0, q);
    if q < 8 * big {
        lemma_fundamental_div_mod_converse(4 * big + q, turn, 0, q + 4 * big);
    } else {
        lemma_fundamental_div_mod_converse(4 * big + q, turn, 1, q - 8 * big);
    }
    if q < 4 * big {
        lemma_fundamental_div_mod_converse(8 * big + q, turn, 0, q + 8 * big);
    } else {
        lemma_fundamental_div_mod_converse(8 * big + q, turn, 1, q - 4 * big);
    }
    assert(k0 == q);
    assert(k4 == if q < 8 * big {
        q + 4 * big
    } else {
        q - 8 * big
    });
    assert(k8 == if q < 4 * big {
        q + 8 * big
    } else {
        q - 4 * big
    });
}

/// What a channel at the place `t` lies below the lightness, the chroma
/// being `c`.
pub open spec fn drop_of(c: int, t: int) -> int {
    trunc_div(c * t, scale())
}

/// Sixty degrees times the share `(c - e) / (2 * c)`, for a channel that lies
/// `e` below the lightness.
pub open spec fn sixth(c: int, e: int) -> int {
    trunc_div(30 * scale() * (c - e), c)
}

/// A channel lies at most the chroma from the lightness, and by the whole
/// chroma only at the two ends.
proof fn lemma_drop(c: int, t: int)
    requires
        c > 0,
        -scale() <= t <= scale(),
    ensures
        -c <= drop_of(c, t) <= c,
        -scale() < c * t - drop_of(c, t) * scale() < scale(),
        drop_of(c, t) == -c <==> t == -scale(),
        drop_of(c, t) == c <==> t == scale(),
{
    let p = c * t;
    assert(-c * scale() <= p <= c * scale()) by (nonlinear_arith)
        requires
            p == c * t,
            c > 0,
            -scale() <= t <= scale(),
    ;
    if t > -scale() {
        assert(p > -c * scale()) by (nonlinear_arith)
            requires
                p == c * t,
                c > 0,
                t > -scale(),
        ;
    } else {
        assert(p == -c * scale()) by (nonlinear_arith)
            requires
                p == c * t,
                t == -scale(),
        ;
    }
    if t < scale() {
        assert(p < c * scale()) by (nonlinear_arith)
            requires
                p == c * t,
                c > 0,
                t < scale(),
        ;
    } else {
        assert(p == c * scale()) by (nonlinear_arith)
            requires
                p == c * t,
                t == scale(),
        ;
    }
}

/// Sixty degrees times the share of a channel at the place `t` is within
/// `30 / c + 1` of `30 * (1 - t)`.
proof fn lemma_sixth(c: int, t: int)
    requires
        c > 0,
        -scale() <= t <= scale(),
    ensures
        0 <= sixth(c, drop_of(c, t)) <= 60 * scale(),
        trunc_div(30 * scale() * (drop_of(c, t) - c), c) == -sixth(c, drop_of(c, t)),
        (sixth(c, drop_of(c, t)) - 30 * (scale() - t)) * c < 30 * scale() + c,
        (30 * (scale() - t) - sixth(c, drop_of(c, t))) * c < 30 * scale() + c,
{
    lemma_drop(c, t);
    let p = c * t;
    let e = drop_of(c, t);
    let x = 30 * scale() * (c - e);
    assert(0 <= x <= 60 * scale() * c) by (nonlinear_arith)
        requires
            x == 30 * scale() * (c - e),
            -c <= e <= c,
    ;
    let y = x / c;
    lemma_fundamental_div_mod(x, c);
    lemma_mod_bound(x, c);
    let r = x % c;
    assert(x == c * y + r);
    assert(0 <= y <= 60 * scale()) by (nonlinear_arith)
        requires
            x == c * y + r,
            0 <= r < c,
            0 <= x <= 60 * scale() * c,
    ;
    assert(sixth(c, e) == y);
    assert(30 * scale() * (e - c) == -x) by (nonlinear_arith)
        requires
            x == 30 * scale() * (c - e),
    ;
    assert(trunc_div(-x, c) == -y);
    assert((y - 30 * (scale() - t)) * c == 30 * (p - e * scale()) - r) by (nonlinear_arith)
        requires
            x == c * y + r,
            x == 30 * scale() * (c - e),
            p == c * t,
    ;
    assert((30 * (scale() - t) - y) * c == r - 30 * (p - e * scale())) by (nonlinear_arith)
        requires
            (y - 30 * (scale() - t)) * c == 30 * (p - e * scale()) - r,
    ;
}

/// The quotient of sixty times the difference of two channels by the
/// distance `510 * c` from the lowest channel to the highest, the two
/// channels lying `e2` and `e1` below the lightness.
proof fn lemma_hue_quotient(e1: int, e2: int, c: int)
    requires
        c > 0,
    ensures
        trunc_div(60 * scale() * ((e1 - e2) * 255), 510 * c) == trunc_div(
            30 * scale() * (e1 - e2),
            c,
        ),
{
    let x = 30 * scale() * (e1 - e2);
    assert(60 * scale() * ((e1 - e2) * 255) == 510 * x) by (nonlinear_arith)
        requires
            x == 30 * scale() * (e1 - e2),
    ;
    if x >= 0 {
        lemma_div_multiples_vanish_quotient(510, x, c);
    } else {
        lemma_div_multiples_vanish_quotient(510, -x, c);
        assert(-(510 * x) == 510 * (-x));
    }
}

/// The hue of red, green and blue that lie `e0`, `e8` and `e4` below the
/// lightness, of which one lies the whole chroma `c` above it and one the
/// whole chroma below.
proof fn lemma_hue_of_drops(light: int, c: int, e0: int, e8: int, e4: int)
    requires
        c > 0,
        -c <= e0 <= c,
        -c <= e8 <= c,
        -c <= e4 <= c,
        e0 == -c || e8 == -c || e4 == -c,
        e0 == c || e8 == c || e4 == c,
    ensures
        rgb_hue((light - e0) * 255, (light - e8) * 255, (light - e4) * 255) == if e0 == -c {
            trunc_div(30 * scale() * (e4 - e8), c) % (360 * scale())
        } else if e8 == -c {
            trunc_div(30 * scale() * (e0 - e4), c) + 120 * scale()
        } else {
            trunc_div(30 * scale() * (e8 - e0), c) + 240 * scale()
        },
{
    let r = (light - e0) * 255;
    let g = (light - e8) * 255;
    let b = (light - e4) * 255;
    let high = max2(r, max2(g, b));
    let low = min2(r, min2(g, b));
    assert(high == (light + c) * 255);
    assert(low == (light - c) * 255);
    assert(high - low == 510 * c);
    lemma_hue_quotient(e4, e8, c);
    lemma_hue_quotient(e0, e4, c);
    lemma_hue_quotient(e8, e0, c);
    assert(g - b == (e4 - e8) * 255);
    assert(b - r == (e0 - e4) * 255);
    assert(r - g == (e8 - e0) * 255);
}

/// By how much the hue that comes back from red, green and blue misses
/// thirty times `q`, the hue in twelfths of the circle, up to whole turns.
proof fn lemma_hue_miss(light: int, c: int, q: int) -> (miss: int)
    requires
        c > 0,
        0 <= q < 12 * scale(),
    ensures
        ({
            let back = rgb_hue(
                (light - drop_of(c, place(0, q))) * 255,
                (light - drop_of(c, place(8, q))) * 255,
                (light - drop_of(c, place(4, q))) * 255,
            );
            &&& 0 <= back < 360 * scale()
            &&& (back - 30 * q - miss) % (360 * scale()) == 0
            &&& miss * c < 30 * scale() + c
            &&& -miss * c < 30 * scale() + c
        }),
{
    let big = scale();
    let t0 = place(0, q);
    let t8 = place(8, q);
    let t4 = place(4, q);
    let e0 = drop_of(c, t0);
    let e8 = drop_of(c, t8);
    let e4 = drop_of(c, t4);
    lemma_drop(c, t0);
    lemma_drop(c, t8);
    lemma_drop(c, t4);
    lemma_sixth(c, t0);
    lemma_sixth(c, t8);
    lemma_sixth(c, t4);
    lemma_places(q);
    let turn = 360 * big;
    let back = rgb_hue((light - e0) * 255, (light - e8) * 255, (light - e4) * 255);
    lemma_hue_of_drops(light, c, e0, e8, e4);
    lemma_fundamental_div_mod_converse(0, turn, 0, 0);
    if q <= 2 * big {
        // red is the highest, blue the lowest, green between
        let y = sixth(c, e8);
        assert(e0 == -c && e4 == c);
        lemma_fundamental_div_mod_converse(y, turn, 0, y);
        assert(back == y);
        let miss = y - 30 * (big - t8);
        assert(back - 30 * q - miss == 0);
        miss
    } else if q <= 4 * big {
        // green is the highest, blue the lowest, red between
        let y = sixth(c, e0);
        assert(e8 == -c && e4 == c && e0 != -c);
        assert(back == -y + 120 * big);
        let miss = 30 * (big - t0) - y;
        assert(back - 30 * q - miss == 0);
        miss
    } else if q <= 6 * big {
        // green is the highest, red the lowest, blue between
        let y = sixth(c, e4);
        assert(e8 == -c && e0 == c);
        assert(back == y + 120 * big);
        let miss = y - 30 * (big - t4);
        assert(back - 30 * q - miss == 0);
        miss
    } else if q <= 8 * big {
        // blue is the highest, red the lowest, green between
        let y = sixth(c, e8);
        assert(e4 == -c && e0 == c && e8 != -c);
        assert(back == -y + 240 * big);
        let miss = 30 * (big - t8) - y;
        assert(back - 30 * q - miss == 0);
        miss
    } else if q < 10 * big {
        // blue is the highest, green the lowest, red between
        let y = sixth(c, e0);
        assert(e4 == -c && e8 == c && e0 != -c);
        assert(back == y + 240 * big);
        let miss = y - 30 * (big - t0);
        assert(back - 30 * q - miss == 0);
        miss
    } else {
        // red is the highest, green the lowest, blue between
        let y = sixth(c, e4);
        assert(e0 == -c && e8 == c);
        assert(back == (-y) % turn);
        if y > 0 {
            lemma_fundamental_div_mod_converse(-y, turn, -1, turn - y);
        }
        lemma_fundamental_div_mod_converse(-turn, turn, -1, 0);
        let miss = 30 * (big - t4) - y;
        assert(back - 30 * q - miss == 0 || back - 30 * q - miss == -turn);
        miss
    }
}

/// The hue of a color made from hue, saturation and lightness comes back
/// from its red, green and blue to a place near by on the circle. With the
/// distance `d` and the chroma `c` of the color both counted in
/// ten-billionths, `(d - 30) * c < 30 * 10^10`: at a chroma of a quarter the
/// hue comes back to within 150 ten-billionths of a degree. The more chroma a
/// color has, the better its red, green and blue tell its hue; a gray has
/// none, and its hue comes back as 0.
pub proof fn law_hue_survives(h: int, s: int, l: int, a: int)
    ensures
        ({
            let v = hsla_view(h, s, l, a);
            let back = rgba_view(v.red, v.green, v.blue, v.alpha).hue;
            let c = chroma(v.saturation, v.lightness);
            &&& 0 <= back < 360 * scale()
            &&& (turn_distance(back, v.hue) - 30) * c < 30 * scale()
            &&& c == 0 ==> back == 0
        }),
{
    let v = hsla_view(h, s, l, a);
    let big = scale();
    lemma_channel_range(0, v.hue, v.saturation, v.lightness);
    lemma_channel_range(8, v.hue, v.saturation, v.lightness);
    lemma_channel_range(4, v.hue, v.saturation, v.lightness);
    let c = chroma(v.saturation, v.lightness);
    let back = rgb_hue(v.red, v.green, v.blue);
    let q = v.hue / 30;
    if c == 0 {
        assert(back == 0);
        assert((turn_distance(back, v.hue) - 30) * c < 30 * big) by (nonlinear_arith)
            requires
                c == 0,
                big > 0,
        ;
    } else {
        assert(v.red == (v.lightness - drop_of(c, place(0, q))) * 255);
        assert(v.green == (v.lightness - drop_of(c, place(8, q))) * 255);
        assert(v.blue == (v.lightness - drop_of(c, place(4, q))) * 255);
        let miss = lemma_hue_miss(v.lightness, c, q);
        lemma_turn_distance(back, v.hue, q, miss, c);
    }
}

/// Two angles of which one misses thirty times `q` by `miss`, up to whole
/// turns, and the other by less than thirty, are near on the circle.
proof fn lemma_turn_distance(back: int, hue: int, q: int, miss: int, c: int)
    requires
        c > 0,
        0 <= hue - 30 * q <= 29,
        (back - 30 * q - miss) % (360 * scale()) == 0,
        miss * c < 30 * scale() + c,
        -miss * c < 30 * scale() + c,
    ensures
        (turn_distance(back, hue) - 30) * c < 30 * scale(),
{
    let big = scale();
    let far = if miss < 0 {
        -miss
    } else {
        miss
    };
    assert((far - 1) * c < 30 * big) by (nonlinear_arith)
        requires
            miss * c < 30 * big + c,
            -miss * c < 30 * big + c,
            far == miss || far == -miss,
    ;
    if far >= 1 {
        assert(far - 1 <= (far - 1) * c) by (nonlinear_arith)
            requires
                far >= 1,
                c >= 1,
        ;
    }
    assert(far <= 30 * big);
    let turn = 360 * big;
    let near = miss - (hue - 30 * q);
    let whole = back - 30 * q - miss;
    let k = whole / turn;
    lemma_fundamental_div_mod(whole, turn);
    assert(whole == turn * k);
    assert(-far - 29 <= near <= far);
    if near >= 0 {
        assert(back - hue == k * turn + near) by (nonlinear_arith)
            requires
                whole == turn * k,
                whole == back - 30 * q - miss,
                near == miss - (hue - 30 * q),
        ;
        lemma_fundamental_div_mod_converse(back - hue, turn, k, near);
    } else {
        assert(hue - back == (-k) * turn + (-near)) by (nonlinear_arith)
            requires
                whole == turn * k,
                whole == back - 30 * q - miss,
                near == miss - (hue - 30 * q),
        ;
        lemma_fundamental_div_mod_converse(hue - back, turn, -k, -near);
    }
    assert(turn_distance(back, hue) <= far + 29);
    assert((turn_distance(back, hue) - 30) * c < 30 * big) by (nonlinear_arith)
        requires
            turn_distance(back, hue) <= far + 29,
            (far - 1) * c < 30 * big,
            c > 0,
    ;
}

/// The lightness and the chroma that are found for red, green and blue
/// give back, nearly, the sum and the distance of the highest channel `high`
/// and the lowest `low`.
proof fn lemma_chroma_near(high: int, low: int)
    requires
        0 <= low < high <= 255 * scale(),
    ensures
        ({
            let sum = high + low;
            let d = high - low;
            let l = sum / 510;
            let room = if sum <= 255 * scale() {
                sum
            } else {
                510 * scale() - sum
            };
            let s = d * scale() / room;
            let c = chroma(s, l);
            &&& 0 <= l <= scale()
            &&& 0 <= s <= scale()
            &&& sum - 509 <= 510 * l <= sum
            &&& 0 <= c
            &&& d - 1274 < 510 * c <= d + 509
        }),
{
    let big = scale();
    let sum = high + low;
    let d = high - low;
    let l = sum / 510;
    let room = if sum <= 255 * big {
        sum
    } else {
        510 * big - sum
    };
    assert(0 < d <= room <= 255 * big);
    let x = d * big;
    let s = x / room;
    lemma_fundamental_div_mod(x, room);
    lemma_mod_bound(x, room);
    let rest = x % room;
    assert(x == room * s + rest);
    assert(0 <= s <= big) by (nonlinear_arith)
        requires
            x == room * s + rest,
            0 <= rest < room,
            x == d * big,
            0 < d <= room,
            big > 0,
    ;
    let m = min2(l, big - l);
    assert(0 <= m <= big / 2);
    assert(510 * m - 509 <= room <= 510 * m + 509);
    let c = chroma(s, l);
    let p = s * m;
    assert(0 <= p) by (nonlinear_arith)
        requires
            p == s * m,
            s >= 0,
            m >= 0,
    ;
    assert(c == p / big);
    assert(big * c <= p < big * c + big);
    // the product of the saturation and the room is the distance, nearly
    assert(d * big - 255 * big <= room * s <= d * big);
    // from above
    assert(510 * p <= s * room + 509 * s) by (nonlinear_arith)
        requires
            p == s * m,
            510 * m <= room + 509,
            s >= 0,
    ;
    assert(s * room == room * s) by (nonlinear_arith);
    assert(510 * big * c <= (d + 509) * big);
    // from below
    assert(510 * p >= s * room - 509 * s) by (nonlinear_arith)
        requires
            p == s * m,
            510 * m >= room - 509,
            s >= 0,
    ;
    assert(510 * big * c > (d - 1274) * big);
}

/// A channel comes back nearly as far above the lowest channel as it lay.
/// The channel lay `x` above the lowest, of the distance `d` from the lowest
/// to the highest; it stands at the place `1 - q`, where `q` is `2 * x / d`
/// to within a ten-billionth or so; and `c` is the chroma that was found.
proof fn lemma_mid_near(c: int, d: int, x: int, q: int)
    requires
        0 < d <= 255 * scale(),
        0 <= x <= d,
        0 <= 2 * c <= scale(),
        d - 1274 < 510 * c <= d + 509,
        0 <= q <= 2 * scale(),
        60 * scale() * x / d - 30 < 30 * q < 60 * scale() * x / d + 30,
    ensures
        x - 1661 < 255 * (c - drop_of(c, scale() - q)) < x + 892,
{
    let big = scale();
    let t = big - q;
    let e = drop_of(c, t);
    if c == 0 {
        assert(c * t == 0) by (nonlinear_arith)
            requires
                c == 0,
        ;
        assert(e == 0);
    } else {
        lemma_drop(c, t);
        let bx = big * x;
        let full = 60 * big * x;
        assert(full == 60 * bx) by (nonlinear_arith)
            requires
                full == 60 * big * x,
                bx == big * x,
        ;
        let y = full / d;
        lemma_fundamental_div_mod(full, d);
        lemma_mod_bound(full, d);
        assert(full == d * y + full % d);
        let cq = c * q;
        assert(c * t == c * big - cq) by (nonlinear_arith)
            requires
                t == big - q,
                cq == c * q,
        ;
        // what the channel lies above the lowest, times the scale
        let up = (c - e) * big;
        assert(up == c * big - e * big) by (nonlinear_arith)
            requires
                up == (c - e) * big,
        ;
        assert(cq - big < up < cq + big);
        assert(0 <= cq) by (nonlinear_arith)
            requires
                cq == c * q,
                c >= 0,
                q >= 0,
        ;
        assert(c - e >= 0);
        // from above
        let qd = q * d;
        assert(30 * qd < d * y + 30 * d) by (nonlinear_arith)
            requires
                qd == q * d,
                30 * q < y + 30,
                d > 0,
        ;
        assert(qd < 2 * bx + d);
        assert(510 * cq <= qd + 509 * q) by (nonlinear_arith)
            requires
                cq == c * q,
                qd == q * d,
                510 * c <= d + 509,
                q >= 0,
        ;
        assert(255 * cq <= bx + 637 * big);
        assert(big * (x + 892) == bx + 892 * big) by (nonlinear_arith)
            requires
                bx == big * x,
        ;
        assert(255 * up < big * (x + 892));
        assert(255 * (c - e) < x + 892) by (nonlinear_arith)
            requires
                up == (c - e) * big,
                255 * up < big * (x + 892),
                big > 0,
        ;
        // from below
        if d <= 1274 || 60 * bx <= 31 * d {
            assert(60 * x <= 31 * 255 || d <= 1274) by (nonlinear_arith)
                requires
                    d <= 1274 || 60 * bx <= 31 * d,
                    bx == big * x,
                    d <= 255 * big,
                    big > 0,
            ;
            assert(x - 1661 < 255 * (c - e));
        } else {
            assert(30 * qd > d * y - 30 * d) by (nonlinear_arith)
                requires
                    qd == q * d,
                    30 * q > y - 30,
                    d > 0,
            ;
            let a1 = 30 * qd;
            let b1 = 60 * bx - 31 * d;
            assert(a1 > b1 > 0);
            let c1 = 510 * c;
            let d1 = d - 1274;
            assert(c1 > d1 > 0);
            assert(a1 * c1 > b1 * d1) by (nonlinear_arith)
                requires
                    a1 > b1 > 0,
                    c1 > d1 > 0,
            ;
            assert(a1 * c1 == 15300 * (cq * d)) by (nonlinear_arith)
                requires
                    a1 == 30 * qd,
                    c1 == 510 * c,
                    qd == q * d,
                    cq == c * q,
            ;
            assert(b1 * d1 >= d * (60 * bx - 84345 * big)) by (nonlinear_arith)
                requires
                    b1 == 60 * bx - 31 * d,
                    bx == big * x,
                    d1 == d - 1274,
                    0 <= x <= d,
                    1274 < d <= 255 * big,
                    big > 0,
            ;
            assert(15300 * cq > 60 * bx - 84345 * big) by (nonlinear_arith)
                requires
                    15300 * (cq * d) > d * (60 * bx - 84345 * big),
                    d > 0,
            ;
            assert(big * (x - 1661) == bx - 1661 * big) by (nonlinear_arith)
                requires
                    bx == big * x,
            ;
            assert(255 * up > big * (x - 1661));
            assert(255 * (c - e) > x - 1661) by (nonlinear_arith)
                requires
                    up == (c - e) * big,
                    255 * up > big * (x - 1661),
                    big > 0,
            ;
        }
    }
}

/// Whether a channel that lies `x` above the lowest, of the distance `d`
/// from the lowest to the highest, stands at the place `t` that belongs to
/// it, `1 - 2 * x / d`, to within a ten-billionth or so.
pub open spec fn stands_at(t: int, x: int, d: int) -> bool {
    &&& 0 <= scale() - t <= 2 * scale()
    &&& 60 * scale() * x / d - 30 < 30 * (scale() - t) < 60 * scale() * x / d + 30
}

/// The highest channel stands at the far end and the lowest at the near
/// end.
proof fn lemma_ends_stand(d: int)
    requires
        d > 0,
    ensures
        stands_at(-scale(), d, d),
        stands_at(scale(), 0, d),
{
    let big = scale();
    let full = 60 * big * d;
    assert(full == (60 * big) * d + 0) by (nonlinear_arith)
        requires
            full == 60 * big * d,
    ;
    lemma_fundamental_div_mod_converse(full, d, 60 * big, 0);
    assert(60 * big * 0 == 0) by (nonlinear_arith);
    lemma_fundamental_div_mod_converse(0, d, 0, 0);
}

/// Sixty degrees times the share `x / d`, for a channel `x` above the lowest.
proof fn lemma_share(x: int, d: int)
    requires
        0 <= x <= d,
        0 < d,
    ensures
        0 <= 60 * scale() * x / d <= 60 * scale(),
        trunc_div(60 * scale() * x, d) == 60 * scale() * x / d,
        trunc_div(60 * scale() * (-x), d) == -(60 * scale() * x / d),
        x < d ==> 60 * scale() * x / d < 60 * scale(),
{
    let big = scale();
    let full = 60 * big * x;
    assert(0 <= full <= 60 * big * d) by (nonlinear_arith)
        requires
            full == 60 * big * x,
            0 <= x <= d,
            big > 0,
    ;
    lemma_fundamental_div_mod(full, d);
    lemma_mod_bound(full, d);
    let y = full / d;
    assert(full == d * y + full % d);
    assert(0 <= y <= 60 * big) by (nonlinear_arith)
        requires
            full == d * y + full % d,
            0 <= full % d < d,
            0 <= full <= 60 * big * d,
    ;
    assert(60 * big * (-x) == -full) by (nonlinear_arith)
        requires
            full == 60 * big * x,
    ;
    if x < d {
        assert(full < 60 * big * d) by (nonlinear_arith)
            requires
                full == 60 * big * x,
                x < d,
                big > 0,
        ;
        assert(y < 60 * big) by (nonlinear_arith)
            requires
                full == d * y + full % d,
                0 <= full % d < d,
                full < 60 * big * d,
        ;
    }
}

/// Red, green and blue stand, at the hue that is found for them, where they
/// lie between the lowest and the highest of them.
proof fn lemma_places_of_channels(r: int, g: int, b: int)
    requires
        0 <= r <= 255 * scale(),
        0 <= g <= 255 * scale(),
        0 <= b <= 255 * scale(),
        !(r == g && g == b),
    ensures
        ({
            let low = min2(r, min2(g, b));
            let d = max2(r, max2(g, b)) - low;
            let q = rgb_hue(r, g, b) / 30;
            &&& 0 <= rgb_hue(r, g, b) < 360 * scale()
            &&& stands_at(place(0, q), r - low, d)
            &&& stands_at(place(8, q), g - low, d)
            &&& stands_at(place(4, q), b - low, d)
        }),
{
    let big = scale();
    let turn = 360 * big;
    let high = max2(r, max2(g, b));
    let low = min2(r, min2(g, b));
    let d = high - low;
    let hue = rgb_hue(r, g, b);
    lemma_ends_stand(d);
    if high == r {
        if g >= b {
            let y = 60 * big * (g - b) / d;
            lemma_share(g - b, d);
            lemma_fundamental_div_mod_converse(y, turn, 0, y);
            assert(hue == y);
            lemma_places(hue / 30);
        } else {
            let y = 60 * big * (b - g) / d;
            lemma_share(b - g, d);
            assert(g - b == -(b - g));
            assert(hue == (-y) % turn);
            if y == 0 {
                lemma_fundamental_div_mod_converse(0, turn, 0, 0);
                assert(hue == 0);
                lemma_places(0);
            } else {
                lemma_fundamental_div_mod_converse(-y, turn, -1, turn - y);
                assert(hue == turn - y);
                lemma_places(hue / 30);
            }
        }
    } else if high == g {
        if b >= r {
            let y = 60 * big * (b - r) / d;
            lemma_share(b - r, d);
            assert(hue == y + 120 * big);
            lemma_places(hue / 30);
        } else {
            let y = 60 * big * (r - b) / d;
            lemma_share(r - b, d);
            assert(b - r == -(r - b));
            assert(hue == -y + 120 * big);
            lemma_places(hue / 30);
        }
    } else {
        if r >= g {
            let y = 60 * big * (r - g) / d;
            lemma_share(r - g, d);
            assert(hue == y + 240 * big);
            lemma_places(hue / 30);
        } else {
            let y = 60 * big * (g - r) / d;
            lemma_share(g - r, d);
            assert(r - g == -(g - r));
            assert(hue == -y + 240 * big);
            lemma_places(hue / 30);
        }
    }
}

/// Whether `x` lies within `by` of `y`.
pub open spec fn near(x: int, y: int, by: int) -> bool {
    -by <= x - y <= by
}

/// A channel that stands where it lies between the lowest and the highest
/// comes back to within 2170 ten-billionths.
proof fn lemma_channel_back(high: int, low: int, v: int, t: int)
    requires
        0 <= low < high <= 255 * scale(),
        low <= v <= high,
        stands_at(t, v - low, high - low),
    ensures
        ({
            let sum = high + low;
            let l = sum / 510;
            let room = if sum <= 255 * scale() {
                sum
            } else {
                510 * scale() - sum
            };
            let s = (high - low) * scale() / room;
            near((l - drop_of(chroma(s, l), t)) * 255, v, 2170)
        }),
{
    let big = scale();
    let sum = high + low;
    let d = high - low;
    let l = sum / 510;
    let room = if sum <= 255 * big {
        sum
    } else {
        510 * big - sum
    };
    let s = d * big / room;
    let c = chroma(s, l);
    lemma_chroma_near(high, low);
    let m = min2(l, big - l);
    lemma_product_bounds(m, s, m, big);
    assert(s * m == m * s) by (nonlinear_arith);
    lemma_quotient_bound(s * m, big, m);
    assert(2 * c <= big);
    lemma_mid_near(c, d, v - low, big - t);
    let e = drop_of(c, t);
    assert((l - e) * 255 == 255 * (l - c) + 255 * (c - e));
}

/// A gray comes back from its lightness to within 255 ten-billionths.
proof fn lemma_gray_back(v: int)
    requires
        0 <= v <= 255 * scale(),
    ensures
        ({
            let w = rgba_view(v, v, v, 0);
            &&& w.hue == 0
            &&& w.saturation == 0
            &&& 0 <= w.lightness <= scale()
            &&& near(hsl_channel(0, 0, 0, w.lightness), v, 255)
            &&& near(hsl_channel(8, 0, 0, w.lightness), v, 255)
            &&& near(hsl_channel(4, 0, 0, w.lightness), v, 255)
        }),
{
    let big = scale();
    let l = rgb_lightness(v, v, v);
    assert(l == (v + v) / 510);
    assert(0 * min2(l, big - l) == 0) by (nonlinear_arith);
    assert(0int / big == 0);
    let t0 = place(0, 0int / 30);
    let t8 = place(8, 0int / 30);
    let t4 = place(4, 0int / 30);
    assert(0 * t0 == 0 && 0 * t8 == 0 && 0 * t4 == 0) by (nonlinear_arith);
    assert(hsl_channel(0, 0, 0, l) == (l - trunc_div(0 * t0, big)) * 255);
    assert(hsl_channel(8, 0, 0, l) == (l - trunc_div(0 * t8, big)) * 255);
    assert(hsl_channel(4, 0, 0, l) == (l - trunc_div(0 * t4, big)) * 255);
}

/// Red, green and blue that are not all the same come back from the hue,
/// saturation and lightness that are found for them to within 2170
/// ten-billionths.
proof fn lemma_colorful_back(r: int, g: int, b: int)
    requires
        0 <= r <= 255 * scale(),
        0 <= g <= 255 * scale(),
        0 <= b <= 255 * scale(),
        !(r == g && g == b),
    ensures
        ({
            let h = rgb_hue(r, g, b);
            let s = rgb_saturation(r, g, b);
            let l = rgb_lightness(r, g, b);
            &&& 0 <= h < 360 * scale()
            &&& 0 <= s <= scale()
            &&& 0 <= l <= scale()
            &&& near(hsl_channel(0, h, s, l), r, 2170)
            &&& near(hsl_channel(8, h, s, l), g, 2170)
            &&& near(hsl_channel(4, h, s, l), b, 2170)
        }),
{
    let big = scale();
    let high = max2(r, max2(g, b));
    let low = min2(r, min2(g, b));
    let sum = high + low;
    let d = high - low;
    let room = if sum <= 255 * big {
        sum
    } else {
        510 * big - sum
    };
    let h = rgb_hue(r, g, b);
    let s = rgb_saturation(r, g, b);
    let l = rgb_lightness(r, g, b);
    assert(l == sum / 510);
    assert(s == d * big / room);
    lemma_chroma_near(high, low);
    lemma_places_of_channels(r, g, b);
    let q = h / 30;
    let c = chroma(s, l);
    lemma_channel_back(high, low, r, place(0, q));
    lemma_channel_back(high, low, g, place(8, q));
    lemma_channel_back(high, low, b, place(4, q));
    assert(hsl_channel(0, h, s, l) == (l - drop_of(c, place(0, q))) * 255);
    assert(hsl_channel(8, h, s, l) == (l - drop_of(c, place(8, q))) * 255);
    assert(hsl_channel(4, h, s, l) == (l - drop_of(c, place(4, q))) * 255);
}

/// Red, green and blue come back from the hue, saturation and lightness that
/// are found for them to within 2170 ten-billionths, of a range from 0 to
/// 255.
pub proof fn law_channels_survive(r: int, g: int, b: int, a: int)
    ensures
        ({
            let w = rgba_view(r, g, b, a);
            let back = hsla_view(w.hue, w.saturation, w.lightness, w.alpha);
            &&& valid(w)
            &&& near(back.red, w.red, 2170)
            &&& near(back.green, w.green, 2170)
            &&& near(back.blue, w.blue, 2170)
            &&& back.hue == w.hue
            &&& back.saturation == w.saturation
            &&& back.lightness == w.lightness
            &&& back.alpha == w.alpha
        }),
{
    let big = scale();
    let w = rgba_view(r, g, b, a);
    if w.red == w.green && w.green == w.blue {
        lemma_gray_back(w.red);
        assert(w.hue == 0 && w.saturation == 0);
    } else {
        lemma_colorful_back(w.red, w.green, w.blue);
    }
    assert(0 <= w.hue < 360 * big);
    assert(0 <= w.saturation <= big);
    assert(0 <= w.lightness <= big);
    lemma_fundamental_div_mod_converse(w.hue, 360 * big, 0, w.hue);
    let back = hsla_view(w.hue, w.saturation, w.lightness, w.alpha);
    assert(back.hue == w.hue);
    assert(back.saturation == w.saturation);
    assert(back.lightness == w.lightness);
    assert(back.red == hsl_channel(0, w.hue, w.saturation, w.lightness));
    assert(back.green == hsl_channel(8, w.hue, w.saturation, w.lightness));
    assert(back.blue == hsl_channel(4, w.hue, w.saturation, w.lightness));
}

/// Lightening a color by nothing keeps its hue, saturation, lightness and
/// alpha.
pub proof fn law_lighten_by_nothing(v: ColorView)
    requires
        valid(v),
    ensures
        lightened(v, 0).hue == v.hue,
        lightened(v, 0).saturation == v.saturation,
        lightened(v, 0).lightness == v.lightness,
        lightened(v, 0).alpha == v.alpha,
{
    lemma_fundamental_div_mod_converse(v.hue, 360 * scale(), 0, v.hue);
}

/// Lightening by nothing a color that was made from hue, saturation and
/// lightness keeps the color as it is.
pub proof fn law_lighten_by_nothing_from_hsl(h: int, s: int, l: int, a: int)
    ensures
        lightened(hsla_view(h, s, l, a), 0) == hsla_view(h, s, l, a),
{
    let v = hsla_view(h, s, l, a);
    law_lightness_survives(h, s, l, a);
    law_lighten_by_nothing(v);
}

/// Lightening by nothing a color that was made from red, green and blue
/// makes its red, green and blue anew from its hue, saturation and
/// lightness: they stay to within 2170 ten-billionths.
pub proof fn law_lighten_by_nothing_from_rgb(r: int, g: int, b: int, a: int)
    ensures
        ({
            let w = rgba_view(r, g, b, a);
            &&& near(lightened(w, 0).red, w.red, 2170)
            &&& near(lightened(w, 0).green, w.green, 2170)
            &&& near(lightened(w, 0).blue, w.blue, 2170)
        }),
{
    law_channels_survive(r, g, b, a);
}

} // verus!
