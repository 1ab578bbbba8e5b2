use sass_core::color::Color;
use sass_core::value::number::Number;

fn n(x: i64) -> Number {
    Number::from(x)
}

fn frac(units: i128) -> Number {
    Number::from_units(units)
}

const HALF: i128 = 5_000_000_000;

#[test]
fn color_from_hsla_green() {
    let c = Color::from_hsla(n(120), frac(HALF), frac(HALF), n(1));
    assert_eq!(c.red(), frac(637_500_000_000));
    assert_eq!(c.green(), frac(1_912_500_000_000));
    assert_eq!(c.blue(), frac(637_500_000_000));
    assert_eq!(c.alpha(), n(1));
    assert_eq!(c.hue(), n(120));
    assert_eq!(c.saturation(), n(50));
    assert_eq!(c.lightness(), n(50));
    assert_eq!(c.to_string(), "#40bf40");
}

#[test]
fn color_from_hsla_primaries() {
    assert_eq!(Color::from_hsla(n(0), n(1), frac(HALF), n(1)).to_string(), "#ff0000");
    assert_eq!(Color::from_hsla(n(120), n(1), frac(HALF), n(1)).to_string(), "#00ff00");
    assert_eq!(Color::from_hsla(n(240), n(1), frac(HALF), n(1)).to_string(), "#0000ff");
    assert_eq!(Color::from_hsla(n(60), n(1), frac(HALF), n(1)).to_string(), "#ffff00");
    assert_eq!(Color::from_hsla(n(0), n(0), n(0), n(1)).to_string(), "#000000");
    assert_eq!(Color::from_hsla(n(0), n(0), n(1), n(1)).to_string(), "#ffffff");
    assert_eq!(Color::from_hsla(n(77), n(0), frac(HALF), n(1)).to_string(), "#808080");
}

#[test]
fn color_hue_wraps_modulo_360() {
    assert_eq!(Color::from_hsla(n(360), n(1), frac(HALF), n(1)).hue(), n(0));
    assert_eq!(Color::from_hsla(n(480), n(1), frac(HALF), n(1)).hue(), n(120));
    assert_eq!(Color::from_hsla(n(-120), n(1), frac(HALF), n(1)).hue(), n(240));
    assert_eq!(Color::from_hsla(n(-360), n(1), frac(HALF), n(1)).hue(), n(0));
    assert_eq!(Color::from_hsla(n(-720 - 1), n(1), frac(HALF), n(1)).hue(), n(359));
    let far = Color::from_hsla(frac(i128::MAX), n(1), frac(HALF), n(1)).hue();
    assert!(!far.is_negative() && far.lt(&n(360)));
    let back = Color::from_hsla(frac(i128::MIN), n(1), frac(HALF), n(1)).hue();
    assert!(!back.is_negative() && back.lt(&n(360)));
}

#[test]
fn color_channels_are_clamped() {
    let c = Color::from_hsla(n(0), n(2), n(-1), n(5));
    assert_eq!(c.saturation(), n(100));
    assert_eq!(c.lightness(), n(0));
    assert_eq!(c.alpha(), n(1));
    let d = Color::from_rgba(n(300), n(-4), n(128), n(-1));
    assert_eq!(d.red(), n(255));
    assert_eq!(d.green(), n(0));
    assert_eq!(d.blue(), n(128));
    assert_eq!(d.alpha(), n(0));
}

#[test]
fn color_from_rgba_finds_hue_saturation_lightness() {
    let red = Color::from_rgba(n(255), n(0), n(0), n(1));
    assert_eq!(red.hue(), n(0));
    assert_eq!(red.saturation(), n(100));
    assert_eq!(red.lightness(), n(50));
    let green = Color::from_rgba(n(0), n(255), n(0), n(1));
    assert_eq!(green.hue(), n(120));
    let blue = Color::from_rgba(n(0), n(0), n(255), n(1));
    assert_eq!(blue.hue(), n(240));
    let magenta = Color::from_rgba(n(255), n(0), n(255), n(1));
    assert_eq!(magenta.hue(), n(300));
    let gray = Color::from_rgba(n(51), n(51), n(51), n(1));
    assert_eq!(gray.hue(), n(0));
    assert_eq!(gray.saturation(), n(0));
    assert_eq!(gray.lightness(), n(20));
    let white = Color::from_rgba(n(255), n(255), n(255), n(1));
    assert_eq!(white.saturation(), n(0));
    assert_eq!(white.lightness(), n(100));
    let pink = Color::from_rgba(n(255), n(0), n(51), n(1));
    assert_eq!(pink.hue(), n(348));
}

#[test]
fn color_adjust_hue_turns() {
    let c = Color::from_hsla(n(120), frac(HALF), frac(HALF), n(1));
    assert_eq!(c.adjust_hue(n(60)).hue(), n(180));
    assert_eq!(c.adjust_hue(n(300)).hue(), n(60));
    assert_eq!(c.adjust_hue(n(-180)).hue(), n(300));
    assert_eq!(c.adjust_hue(n(720)).hue(), n(120));
    assert_eq!(c.adjust_hue(n(60)).saturation(), n(50));
    assert_eq!(c.complement().hue(), n(300));
    assert_eq!(c.complement(), c.adjust_hue(n(180)));
}

#[test]
fn color_lighten_and_darken_stop_at_the_bounds() {
    let c = Color::from_hsla(n(120), frac(HALF), frac(HALF), n(1));
    assert_eq!(c.lighten(frac(2_000_000_000)).lightness(), n(70));
    assert_eq!(c.lighten(n(1)).lightness(), n(100));
    assert_eq!(c.lighten(n(50)).lightness(), n(100));
    assert_eq!(c.darken(frac(2_000_000_000)).lightness(), n(30));
    assert_eq!(c.darken(n(1)).lightness(), n(0));
    assert_eq!(c.darken(frac(i128::MAX)).lightness(), n(0));
    assert_eq!(c.lighten(frac(i128::MIN)).lightness(), n(0));
    assert_eq!(c.lighten(frac(2_000_000_000)).hue(), n(120));
}

#[test]
fn color_saturate_and_desaturate_stop_at_the_bounds() {
    let c = Color::from_hsla(n(120), frac(HALF), frac(HALF), n(1));
    assert_eq!(c.saturate(frac(2_000_000_000)).saturation(), n(70));
    assert_eq!(c.saturate(n(1)).saturation(), n(100));
    assert_eq!(c.desaturate(frac(2_000_000_000)).saturation(), n(30));
    assert_eq!(c.desaturate(n(1)).saturation(), n(0));
    assert_eq!(c.desaturate(n(1)).to_string(), "#808080");
}

#[test]
fn color_invert_with_all_the_weight() {
    let c = Color::from_rgba(n(255), n(0), n(51), n(1));
    let d = c.invert(n(1));
    assert_eq!(d.red(), n(0));
    assert_eq!(d.green(), n(255));
    assert_eq!(d.blue(), n(204));
    assert_eq!(d.alpha(), n(1));
    assert_eq!(d.to_string(), "#00ffcc");
    assert_eq!(d.invert(n(1)), c);
}

#[test]
fn color_invert_twice_gives_back_the_color() {
    let colors = [
        Color::from_hsla(n(120), frac(HALF), frac(HALF), n(1)),
        Color::from_hsla(n(17), frac(3_333_333_333), frac(7_777_777_777), frac(HALF)),
        Color::from_rgba(frac(1), frac(2_549_999_999_999), n(7), n(0)),
    ];
    for c in colors {
        assert_eq!(c.invert(n(1)).invert(n(1)), c);
        assert_ne!(c.invert(n(1)), c);
    }
}

#[test]
fn color_invert_by_weight() {
    let c = Color::from_rgba(n(255), n(0), n(51), n(1));
    assert_eq!(c.invert(n(0)), c);
    assert_eq!(c.invert(n(-3)), c);
    let half = c.invert(frac(HALF));
    assert_eq!(half.red(), frac(1_275_000_000_000));
    assert_eq!(half.green(), frac(1_275_000_000_000));
    assert_eq!(half.blue(), frac(1_275_000_000_000));
    assert_eq!(half.to_string(), "#808080");
    assert_eq!(c.invert(n(7)), c.invert(n(1)));
}

#[test]
fn color_writes_alpha() {
    let c = Color::from_rgba(n(255), n(0), n(51), frac(HALF));
    assert_eq!(c.to_string(), "rgba(255, 0, 51, 0.5)");
    let d = Color::from_rgba(n(1), n(20), n(255), n(0));
    assert_eq!(d.to_string(), "rgba(1, 20, 255, 0)");
}

#[test]
fn color_rounds_channels_half_up() {
    let c = Color::from_rgba(frac(5_000_000_000), frac(4_999_999_999), frac(2_545_000_000_000), n(1));
    assert_eq!(c.to_string(), "#0100ff");
}

#[test]
fn color_equality_is_by_red_green_blue_alpha() {
    let a = Color::from_hsla(n(0), n(0), frac(HALF), n(1));
    let b = Color::from_hsla(n(200), n(0), frac(HALF), n(1));
    assert_eq!(a, b);
    assert!(a.equals(&b));
    assert_ne!(a.hue(), b.hue());
    let c = Color::from_hsla(n(0), n(0), frac(HALF), frac(HALF));
    assert_ne!(a, c);
}

#[test]
fn color_survives_the_way_through_red_green_blue() {
    for h in [0, 1, 59, 60, 61, 119, 120, 179, 180, 181, 239, 240, 299, 300, 301, 359] {
        for (s, l) in [(HALF, HALF), (10_000_000_000, 2_500_000_000), (3_333_333_333, 7_000_000_000)] {
            let c = Color::from_hsla(n(h), frac(s), frac(l), n(1));
            let d = Color::from_rgba(c.red(), c.green(), c.blue(), c.alpha());
            assert_eq!(d, c);
            assert_eq!(d.lightness(), c.lightness());
            let lost = c.saturation().units - d.saturation().units;
            assert!((0..=1000).contains(&lost), "saturation lost {}", lost);
            let turn = 3_600_000_000_000i128;
            let gap = (d.hue().units - c.hue().units).rem_euclid(turn);
            let distance = gap.min(turn - gap);
            assert!(distance <= 1000, "hue moved by {}", distance);
        }
    }
}

#[test]
fn color_gray_has_hue_zero_from_red_green_blue() {
    let c = Color::from_hsla(n(200), n(0), frac(HALF), n(1));
    let d = Color::from_rgba(c.red(), c.green(), c.blue(), c.alpha());
    assert_eq!(d.hue(), n(0));
    assert_eq!(d.saturation(), n(0));
    assert_eq!(d.lightness(), n(50));
}

#[test]
fn color_red_green_blue_survive_the_way_through_hue_saturation_lightness() {
    let steps = [0i64, 1, 2, 51, 64, 127, 128, 191, 204, 254, 255];
    for r in steps {
        for g in steps {
            for b in steps {
                let c = Color::from_rgba(n(r), n(g), n(b), n(1));
                let d = Color::from_hsla(
                    c.hue(),
                    c.saturation().hundredth(),
                    c.lightness().hundredth(),
                    c.alpha(),
                );
                for (was, is) in [(c.red(), d.red()), (c.green(), d.green()), (c.blue(), d.blue())] {
                    let off = (was.units - is.units).abs();
                    assert!(off <= 2170, "rgb({}, {}, {}) is off by {}", r, g, b, off);
                }
                assert_eq!(d.to_string(), c.to_string());
            }
        }
    }
}
