use domain_coloring::bits::R64;
use domain_coloring::color::{
    angle_to_hue, hsl_to_rgb, lightness, LightnessAlg, PixelColor, PixelGenerator,
};
use domain_coloring::complex::C64;

fn r(x: f64) -> R64 {
    R64 { bits: x.to_bits() }
}

fn c(re: f64, im: f64) -> C64 {
    C64 { re: r(re), im: r(im) }
}

fn px(red: u8, green: u8, blue: u8) -> PixelColor {
    PixelColor { r: red, g: green, b: blue }
}

#[test]
fn hsl_hextant_wheel() {
    // mid-hextant hues at full saturation, half lightness
    assert_eq!(hsl_to_rgb(r(0.5), r(1.0), r(0.5)), px(0, 128, 255));
    assert_eq!(hsl_to_rgb(r(1.5), r(1.0), r(0.5)), px(128, 0, 255));
    assert_eq!(hsl_to_rgb(r(2.5), r(1.0), r(0.5)), px(255, 0, 128));
    assert_eq!(hsl_to_rgb(r(3.5), r(1.0), r(0.5)), px(255, 128, 0));
    assert_eq!(hsl_to_rgb(r(4.5), r(1.0), r(0.5)), px(128, 255, 0));
    assert_eq!(hsl_to_rgb(r(5.5), r(1.0), r(0.5)), px(0, 255, 128));
}

#[test]
fn hsl_monotone_in_lightness() {
    // holding hue and saturation fixed near a hextant middle, each channel
    // rises with lightness
    let expected = [
        (0.0, px(0, 0, 0)),
        (0.2, px(0, 51, 102)),
        (0.4, px(0, 102, 204)),
        (0.6, px(51, 153, 255)),
        (0.8, px(153, 204, 255)),
        (0.999, px(255, 255, 255)),
    ];
    let mut prev = px(0, 0, 0);
    for (l, want) in expected {
        let got = hsl_to_rgb(r(0.5), r(1.0), r(l));
        assert_eq!(got, want);
        assert!(got.r >= prev.r && got.g >= prev.g && got.b >= prev.b);
        prev = got;
    }
}

#[test]
fn hsl_black_at_zero_lightness() {
    assert_eq!(hsl_to_rgb(r(3.7), r(0.8), r(0.0)), px(0, 0, 0));
    assert_eq!(hsl_to_rgb(r(0.0), r(1.0), r(0.0)), px(0, 0, 0));
    assert_eq!(hsl_to_rgb(r(5.9), r(0.3), r(0.0)), px(0, 0, 0));
}

#[test]
fn hsl_grayscale_at_zero_saturation() {
    let a = hsl_to_rgb(r(2.5), r(0.0), r(0.7));
    assert_eq!(a, px(179, 179, 179));
    let b = hsl_to_rgb(r(4.2), r(0.0), r(0.3));
    assert_eq!(b, px(76, 76, 76));
}

#[test]
fn hsl_caps_high_lightness() {
    // a lightness far above one is capped: no channel can reach 256
    assert_eq!(hsl_to_rgb(r(1.2), r(1.0), r(7.5)), px(255, 255, 255));
}

#[test]
fn modsq_lightness_rises_and_stays_below_one() {
    let mut prev = -1.0_f64;
    for x in [0.0, 0.5, 1.0, 2.0, 10.0, 1000.0] {
        let z = c(x, 0.0);
        let l = f64::from_bits(lightness(LightnessAlg::ModSq, z, None).bits);
        let r2 = x * x + 0.0 * 0.0;
        assert_eq!(l.to_bits(), (r2 / (r2 + 1.0)).to_bits());
        assert!(l > prev);
        assert!(l < 1.0);
        prev = l;
    }
    // exactly zero at the origin
    assert_eq!(lightness(LightnessAlg::ModSq, c(0.0, 0.0), None), r(0.0));
}

#[test]
fn lightness_strategies_at_origin_and_elsewhere() {
    let origin = c(0.0, 0.0);
    assert_eq!(lightness(LightnessAlg::Exp, origin, None), r(0.0));
    assert_eq!(lightness(LightnessAlg::Exp2, origin, None), r(0.0));
    assert_eq!(lightness(LightnessAlg::Flat, origin, None), r(0.5));
    let z = c(3.0, 4.0);
    let r2 = 3.0_f64 * 3.0 + 4.0 * 4.0;
    let want_exp = 1.0 - (-r2.sqrt()).exp();
    let want_exp2 = 1.0 - (-r2.sqrt()).exp2();
    assert_eq!(lightness(LightnessAlg::Exp, z, None).bits, want_exp.to_bits());
    assert_eq!(lightness(LightnessAlg::Exp2, z, None).bits, want_exp2.to_bits());
    assert_eq!(lightness(LightnessAlg::Flat, z, None), r(0.5));
}

#[test]
fn lightness_blends_repeat_value() {
    let z = c(0.0, 0.0);
    // positive fractional part: 0.8 * base + 0.2 * fract
    let want_pos = 0.8_f64 * 0.5 + 0.2 * 0.75;
    assert_eq!(
        lightness(LightnessAlg::Flat, z, Some(r(2.75))).bits,
        want_pos.to_bits()
    );
    // non-positive fractional part is folded back up by one overlay weight
    let want_neg = 0.8_f64 * 0.5 + 0.2 + 0.2 * (-0.25);
    assert_eq!(
        lightness(LightnessAlg::Flat, z, Some(r(-1.25))).bits,
        want_neg.to_bits()
    );
    // an integral repeat value has fraction zero and still folds up
    let want_zero = (0.8_f64 * 0.5 + 0.2) + 0.2 * 0.0;
    assert_eq!(
        lightness(LightnessAlg::Flat, z, Some(r(3.0))).bits,
        want_zero.to_bits()
    );
}

#[test]
fn angle_to_hue_spans_the_wheel() {
    let pi = std::f64::consts::PI;
    assert_eq!(angle_to_hue(r(0.0)), r(3.0));
    assert_eq!(angle_to_hue(r(pi)).bits, (3.0_f64 + pi * 3.0 / pi).to_bits());
    let h = f64::from_bits(angle_to_hue(r(-pi + 1e-12)).bits);
    assert!(h >= 0.0 && h < 0.001);
}

#[test]
fn rgb_complex_composes_the_documented_pipeline() {
    for (re, im) in [(1.0, 0.0), (0.0, 2.5), (-1.5, -0.5), (3.0, 4.0)] {
        for alg in [
            LightnessAlg::Exp,
            LightnessAlg::Exp2,
            LightnessAlg::ModSq,
            LightnessAlg::Flat,
        ] {
            let z = c(re, im);
            let theta: f64 = im.atan2(re);
            let want = hsl_to_rgb(angle_to_hue(r(theta)), r(1.0), lightness(alg, z, None));
            assert_eq!(alg.rgb_complex(z, None), want);
        }
    }
}

#[test]
fn rgb_complex_with_repeat_differs_from_without() {
    let z = c(2.0, 1.0);
    let with = LightnessAlg::Exp2.rgb_complex(z, Some(r(0.4)));
    let theta: f64 = 1.0_f64.atan2(2.0);
    let want = hsl_to_rgb(
        angle_to_hue(r(theta)),
        r(1.0),
        lightness(LightnessAlg::Exp2, z, Some(r(0.4))),
    );
    assert_eq!(with, want);
    assert_ne!(with, LightnessAlg::Exp2.rgb_complex(z, None));
}
