//! From a complex value to an 8-bit RGB color.
//!
//! The argument of the value picks a hue on a six-hextant wheel, its squared
//! modulus drives one of four lightness strategies, and an optional repeat
//! value overlays periodic banding; the triple then goes through the
//! HSL-to-RGB conversion with its capping rules.
use vstd::prelude::*;

use crate::bits::{
    abs_bits, add_bits, div_bits, exp2_bits, exp_bits, f64_as_u8_bits, fract_bits, lt_bits,
    le_bits, mul_bits, neg_bits, r_abs, r_add, r_div, r_exp, r_exp2, r_fract, r_le, r_lt, r_mul,
    r_neg, r_rem, r_sqrt, r_sub, r_to_u8, rem_bits, sqrt_bits, sub_bits, R64, BITS_BLEND_BASE,
    BITS_BLEND_OVERLAY, BITS_CAP, BITS_HALF, BITS_ONE, BITS_PI, BITS_SCALE, BITS_THREE, BITS_TWO,
    BITS_ZERO,
};
use crate::complex::{c_arg, c_arg_spec, c_norm_sqr, c_norm_sqr_spec, C64};

verus! {

/// One pixel: red, green and blue, 8 bits each.
#[derive(Clone, Copy, Debug, PartialEq, Eq, Structural)]
pub struct PixelColor {
    pub r: u8,
    pub g: u8,
    pub b: u8,
}

/// The hue of a principal argument theta: 3 + theta * 3 / pi, mapping
/// (-pi, pi] linearly onto roughly [0, 6).
pub open spec fn hue_spec(theta: R64) -> R64 {
    R64 { bits: add_bits(BITS_THREE, div_bits(mul_bits(theta.bits, BITS_THREE), BITS_PI)) }
}

/// Map a principal argument onto the hue range [0, 6).
pub fn angle_to_hue(theta: R64) -> (h: R64)
    ensures
        h == hue_spec(theta),
{
    r_add(R64 { bits: BITS_THREE }, r_div(r_mul(theta, R64 { bits: BITS_THREE }), R64 { bits: BITS_PI }))
}

/// A channel value at or above 1.0 is capped to 0.999, so that scaling by
/// 256 cannot reach the invalid value 256.
pub open spec fn cap_spec(v: R64) -> R64 {
    if le_bits(BITS_ONE, v.bits) {
        R64 { bits: BITS_CAP }
    } else {
        v
    }
}

/// The six-hextant permutation: which of the three channel levels lands on
/// red, green and blue. A hextant outside 0 to 5 yields black levels.
pub open spec fn hextant_permute_spec(k: u8, c0: R64, c1: R64, c2: R64) -> (R64, R64, R64) {
    if k == 3 {
        (c0, c1, c2)
    } else if k == 4 {
        (c1, c0, c2)
    } else if k == 5 {
        (c2, c0, c1)
    } else if k == 0 {
        (c2, c1, c0)
    } else if k == 1 {
        (c1, c2, c0)
    } else if k == 2 {
        (c0, c2, c1)
    } else {
        (R64::spec_zero(), R64::spec_zero(), R64::spec_zero())
    }
}

/// Assign the three channel levels to red, green and blue for a hextant.
pub fn hextant_permute(k: u8, c0: R64, c1: R64, c2: R64) -> (rgb: (R64, R64, R64))
    ensures
        rgb == hextant_permute_spec(k, c0, c1, c2),
{
    if k == 3 {
        (c0, c1, c2)
    } else if k == 4 {
        (c1, c0, c2)
    } else if k == 5 {
        (c2, c0, c1)
    } else if k == 0 {
        (c2, c1, c0)
    } else if k == 1 {
        (c1, c2, c0)
    } else if k == 2 {
        (c0, c2, c1)
    } else {
        (R64::zero(), R64::zero(), R64::zero())
    }
}

/// A channel level scaled by 256 and cast to its 8-bit value.
pub open spec fn channel_spec(v: R64) -> u8 {
    f64_as_u8_bits(mul_bits(BITS_SCALE, v.bits))
}

/// The full conversion from hue, saturation and lightness to RGB:
/// lightness capped at 0.999, chroma from lightness and saturation, the
/// secondary chroma continuous across hextant boundaries, the three levels
/// permuted by the hextant of the hue, each capped and scaled to 8 bits.
pub open spec fn hsl_rgb_spec(h: R64, s: R64, l: R64) -> PixelColor {
    let lc = if lt_bits(BITS_CAP, l.bits) {
        R64 { bits: BITS_CAP }
    } else {
        l
    };
    let c0 = R64 {
        bits: mul_bits(
            sub_bits(BITS_ONE, abs_bits(sub_bits(mul_bits(BITS_TWO, lc.bits), BITS_ONE))),
            s.bits,
        ),
    };
    let m = R64 { bits: sub_bits(lc.bits, mul_bits(BITS_HALF, c0.bits)) };
    let scale = R64 { bits: abs_bits(sub_bits(rem_bits(h.bits, BITS_TWO), BITS_ONE)) };
    let c1 = R64 { bits: mul_bits(c0.bits, scale.bits) };
    let v0 = cap_spec(R64 { bits: add_bits(c0.bits, m.bits) });
    let v1 = cap_spec(R64 { bits: add_bits(c1.bits, m.bits) });
    let v2 = cap_spec(m);
    let k = f64_as_u8_bits(h.bits) % 6;
    let p = hextant_permute_spec(k, v0, v1, v2);
    PixelColor { r: channel_spec(p.0), g: channel_spec(p.1), b: channel_spec(p.2) }
}

/// Convert a hue in [0, 6), a saturation in [0, 1] and a lightness to an
/// 8-bit RGB triple.
pub fn hsl_to_rgb(h: R64, s: R64, l: R64) -> (c: PixelColor)
    ensures
        c == hsl_rgb_spec(h, s, l),
{
    let lc = if r_lt(R64 { bits: BITS_CAP }, l) {
        R64 { bits: BITS_CAP }
    } else {
        l
    };
    let c0 = r_mul(
        r_sub(R64 { bits: BITS_ONE }, r_abs(r_sub(r_mul(R64 { bits: BITS_TWO }, lc), R64 { bits: BITS_ONE }))),
        s,
    );
    let m = r_sub(lc, r_mul(R64 { bits: BITS_HALF }, c0));
    let scale = r_abs(r_sub(r_rem(h, R64 { bits: BITS_TWO }), R64 { bits: BITS_ONE }));
    let c1 = r_mul(c0, scale);
    let v0 = cap(r_add(c0, m));
    let v1 = cap(r_add(c1, m));
    let v2 = cap(m);
    let k = r_to_u8(h) % 6;
    let p = hextant_permute(k, v0, v1, v2);
    PixelColor { r: channel(p.0), g: channel(p.1), b: channel(p.2) }
}

/// Cap one channel level below the top band.
fn cap(v: R64) -> (r: R64)
    ensures
        r == cap_spec(v),
{
    if r_le(R64 { bits: BITS_ONE }, v) {
        R64 { bits: BITS_CAP }
    } else {
        v
    }
}

/// Scale one channel level to its 8-bit value.
fn channel(v: R64) -> (r: u8)
    ensures
        r == channel_spec(v),
{
    r_to_u8(r_mul(R64 { bits: BITS_SCALE }, v))
}

/// The lightness strategies: each maps the squared modulus of a complex
/// value to a lightness, rising toward 1 as the modulus grows.
#[derive(Clone, Copy, Debug, PartialEq, Eq, Structural)]
pub enum LightnessAlg {
    /// 1 - exp(-sqrt(r2))
    Exp,
    /// 1 - 2^(-sqrt(r2))
    Exp2,
    /// r2 / (r2 + 1)
    ModSq,
    /// the constant 0.5
    Flat,
}

/// The base lightness each strategy derives from a squared modulus.
pub open spec fn base_lightness_spec(alg: LightnessAlg, r2: R64) -> R64 {
    match alg {
        LightnessAlg::Exp => R64 { bits: sub_bits(BITS_ONE, exp_bits(neg_bits(sqrt_bits(r2.bits)))) },
        LightnessAlg::Exp2 => R64 {
            bits: sub_bits(BITS_ONE, exp2_bits(neg_bits(sqrt_bits(r2.bits)))),
        },
        LightnessAlg::ModSq => R64 { bits: div_bits(r2.bits, add_bits(r2.bits, BITS_ONE)) },
        LightnessAlg::Flat => R64 { bits: BITS_HALF },
    }
}

/// Blending a repeat value into a base lightness: the signed fractional
/// part of the repeat value contributes a fifth of the result; a
/// non-positive fraction is folded back up by one overlay weight, so the
/// overlay always lands in a bounded band.
pub open spec fn blend_lightness_spec(l1: R64, rv: R64) -> R64 {
    let l2 = fract_bits(rv.bits);
    if lt_bits(BITS_ZERO, l2) {
        R64 {
            bits: add_bits(mul_bits(BITS_BLEND_BASE, l1.bits), mul_bits(BITS_BLEND_OVERLAY, l2)),
        }
    } else {
        R64 {
            bits: add_bits(
                add_bits(mul_bits(BITS_BLEND_BASE, l1.bits), BITS_BLEND_OVERLAY),
                mul_bits(BITS_BLEND_OVERLAY, l2),
            ),
        }
    }
}

/// The lightness of a pixel: the strategy's base lightness, blended with
/// the repeat value where one is present.
pub open spec fn lightness_spec(alg: LightnessAlg, r2: R64, rv: Option<R64>) -> R64 {
    match rv {
        None => base_lightness_spec(alg, r2),
        Some(v) => blend_lightness_spec(base_lightness_spec(alg, r2), v),
    }
}

/// Derive the lightness of a complex value: the strategy's base lightness
/// from the squared modulus, blended with the repeat value where one is
/// present.
pub fn lightness(alg: LightnessAlg, z: C64, repeat_val: Option<R64>) -> (l: R64)
    ensures
        l == lightness_spec(alg, c_norm_sqr_spec(z), repeat_val),
{
    let r2 = c_norm_sqr(z);
    let l1 = match alg {
        LightnessAlg::Exp => r_sub(R64 { bits: BITS_ONE }, r_exp(r_neg(r_sqrt(r2)))),
        LightnessAlg::Exp2 => r_sub(R64 { bits: BITS_ONE }, r_exp2(r_neg(r_sqrt(r2)))),
        LightnessAlg::ModSq => r_div(r2, r_add(r2, R64 { bits: BITS_ONE })),
        LightnessAlg::Flat => R64 { bits: BITS_HALF },
    };
    match repeat_val {
        None => l1,
        Some(v) => {
            let l2 = r_fract(v);
            if r_lt(R64 { bits: BITS_ZERO }, l2) {
                r_add(
                    r_mul(R64 { bits: BITS_BLEND_BASE }, l1),
                    r_mul(R64 { bits: BITS_BLEND_OVERLAY }, l2),
                )
            } else {
                r_add(
                    r_add(
                        r_mul(R64 { bits: BITS_BLEND_BASE }, l1),
                        R64 { bits: BITS_BLEND_OVERLAY },
                    ),
                    r_mul(R64 { bits: BITS_BLEND_OVERLAY }, l2),
                )
            }
        },
    }
}

/// The color of a complex value: hue from its argument, saturation one,
/// lightness from its squared modulus and the optional repeat value.
pub open spec fn rgb_complex_spec(alg: LightnessAlg, z: C64, rv: Option<R64>) -> PixelColor {
    hsl_rgb_spec(
        hue_spec(c_arg_spec(z)),
        R64::spec_one(),
        lightness_spec(alg, c_norm_sqr_spec(z), rv),
    )
}

/// A secondary periodic mapping overlaid on the base lightness to draw
/// banding, such as contour rings. Callers implement it; `spec_value` is
/// the value the implementation promises at each point.
pub trait RepeatFunction {
    /// The promised value of the mapping at `z`.
    spec fn spec_value(&self, z: C64) -> R64;

    /// Evaluate the mapping at `z`.
    fn value_at(&self, z: C64) -> (r: R64)
        ensures
            r == self.spec_value(z),
    ;
}

/// The absent repeat function: always zero, never blended in.
pub struct NoRepeat;

impl RepeatFunction for NoRepeat {
    open spec fn spec_value(&self, z: C64) -> R64 {
        R64::spec_zero()
    }

    fn value_at(&self, z: C64) -> (r: R64) {
        R64::zero()
    }
}

/// A strategy that turns one complex value, plus an optional repeat value
/// taken at the same point, into a pixel color.
pub trait PixelGenerator {
    /// The promised color for `z` under the given repeat value.
    spec fn rgb_spec(&self, z: C64, repeat_val: Option<R64>) -> PixelColor;

    /// Compute the color for `z` under the given repeat value.
    fn rgb_complex(&self, z: C64, repeat_val: Option<R64>) -> (c: PixelColor)
        ensures
            c == self.rgb_spec(z, repeat_val),
    ;
}

impl PixelGenerator for LightnessAlg {
    open spec fn rgb_spec(&self, z: C64, repeat_val: Option<R64>) -> PixelColor {
        rgb_complex_spec(*self, z, repeat_val)
    }

    fn rgb_complex(&self, z: C64, repeat_val: Option<R64>) -> (c: PixelColor) {
        let l = lightness(*self, z, repeat_val);
        let h = angle_to_hue(c_arg(z));
        hsl_to_rgb(h, R64::one(), l)
    }
}

} // verus!
