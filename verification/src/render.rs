//! The render loop: every pixel of the output grid is mapped to a point of
//! the complex plane, the target function is evaluated there, and the color
//! of the value is written into a row-major buffer.
//!
//! The window is centered on the origin: half the span of each axis is
//! subtracted from the pixel coordinate, and the vertical axis is flipped so
//! that the imaginary axis grows upward while pixel rows grow downward.
use vstd::prelude::*;

use crate::bits::{
    div_bits, lt_bits, mul_bits, r_div, r_from_u32, r_lt, r_mul, r_sub, sub_bits, u32_as_f64_bits,
    R64, BITS_TWO, BITS_ZERO,
};
use crate::color::{LightnessAlg, NoRepeat, PixelColor, PixelGenerator, RepeatFunction};
use crate::complex::C64;
use crate::function::ComplexFunction;

verus! {

/// The output raster: pixel dimensions, and the step each pixel takes along
/// the real and the imaginary axis.
pub struct ImageDesc {
    pub width: u32,
    pub height: u32,
    pub xres: R64,
    pub yres: R64,
}

/// Why a descriptor was rejected before any pixel was rendered.
#[derive(Clone, Copy, Debug, PartialEq, Eq, Structural)]
pub enum ConfigError {
    ZeroWidth,
    ZeroHeight,
    NonPositiveXRes,
    NonPositiveYRes,
}

/// A descriptor is valid when both pixel dimensions are nonzero and both
/// resolutions denote doubles strictly above zero.
pub open spec fn valid_desc_spec(i: ImageDesc) -> bool {
    &&& i.width > 0
    &&& i.height > 0
    &&& lt_bits(BITS_ZERO, i.xres.bits)
    &&& lt_bits(BITS_ZERO, i.yres.bits)
}

/// The error an invalid descriptor draws, checked width first, then height,
/// then the two resolutions.
pub open spec fn desc_error_spec(i: ImageDesc) -> ConfigError {
    if i.width == 0 {
        ConfigError::ZeroWidth
    } else if i.height == 0 {
        ConfigError::ZeroHeight
    } else if !lt_bits(BITS_ZERO, i.xres.bits) {
        ConfigError::NonPositiveXRes
    } else {
        ConfigError::NonPositiveYRes
    }
}

/// Half the real-axis span of the window: width * xres / 2.
pub open spec fn x_offset_spec(i: ImageDesc) -> R64 {
    R64 { bits: div_bits(mul_bits(u32_as_f64_bits(i.width), i.xres.bits), BITS_TWO) }
}

/// Half the imaginary-axis span of the window: height * yres / 2.
pub open spec fn y_offset_spec(i: ImageDesc) -> R64 {
    R64 { bits: div_bits(mul_bits(u32_as_f64_bits(i.height), i.yres.bits), BITS_TWO) }
}

/// The plane coordinate of a pixel: x * xres - xoffset along the real axis,
/// yoffset - y * yres along the imaginary axis (the vertical flip).
pub open spec fn coord_spec(i: ImageDesc, x: u32, y: u32) -> C64 {
    C64 {
        re: R64 { bits: sub_bits(mul_bits(u32_as_f64_bits(x), i.xres.bits), x_offset_spec(i).bits) },
        im: R64 { bits: sub_bits(y_offset_spec(i).bits, mul_bits(u32_as_f64_bits(y), i.yres.bits)) },
    }
}

/// Map a pixel of the grid to its point of the complex plane.
pub fn pixel_coord(i: &ImageDesc, x: u32, y: u32) -> (z: C64)
    ensures
        z == coord_spec(*i, x, y),
{
    let xoff = r_div(r_mul(r_from_u32(i.width), i.xres), R64 { bits: BITS_TWO });
    let yoff = r_div(r_mul(r_from_u32(i.height), i.yres), R64 { bits: BITS_TWO });
    C64 {
        re: r_sub(r_mul(r_from_u32(x), i.xres), xoff),
        im: r_sub(yoff, r_mul(r_from_u32(y), i.yres)),
    }
}

/// The color owed to a pixel: the function's value at the pixel's plane
/// coordinate, colored by the generator, with the repeat function (where one
/// is given) evaluated at the same transformed point.
pub open spec fn pixel_spec<F: ComplexFunction, P: PixelGenerator, R: RepeatFunction>(
    i: ImageDesc,
    f: F,
    method: P,
    repeat: Option<&R>,
    x: u32,
    y: u32,
) -> PixelColor {
    let z = f.spec_eval(coord_spec(i, x, y));
    let rv = match repeat {
        Some(r) => Some(r.spec_value(z)),
        None => None,
    };
    method.rgb_spec(z, rv)
}

/// Where pixel (x, y) sits in the row-major buffer.
pub open spec fn pixel_index(i: ImageDesc, x: u32, y: u32) -> int {
    y * i.width + x
}

/// A buffer renders the descriptor when it has one color per pixel and each
/// pixel holds exactly the color owed to it: the renderer adds nothing
/// beyond the documented coordinate map.
pub open spec fn rendered_spec<F: ComplexFunction, P: PixelGenerator, R: RepeatFunction>(
    i: ImageDesc,
    f: F,
    method: P,
    repeat: Option<&R>,
    buf: Seq<PixelColor>,
) -> bool {
    &&& buf.len() == i.width * i.height
    &&& forall|x: u32, y: u32|
        x < i.width && y < i.height ==> buf[#[trigger] pixel_index(i, x, y)] == pixel_spec(
            i,
            f,
            method,
            repeat,
            x,
            y,
        )
}

/// Pixels earlier in row-major order sit at smaller buffer indices.
proof fn lemma_pixel_order(w: int, x1: int, y1: int, x2: int, y2: int)
    requires
        0 <= x1 < w,
        0 <= x2,
        0 <= y1,
        0 <= y2,
        y1 < y2 || (y1 == y2 && x1 < x2),
    ensures
        y1 * w + x1 < y2 * w + x2,
{
    assert(y1 * w + x1 < y2 * w + x2) by (nonlinear_arith)
        requires
            0 <= x1 < w,
            0 <= x2,
            0 <= y1,
            0 <= y2,
            y1 < y2 || (y1 == y2 && x1 < x2),
    ;
}

/// Render the whole grid: reject an invalid descriptor, otherwise fill a
/// row-major buffer with one color per pixel, each computed from the pixel's
/// plane coordinate through the function, the repeat function and the
/// generator.
pub fn domain_color<F: ComplexFunction, P: PixelGenerator, R: RepeatFunction>(
    i: &ImageDesc,
    f: &F,
    method: &P,
    repeat: Option<&R>,
) -> (res: Result<Vec<PixelColor>, ConfigError>)
    ensures
        res is Ok <==> valid_desc_spec(*i),
        res matches Ok(buf) ==> rendered_spec(*i, *f, *method, repeat, buf@),
        res matches Err(e) ==> e == desc_error_spec(*i),
{
    if i.width == 0 {
        return Err(ConfigError::ZeroWidth);
    }
    if i.height == 0 {
        return Err(ConfigError::ZeroHeight);
    }
    if !r_lt(R64::zero(), i.xres) {
        return Err(ConfigError::NonPositiveXRes);
    }
    if !r_lt(R64::zero(), i.yres) {
        return Err(ConfigError::NonPositiveYRes);
    }
    let w = i.width;
    let h = i.height;
    let mut buf: Vec<PixelColor> = Vec::new();
    let mut y: u32 = 0;
    while y < h
        invariant
            y <= h,
            w == i.width,
            h == i.height,
            buf@.len() == y * w,
            forall|x2: u32, y2: u32|
                x2 < w && y2 < y ==> buf@[#[trigger] pixel_index(*i, x2, y2)] == pixel_spec(
                    *i,
                    *f,
                    *method,
                    repeat,
                    x2,
                    y2,
                ),
        decreases h - y,
    {
        let mut x: u32 = 0;
        while x < w
            invariant
                x <= w,
                y < h,
                w == i.width,
                h == i.height,
                buf@.len() == y * w + x,
                forall|x2: u32, y2: u32|
                    x2 < w && (y2 < y || (y2 == y && x2 < x)) ==> buf@[#[trigger] pixel_index(
                        *i,
                        x2,
                        y2,
                    )] == pixel_spec(*i, *f, *method, repeat, x2, y2),
            decreases w - x,
        {
            let z0 = pixel_coord(i, x, y);
            let z = f.eval_at(z0);
            let rv = match repeat {
                Some(r) => Some(r.value_at(z)),
                None => None,
            };
            let px = method.rgb_complex(z, rv);
            buf.push(px);
            proof {
                assert forall|x2: u32, y2: u32|
                    x2 < w && (y2 < y || (y2 == y && x2 < x + 1)) implies buf@[#[trigger] pixel_index(
                    *i,
                    x2,
                    y2,
                )] == pixel_spec(*i, *f, *method, repeat, x2, y2) by {
                    if y2 == y && x2 == x {
                        assert(pixel_index(*i, x2, y2) == buf@.len() - 1);
                    } else {
                        lemma_pixel_order(w as int, x2 as int, y2 as int, x as int, y as int);
                    }
                }
            }
            x = x + 1;
        }
        proof {
            assert(buf@.len() == (y + 1) * w) by (nonlinear_arith)
                requires
                    buf@.len() == y * w + w,
            ;
        }
        y = y + 1;
    }
    proof {
        assert(buf@.len() == i.width * i.height) by (nonlinear_arith)
            requires
                buf@.len() == h * w,
                w == i.width,
                h == i.height,
        ;
    }
    Ok(buf)
}

/// Render with the default strategy: base-2 exponential lightness and no
/// repeat function.
pub fn domain_color_simple<F: ComplexFunction>(i: &ImageDesc, f: &F) -> (res: Result<
    Vec<PixelColor>,
    ConfigError,
>)
    ensures
        res is Ok <==> valid_desc_spec(*i),
        res matches Ok(buf) ==> rendered_spec(
            *i,
            *f,
            LightnessAlg::Exp2,
            None::<&NoRepeat>,
            buf@,
        ),
        res matches Err(e) ==> e == desc_error_spec(*i),
{
    domain_color(i, f, &LightnessAlg::Exp2, None::<&NoRepeat>)
}

} // verus!
