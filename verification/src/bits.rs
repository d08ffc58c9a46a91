//! Double-precision scalars, carried by their IEEE-754 bit patterns.
//!
//! Verified code never opens a floating-point value: it holds the 64 bits
//! that denote it and hands them to small trusted wrappers, one per
//! floating-point operation. Each wrapper's result is pinned to an
//! uninterpreted name over the argument bits, so every contract above this
//! module states exactly which operations are applied, to which operands,
//! in which order.
//!
//! Inside a wrapper's body, `bytemuck::cast` turns the stored bits back
//! into doubles; a `num_complex` pair serves as the place to hold them
//! (its constructor fixes the cast's target type), and the operation relied
//! on is then applied to the pair's components.
use vstd::prelude::*;

verus! {

/// A double-precision value, carried by its IEEE-754 bit pattern.
#[derive(Clone, Copy, Debug, PartialEq, Eq, Structural)]
pub struct R64 {
    pub bits: u64,
}

/// Bit pattern of 0.0
pub const BITS_ZERO: u64 = 0x0000000000000000;

/// Bit pattern of 1.0
pub const BITS_ONE: u64 = 0x3FF0000000000000;

/// Bit pattern of 2.0
pub const BITS_TWO: u64 = 0x4000000000000000;

/// Bit pattern of 0.5
pub const BITS_HALF: u64 = 0x3FE0000000000000;

/// Bit pattern of 0.999, the cap that keeps a channel below the top band
pub const BITS_CAP: u64 = 0x3FEFF7CED916872B;

/// Bit pattern of 0.8, the weight of the base lightness in a blend
pub const BITS_BLEND_BASE: u64 = 0x3FE999999999999A;

/// Bit pattern of 0.2, the weight of the overlay in a blend
pub const BITS_BLEND_OVERLAY: u64 = 0x3FC999999999999A;

/// Bit pattern of 3.0
pub const BITS_THREE: u64 = 0x4008000000000000;

/// Bit pattern of the double nearest the circle constant pi
pub const BITS_PI: u64 = 0x400921FB54442D18;

/// Bit pattern of 256.0, the channel scale
pub const BITS_SCALE: u64 = 0x4070000000000000;

impl R64 {
    /// The value 0.0
    pub open spec fn spec_zero() -> R64 {
        R64 { bits: BITS_ZERO }
    }

    /// The value 1.0
    pub open spec fn spec_one() -> R64 {
        R64 { bits: BITS_ONE }
    }

    pub fn zero() -> (r: R64)
        ensures
            r == R64::spec_zero(),
    {
        R64 { bits: BITS_ZERO }
    }

    pub fn one() -> (r: R64)
        ensures
            r == R64::spec_one(),
    {
        R64 { bits: BITS_ONE }
    }
}

/// Result bits of double addition on the two argument bit patterns.
pub uninterp spec fn add_bits(a: u64, b: u64) -> u64;

/// Result bits of double subtraction, left minus right.
pub uninterp spec fn sub_bits(a: u64, b: u64) -> u64;

/// Result bits of double multiplication.
pub uninterp spec fn mul_bits(a: u64, b: u64) -> u64;

/// Result bits of double division, left over right.
pub uninterp spec fn div_bits(a: u64, b: u64) -> u64;

/// Result bits of the double remainder operation, left modulo right.
pub uninterp spec fn rem_bits(a: u64, b: u64) -> u64;

/// Result bits of the double square root.
pub uninterp spec fn sqrt_bits(a: u64) -> u64;

/// Result bits of the double base-e exponential.
pub uninterp spec fn exp_bits(a: u64) -> u64;

/// Result bits of the double base-2 exponential.
pub uninterp spec fn exp2_bits(a: u64) -> u64;

/// Result bits of the double fractional part, self minus its truncation.
pub uninterp spec fn fract_bits(a: u64) -> u64;

/// Whether the double denoted by the left bits is less than the right one.
pub uninterp spec fn lt_bits(a: u64, b: u64) -> bool;

/// Whether the double denoted by the left bits is at most the right one.
pub uninterp spec fn le_bits(a: u64, b: u64) -> bool;

/// Result of casting the denoted double to u8 (a saturating truncation).
pub uninterp spec fn f64_as_u8_bits(a: u64) -> u8;

/// Bits of the double that a u32 converts to (the conversion is exact).
pub uninterp spec fn u32_as_f64_bits(x: u32) -> u64;

/// Absolute value of a double: the sign bit is cleared, nothing else moves.
pub open spec fn abs_bits(a: u64) -> u64 {
    a & 0x7FFF_FFFF_FFFF_FFFF
}

/// Negation of a double: the sign bit is flipped, nothing else moves.
pub open spec fn neg_bits(a: u64) -> u64 {
    a ^ 0x8000_0000_0000_0000
}

/// Relies on f64 addition. The complex pair only rebuilds the two doubles
/// from their bit patterns; the call is the scalar `+`.
#[verifier::external_body]
pub(crate) fn r_add(a: R64, b: R64) -> (r: R64)
    ensures
        r.bits == add_bits(a.bits, b.bits),
{
    let p = num_complex::Complex64::new(bytemuck::cast(a.bits), bytemuck::cast(b.bits));
    R64 { bits: (p.re + p.im).to_bits() }
}

/// Relies on f64 subtraction, left minus right.
#[verifier::external_body]
pub(crate) fn r_sub(a: R64, b: R64) -> (r: R64)
    ensures
        r.bits == sub_bits(a.bits, b.bits),
{
    let p = num_complex::Complex64::new(bytemuck::cast(a.bits), bytemuck::cast(b.bits));
    R64 { bits: (p.re - p.im).to_bits() }
}

/// Relies on f64 multiplication.
#[verifier::external_body]
pub(crate) fn r_mul(a: R64, b: R64) -> (r: R64)
    ensures
        r.bits == mul_bits(a.bits, b.bits),
{
    let p = num_complex::Complex64::new(bytemuck::cast(a.bits), bytemuck::cast(b.bits));
    R64 { bits: (p.re * p.im).to_bits() }
}

/// Relies on f64 division, left over right.
#[verifier::external_body]
pub(crate) fn r_div(a: R64, b: R64) -> (r: R64)
    ensures
        r.bits == div_bits(a.bits, b.bits),
{
    let p = num_complex::Complex64::new(bytemuck::cast(a.bits), bytemuck::cast(b.bits));
    R64 { bits: (p.re / p.im).to_bits() }
}

/// Relies on the f64 remainder operator, left modulo right.
#[verifier::external_body]
pub(crate) fn r_rem(a: R64, b: R64) -> (r: R64)
    ensures
        r.bits == rem_bits(a.bits, b.bits),
{
    let p = num_complex::Complex64::new(bytemuck::cast(a.bits), bytemuck::cast(b.bits));
    R64 { bits: (p.re % p.im).to_bits() }
}

/// Relies on f64::sqrt.
#[verifier::external_body]
pub(crate) fn r_sqrt(a: R64) -> (r: R64)
    ensures
        r.bits == sqrt_bits(a.bits),
{
    let p = num_complex::Complex64::new(bytemuck::cast(a.bits), bytemuck::cast(a.bits));
    R64 { bits: p.re.sqrt().to_bits() }
}

/// Relies on f64::exp.
#[verifier::external_body]
pub(crate) fn r_exp(a: R64) -> (r: R64)
    ensures
        r.bits == exp_bits(a.bits),
{
    let p = num_complex::Complex64::new(bytemuck::cast(a.bits), bytemuck::cast(a.bits));
    R64 { bits: p.re.exp().to_bits() }
}

/// Relies on f64::exp2.
#[verifier::external_body]
pub(crate) fn r_exp2(a: R64) -> (r: R64)
    ensures
        r.bits == exp2_bits(a.bits),
{
    let p = num_complex::Complex64::new(bytemuck::cast(a.bits), bytemuck::cast(a.bits));
    R64 { bits: p.re.exp2().to_bits() }
}

/// Relies on f64::fract, the signed fractional part.
#[verifier::external_body]
pub(crate) fn r_fract(a: R64) -> (r: R64)
    ensures
        r.bits == fract_bits(a.bits),
{
    let p = num_complex::Complex64::new(bytemuck::cast(a.bits), bytemuck::cast(a.bits));
    R64 { bits: p.re.fract().to_bits() }
}

/// Relies on f64::abs, which clears the sign bit and moves nothing else.
#[verifier::external_body]
pub(crate) fn r_abs(a: R64) -> (r: R64)
    ensures
        r.bits == abs_bits(a.bits),
{
    let p = num_complex::Complex64::new(bytemuck::cast(a.bits), bytemuck::cast(a.bits));
    R64 { bits: p.re.abs().to_bits() }
}

/// Relies on f64 negation, which flips the sign bit and moves nothing else.
#[verifier::external_body]
pub(crate) fn r_neg(a: R64) -> (r: R64)
    ensures
        r.bits == neg_bits(a.bits),
{
    let p = num_complex::Complex64::new(bytemuck::cast(a.bits), bytemuck::cast(a.bits));
    R64 { bits: (-p.re).to_bits() }
}

/// Relies on the f64 `<` comparison (false whenever an operand is a NaN).
#[verifier::external_body]
pub(crate) fn r_lt(a: R64, b: R64) -> (r: bool)
    ensures
        r == lt_bits(a.bits, b.bits),
{
    let p = num_complex::Complex64::new(bytemuck::cast(a.bits), bytemuck::cast(b.bits));
    p.re < p.im
}

/// Relies on the f64 `<=` comparison (false whenever an operand is a NaN).
#[verifier::external_body]
pub(crate) fn r_le(a: R64, b: R64) -> (r: bool)
    ensures
        r == le_bits(a.bits, b.bits),
{
    let p = num_complex::Complex64::new(bytemuck::cast(a.bits), bytemuck::cast(b.bits));
    p.re <= p.im
}

/// Relies on the `as u8` cast of an f64, a saturating truncation
/// (NaN goes to 0, values at or above 256 to 255).
#[verifier::external_body]
pub(crate) fn r_to_u8(a: R64) -> (r: u8)
    ensures
        r == f64_as_u8_bits(a.bits),
{
    let p = num_complex::Complex64::new(bytemuck::cast(a.bits), bytemuck::cast(a.bits));
    p.re as u8
}

/// Relies on the `as f64` cast of a u32, which is exact.
#[verifier::external_body]
pub(crate) fn r_from_u32(x: u32) -> (r: R64)
    ensures
        r.bits == u32_as_f64_bits(x),
{
    let p = num_complex::Complex64::new(x as _, x as _);
    R64 { bits: p.re.to_bits() }
}

} // verus!
