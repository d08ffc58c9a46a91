//! Complex numbers: two double-precision components, each carried as bits.
//!
//! The arithmetic is num_complex's; each operation sits behind a trusted
//! wrapper whose contract spells the component formula out, exactly as the
//! crate's source computes it, over the scalar operation names of `bits`.
use vstd::prelude::*;

use crate::bits::{add_bits, mul_bits, sub_bits, R64, BITS_ONE, BITS_ZERO};

verus! {

/// A complex number as a pair of doubles, real and imaginary part.
#[derive(Clone, Copy, Debug, PartialEq, Eq, Structural)]
pub struct C64 {
    pub re: R64,
    pub im: R64,
}

impl C64 {
    /// The complex zero, 0 + 0i.
    pub open spec fn spec_zero() -> C64 {
        C64 { re: R64 { bits: BITS_ZERO }, im: R64 { bits: BITS_ZERO } }
    }

    /// The complex one, 1 + 0i.
    pub open spec fn spec_one() -> C64 {
        C64 { re: R64 { bits: BITS_ONE }, im: R64 { bits: BITS_ZERO } }
    }

    pub fn zero() -> (r: C64)
        ensures
            r == C64::spec_zero(),
    {
        C64 { re: R64 { bits: BITS_ZERO }, im: R64 { bits: BITS_ZERO } }
    }

    pub fn one() -> (r: C64)
        ensures
            r == C64::spec_one(),
    {
        C64 { re: R64 { bits: BITS_ONE }, im: R64 { bits: BITS_ZERO } }
    }
}

/// Complex addition: componentwise double addition.
pub open spec fn c_add_spec(a: C64, b: C64) -> C64 {
    C64 {
        re: R64 { bits: add_bits(a.re.bits, b.re.bits) },
        im: R64 { bits: add_bits(a.im.bits, b.im.bits) },
    }
}

/// Complex subtraction: componentwise double subtraction.
pub open spec fn c_sub_spec(a: C64, b: C64) -> C64 {
    C64 {
        re: R64 { bits: sub_bits(a.re.bits, b.re.bits) },
        im: R64 { bits: sub_bits(a.im.bits, b.im.bits) },
    }
}

/// Complex multiplication, in num_complex's evaluation order:
/// re = a.re*b.re - a.im*b.im, im = a.re*b.im + a.im*b.re.
pub open spec fn c_mul_spec(a: C64, b: C64) -> C64 {
    C64 {
        re: R64 {
            bits: sub_bits(
                mul_bits(a.re.bits, b.re.bits),
                mul_bits(a.im.bits, b.im.bits),
            ),
        },
        im: R64 {
            bits: add_bits(
                mul_bits(a.re.bits, b.im.bits),
                mul_bits(a.im.bits, b.re.bits),
            ),
        },
    }
}

/// The squared modulus, in num_complex's evaluation order:
/// re*re + im*im.
pub open spec fn c_norm_sqr_spec(a: C64) -> R64 {
    R64 { bits: add_bits(mul_bits(a.re.bits, a.re.bits), mul_bits(a.im.bits, a.im.bits)) }
}

/// Result bits of f64::atan2: first argument y, second x.
pub uninterp spec fn atan2_bits(y: u64, x: u64) -> u64;

/// The principal argument: atan2 of the imaginary over the real part.
pub open spec fn c_arg_spec(a: C64) -> R64 {
    R64 { bits: atan2_bits(a.im.bits, a.re.bits) }
}

/// Result bits of Complex64::powf, base re/im, real exponent; num_complex
/// computes it through polar coordinates.
pub uninterp spec fn powf_bits(re: u64, im: u64, e: u64) -> (u64, u64);

/// Bits of the double that `n as f64` gives for a usize `n`.
pub uninterp spec fn usize_as_f64_bits(n: usize) -> u64;

/// Complex64::powf with the exponent `n as f64`.
pub open spec fn c_powf_spec(z: C64, n: usize) -> C64 {
    let p = powf_bits(z.re.bits, z.im.bits, usize_as_f64_bits(n));
    C64 { re: R64 { bits: p.0 }, im: R64 { bits: p.1 } }
}

/// Relies on Complex64 addition: new(a.re + b.re, a.im + b.im).
#[verifier::external_body]
pub(crate) fn c_add(a: C64, b: C64) -> (r: C64)
    ensures
        r.re.bits == add_bits(a.re.bits, b.re.bits),
        r.im.bits == add_bits(a.im.bits, b.im.bits),
{
    let af = num_complex::Complex64::new(bytemuck::cast(a.re.bits), bytemuck::cast(a.im.bits));
    let bf = num_complex::Complex64::new(bytemuck::cast(b.re.bits), bytemuck::cast(b.im.bits));
    let s = af + bf;
    C64 { re: R64 { bits: s.re.to_bits() }, im: R64 { bits: s.im.to_bits() } }
}

/// Relies on Complex64 subtraction: new(a.re - b.re, a.im - b.im).
#[verifier::external_body]
pub(crate) fn c_sub(a: C64, b: C64) -> (r: C64)
    ensures
        r.re.bits == sub_bits(a.re.bits, b.re.bits),
        r.im.bits == sub_bits(a.im.bits, b.im.bits),
{
    let af = num_complex::Complex64::new(bytemuck::cast(a.re.bits), bytemuck::cast(a.im.bits));
    let bf = num_complex::Complex64::new(bytemuck::cast(b.re.bits), bytemuck::cast(b.im.bits));
    let s = af - bf;
    C64 { re: R64 { bits: s.re.to_bits() }, im: R64 { bits: s.im.to_bits() } }
}

/// Relies on Complex64 multiplication:
/// new(a.re*b.re - a.im*b.im, a.re*b.im + a.im*b.re).
#[verifier::external_body]
pub(crate) fn c_mul(a: C64, b: C64) -> (r: C64)
    ensures
        r.re.bits == sub_bits(mul_bits(a.re.bits, b.re.bits), mul_bits(a.im.bits, b.im.bits)),
        r.im.bits == add_bits(mul_bits(a.re.bits, b.im.bits), mul_bits(a.im.bits, b.re.bits)),
{
    let af = num_complex::Complex64::new(bytemuck::cast(a.re.bits), bytemuck::cast(a.im.bits));
    let bf = num_complex::Complex64::new(bytemuck::cast(b.re.bits), bytemuck::cast(b.im.bits));
    let s = af * bf;
    C64 { re: R64 { bits: s.re.to_bits() }, im: R64 { bits: s.im.to_bits() } }
}

/// Relies on Complex64::norm_sqr: re*re + im*im.
#[verifier::external_body]
pub(crate) fn c_norm_sqr(a: C64) -> (r: R64)
    ensures
        r.bits == add_bits(mul_bits(a.re.bits, a.re.bits), mul_bits(a.im.bits, a.im.bits)),
{
    let af = num_complex::Complex64::new(bytemuck::cast(a.re.bits), bytemuck::cast(a.im.bits));
    R64 { bits: af.norm_sqr().to_bits() }
}

/// Relies on Complex64::arg: im.atan2(re).
#[verifier::external_body]
pub(crate) fn c_arg(a: C64) -> (r: R64)
    ensures
        r.bits == atan2_bits(a.im.bits, a.re.bits),
{
    let af = num_complex::Complex64::new(bytemuck::cast(a.re.bits), bytemuck::cast(a.im.bits));
    R64 { bits: af.arg().to_bits() }
}

/// Relies on Complex64::powf, called with the exponent `n as f64`.
#[verifier::external_body]
pub(crate) fn c_powf(z: C64, n: usize) -> (r: C64)
    ensures
        r.re.bits == powf_bits(z.re.bits, z.im.bits, usize_as_f64_bits(n)).0,
        r.im.bits == powf_bits(z.re.bits, z.im.bits, usize_as_f64_bits(n)).1,
{
    let zf = num_complex::Complex64::new(bytemuck::cast(z.re.bits), bytemuck::cast(z.im.bits));
    let w = zf.powf(n as _);
    C64 { re: R64 { bits: w.re.to_bits() }, im: R64 { bits: w.im.to_bits() } }
}

} // verus!
