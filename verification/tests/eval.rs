use domain_coloring::bits::R64;
use domain_coloring::complex::C64;
use domain_coloring::function::{C64Roots, C64Terms, C64Unity, ComplexFunction};
use num_complex::Complex64;

fn r(x: f64) -> R64 {
    R64 { bits: x.to_bits() }
}

fn c(re: f64, im: f64) -> C64 {
    C64 { re: r(re), im: r(im) }
}

#[test]
fn vectors() {
    let zero = c(0.0, 0.0);
    let one = c(1.0, 0.0);
    let z = c(2.0, 1.0);

    // f(z) = 0
    let f1 = C64Terms(Vec::new());
    // f(z) = 2 z^2 + z + 1
    let f2 = C64Terms(vec![one, one, c(2.0, 0.0)]);
    assert_eq!(f1.eval_at(z), zero);
    assert_eq!(f2.eval_at(z), c(9.0, 9.0));
}

#[test]
fn empty_terms_are_zero_everywhere() {
    let f = C64Terms(Vec::new());
    for (re, im) in [(0.0, 0.0), (2.0, 1.0), (-3.5, 0.25), (1e100, -1e-100)] {
        assert_eq!(f.eval_at(c(re, im)), c(0.0, 0.0));
    }
}

#[test]
fn empty_roots_are_one_everywhere() {
    let f = C64Roots(Vec::new());
    for (re, im) in [(0.0, 0.0), (2.0, 1.0), (-3.5, 0.25), (1e100, -1e-100)] {
        assert_eq!(f.eval_at(c(re, im)), c(1.0, 0.0));
    }
}

#[test]
fn single_root_at_one_is_z_minus_one() {
    let f = C64Roots(vec![c(1.0, 0.0)]);
    assert_eq!(f.eval_at(c(2.0, 1.0)), c(1.0, 1.0));
    assert_eq!(f.eval_at(c(-3.0, 0.5)), c(-4.0, 0.5));
    assert_eq!(f.eval_at(c(0.0, 0.0)), c(-1.0, 0.0));
}

#[test]
fn unity_four_vanishes_at_one() {
    let f = C64Unity(4);
    assert_eq!(f.eval_at(c(1.0, 0.0)), c(0.0, 0.0));
}

#[test]
fn unity_matches_reference_power() {
    // z^n - 1 computed directly with num_complex, compared bit for bit
    for (n, re, im) in [(2usize, 0.0, 1.0), (3, 1.5, -0.5), (5, -0.75, 2.0), (0, 4.0, 4.0)] {
        let f = C64Unity(n);
        let expect = Complex64::new(re, im).powf(n as f64) - 1.0;
        let got = f.eval_at(c(re, im));
        assert_eq!(f64::from_bits(got.re.bits), expect.re);
        assert_eq!(got.re.bits, expect.re.to_bits());
        assert_eq!(got.im.bits, expect.im.to_bits());
    }
}

#[test]
fn terms_match_reference_accumulation() {
    // the same left-to-right accumulation, written directly over Complex64
    let coeffs = [
        Complex64::new(0.5, -1.0),
        Complex64::new(2.0, 0.25),
        Complex64::new(-1.5, 3.0),
        Complex64::new(0.0, 1.0),
    ];
    let z = Complex64::new(1.25, -0.75);
    let mut sum = Complex64::new(0.0, 0.0);
    let mut zn = Complex64::new(1.0, 0.0);
    for v in &coeffs {
        sum += zn * v;
        zn *= z;
    }
    let f = C64Terms(coeffs.iter().map(|v| c(v.re, v.im)).collect());
    let got = f.eval_at(c(z.re, z.im));
    assert_eq!(got.re.bits, sum.re.to_bits());
    assert_eq!(got.im.bits, sum.im.to_bits());
}

#[test]
fn roots_match_reference_product() {
    let roots = [
        Complex64::new(1.0, 0.0),
        Complex64::new(-2.0, 0.5),
        Complex64::new(0.25, -0.25),
    ];
    let z = Complex64::new(0.5, 2.0);
    let mut prod = Complex64::new(1.0, 0.0);
    for v in &roots {
        prod *= z - v;
    }
    let f = C64Roots(roots.iter().map(|v| c(v.re, v.im)).collect());
    let got = f.eval_at(c(z.re, z.im));
    assert_eq!(got.re.bits, prod.re.to_bits());
    assert_eq!(got.im.bits, prod.im.to_bits());
}
