//! Ways to specify a complex function of one complex variable.
//!
//! A polynomial given by its coefficients, a polynomial given by its roots,
//! and the roots-of-unity probe z^n - 1 each implement `ComplexFunction`.
//! Callers may implement the trait themselves for an arbitrary mapping.
use vstd::prelude::*;

use crate::complex::{c_add, c_add_spec, c_mul, c_mul_spec, c_powf, c_powf_spec, c_sub, c_sub_spec, C64};

verus! {

/// A complex function of one complex variable. `spec_eval` is the value the
/// implementation promises; `eval_at` computes it.
pub trait ComplexFunction {
    /// The value of the function at `z`.
    spec fn spec_eval(&self, z: C64) -> C64;

    /// Evaluate the function at `z`.
    fn eval_at(&self, z: C64) -> (r: C64)
        ensures
            r == self.spec_eval(z),
    ;
}

/// The running pair (sum, power) after folding the coefficients from the
/// left: the sum accumulates coefficient times z to the index, the power is
/// z raised to the number of terms taken, both in double arithmetic in
/// ascending index order.
pub open spec fn terms_state(coeffs: Seq<C64>, z: C64) -> (C64, C64)
    decreases coeffs.len(),
{
    if coeffs.len() == 0 {
        (C64::spec_zero(), C64::spec_one())
    } else {
        let prev = terms_state(coeffs.drop_last(), z);
        (c_add_spec(prev.0, c_mul_spec(prev.1, coeffs.last())), c_mul_spec(prev.1, z))
    }
}

/// The value of the polynomial with the given ascending coefficients at `z`:
/// the sum over i of coeffs[i] * z^i, accumulated left to right.
pub open spec fn terms_eval(coeffs: Seq<C64>, z: C64) -> C64 {
    terms_state(coeffs, z).0
}

/// The value of the monic polynomial with the given roots at `z`: a running
/// product, starting at one, of the factors (z - root), left to right.
pub open spec fn roots_eval(roots: Seq<C64>, z: C64) -> C64
    decreases roots.len(),
{
    if roots.len() == 0 {
        C64::spec_one()
    } else {
        c_mul_spec(roots_eval(roots.drop_last(), z), c_sub_spec(z, roots.last()))
    }
}

/// The roots-of-unity probe: z^n - 1, with the power taken as a real
/// exponent.
pub open spec fn unity_eval(n: usize, z: C64) -> C64 {
    c_sub_spec(c_powf_spec(z, n), C64::spec_one())
}

/// A polynomial as the list of its coefficients, ascending power;
/// the empty list is the constant zero.
pub struct C64Terms(pub Vec<C64>);

/// A polynomial as the list of its roots; the empty list is the constant
/// one.
pub struct C64Roots(pub Vec<C64>);

/// The roots-of-unity probe z^n - 1.
pub struct C64Unity(pub usize);

impl ComplexFunction for C64Terms {
    open spec fn spec_eval(&self, z: C64) -> C64 {
        terms_eval(self.0@, z)
    }

    fn eval_at(&self, z: C64) -> (r: C64) {
        let mut sum = C64::zero();
        let mut zn = C64::one();
        let n = self.0.len();
        let mut idx: usize = 0;
        while idx < n
            invariant
                idx <= n,
                n == self.0.len(),
                (sum, zn) == terms_state(self.0@.take(idx as int), z),
            decreases n - idx,
        {
            let v = self.0[idx];
            sum = c_add(sum, c_mul(zn, v));
            zn = c_mul(zn, z);
            idx = idx + 1;
            proof {
                assert(self.0@.take(idx as int).drop_last() =~= self.0@.take(idx - 1));
                assert(self.0@.take(idx as int).last() == self.0@[idx - 1]);
            }
        }
        proof {
            assert(self.0@.take(n as int) =~= self.0@);
        }
        sum
    }
}

impl ComplexFunction for C64Roots {
    open spec fn spec_eval(&self, z: C64) -> C64 {
        roots_eval(self.0@, z)
    }

    fn eval_at(&self, z: C64) -> (r: C64) {
        let mut prod = C64::one();
        let n = self.0.len();
        let mut idx: usize = 0;
        while idx < n
            invariant
                idx <= n,
                n == self.0.len(),
                prod == roots_eval(self.0@.take(idx as int), z),
            decreases n - idx,
        {
            let v = self.0[idx];
            prod = c_mul(prod, c_sub(z, v));
            idx = idx + 1;
            proof {
                assert(self.0@.take(idx as int).drop_last() =~= self.0@.take(idx - 1));
                assert(self.0@.take(idx as int).last() == self.0@[idx - 1]);
            }
        }
        proof {
            assert(self.0@.take(n as int) =~= self.0@);
        }
        prod
    }
}

impl ComplexFunction for C64Unity {
    open spec fn spec_eval(&self, z: C64) -> C64 {
        unity_eval(self.0, z)
    }

    fn eval_at(&self, z: C64) -> (r: C64) {
        c_sub(c_powf(z, self.0), C64::one())
    }
}

/// A polynomial with no roots is the constant one: evaluating an empty root
/// list yields 1 + 0i at every point of the plane.
pub proof fn lemma_roots_empty(z: C64)
    ensures
        roots_eval(Seq::<C64>::empty(), z) == C64::spec_one(),
{
}

/// A polynomial with no coefficients is the constant zero: evaluating an
/// empty coefficient list yields 0 + 0i at every point of the plane.
pub proof fn lemma_terms_empty(z: C64)
    ensures
        terms_eval(Seq::<C64>::empty(), z) == C64::spec_zero(),
{
}

} // verus!
