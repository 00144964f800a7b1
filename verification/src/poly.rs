//! Polynomials over the scalar field, as coefficient vectors, with Horner
//! evaluation.
use vstd::prelude::*;

use crate::curve::{fr_add, fr_add_of, fr_from_u64, fr_mul, fr_mul_of, fr_random, fr_zero_spec, Fr};

verus! {

/// The value of the polynomial with the given coefficients (lowest degree
/// first) at `x`.
pub open spec fn poly_eval_spec(coeffs: Seq<Fr>, x: Fr) -> Fr
    decreases coeffs.len(),
{
    if coeffs.len() == 0 {
        fr_zero_spec()
    } else {
        fr_add_of(coeffs[0], fr_mul_of(x, poly_eval_spec(coeffs.subrange(1, coeffs.len() as int), x)))
    }
}

/// Horner evaluation of the polynomial with the given coefficients at `x`.
pub fn poly_eval(coeffs: &Vec<Fr>, x: &Fr) -> (r: Fr)
    ensures
        r == poly_eval_spec(coeffs@, *x),
{
    let n = coeffs.len();
    let mut acc = fr_from_u64(0);
    assert(coeffs@.subrange(n as int, n as int) =~= Seq::<Fr>::empty());
    let mut i = n;
    while i > 0
        invariant
            i <= n == coeffs@.len(),
            acc == poly_eval_spec(coeffs@.subrange(i as int, n as int), *x),
        decreases i,
    {
        i = i - 1;
        let scaled = fr_mul(x, &acc);
        acc = fr_add(&coeffs[i], &scaled);
        assert(coeffs@.subrange(i as int, n as int)[0] == coeffs@[i as int]);
        assert(coeffs@.subrange(i as int, n as int).subrange(
            1,
            coeffs@.subrange(i as int, n as int).len() as int,
        ) =~= coeffs@.subrange(i + 1, n as int));
    }
    assert(coeffs@.subrange(0, n as int) =~= coeffs@);
    acc
}

/// A vector of `n` scalars drawn from the given random number generator.
pub(crate) fn random_scalars(n: usize, rng: &mut rand::rngs::StdRng) -> (r: Vec<Fr>)
    ensures
        r@.len() == n,
{
    let mut out: Vec<Fr> = Vec::new();
    for k in 0..n
        invariant
            out@.len() == k,
    {
        out.push(fr_random(rng));
    }
    out
}

/// A copy of the vector, element by element.
pub(crate) fn copy_vec<T: Copy>(v: &Vec<T>) -> (r: Vec<T>)
    ensures
        r@ == v@,
{
    let mut out: Vec<T> = Vec::new();
    let n = v.len();
    for k in 0..n
        invariant
            n == v@.len(),
            out@ == v@.subrange(0, k as int),
    {
        out.push(v[k]);
        assert(out@ =~= v@.subrange(0, k + 1));
    }
    assert(v@.subrange(0, n as int) =~= v@);
    out
}

} // verus!
