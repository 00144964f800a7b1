//! Lagrange interpolation weights and the combination of decryption shares
//! into the shared pairing value.
use vstd::prelude::*;

use crate::curve::{
    fr_equals, fr_from_u64, fr_inv_of, fr_inverse, fr_mul, fr_mul_of, fr_one_spec, fr_sub,
    fr_sub_of, fr_zero_spec, gt_mul, gt_mul_of, gt_pow, gt_pow_of, Fr, TargetField,
};
use crate::decryption::{DecryptionShareSimple, DecryptionShareSimplePrecomputed};

verus! {

/// One factor of the Lagrange basis polynomial `l_j` evaluated at `x`:
/// `(x - x_m) / (x_j - x_m)`.
pub open spec fn lagrange_term(points: Seq<Fr>, x: Fr, j: int, m: int) -> Fr {
    fr_mul_of(fr_sub_of(x, points[m]), fr_inv_of(fr_sub_of(points[j], points[m])))
}

/// The product of the first `m` factors of `l_j(x)`, skipping the points
/// equal to `x_j` itself.
pub open spec fn lagrange_prefix(points: Seq<Fr>, x: Fr, j: int, m: int) -> Fr
    decreases m,
{
    if m <= 0 {
        fr_one_spec()
    } else if points[j] == points[m - 1] {
        lagrange_prefix(points, x, j, m - 1)
    } else {
        fr_mul_of(lagrange_prefix(points, x, j, m - 1), lagrange_term(points, x, j, m - 1))
    }
}

/// The Lagrange basis coefficient `l_j(x)` over the given interpolation
/// points.
pub open spec fn lagrange_coeff_spec(points: Seq<Fr>, x: Fr, j: int) -> Fr {
    lagrange_prefix(points, x, j, points.len() as int)
}

/// The Lagrange basis coefficients `l_j(x)` for every `j`, over the given
/// interpolation points.  Points equal to `x_j` are skipped, so repeated
/// points never divide by zero.
pub fn lagrange_basis_at(shares_x: &Vec<Fr>, x_i: &Fr) -> (r: Vec<Fr>)
    ensures
        r@.len() == shares_x@.len(),
        forall|j: int|
            0 <= j < r@.len() ==> #[trigger] r@[j] == lagrange_coeff_spec(shares_x@, *x_i, j),
{
    let n = shares_x.len();
    let mut out: Vec<Fr> = Vec::new();
    for j in 0..n
        invariant
            n == shares_x@.len(),
            out@.len() == j,
            forall|j2: int|
                0 <= j2 < j ==> #[trigger] out@[j2] == lagrange_coeff_spec(shares_x@, *x_i, j2),
    {
        let mut prod = fr_from_u64(1);
        for m in 0..n
            invariant
                n == shares_x@.len(),
                j < n,
                prod == lagrange_prefix(shares_x@, *x_i, j as int, m as int),
        {
            if !fr_equals(&shares_x[j], &shares_x[m]) {
                let num = fr_sub(x_i, &shares_x[m]);
                let den = fr_sub(&shares_x[j], &shares_x[m]);
                let den_inv = fr_inverse(&den);
                let term = fr_mul(&num, &den_inv);
                prod = fr_mul(&prod, &term);
            }
        }
        out.push(prod);
    }
    out
}

/// The Lagrange coefficients at zero for the given domain points: the
/// weights that interpolate a polynomial's constant term from its values at
/// those points.
pub fn prepare_combine_simple(domain_points: &Vec<Fr>) -> (r: Vec<Fr>)
    ensures
        r@.len() == domain_points@.len(),
        forall|j: int|
            0 <= j < r@.len() ==> #[trigger] r@[j] == lagrange_coeff_spec(
                domain_points@,
                fr_zero_spec(),
                j,
            ),
{
    let zero = fr_from_u64(0);
    lagrange_basis_at(domain_points, &zero)
}

/// The product of the first `j` decryption shares, each raised to its
/// weight.
pub open spec fn gt_weighted_prod(shares: Seq<DecryptionShareSimple>, w: Seq<Fr>, j: int) -> TargetField
    decreases j,
{
    if j <= 1 {
        gt_pow_of(w[0], shares[0].decryption_share)
    } else {
        gt_mul_of(gt_weighted_prod(shares, w, j - 1), gt_pow_of(w[j - 1], shares[j - 1].decryption_share))
    }
}

/// Combines simple decryption shares under the given Lagrange coefficients:
/// the product of the shares raised to their weights.
pub fn share_combine_simple(
    decryption_shares: &Vec<DecryptionShareSimple>,
    lagrange_coeffs: &Vec<Fr>,
) -> (r: TargetField)
    requires
        decryption_shares@.len() == lagrange_coeffs@.len(),
        decryption_shares@.len() >= 1,
    ensures
        r == gt_weighted_prod(decryption_shares@, lagrange_coeffs@, decryption_shares@.len() as int),
{
    let n = decryption_shares.len();
    let mut acc = gt_pow(&decryption_shares[0].decryption_share, &lagrange_coeffs[0]);
    for j in 1..n
        invariant
            n == decryption_shares@.len(),
            n == lagrange_coeffs@.len(),
            acc == gt_weighted_prod(decryption_shares@, lagrange_coeffs@, j as int),
    {
        let term = gt_pow(&decryption_shares[j].decryption_share, &lagrange_coeffs[j]);
        acc = gt_mul(&acc, &term);
    }
    acc
}

/// The product of the first `j` precomputed decryption shares.
pub open spec fn gt_prod(shares: Seq<DecryptionShareSimplePrecomputed>, j: int) -> TargetField
    decreases j,
{
    if j <= 1 {
        shares[0].decryption_share
    } else {
        gt_mul_of(gt_prod(shares, j - 1), shares[j - 1].decryption_share)
    }
}

/// Combines precomputed decryption shares: the Lagrange weights are already
/// folded in, so the combination is the plain product.
pub fn share_combine_precomputed(shares: &Vec<DecryptionShareSimplePrecomputed>) -> (r:
    TargetField)
    requires
        shares@.len() >= 1,
    ensures
        r == gt_prod(shares@, shares@.len() as int),
{
    let n = shares.len();
    let mut acc = shares[0].decryption_share;
    for j in 1..n
        invariant
            n == shares@.len(),
            acc == gt_prod(shares@, j as int),
    {
        acc = gt_mul(&acc, &shares[j].decryption_share);
    }
    acc
}

} // verus!
