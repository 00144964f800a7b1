//! Proactive share refresh and share recovery: root-anchored update
//! polynomials, their application to private key shares, and the
//! interpolation of updated shares.
use vstd::prelude::*;

use crate::combine::{lagrange_basis_at, lagrange_coeff_spec};
use crate::curve::{
    fr_add_of, fr_from_u64, fr_mul_of, fr_sub, fr_zero_spec, g2_add, g2_add_of, g2_mul, g2_mul_of,
    Fr, G2Affine,
};
use crate::decryption::PrivateKeyShare;
use crate::poly::{poly_eval, poly_eval_spec};
use crate::pvss::SecretPolynomial;

verus! {

/// A random polynomial of the given degree with a prescribed root: the
/// constant term is chosen so that the polynomial vanishes at `root`.
pub fn make_random_polynomial_with_root(
    degree: usize,
    root: &Fr,
    rng: &mut rand::rngs::StdRng,
) -> (r: SecretPolynomial)
    requires
        degree < usize::MAX,
    ensures
        r.0@.len() == degree + 1,
        poly_eval_spec(r.0@, *root) == fr_zero_spec(),
{
    let zero = fr_from_u64(0);
    let mut poly = SecretPolynomial::new(&zero, degree, rng);

    // With the free term zeroed, the new free term is the negation of the
    // remaining polynomial's value at the root.
    let eval = poly_eval(&poly.0, root);
    let new_c_0 = fr_sub(&zero, &eval);
    let ghost before = poly.0@;
    poly.0[0] = new_c_0;
    proof {
        let after = poly.0@;
        let tail = before.subrange(1, before.len() as int);
        assert(after.subrange(1, after.len() as int) =~= tail);
        let rest = fr_mul_of(*root, poly_eval_spec(tail, *root));
        assert(poly_eval_spec(before, *root) == fr_add_of(zero, rest));
        assert(fr_add_of(zero, rest) == rest);
        assert(poly_eval_spec(after, *root) == fr_add_of(new_c_0, rest));
        assert(fr_add_of(new_c_0, eval) == zero);
        assert(poly_eval_spec(after, *root) == fr_zero_spec());
    }
    poly
}

/// The update vector built from a degree `threshold - 1` polynomial that
/// vanishes at `root`: one entry per domain point, each the polynomial's
/// value there times `h`.
pub open spec fn updates_from_poly(
    r: Seq<G2Affine>,
    d: Seq<Fr>,
    points: Seq<Fr>,
    h: G2Affine,
    root: Fr,
    threshold: int,
) -> bool {
    &&& d.len() == threshold
    &&& poly_eval_spec(d, root) == fr_zero_spec()
    &&& r.len() == points.len()
    &&& forall|i: int|
        0 <= i < r.len() ==> #[trigger] r[i] == g2_mul_of(poly_eval_spec(d, points[i]), h)
}

/// Builds one participant's update contributions for all recipients, from a
/// fresh random polynomial with the given root.
fn prepare_share_updates_with_root(
    domain_points: &Vec<Fr>,
    h: &G2Affine,
    root: &Fr,
    threshold: usize,
    rng: &mut rand::rngs::StdRng,
) -> (r: Vec<G2Affine>)
    requires
        1 <= threshold,
    ensures
        exists|d: Seq<Fr>| #[trigger] updates_from_poly(
            r@,
            d,
            domain_points@,
            *h,
            *root,
            threshold as int,
        ),
{
    let mut d_i = make_random_polynomial_with_root((threshold - 1) as usize, root, rng);
    let n = domain_points.len();
    let mut out: Vec<G2Affine> = Vec::new();
    for i in 0..n
        invariant
            n == domain_points@.len(),
            out@.len() == i,
            forall|i2: int|
                0 <= i2 < i ==> #[trigger] out@[i2] == g2_mul_of(
                    poly_eval_spec(d_i.0@, domain_points@[i2]),
                    *h,
                ),
    {
        let eval = poly_eval(&d_i.0, &domain_points[i]);
        out.push(g2_mul(&eval, h));
    }
    assert(updates_from_poly(out@, d_i.0@, domain_points@, *h, *root, threshold as int));
    d_i.zeroize();
    out
}

/// Update contributions for a recovery round: the update polynomial
/// vanishes at the recovery point `x_r`, so the updated shares still
/// interpolate the original secret while extending the sharing to `x_r`.
pub fn prepare_share_updates_for_recovery(
    domain_points: &Vec<Fr>,
    h: &G2Affine,
    x_r: &Fr,
    threshold: usize,
    rng: &mut rand::rngs::StdRng,
) -> (r: Vec<G2Affine>)
    requires
        1 <= threshold,
    ensures
        exists|d: Seq<Fr>| #[trigger] updates_from_poly(
            r@,
            d,
            domain_points@,
            *h,
            *x_r,
            threshold as int,
        ),
{
    prepare_share_updates_with_root(domain_points, h, x_r, threshold, rng)
}

/// Update contributions for a refresh round: the update polynomial
/// vanishes at zero, so the sum of all participants' updates leaves the
/// shared secret unchanged.
pub fn prepare_share_updates_for_refresh(
    domain_points: &Vec<Fr>,
    h: &G2Affine,
    threshold: usize,
    rng: &mut rand::rngs::StdRng,
) -> (r: Vec<G2Affine>)
    requires
        1 <= threshold,
    ensures
        exists|d: Seq<Fr>| #[trigger] updates_from_poly(
            r@,
            d,
            domain_points@,
            *h,
            fr_zero_spec(),
            threshold as int,
        ),
{
    let zero = fr_from_u64(0);
    prepare_share_updates_with_root(domain_points, h, &zero, threshold, rng)
}

/// The share after the first `j` updates have been added on.
pub open spec fn g2_fold_updates(z: G2Affine, updates: Seq<G2Affine>, j: int) -> G2Affine
    decreases j,
{
    if j <= 0 {
        z
    } else {
        g2_add_of(g2_fold_updates(z, updates, j - 1), updates[j - 1])
    }
}

/// Applies a batch of update contributions to a private key share, one
/// addition in G2 per contribution.
pub fn apply_updates_to_private_share(
    private_key_share: &PrivateKeyShare,
    share_updates: &Vec<G2Affine>,
) -> (r: PrivateKeyShare)
    ensures
        r.private_key_share == g2_fold_updates(
            private_key_share.private_key_share,
            share_updates@,
            share_updates@.len() as int,
        ),
{
    let n = share_updates.len();
    let mut acc = private_key_share.private_key_share;
    for j in 0..n
        invariant
            n == share_updates@.len(),
            acc == g2_fold_updates(private_key_share.private_key_share, share_updates@, j as int),
    {
        acc = g2_add(&acc, &share_updates[j]);
    }
    PrivateKeyShare { private_key_share: acc }
}

/// The Lagrange combination of the given shares at `x`, over the given
/// domain points.
pub open spec fn g2_interpolate(
    points: Seq<Fr>,
    x: Fr,
    shares: Seq<PrivateKeyShare>,
    j: int,
) -> G2Affine
    decreases j,
{
    if j <= 1 {
        g2_mul_of(lagrange_coeff_spec(points, x, 0), shares[0].private_key_share)
    } else {
        g2_add_of(
            g2_interpolate(points, x, shares, j - 1),
            g2_mul_of(lagrange_coeff_spec(points, x, j - 1), shares[j - 1].private_key_share),
        )
    }
}

/// Interpolates updated shares at `x_r`: the sum of the shares weighted by
/// the Lagrange basis at `x_r` over the given domain points.
pub fn recover_share_from_updated_private_shares(
    x_r: &Fr,
    domain_points: &Vec<Fr>,
    updated_private_shares: &Vec<PrivateKeyShare>,
) -> (r: PrivateKeyShare)
    requires
        domain_points@.len() == updated_private_shares@.len(),
        domain_points@.len() >= 1,
    ensures
        r.private_key_share == g2_interpolate(
            domain_points@,
            *x_r,
            updated_private_shares@,
            updated_private_shares@.len() as int,
        ),
{
    let lagrange = lagrange_basis_at(domain_points, x_r);
    let n = updated_private_shares.len();
    let mut acc = g2_mul(&lagrange[0], &updated_private_shares[0].private_key_share);
    for j in 1..n
        invariant
            n == updated_private_shares@.len(),
            n == domain_points@.len(),
            n == lagrange@.len(),
            forall|j2: int|
                0 <= j2 < n ==> #[trigger] lagrange@[j2] == lagrange_coeff_spec(
                    domain_points@,
                    *x_r,
                    j2,
                ),
            acc == g2_interpolate(domain_points@, *x_r, updated_private_shares@, j as int),
    {
        let term = g2_mul(&lagrange[j], &updated_private_shares[j].private_key_share);
        acc = g2_add(&acc, &term);
    }
    PrivateKeyShare { private_key_share: acc }
}

} // verus!
