//! Publicly verifiable secret sharing transcripts: construction,
//! verification and aggregation.
use core::marker::PhantomData;
use vstd::prelude::*;

use crate::ciphertext::{ciphertext_valid_wrt, Ciphertext};
use crate::combine::{lagrange_coeff_spec, prepare_combine_simple};
use crate::curve::{
    domain_elements_of, domain_size_of, fr_inv_of, fr_inverse, fr_pow_cancels, fr_zero_spec,
    g1_add, g1_add_of, g1_fft, g1_fft_of, g1_mul, g1_mul_of, g1_neg, g1_neg_of,
    g1_scales_pairings, g2_add, g2_add_of, g2_mul, g2_mul_of, g2_scales_pairings, gt_equals,
    pairing, pairing_of, wipe_scalars, Domain, Fr, G1Affine, G2Affine,
};
use crate::decryption::{
    precomputed_share_built, simple_share_built, DecryptionShareSimple,
    DecryptionShareSimplePrecomputed, PrivateKeyShare,
};
use crate::dkg::{all_indices_unique, PubliclyVerifiableDkg, Validator};
use crate::poly::{poly_eval, poly_eval_spec, random_scalars};
use crate::refresh::{apply_updates_to_private_share, g2_fold_updates};
use crate::{Error, Result};

verus! {

/// The choice of group generators shared by a DKG session.
#[derive(Clone, Copy)]
pub struct PubliclyVerifiableParams {
    pub g: G1Affine,
    pub h: G2Affine,
}

impl PubliclyVerifiableParams {
    /// The negation of the G1 generator, as verification equations use it.
    pub fn g_inv(&self) -> (r: G1Affine)
        ensures
            r == g1_neg_of(self.g),
            g1_neg_of(r) == self.g,
    {
        g1_neg(&self.g)
    }
}

/// The fixed generators of the curve; nothing further is assumed of them,
/// so every contract speaks relative to the parameter values in use.
impl Default for PubliclyVerifiableParams {
    fn default() -> (r: PubliclyVerifiableParams) {
        PubliclyVerifiableParams { g: crate::curve::g1_generator(), h: crate::curve::g2_generator() }
    }
}

/// Marker struct for unaggregated PVSS transcripts.
#[derive(Clone, Copy, PartialEq, Eq, Structural)]
pub struct Unaggregated;

/// Marker struct for aggregated PVSS transcripts.
#[derive(Clone, Copy, PartialEq, Eq, Structural)]
pub struct Aggregated;

/// Trait gate used to add extra methods to aggregated PVSS transcripts.
pub trait Aggregate {

}

/// Apply trait gate to the Aggregated marker struct.
impl Aggregate for Aggregated {

}

/// Type alias for aggregated PVSS transcripts.
pub type AggregatedPvss = PubliclyVerifiableSS<Aggregated>;

/// The blinded evaluations of the shares of a single random polynomial.
pub type ShareEncryptions = G2Affine;

/// A secret polynomial, wrapped so that its coefficients can be wiped after
/// use.
pub struct SecretPolynomial(pub Vec<Fr>);

impl SecretPolynomial {
    /// A random polynomial of the given degree whose constant term is the
    /// secret `s`.
    pub fn new(s: &Fr, degree: usize, rng: &mut rand::rngs::StdRng) -> (r: SecretPolynomial)
        requires
            degree < usize::MAX,
        ensures
            r.0@.len() == degree + 1,
            r.0@[0] == *s,
    {
        let mut coeffs: Vec<Fr> = Vec::new();
        coeffs.push(*s);
        let mut rest = random_scalars(degree, rng);
        coeffs.append(&mut rest);
        assert(coeffs@[0] == *s);
        SecretPolynomial(coeffs)
    }

    /// Overwrites every coefficient with zero.
    pub fn zeroize(&mut self)
        ensures
            final(self).0@.len() == old(self).0@.len(),
            forall|i: int| 0 <= i < final(self).0@.len() ==> final(self).0@[i] == fr_zero_spec(),
    {
        wipe_scalars(&mut self.0);
    }
}

/// Relies on `core::marker::PhantomData` being a unit value: cloning it
/// returns the same value.
pub assume_specification<T: core::marker::PointeeSized>[ <PhantomData<T> as Clone>::clone ](
    p: &PhantomData<T>,
) -> (r: PhantomData<T>)
    ensures
        r == *p,
;

/// A validator's published contribution: a Feldman commitment to its secret
/// polynomial, one encrypted share evaluation per validator, and a proof of
/// knowledge of the constant term.
#[derive(Clone)]
pub struct PubliclyVerifiableSS<T = Unaggregated> {
    /// Feldman commitment to the VSS polynomial, `coeffs[k] = phi_k · g`.
    pub coeffs: Vec<G1Affine>,
    /// The shares dealt to the validators, `shares[i] = phi(omega_i) · ek_i`.
    pub shares: Vec<G2Affine>,
    /// Proof of knowledge of the constant term, `sigma = s · h`.
    pub sigma: G2Affine,
    pub phantom: PhantomData<T>,
}

/// The transcript commits, share by share and coefficient by coefficient, to
/// the polynomial `phi` with constant term `s` under the session's
/// generators, keys and domain.
pub open spec fn transcript_from_poly<T>(
    t: PubliclyVerifiableSS<T>,
    phi: Seq<Fr>,
    s: Fr,
    dkg: PubliclyVerifiableDkg,
) -> bool {
    &&& phi.len() == dkg.dkg_params.spec_security_threshold() as int
    &&& phi.len() > 0
    &&& phi[0] == s
    &&& t.coeffs@.len() == phi.len()
    &&& forall|k: int|
        0 <= k < phi.len() ==> #[trigger] t.coeffs@[k] == g1_mul_of(phi[k], dkg.pvss_params.g)
            && g1_scales_pairings(phi[k], dkg.pvss_params.g, t.coeffs@[k])
    &&& t.shares@.len() == dkg.validators@.len()
    &&& forall|i: int|
        0 <= i < t.shares@.len() ==> #[trigger] t.shares@[i] == g2_mul_of(
            poly_eval_spec(phi, domain_elements_of(dkg.domain)[i]),
            dkg.validators@[i].encryption_key,
        ) && g2_scales_pairings(
            poly_eval_spec(phi, domain_elements_of(dkg.domain)[i]),
            dkg.validators@[i].encryption_key,
            t.shares@[i],
        )
}

impl<T> PubliclyVerifiableSS<T> {
    /// Deals a new transcript sharing the secret `s` in the given DKG
    /// session: for some polynomial of degree `t - 1` with constant term
    /// `s`, it carries the commitments to the coefficients, the share
    /// evaluations encrypted to each validator's key, and `s · h` as the
    /// proof of knowledge.
    pub fn new(s: &Fr, dkg: &PubliclyVerifiableDkg, rng: &mut rand::rngs::StdRng) -> (r: Result<
        PubliclyVerifiableSS<T>,
    >)
        requires
            dkg.wf(),
        ensures
            r is Ok,
            r matches Ok(t) ==> {
                &&& t.sigma == g2_mul_of(*s, dkg.pvss_params.h)
                &&& g2_scales_pairings(*s, dkg.pvss_params.h, t.sigma)
                &&& exists|phi: Seq<Fr>| #[trigger] transcript_from_poly(t, phi, *s, *dkg)
                &&& t.coeffs@.len() == dkg.dkg_params.spec_security_threshold() as int
                &&& t.coeffs@[0] == g1_mul_of(*s, dkg.pvss_params.g)
                &&& g1_scales_pairings(*s, dkg.pvss_params.g, t.coeffs@[0])
                &&& t.shares@.len() == dkg.validators@.len()
                &&& t.optimistic_check_spec(dkg.pvss_params)
            },
    {
        let threshold = dkg.dkg_params.security_threshold();
        let mut phi = SecretPolynomial::new(s, (threshold - 1) as usize, rng);

        let mut coeffs: Vec<G1Affine> = Vec::new();
        let t_len = phi.0.len();
        for k in 0..t_len
            invariant
                t_len == phi.0@.len(),
                coeffs@.len() == k,
                forall|k2: int|
                    0 <= k2 < k ==> #[trigger] coeffs@[k2] == g1_mul_of(
                        phi.0@[k2],
                        dkg.pvss_params.g,
                    ) && g1_scales_pairings(phi.0@[k2], dkg.pvss_params.g, coeffs@[k2]),
        {
            coeffs.push(g1_mul(&phi.0[k], &dkg.pvss_params.g));
        }

        let points = crate::curve::domain_points(&dkg.domain);
        let n = dkg.validators.len();
        let mut shares: Vec<G2Affine> = Vec::new();
        for i in 0..n
            invariant
                dkg.wf(),
                n == dkg.validators@.len(),
                points@ == domain_elements_of(dkg.domain),
                n <= points@.len(),
                shares@.len() == i,
                forall|i2: int|
                    0 <= i2 < i ==> #[trigger] shares@[i2] == g2_mul_of(
                        poly_eval_spec(phi.0@, domain_elements_of(dkg.domain)[i2]),
                        dkg.validators@[i2].encryption_key,
                    ) && g2_scales_pairings(
                        poly_eval_spec(phi.0@, domain_elements_of(dkg.domain)[i2]),
                        dkg.validators@[i2].encryption_key,
                        shares@[i2],
                    ),
        {
            let eval_i = poly_eval(&phi.0, &points[i]);
            shares.push(g2_mul(&eval_i, &dkg.validators[i].encryption_key));
        }

        let sigma = g2_mul(s, &dkg.pvss_params.h);
        let ghost phi_coeffs = phi.0@;
        phi.zeroize();

        let vss = PubliclyVerifiableSS { coeffs, shares, sigma, phantom: PhantomData };
        assert(transcript_from_poly(vss, phi_coeffs, *s, *dkg));
        Ok(vss)
    }

    /// The optimistic check: the first commitment pairs with `h` as `g`
    /// pairs with the proof of knowledge, and there is a first commitment at
    /// all.
    pub open spec fn optimistic_check_spec(self, params: PubliclyVerifiableParams) -> bool {
        &&& self.coeffs@.len() > 0
        &&& pairing_of(self.coeffs@[0], params.h) == pairing_of(params.g, self.sigma)
    }

    /// Checks only the proof of knowledge of the constant term: one pairing
    /// equation over the first commitment and `sigma`.  This is a cheap
    /// filter before aggregation; it does not look at the shares, so it must
    /// not serve as the final verifier.
    pub fn verify_optimistic(&self, pvss_params: &PubliclyVerifiableParams) -> (r: bool)
        ensures
            r == self.optimistic_check_spec(*pvss_params),
    {
        if self.coeffs.len() == 0 {
            return false;
        }
        let lhs = pairing(&self.coeffs[0], &pvss_params.h);
        let rhs = pairing(&pvss_params.g, &self.sigma);
        gt_equals(&lhs, &rhs)
    }
}

/// The optimistic check reads only the commitments and the proof of
/// knowledge: two transcripts that agree on those agree on it, however their
/// shares differ.
pub proof fn lemma_optimistic_check_ignores_shares<T>(
    a: PubliclyVerifiableSS<T>,
    b: PubliclyVerifiableSS<T>,
    params: PubliclyVerifiableParams,
)
    requires
        a.coeffs@ == b.coeffs@,
        a.sigma == b.sigma,
    ensures
        a.optimistic_check_spec(params) == b.optimistic_check_spec(params),
{
}

/// Every transcript in the list deals the same number of commitments and of
/// shares as the first one.
pub open spec fn uniform_shapes(list: Seq<PubliclyVerifiableSS<Unaggregated>>) -> bool {
    forall|j: int|
        #![trigger list[j].coeffs]
        #![trigger list[j].shares]
        0 <= j < list.len() ==> list[j].coeffs@.len() == list[0].coeffs@.len()
            && list[j].shares@.len() == list[0].shares@.len()
}

/// The sum of the `k`-th commitment over the first `j` transcripts, in the
/// order given.
pub open spec fn g1_coeff_sum(list: Seq<PubliclyVerifiableSS<Unaggregated>>, k: int, j: int) -> G1Affine
    decreases j,
{
    if j <= 1 {
        list[0].coeffs@[k]
    } else {
        g1_add_of(g1_coeff_sum(list, k, j - 1), list[j - 1].coeffs@[k])
    }
}

/// The sum of the `i`-th encrypted share over the first `j` transcripts.
pub open spec fn g2_share_sum(list: Seq<PubliclyVerifiableSS<Unaggregated>>, i: int, j: int) -> G2Affine
    decreases j,
{
    if j <= 1 {
        list[0].shares@[i]
    } else {
        g2_add_of(g2_share_sum(list, i, j - 1), list[j - 1].shares@[i])
    }
}

/// The sum of the proofs of knowledge over the first `j` transcripts.
pub open spec fn g2_sigma_sum(list: Seq<PubliclyVerifiableSS<Unaggregated>>, j: int) -> G2Affine
    decreases j,
{
    if j <= 1 {
        list[0].sigma
    } else {
        g2_add_of(g2_sigma_sum(list, j - 1), list[j - 1].sigma)
    }
}

/// The full verification equations: one encrypted share per validator, and
/// for each validator `i` the pairing of `g` with the share equals the
/// pairing of the `i`-th domain evaluation of the committed polynomial with
/// the validator's encryption key.
pub open spec fn full_check_spec(
    coeffs: Seq<G1Affine>,
    shares: Seq<G2Affine>,
    g: G1Affine,
    validators: Seq<Validator>,
    domain: Domain,
) -> bool {
    &&& shares.len() == validators.len()
    &&& forall|i: int|
        0 <= i < validators.len() ==> pairing_of(g, #[trigger] shares[i]) == pairing_of(
            g1_fft_of(domain, coeffs)[i],
            validators[i].encryption_key,
        )
}

/// Checks a transcript body against the commitment: the commitments are
/// carried to the evaluation domain by an FFT over G1, and every validator's
/// encrypted share must pair with `g` as that evaluation pairs with the
/// validator's key.
pub fn do_verify_full(
    pvss_coefficients: &Vec<G1Affine>,
    pvss_encrypted_shares: &Vec<G2Affine>,
    pvss_params: &PubliclyVerifiableParams,
    validators: &Vec<Validator>,
    domain: &Domain,
) -> (r: bool)
    requires
        all_indices_unique(validators@),
        validators@.len() <= domain_size_of(*domain) as int,
    ensures
        r == full_check_spec(
            pvss_coefficients@,
            pvss_encrypted_shares@,
            pvss_params.g,
            validators@,
            *domain,
        ),
{
    match crate::dkg::assert_no_share_duplicates(validators) {
        Ok(_) => {},
        Err(_) => {
            return false;
        },
    }
    if pvss_encrypted_shares.len() != validators.len() {
        return false;
    }
    let commitment = g1_fft(domain, pvss_coefficients);
    let n = validators.len();
    for i in 0..n
        invariant
            n == validators@.len(),
            n == pvss_encrypted_shares@.len(),
            n <= commitment@.len(),
            commitment@ == g1_fft_of(*domain, pvss_coefficients@),
            forall|i2: int|
                0 <= i2 < i ==> pairing_of(pvss_params.g, #[trigger] pvss_encrypted_shares@[i2])
                    == pairing_of(
                    g1_fft_of(*domain, pvss_coefficients@)[i2],
                    validators@[i2].encryption_key,
                ),
    {
        let lhs = pairing(&pvss_params.g, &pvss_encrypted_shares[i]);
        let rhs = pairing(&commitment[i], &validators[i].encryption_key);
        if !gt_equals(&lhs, &rhs) {
            return false;
        }
    }
    true
}

impl<T> PubliclyVerifiableSS<T> {
    /// Full verification of this transcript against the DKG session: every
    /// per-validator pairing equation must hold.
    pub fn verify_full(&self, dkg: &PubliclyVerifiableDkg) -> (r: bool)
        requires
            dkg.wf(),
        ensures
            r == full_check_spec(
                self.coeffs@,
                self.shares@,
                dkg.pvss_params.g,
                dkg.validators@,
                dkg.domain,
            ),
    {
        proof {
            crate::dkg::lemma_canonical_implies_unique(dkg.validators@);
        }
        do_verify_full(&self.coeffs, &self.shares, &dkg.pvss_params, &dkg.validators, &dkg.domain)
    }
}

/// Every transcript in the list passes the optimistic check under the
/// given generators.
pub open spec fn all_optimistic(
    list: Seq<PubliclyVerifiableSS<Unaggregated>>,
    params: PubliclyVerifiableParams,
) -> bool {
    forall|i: int| 0 <= i < list.len() ==> (#[trigger] list[i]).optimistic_check_spec(params)
}

/// Aggregates a list of transcripts by pointwise sums: commitment by
/// commitment in G1, share by share in G2, and the proofs of knowledge.  An
/// empty list is refused.  By the bilinearity of the pairing, the aggregate
/// passes the optimistic check whenever every input does.
pub fn aggregate(pvss_list: &Vec<PubliclyVerifiableSS<Unaggregated>>) -> (r: Result<AggregatedPvss>)
    requires
        uniform_shapes(pvss_list@),
    ensures
        r is Ok <==> pvss_list@.len() > 0,
        r matches Err(e) ==> e == Error::NoTranscriptsToAggregate,
        r matches Ok(t) ==> {
            &&& t.coeffs@.len() == pvss_list@[0].coeffs@.len()
            &&& t.shares@.len() == pvss_list@[0].shares@.len()
            &&& t.sigma == g2_sigma_sum(pvss_list@, pvss_list@.len() as int)
            &&& forall|k: int|
                0 <= k < t.coeffs@.len() ==> #[trigger] t.coeffs@[k] == g1_coeff_sum(
                    pvss_list@,
                    k,
                    pvss_list@.len() as int,
                )
            &&& forall|i: int|
                0 <= i < t.shares@.len() ==> #[trigger] t.shares@[i] == g2_share_sum(
                    pvss_list@,
                    i,
                    pvss_list@.len() as int,
                )
            &&& forall|pp: PubliclyVerifiableParams|
                #[trigger] all_optimistic(pvss_list@, pp) ==> t.optimistic_check_spec(pp)
        },
{
    if pvss_list.len() == 0 {
        return Err(Error::NoTranscriptsToAggregate);
    }
    let mut coeffs = crate::poly::copy_vec(&pvss_list[0].coeffs);
    let mut shares = crate::poly::copy_vec(&pvss_list[0].shares);
    let mut sigma = pvss_list[0].sigma;
    let m = pvss_list.len();
    let clen = coeffs.len();
    let slen = shares.len();
    for j in 1..m
        invariant
            m == pvss_list@.len(),
            0 < m,
            uniform_shapes(pvss_list@),
            clen == pvss_list@[0].coeffs@.len(),
            slen == pvss_list@[0].shares@.len(),
            coeffs@.len() == clen,
            shares@.len() == slen,
            sigma == g2_sigma_sum(pvss_list@, j as int),
            forall|k: int| 0 <= k < clen ==> #[trigger] coeffs@[k] == g1_coeff_sum(pvss_list@, k, j as int),
            forall|i: int| 0 <= i < slen ==> #[trigger] shares@[i] == g2_share_sum(pvss_list@, i, j as int),
            forall|pp: PubliclyVerifiableParams|
                #[trigger] all_optimistic(pvss_list@, pp) ==> pairing_of(
                    g1_coeff_sum(pvss_list@, 0, j as int),
                    pp.h,
                ) == pairing_of(pp.g, g2_sigma_sum(pvss_list@, j as int)),
    {
        sigma = g2_add(&sigma, &pvss_list[j].sigma);
        for k in 0..clen
            invariant
                m == pvss_list@.len(),
                1 <= j < m,
                uniform_shapes(pvss_list@),
                clen == pvss_list@[0].coeffs@.len(),
                coeffs@.len() == clen,
                forall|k2: int|
                    0 <= k2 < k ==> #[trigger] coeffs@[k2] == g1_coeff_sum(
                        pvss_list@,
                        k2,
                        j as int + 1,
                    ),
                forall|k2: int|
                    k <= k2 < clen ==> #[trigger] coeffs@[k2] == g1_coeff_sum(pvss_list@, k2, j as int),
                k >= 1 ==> crate::curve::g1_adds_pairings(
                    g1_coeff_sum(pvss_list@, 0, j as int),
                    pvss_list@[j as int].coeffs@[0],
                    coeffs@[0],
                ),
        {
            assert(pvss_list@[j as int].coeffs@.len() == clen);
            let sum = g1_add(&coeffs[k], &pvss_list[j].coeffs[k]);
            coeffs[k] = sum;
        }
        for i in 0..slen
            invariant
                m == pvss_list@.len(),
                1 <= j < m,
                uniform_shapes(pvss_list@),
                slen == pvss_list@[0].shares@.len(),
                shares@.len() == slen,
                forall|i2: int|
                    0 <= i2 < i ==> #[trigger] shares@[i2] == g2_share_sum(
                        pvss_list@,
                        i2,
                        j as int + 1,
                    ),
                forall|i2: int|
                    i <= i2 < slen ==> #[trigger] shares@[i2] == g2_share_sum(pvss_list@, i2, j as int),
        {
            assert(pvss_list@[j as int].shares@.len() == slen);
            let sum = g2_add(&shares[i], &pvss_list[j].shares[i]);
            shares[i] = sum;
        }
        proof {
            assert forall|pp: PubliclyVerifiableParams|
                #[trigger] all_optimistic(pvss_list@, pp) implies pairing_of(
                g1_coeff_sum(pvss_list@, 0, j as int + 1),
                pp.h,
            ) == pairing_of(pp.g, g2_sigma_sum(pvss_list@, j as int + 1)) by {
                assert(pvss_list@[0].optimistic_check_spec(pp));
                assert(clen > 0);
                assert(pvss_list@[j as int].optimistic_check_spec(pp));
                assert(coeffs@[0] == g1_coeff_sum(pvss_list@, 0, j as int + 1));
                assert(pairing_of(coeffs@[0], pp.h) == crate::curve::gt_mul_of(
                    pairing_of(g1_coeff_sum(pvss_list@, 0, j as int), pp.h),
                    pairing_of(pvss_list@[j as int].coeffs@[0], pp.h),
                ));
                assert(pairing_of(pp.g, sigma) == crate::curve::gt_mul_of(
                    pairing_of(pp.g, g2_sigma_sum(pvss_list@, j as int)),
                    pairing_of(pp.g, pvss_list@[j as int].sigma),
                ));
            }
        }
    }
    proof {
        assert forall|pp: PubliclyVerifiableParams|
            #[trigger] all_optimistic(pvss_list@, pp) implies (PubliclyVerifiableSS::<
            Aggregated,
        > { coeffs, shares, sigma, phantom: PhantomData }).optimistic_check_spec(pp) by {
            assert(pvss_list@[0].optimistic_check_spec(pp));
        }
    }
    Ok(PubliclyVerifiableSS { coeffs, shares, sigma, phantom: PhantomData })
}

/// An aggregated transcript body is accepted against the received
/// transcripts exactly when full verification passes and its first
/// commitment is the sum of theirs.
pub open spec fn aggregation_accepted(
    coeffs: Seq<G1Affine>,
    shares: Seq<G2Affine>,
    g: G1Affine,
    validators: Seq<Validator>,
    domain: Domain,
    vss: Seq<PubliclyVerifiableSS<Unaggregated>>,
) -> bool {
    &&& full_check_spec(coeffs, shares, g, validators, domain)
    &&& vss.len() > 0
    &&& coeffs.len() > 0
    &&& coeffs[0] == g1_coeff_sum(vss, 0, vss.len() as int)
}

/// Checks that an aggregated transcript is a valid aggregation of the
/// received transcripts: full verification, and the first commitment must
/// equal the sum of the received first commitments, binding the aggregate to
/// the claimed input set.
pub fn do_verify_aggregation(
    pvss_agg_coefficients: &Vec<G1Affine>,
    pvss_agg_encrypted_shares: &Vec<G2Affine>,
    pvss_params: &PubliclyVerifiableParams,
    validators: &Vec<Validator>,
    domain: &Domain,
    vss: &Vec<PubliclyVerifiableSS<Unaggregated>>,
) -> (r: Result<bool>)
    requires
        all_indices_unique(validators@),
        validators@.len() <= domain_size_of(*domain) as int,
        forall|j: int| 0 <= j < vss@.len() ==> (#[trigger] vss@[j].coeffs@.len()) > 0,
    ensures
        r matches Ok(b) ==> b,
        r is Ok <==> aggregation_accepted(
            pvss_agg_coefficients@,
            pvss_agg_encrypted_shares@,
            pvss_params.g,
            validators@,
            *domain,
            vss@,
        ),
        r matches Err(e) ==> e == Error::InvalidTranscriptAggregate,
{
    let is_valid = do_verify_full(
        pvss_agg_coefficients,
        pvss_agg_encrypted_shares,
        pvss_params,
        validators,
        domain,
    );
    if !is_valid {
        return Err(Error::InvalidTranscriptAggregate);
    }
    if vss.len() == 0 || pvss_agg_coefficients.len() == 0 {
        return Err(Error::InvalidTranscriptAggregate);
    }
    let m = vss.len();
    let mut y = vss[0].coeffs[0];
    for j in 1..m
        invariant
            m == vss@.len(),
            forall|j2: int| 0 <= j2 < m ==> (#[trigger] vss@[j2].coeffs@.len()) > 0,
            y == g1_coeff_sum(vss@, 0, j as int),
    {
        y = g1_add(&y, &vss[j].coeffs[0]);
    }
    if crate::curve::g1_equals(&y, &pvss_agg_coefficients[0]) {
        Ok(true)
    } else {
        Err(Error::InvalidTranscriptAggregate)
    }
}

/// Replacing the first commitment of an aggregate with any other value,
/// the identity included, makes the aggregation check reject it.
pub proof fn lemma_tampered_constant_term_rejected(
    coeffs: Seq<G1Affine>,
    shares: Seq<G2Affine>,
    g: G1Affine,
    validators: Seq<Validator>,
    domain: Domain,
    vss: Seq<PubliclyVerifiableSS<Unaggregated>>,
)
    requires
        coeffs.len() > 0,
        coeffs[0] != g1_coeff_sum(vss, 0, vss.len() as int),
    ensures
        !aggregation_accepted(coeffs, shares, g, validators, domain, vss),
{
}

impl<T: Aggregate> PubliclyVerifiableSS<T> {
    /// Verifies that this aggregated transcript is a valid aggregation of
    /// the transcripts received by the DKG session.
    pub fn verify_aggregation(&self, dkg: &PubliclyVerifiableDkg) -> (r: Result<bool>)
        requires
            dkg.wf(),
        ensures
            r matches Ok(b) ==> b,
            r is Ok <==> aggregation_accepted(
                self.coeffs@,
                self.shares@,
                dkg.pvss_params.g,
                dkg.validators@,
                dkg.domain,
                dkg.vss@,
            ),
            r matches Err(e) ==> e == Error::InvalidTranscriptAggregate,
    {
        proof {
            crate::dkg::lemma_canonical_implies_unique(dkg.validators@);
        }
        do_verify_aggregation(
            &self.coeffs,
            &self.shares,
            &dkg.pvss_params,
            &dkg.validators,
            &dkg.domain,
            &dkg.vss,
        )
    }
}

impl<T: Aggregate> PubliclyVerifiableSS<T> {
    /// Decrypts this validator's private key share: the inverse of its
    /// decryption key times its encrypted share entry.
    pub fn decrypt_private_key_share(
        &self,
        validator_decryption_key: &Fr,
        share_index: usize,
    ) -> (r: Result<PrivateKeyShare>)
        requires
            *validator_decryption_key != fr_zero_spec(),
        ensures
            r is Ok <==> share_index < self.shares@.len(),
            r matches Err(e) ==> e == Error::InvalidShareIndex(share_index as u32),
            r matches Ok(z) ==> {
                &&& z.private_key_share == g2_mul_of(
                    fr_inv_of(*validator_decryption_key),
                    self.shares@[share_index as int],
                )
                &&& g2_scales_pairings(
                    fr_inv_of(*validator_decryption_key),
                    self.shares@[share_index as int],
                    z.private_key_share,
                )
                &&& fr_pow_cancels(*validator_decryption_key, fr_inv_of(*validator_decryption_key))
                &&& fr_pow_cancels(fr_inv_of(*validator_decryption_key), *validator_decryption_key)
            },
    {
        if share_index >= self.shares.len() {
            return Err(Error::InvalidShareIndex(share_index as u32));
        }
        let inv = fr_inverse(validator_decryption_key);
        Ok(PrivateKeyShare { private_key_share: g2_mul(&inv, &self.shares[share_index]) })
    }

    /// Decrypts the private key share and builds a simple decryption share
    /// from it, checking the ciphertext first.  The share it builds passes
    /// the holder-side verification against this transcript's share entry
    /// and any public key matching the decryption key.
    pub fn make_decryption_share_simple(
        &self,
        ciphertext: &Ciphertext,
        aad: &[u8],
        validator_decryption_key: &Fr,
        share_index: usize,
        g_inv: &G1Affine,
    ) -> (r: Result<DecryptionShareSimple>)
        requires
            *validator_decryption_key != fr_zero_spec(),
        ensures
            r is Ok <==> share_index < self.shares@.len() && ciphertext_valid_wrt(
                *ciphertext,
                aad@,
                g1_neg_of(*g_inv),
            ),
            share_index >= self.shares@.len() ==> r == Err::<DecryptionShareSimple, Error>(
                Error::InvalidShareIndex(share_index as u32),
            ),
            share_index < self.shares@.len() && !ciphertext_valid_wrt(
                *ciphertext,
                aad@,
                g1_neg_of(*g_inv),
            ) ==> r == Err::<DecryptionShareSimple, Error>(Error::CiphertextVerificationFailed),
            r matches Ok(d) ==> share_index < self.shares@.len() && simple_share_built(
                d,
                share_index,
                *validator_decryption_key,
                (PrivateKeyShare {
                    private_key_share: g2_mul_of(
                        fr_inv_of(*validator_decryption_key),
                        self.shares@[share_index as int],
                    ),
                }),
                *ciphertext,
            ) && g2_scales_pairings(
                fr_inv_of(*validator_decryption_key),
                self.shares@[share_index as int],
                g2_mul_of(fr_inv_of(*validator_decryption_key), self.shares@[share_index as int]),
            ),
            r matches Ok(d) ==> forall|h: G2Affine, pk: G2Affine|
                pk == g2_mul_of(*validator_decryption_key, h) && g2_scales_pairings(
                    *validator_decryption_key,
                    h,
                    pk,
                ) ==> #[trigger] d.validator_checksum.verify_spec(
                    d.decryption_share,
                    self.shares@[share_index as int],
                    pk,
                    h,
                    *ciphertext,
                ),
    {
        let private_key_share = match self.decrypt_private_key_share(
            validator_decryption_key,
            share_index,
        ) {
            Ok(z) => z,
            Err(e) => {
                return Err(e);
            },
        };
        let r = DecryptionShareSimple::create(
            share_index,
            validator_decryption_key,
            &private_key_share,
            ciphertext,
            aad,
            g_inv,
        );
        proof {
            if let Ok(d) = r {
                assert forall|h: G2Affine, pk: G2Affine|
                    pk == g2_mul_of(*validator_decryption_key, h) && g2_scales_pairings(
                        *validator_decryption_key,
                        h,
                        pk,
                    ) implies #[trigger] d.validator_checksum.verify_spec(
                    d.decryption_share,
                    self.shares@[share_index as int],
                    pk,
                    h,
                    *ciphertext,
                ) by {
                    crate::decryption::lemma_honest_share_verifies(
                        d,
                        share_index,
                        *validator_decryption_key,
                        private_key_share,
                        *ciphertext,
                        self.shares@[share_index as int],
                        pk,
                        h,
                    );
                }
            }
        }
        r
    }

    /// Decrypts the private key share and builds a precomputed decryption
    /// share, folding in this validator's Lagrange coefficient at zero over
    /// the given domain points.
    pub fn make_decryption_share_simple_precomputed(
        &self,
        ciphertext_header: &Ciphertext,
        aad: &[u8],
        validator_decryption_key: &Fr,
        share_index: usize,
        domain_points: &Vec<Fr>,
        g_inv: &G1Affine,
    ) -> (r: Result<DecryptionShareSimplePrecomputed>)
        requires
            *validator_decryption_key != fr_zero_spec(),
        ensures
            r is Ok <==> share_index < self.shares@.len() && share_index < domain_points@.len()
                && ciphertext_valid_wrt(*ciphertext_header, aad@, g1_neg_of(*g_inv)),
            r matches Ok(d) ==> share_index < self.shares@.len() && precomputed_share_built(
                d,
                share_index,
                *validator_decryption_key,
                (PrivateKeyShare {
                    private_key_share: g2_mul_of(
                        fr_inv_of(*validator_decryption_key),
                        self.shares@[share_index as int],
                    ),
                }),
                *ciphertext_header,
                lagrange_coeff_spec(domain_points@, fr_zero_spec(), share_index as int),
            ) && g2_scales_pairings(
                fr_inv_of(*validator_decryption_key),
                self.shares@[share_index as int],
                g2_mul_of(fr_inv_of(*validator_decryption_key), self.shares@[share_index as int]),
            ),
            r matches Err(e) ==> e == Error::InvalidShareIndex(share_index as u32) || e
                == Error::CiphertextVerificationFailed,
    {
        let private_key_share = match self.decrypt_private_key_share(
            validator_decryption_key,
            share_index,
        ) {
            Ok(z) => z,
            Err(e) => {
                return Err(e);
            },
        };
        if share_index >= domain_points.len() {
            return Err(Error::InvalidShareIndex(share_index as u32));
        }
        let lagrange_coeffs = prepare_combine_simple(domain_points);
        DecryptionShareSimplePrecomputed::new(
            share_index,
            validator_decryption_key,
            &private_key_share,
            ciphertext_header,
            aad,
            &lagrange_coeffs[share_index],
            g_inv,
        )
    }

    /// Decrypts the private key share and applies a batch of recovery
    /// updates to it.
    pub fn update_private_key_share_for_recovery(
        &self,
        validator_decryption_key: &Fr,
        share_index: usize,
        share_updates: &Vec<G2Affine>,
    ) -> (r: Result<PrivateKeyShare>)
        requires
            *validator_decryption_key != fr_zero_spec(),
        ensures
            r is Ok <==> share_index < self.shares@.len(),
            r matches Err(e) ==> e == Error::InvalidShareIndex(share_index as u32),
            r matches Ok(z) ==> z.private_key_share == g2_fold_updates(
                g2_mul_of(
                    fr_inv_of(*validator_decryption_key),
                    self.shares@[share_index as int],
                ),
                share_updates@,
                share_updates@.len() as int,
            ),
    {
        let private_key_share = match self.decrypt_private_key_share(
            validator_decryption_key,
            share_index,
        ) {
            Ok(z) => z,
            Err(e) => {
                return Err(e);
            },
        };
        Ok(apply_updates_to_private_share(&private_key_share, share_updates))
    }
}

} // verus!
