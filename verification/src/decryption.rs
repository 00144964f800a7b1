//! Decryption shares: creation, holder-side verification, and the batched
//! randomized verification over many ciphertexts.
use vstd::prelude::*;

use crate::ciphertext::{check_ciphertext_validity, ciphertext_valid_wrt, Ciphertext};
use crate::curve::{
    fr_add, fr_add_of, fr_from_u64, fr_inv_of, fr_inverse, fr_pow_cancels, fr_zero_spec,
    g1_add, g1_add_of, g1_mul, g1_mul_of, g1_neg_of, g1_scales_pairings, g2_mul_of,
    g2_scales_pairings,
    gt_equals, gt_pairing_prod, gt_pow_of, multi_pairing_is_one, pairing, pairing_of,
    pairing_product_is_one, Fr, G1Affine, G2Affine, TargetField,
};
use crate::poly::random_scalars;
use crate::{Error, Result};

verus! {

/// A validator's private key share: the G2 point `phi(omega_i) · h`.
#[derive(Clone, Copy)]
pub struct PrivateKeyShare {
    pub private_key_share: G2Affine,
}

/// A decryption share of the fast variant: a single G1 point.
#[derive(Clone, Copy)]
pub struct DecryptionShareFast {
    pub decrypter_index: usize,
    pub decryption_share: G1Affine,
}

/// The checksum `dk^{-1} · U` a validator publishes beside its decryption
/// share, proving the share correct without revealing the share secret.
#[derive(Clone, Copy)]
pub struct ValidatorShareChecksum {
    pub checksum: G1Affine,
}

impl ValidatorShareChecksum {
    /// The checksum for this ciphertext under the validator's decryption
    /// key: the key's inverse times the commitment.
    pub fn new(validator_decryption_key: &Fr, ciphertext: &Ciphertext) -> (r:
        ValidatorShareChecksum)
        requires
            *validator_decryption_key != fr_zero_spec(),
        ensures
            r.checksum == g1_mul_of(fr_inv_of(*validator_decryption_key), ciphertext.commitment),
            g1_scales_pairings(
                fr_inv_of(*validator_decryption_key),
                ciphertext.commitment,
                r.checksum,
            ),
            fr_pow_cancels(*validator_decryption_key, fr_inv_of(*validator_decryption_key)),
            fr_pow_cancels(fr_inv_of(*validator_decryption_key), *validator_decryption_key),
    {
        let inv = fr_inverse(validator_decryption_key);
        ValidatorShareChecksum { checksum: g1_mul(&inv, &ciphertext.commitment) }
    }

    /// The two holder-side equations: the decryption share pairs out of the
    /// checksum and the aggregated share, and the checksum pairs with the
    /// validator's public key as the commitment pairs with `h`.
    pub open spec fn verify_spec(
        self,
        decryption_share: TargetField,
        share_aggregate: G2Affine,
        validator_public_key: G2Affine,
        h: G2Affine,
        c: Ciphertext,
    ) -> bool {
        &&& decryption_share == pairing_of(self.checksum, share_aggregate)
        &&& pairing_of(self.checksum, validator_public_key) == pairing_of(c.commitment, h)
    }

    /// Checks the two holder-side equations.
    pub fn verify(
        &self,
        decryption_share: &TargetField,
        share_aggregate: &G2Affine,
        validator_public_key: &G2Affine,
        h: &G2Affine,
        ciphertext: &Ciphertext,
    ) -> (r: bool)
        ensures
            r == self.verify_spec(
                *decryption_share,
                *share_aggregate,
                *validator_public_key,
                *h,
                *ciphertext,
            ),
    {
        let expected_share = pairing(&self.checksum, share_aggregate);
        if !gt_equals(decryption_share, &expected_share) {
            return false;
        }
        let lhs = pairing(&self.checksum, validator_public_key);
        let rhs = pairing(&ciphertext.commitment, h);
        if !gt_equals(&lhs, &rhs) {
            return false;
        }
        true
    }
}

/// A decryption share of the simple variant: the pairing `e(U, Z_i)` with
/// the validator's checksum beside it.
#[derive(Clone, Copy)]
pub struct DecryptionShareSimple {
    pub decrypter_index: usize,
    pub decryption_share: TargetField,
    pub validator_checksum: ValidatorShareChecksum,
}

/// What creating a simple decryption share guarantees: the share is the
/// pairing of the commitment and the private key share, and the checksum is
/// the decryption key's inverse times the commitment, with the bilinearity
/// facts those two multiplications establish.
pub open spec fn simple_share_built(
    d: DecryptionShareSimple,
    validator_index: usize,
    dk: Fr,
    z: PrivateKeyShare,
    c: Ciphertext,
) -> bool {
    &&& d.decrypter_index == validator_index
    &&& d.decryption_share == pairing_of(c.commitment, z.private_key_share)
    &&& d.validator_checksum.checksum == g1_mul_of(fr_inv_of(dk), c.commitment)
    &&& g1_scales_pairings(fr_inv_of(dk), c.commitment, d.validator_checksum.checksum)
    &&& fr_pow_cancels(dk, fr_inv_of(dk))
    &&& fr_pow_cancels(fr_inv_of(dk), dk)
}

impl DecryptionShareSimple {
    /// Creates a decryption share, checking the ciphertext first.
    pub fn create(
        validator_index: usize,
        validator_decryption_key: &Fr,
        private_key_share: &PrivateKeyShare,
        ciphertext: &Ciphertext,
        aad: &[u8],
        g_inv: &G1Affine,
    ) -> (r: Result<DecryptionShareSimple>)
        requires
            *validator_decryption_key != fr_zero_spec(),
        ensures
            r is Ok <==> ciphertext_valid_wrt(*ciphertext, aad@, g1_neg_of(*g_inv)),
            r matches Ok(d) ==> simple_share_built(
                d,
                validator_index,
                *validator_decryption_key,
                *private_key_share,
                *ciphertext,
            ),
            r matches Err(e) ==> e == Error::CiphertextVerificationFailed,
    {
        match check_ciphertext_validity(ciphertext, aad, g_inv) {
            Ok(_) => {},
            Err(e) => {
                return Err(e);
            },
        }
        Ok(
            Self::create_unchecked(
                validator_index,
                validator_decryption_key,
                private_key_share,
                ciphertext,
            ),
        )
    }

    /// Creates a decryption share without checking the ciphertext.
    pub fn create_unchecked(
        validator_index: usize,
        validator_decryption_key: &Fr,
        private_key_share: &PrivateKeyShare,
        ciphertext: &Ciphertext,
    ) -> (r: DecryptionShareSimple)
        requires
            *validator_decryption_key != fr_zero_spec(),
        ensures
            simple_share_built(
                r,
                validator_index,
                *validator_decryption_key,
                *private_key_share,
                *ciphertext,
            ),
    {
        let decryption_share = pairing(&ciphertext.commitment, &private_key_share.private_key_share);
        let validator_checksum = ValidatorShareChecksum::new(validator_decryption_key, ciphertext);
        DecryptionShareSimple { decrypter_index: validator_index, decryption_share, validator_checksum }
    }

    /// Checks this share against the aggregated transcript entry, the
    /// validator's public key and the generator `h`.
    pub fn verify(
        &self,
        share_aggregate: &G2Affine,
        validator_public_key: &G2Affine,
        h: &G2Affine,
        ciphertext: &Ciphertext,
    ) -> (r: bool)
        ensures
            r == self.validator_checksum.verify_spec(
                self.decryption_share,
                *share_aggregate,
                *validator_public_key,
                *h,
                *ciphertext,
            ),
    {
        self.validator_checksum.verify(
            &self.decryption_share,
            share_aggregate,
            validator_public_key,
            h,
            ciphertext,
        )
    }
}

/// A share built from a private key share consistent with the aggregated
/// transcript entry, under the matching decryption key, passes the
/// holder-side verification.
pub proof fn lemma_honest_share_verifies(
    d: DecryptionShareSimple,
    validator_index: usize,
    dk: Fr,
    z: PrivateKeyShare,
    c: Ciphertext,
    share_aggregate: G2Affine,
    validator_public_key: G2Affine,
    h: G2Affine,
)
    requires
        simple_share_built(d, validator_index, dk, z, c),
        z.private_key_share == g2_mul_of(fr_inv_of(dk), share_aggregate),
        g2_scales_pairings(fr_inv_of(dk), share_aggregate, z.private_key_share),
        validator_public_key == g2_mul_of(dk, h),
        g2_scales_pairings(dk, h, validator_public_key),
    ensures
        d.validator_checksum.verify_spec(
            d.decryption_share,
            share_aggregate,
            validator_public_key,
            h,
            c,
        ),
{
    assert(pairing_of(c.commitment, z.private_key_share) == gt_pow_of(
        fr_inv_of(dk),
        pairing_of(c.commitment, share_aggregate),
    ));
    assert(pairing_of(d.validator_checksum.checksum, share_aggregate) == gt_pow_of(
        fr_inv_of(dk),
        pairing_of(c.commitment, share_aggregate),
    ));
    assert(pairing_of(d.validator_checksum.checksum, validator_public_key) == gt_pow_of(
        dk,
        pairing_of(d.validator_checksum.checksum, h),
    ));
    assert(pairing_of(d.validator_checksum.checksum, h) == gt_pow_of(
        fr_inv_of(dk),
        pairing_of(c.commitment, h),
    ));
    assert(gt_pow_of(dk, gt_pow_of(fr_inv_of(dk), pairing_of(c.commitment, h))) == pairing_of(
        c.commitment,
        h,
    ));
}

/// A decryption share of the precomputed variant: the Lagrange weight is
/// folded into the pairing, so combination is a plain product.
#[derive(Clone, Copy)]
pub struct DecryptionShareSimplePrecomputed {
    pub decrypter_index: usize,
    pub decryption_share: TargetField,
    pub validator_checksum: ValidatorShareChecksum,
}

/// What creating a precomputed share guarantees: the share is the pairing
/// of the Lagrange-weighted commitment and the private key share, equal to
/// the simple share raised to the weight.
pub open spec fn precomputed_share_built(
    d: DecryptionShareSimplePrecomputed,
    validator_index: usize,
    dk: Fr,
    z: PrivateKeyShare,
    c: Ciphertext,
    lagrange_coeff: Fr,
) -> bool {
    &&& d.decrypter_index == validator_index
    &&& d.decryption_share == pairing_of(
        g1_mul_of(lagrange_coeff, c.commitment),
        z.private_key_share,
    )
    &&& d.decryption_share == gt_pow_of(
        lagrange_coeff,
        pairing_of(c.commitment, z.private_key_share),
    )
    &&& d.validator_checksum.checksum == g1_mul_of(fr_inv_of(dk), c.commitment)
    &&& g1_scales_pairings(fr_inv_of(dk), c.commitment, d.validator_checksum.checksum)
    &&& fr_pow_cancels(dk, fr_inv_of(dk))
    &&& fr_pow_cancels(fr_inv_of(dk), dk)
}

impl DecryptionShareSimplePrecomputed {
    /// Creates a precomputed share, checking the ciphertext first.
    pub fn new(
        validator_index: usize,
        validator_decryption_key: &Fr,
        private_key_share: &PrivateKeyShare,
        ciphertext: &Ciphertext,
        aad: &[u8],
        lagrange_coeff: &Fr,
        g_inv: &G1Affine,
    ) -> (r: Result<DecryptionShareSimplePrecomputed>)
        requires
            *validator_decryption_key != fr_zero_spec(),
        ensures
            r is Ok <==> ciphertext_valid_wrt(*ciphertext, aad@, g1_neg_of(*g_inv)),
            r matches Ok(d) ==> precomputed_share_built(
                d,
                validator_index,
                *validator_decryption_key,
                *private_key_share,
                *ciphertext,
                *lagrange_coeff,
            ),
            r matches Err(e) ==> e == Error::CiphertextVerificationFailed,
    {
        match check_ciphertext_validity(ciphertext, aad, g_inv) {
            Ok(_) => {},
            Err(e) => {
                return Err(e);
            },
        }
        Ok(
            Self::create_unchecked(
                validator_index,
                validator_decryption_key,
                private_key_share,
                ciphertext,
                lagrange_coeff,
            ),
        )
    }

    /// Creates a precomputed share without checking the ciphertext.
    pub fn create_unchecked(
        validator_index: usize,
        validator_decryption_key: &Fr,
        private_key_share: &PrivateKeyShare,
        ciphertext: &Ciphertext,
        lagrange_coeff: &Fr,
    ) -> (r: DecryptionShareSimplePrecomputed)
        requires
            *validator_decryption_key != fr_zero_spec(),
        ensures
            precomputed_share_built(
                r,
                validator_index,
                *validator_decryption_key,
                *private_key_share,
                *ciphertext,
                *lagrange_coeff,
            ),
    {
        let u_to_lagrange_coeff = g1_mul(lagrange_coeff, &ciphertext.commitment);
        let decryption_share = pairing(&u_to_lagrange_coeff, &private_key_share.private_key_share);
        let validator_checksum = ValidatorShareChecksum::new(validator_decryption_key, ciphertext);
        DecryptionShareSimplePrecomputed {
            decrypter_index: validator_index,
            decryption_share,
            validator_checksum,
        }
    }

    /// Checks this share against the aggregated transcript entry, the
    /// validator's public key and the generator `h`.
    pub fn verify(
        &self,
        share_aggregate: &G2Affine,
        validator_public_key: &G2Affine,
        h: &G2Affine,
        ciphertext: &Ciphertext,
    ) -> (r: bool)
        ensures
            r == self.validator_checksum.verify_spec(
                self.decryption_share,
                *share_aggregate,
                *validator_public_key,
                *h,
                *ciphertext,
            ),
    {
        self.validator_checksum.verify(
            &self.decryption_share,
            share_aggregate,
            validator_public_key,
            h,
            ciphertext,
        )
    }
}

/// A validator's blinded key material in a public decryption context.
#[derive(Clone, Copy)]
pub struct BlindedKeyShare {
    pub blinding_key: G2Affine,
    pub blinded_key_share: G2Affine,
}

/// The public decryption context of the fast variant: the validator's
/// domain point, its blinded key material, and the negated generator `-h`.
#[derive(Clone, Copy)]
pub struct PublicDecryptionContextFast {
    pub domain: Fr,
    pub blinded_key_share: BlindedKeyShare,
    pub h_inv: G2Affine,
}

/// The public decryption context of the simple variant: the validator's
/// domain point, its blinded key material, the generator `h` and the
/// validator's public key.
#[derive(Clone, Copy)]
pub struct PublicDecryptionContextSimple {
    pub domain: Fr,
    pub blinded_key_share: BlindedKeyShare,
    pub h: G2Affine,
    pub validator_public_key: G2Affine,
}

/// The fast-variant equation for one share: the commitment pairs with `-h`
/// as the negated share pairs with the decrypter's blinding key, that is,
/// e(U, -H) · e(D, B) = 1.
pub open spec fn fast_share_check(
    ctxts: Seq<PublicDecryptionContextFast>,
    c: Ciphertext,
    d: DecryptionShareFast,
) -> bool {
    pairing_of(c.commitment, ctxts[0].h_inv) == pairing_of(
        g1_neg_of(d.decryption_share),
        ctxts[d.decrypter_index as int].blinded_key_share.blinding_key,
    )
}

/// Checks each fast decryption share with its own two-pairing product.
pub fn verify_decryption_shares_fast(
    pub_contexts: &Vec<PublicDecryptionContextFast>,
    ciphertext: &Ciphertext,
    decryption_shares: &Vec<DecryptionShareFast>,
) -> (r: bool)
    requires
        pub_contexts@.len() > 0,
        forall|k: int|
            0 <= k < decryption_shares@.len() ==> (#[trigger] decryption_shares@[k].decrypter_index)
                < pub_contexts@.len(),
    ensures
        r == forall|k: int|
            0 <= k < decryption_shares@.len() ==> fast_share_check(
                pub_contexts@,
                *ciphertext,
                #[trigger] decryption_shares@[k],
            ),
{
    let n = decryption_shares.len();
    for k in 0..n
        invariant
            n == decryption_shares@.len(),
            pub_contexts@.len() > 0,
            forall|k2: int|
                0 <= k2 < n ==> (#[trigger] decryption_shares@[k2].decrypter_index)
                    < pub_contexts@.len(),
            forall|k2: int|
                0 <= k2 < k ==> fast_share_check(
                    pub_contexts@,
                    *ciphertext,
                    #[trigger] decryption_shares@[k2],
                ),
    {
        let d = decryption_shares[k];
        let b = pub_contexts[d.decrypter_index].blinded_key_share.blinding_key;
        let ok = pairing_product_is_one(
            &ciphertext.commitment,
            &pub_contexts[0].h_inv,
            &d.decryption_share,
            &b,
        );
        if !ok {
            return false;
        }
    }
    true
}

/// Checks each simple decryption share against its validator's context.
pub fn verify_decryption_shares_simple(
    pub_contexts: &Vec<PublicDecryptionContextSimple>,
    ciphertext: &Ciphertext,
    decryption_shares: &Vec<DecryptionShareSimple>,
) -> (r: bool)
    requires
        decryption_shares@.len() == pub_contexts@.len(),
    ensures
        r == forall|k: int|
            0 <= k < decryption_shares@.len() ==> (#[trigger] decryption_shares@[k]).validator_checksum.verify_spec(
                decryption_shares@[k].decryption_share,
                pub_contexts@[k].blinded_key_share.blinded_key_share,
                pub_contexts@[k].validator_public_key,
                pub_contexts@[k].h,
                *ciphertext,
            ),
{
    let n = decryption_shares.len();
    for k in 0..n
        invariant
            n == decryption_shares@.len(),
            n == pub_contexts@.len(),
            forall|k2: int|
                0 <= k2 < k ==> (#[trigger] decryption_shares@[k2]).validator_checksum.verify_spec(
                    decryption_shares@[k2].decryption_share,
                    pub_contexts@[k2].blinded_key_share.blinded_key_share,
                    pub_contexts@[k2].validator_public_key,
                    pub_contexts@[k2].h,
                    *ciphertext,
                ),
    {
        let is_valid = decryption_shares[k].verify(
            &pub_contexts[k].blinded_key_share.blinded_key_share,
            &pub_contexts[k].validator_public_key,
            &pub_contexts[k].h,
            ciphertext,
        );
        if !is_valid {
            return false;
        }
    }
    true
}

/// The sum of the first `j` scalars.
pub open spec fn fr_sum_prefix(s: Seq<Fr>, j: int) -> Fr
    decreases j,
{
    if j <= 0 {
        fr_zero_spec()
    } else {
        fr_add_of(fr_sum_prefix(s, j - 1), s[j - 1])
    }
}

/// The weighted sum of the first `i` commitments under the given weights.
pub open spec fn batch_u_sum(cts: Seq<Ciphertext>, w: Seq<Fr>, i: int) -> G1Affine
    decreases i,
{
    if i <= 1 {
        g1_mul_of(w[0], cts[0].commitment)
    } else {
        g1_add_of(batch_u_sum(cts, w, i - 1), g1_mul_of(w[i - 1], cts[i - 1].commitment))
    }
}

/// The weighted sum, over the first `i` ciphertexts, of decrypter `j`'s
/// shares under the random weights `alpha`.
pub open spec fn batch_share_sum(
    shares: Seq<Seq<DecryptionShareFast>>,
    alpha: Seq<Seq<Fr>>,
    j: int,
    i: int,
) -> G1Affine
    decreases i,
{
    if i <= 1 {
        g1_mul_of(alpha[0][j], shares[0][j].decryption_share)
    } else {
        g1_add_of(
            batch_share_sum(shares, alpha, j, i - 1),
            g1_mul_of(alpha[i - 1][j], shares[i - 1][j].decryption_share),
        )
    }
}

/// The G1 side of the batch multi-pairing: the weighted commitment sum,
/// then one weighted share sum per decrypter.
pub open spec fn batch_points_a(
    cts: Seq<Ciphertext>,
    shares: Seq<Seq<DecryptionShareFast>>,
    alpha: Seq<Seq<Fr>>,
) -> Seq<G1Affine> {
    seq![
        batch_u_sum(
            cts,
            Seq::new(cts.len(), |i: int| fr_sum_prefix(alpha[i], shares[0].len() as int)),
            cts.len() as int,
        ),
    ] + Seq::new(shares[0].len(), |j: int| batch_share_sum(shares, alpha, j, cts.len() as int))
}

/// The G2 side of the batch multi-pairing: `-h`, then each decrypter's
/// blinding key.
pub open spec fn batch_points_b(
    ctxts: Seq<PublicDecryptionContextFast>,
    shares: Seq<Seq<DecryptionShareFast>>,
) -> Seq<G2Affine> {
    seq![ctxts[0].h_inv] + Seq::new(
        shares[0].len(),
        |j: int| ctxts[shares[0][j].decrypter_index as int].blinded_key_share.blinding_key,
    )
}

/// The randomized batch check folds every ciphertext and share into one
/// multi-pairing: for some fresh random weights, the product of the pairing
/// of the weighted commitment sum with `-h` and, per decrypter, of the
/// weighted share sum with its blinding key, must be the identity.
pub fn batch_verify_decryption_shares(
    pub_contexts: &Vec<PublicDecryptionContextFast>,
    ciphertexts: &Vec<Ciphertext>,
    decryption_shares: &Vec<Vec<DecryptionShareFast>>,
    rng: &mut rand::rngs::StdRng,
) -> (r: bool)
    requires
        pub_contexts@.len() > 0,
        ciphertexts@.len() > 0,
        decryption_shares@.len() == ciphertexts@.len(),
        forall|i: int|
            0 <= i < decryption_shares@.len() ==> (#[trigger] decryption_shares@[i])@.len()
                == decryption_shares@[0]@.len(),
        forall|j: int|
            0 <= j < decryption_shares@[0]@.len() ==> (
            #[trigger] decryption_shares@[0]@[j].decrypter_index) < pub_contexts@.len(),
    ensures
        exists|alpha: Seq<Seq<Fr>>|
            {
                &&& #[trigger] alpha.len() == ciphertexts@.len()
                &&& forall|i: int|
                    0 <= i < alpha.len() ==> (#[trigger] alpha[i]).len()
                        == decryption_shares@[0]@.len()
                &&& r == (gt_pairing_prod(
                    batch_points_a(
                        ciphertexts@,
                        decryption_shares@.map_values(|v: Vec<DecryptionShareFast>| v@),
                        alpha,
                    ),
                    batch_points_b(
                        pub_contexts@,
                        decryption_shares@.map_values(|v: Vec<DecryptionShareFast>| v@),
                    ),
                    decryption_shares@[0]@.len() as int + 1,
                ) == crate::curve::gt_pow_of(
                    crate::curve::fr_zero_spec(),
                    pairing_of(
                        batch_points_a(
                            ciphertexts@,
                            decryption_shares@.map_values(|v: Vec<DecryptionShareFast>| v@),
                            alpha,
                        )[0],
                        pub_contexts@[0].h_inv,
                    ),
                ))
            },
{
    let num_ciphertexts = ciphertexts.len();
    let num_shares = decryption_shares[0].len();
    let ghost shares_seq = decryption_shares@.map_values(|v: Vec<DecryptionShareFast>| v@);

    // [b_i] H for each of the decryption shares of the first ciphertext.
    let mut blinding_keys: Vec<G2Affine> = Vec::new();
    for j in 0..num_shares
        invariant
            num_shares == decryption_shares@[0]@.len(),
            decryption_shares@.len() > 0,
            pub_contexts@.len() > 0,
            forall|j2: int|
                0 <= j2 < num_shares ==> (#[trigger] decryption_shares@[0]@[j2].decrypter_index)
                    < pub_contexts@.len(),
            blinding_keys@.len() == j,
            forall|j2: int|
                0 <= j2 < j ==> #[trigger] blinding_keys@[j2] == pub_contexts@[decryption_shares@[0]@[j2].decrypter_index as int].blinded_key_share.blinding_key,
    {
        let idx = decryption_shares[0][j].decrypter_index;
        blinding_keys.push(pub_contexts[idx].blinded_key_share.blinding_key);
    }

    // For each ciphertext, num_shares fresh random scalars.
    let mut alpha_ij: Vec<Vec<Fr>> = Vec::new();
    for i in 0..num_ciphertexts
        invariant
            alpha_ij@.len() == i,
            forall|i2: int| 0 <= i2 < i ==> (#[trigger] alpha_ij@[i2])@.len() == num_shares,
    {
        alpha_ij.push(random_scalars(num_shares, rng));
    }
    let ghost alpha = alpha_ij@.map_values(|v: Vec<Fr>| v@);

    // The per-ciphertext weight: the sum of its random scalars.
    let mut sum_alpha_i: Vec<Fr> = Vec::new();
    for i in 0..num_ciphertexts
        invariant
            num_ciphertexts == alpha_ij@.len(),
            alpha == alpha_ij@.map_values(|v: Vec<Fr>| v@),
            forall|i2: int| 0 <= i2 < num_ciphertexts ==> (#[trigger] alpha_ij@[i2])@.len()
                == num_shares,
            sum_alpha_i@.len() == i,
            forall|i2: int|
                0 <= i2 < i ==> #[trigger] sum_alpha_i@[i2] == fr_sum_prefix(
                    alpha[i2],
                    num_shares as int,
                ),
    {
        let row = &alpha_ij[i];
        let mut acc = fr_from_u64(0);
        for j in 0..num_shares
            invariant
                num_shares == row@.len(),
                row@ == alpha[i as int],
                acc == fr_sum_prefix(alpha[i as int], j as int),
        {
            acc = fr_add(&acc, &row[j]);
        }
        sum_alpha_i.push(acc);
    }

    // The weighted sum of the commitments.
    let mut sum_u = g1_mul(&sum_alpha_i[0], &ciphertexts[0].commitment);
    for i in 1..num_ciphertexts
        invariant
            num_ciphertexts == ciphertexts@.len(),
            num_ciphertexts == sum_alpha_i@.len(),
            forall|i2: int|
                0 <= i2 < num_ciphertexts ==> #[trigger] sum_alpha_i@[i2] == fr_sum_prefix(
                    alpha[i2],
                    num_shares as int,
                ),
            sum_u == batch_u_sum(ciphertexts@, sum_alpha_i@, i as int),
    {
        let term = g1_mul(&sum_alpha_i[i], &ciphertexts[i].commitment);
        sum_u = g1_add(&sum_u, &term);
    }

    // The weighted sum of each decrypter's shares across the ciphertexts.
    let mut sum_d_i: Vec<G1Affine> = Vec::new();
    for j in 0..num_shares
        invariant
            num_ciphertexts == ciphertexts@.len(),
            num_ciphertexts == decryption_shares@.len(),
            num_ciphertexts == alpha_ij@.len(),
            num_ciphertexts > 0,
            num_shares == decryption_shares@[0]@.len(),
            alpha == alpha_ij@.map_values(|v: Vec<Fr>| v@),
            shares_seq == decryption_shares@.map_values(|v: Vec<DecryptionShareFast>| v@),
            forall|i2: int| 0 <= i2 < num_ciphertexts ==> (#[trigger] alpha_ij@[i2])@.len()
                == num_shares,
            forall|i2: int|
                0 <= i2 < num_ciphertexts ==> (#[trigger] decryption_shares@[i2])@.len()
                    == num_shares,
            sum_d_i@.len() == j,
            forall|j2: int|
                0 <= j2 < j ==> #[trigger] sum_d_i@[j2] == batch_share_sum(
                    shares_seq,
                    alpha,
                    j2,
                    num_ciphertexts as int,
                ),
    {
        let mut acc = g1_mul(&alpha_ij[0][j], &decryption_shares[0][j].decryption_share);
        for i in 1..num_ciphertexts
            invariant
                num_ciphertexts == decryption_shares@.len(),
                num_ciphertexts == alpha_ij@.len(),
                j < num_shares,
                alpha == alpha_ij@.map_values(|v: Vec<Fr>| v@),
                shares_seq == decryption_shares@.map_values(|v: Vec<DecryptionShareFast>| v@),
                forall|i2: int| 0 <= i2 < num_ciphertexts ==> (#[trigger] alpha_ij@[i2])@.len()
                    == num_shares,
                forall|i2: int|
                    0 <= i2 < num_ciphertexts ==> (#[trigger] decryption_shares@[i2])@.len()
                        == num_shares,
                acc == batch_share_sum(shares_seq, alpha, j as int, i as int),
        {
            let term = g1_mul(&alpha_ij[i][j], &decryption_shares[i][j].decryption_share);
            acc = g1_add(&acc, &term);
        }
        sum_d_i.push(acc);
    }

    // One multi-pairing over all of it.
    let mut pairings_a: Vec<G1Affine> = Vec::new();
    let mut pairings_b: Vec<G2Affine> = Vec::new();
    pairings_a.push(sum_u);
    pairings_b.push(pub_contexts[0].h_inv);
    for j in 0..num_shares
        invariant
            num_shares == sum_d_i@.len(),
            num_shares == blinding_keys@.len(),
            pairings_a@.len() == j + 1,
            pairings_b@.len() == j + 1,
            pairings_a@[0] == sum_u,
            pairings_b@[0] == pub_contexts@[0].h_inv,
            forall|j2: int| 1 <= j2 < j + 1 ==> #[trigger] pairings_a@[j2] == sum_d_i@[j2 - 1],
            forall|j2: int| 1 <= j2 < j + 1 ==> #[trigger] pairings_b@[j2] == blinding_keys@[j2 - 1],
    {
        pairings_a.push(sum_d_i[j]);
        pairings_b.push(blinding_keys[j]);
    }

    let r = multi_pairing_is_one(&pairings_a, &pairings_b);
    proof {
        let n_sh = decryption_shares@[0]@.len() as int;
        let weights = Seq::new(
            ciphertexts@.len(),
            |i: int| fr_sum_prefix(alpha[i], n_sh),
        );
        assert(sum_alpha_i@ =~= weights);
        assert(pairings_a@ =~= seq![
            batch_u_sum(ciphertexts@, weights, ciphertexts@.len() as int),
        ] + Seq::new(
            decryption_shares@[0]@.len(),
            |j: int| batch_share_sum(shares_seq, alpha, j, ciphertexts@.len() as int),
        ));
        assert(pairings_b@ =~= seq![pub_contexts@[0].h_inv] + Seq::new(
            decryption_shares@[0]@.len(),
            |j: int|
                pub_contexts@[decryption_shares@[0]@[j].decrypter_index as int].blinded_key_share.blinding_key,
        ));
        assert(alpha.len() == ciphertexts@.len());
        assert forall|i: int| 0 <= i < alpha.len() implies (#[trigger] alpha[i]).len()
            == decryption_shares@[0]@.len() by {
            assert(alpha[i] == alpha_ij@[i]@);
        }
        let points_a = batch_points_a(ciphertexts@, shares_seq, alpha);
        let points_b = batch_points_b(pub_contexts@, shares_seq);
        assert(pairings_a@ =~= points_a);
        assert(pairings_b@ =~= points_b);
        assert(points_b[0] == pub_contexts@[0].h_inv);
        assert(r == (gt_pairing_prod(points_a, points_b, decryption_shares@[0]@.len() as int + 1)
            == crate::curve::gt_pow_of(
            crate::curve::fr_zero_spec(),
            pairing_of(points_a[0], pub_contexts@[0].h_inv),
        )));
    }
    r
}

impl ValidatorShareChecksum {
    /// The canonical 96-byte encoding of the checksum point.
    pub fn to_bytes(&self) -> (r: Vec<u8>)
        ensures
            r@ == crate::curve::g1_ser_of(self.checksum),
            r@.len() == 96,
            crate::curve::g1_deser_of(r@) == Some(self.checksum),
    {
        crate::curve::g1_serialize(&self.checksum)
    }

    /// Reads a checksum back from its canonical encoding.
    pub fn from_bytes(bytes: &[u8]) -> (r: Option<ValidatorShareChecksum>)
        ensures
            r is Some <==> bytes@.len() == 96 && crate::curve::g1_deser_of(bytes@) is Some,
            r matches Some(c) ==> Some(c.checksum) == crate::curve::g1_deser_of(bytes@),
    {
        if bytes.len() != 96 {
            return None;
        }
        match crate::curve::g1_deserialize(bytes) {
            Some(checksum) => Some(ValidatorShareChecksum { checksum }),
            None => None,
        }
    }
}

/// The bytes determine the fast share: eight little-endian index bytes,
/// then the canonical share point.
pub open spec fn fast_share_parses_back(bytes: Seq<u8>, d: DecryptionShareFast) -> bool {
    &&& bytes.len() == 104
    &&& bytes.subrange(0, 8) == crate::bytes::u64_le_bytes(d.decrypter_index as u64)
    &&& crate::curve::g1_deser_of(bytes.subrange(8, 104)) == Some(d.decryption_share)
}

impl DecryptionShareFast {
    /// The canonical encoding: the decrypter index, then the share point.
    pub fn to_bytes(&self) -> (r: Vec<u8>)
        ensures
            r@ == crate::bytes::u64_le_bytes(self.decrypter_index as u64) + crate::curve::g1_ser_of(
                self.decryption_share,
            ),
            fast_share_parses_back(r@, *self),
    {
        let mut out = crate::bytes::u64_to_le_bytes(self.decrypter_index as u64);
        let point = crate::curve::g1_serialize(&self.decryption_share);
        crate::bytes::append_bytes(&mut out, point.as_slice());
        proof {
            let bytes = crate::bytes::u64_le_bytes(self.decrypter_index as u64)
                + crate::curve::g1_ser_of(self.decryption_share);
            assert(bytes.subrange(0, 8) =~= crate::bytes::u64_le_bytes(
                self.decrypter_index as u64,
            ));
            assert(bytes.subrange(8, 104) =~= crate::curve::g1_ser_of(self.decryption_share));
        }
        out
    }

    /// Reads a fast share back from its canonical encoding.  It succeeds
    /// exactly on 104 bytes whose index fits a machine word and whose point
    /// decodes.
    pub fn from_bytes(bytes: &[u8]) -> (r: Option<DecryptionShareFast>)
        ensures
            r is Some <==> bytes@.len() == 104 && crate::bytes::fits_usize_le(
                bytes@.subrange(0, 8),
            ) && crate::curve::g1_deser_of(bytes@.subrange(8, 104)) is Some,
            r matches Some(d) ==> fast_share_parses_back(bytes@, d),
    {
        if bytes.len() != 104 {
            return None;
        }
        let index_bytes = crate::bytes::sub_bytes(bytes, 0, 8);
        let idx = crate::bytes::u64_from_le_bytes(index_bytes.as_slice());
        if idx > usize::MAX as u64 {
            proof {
                assert forall|ix: usize|
                    #[trigger] crate::bytes::u64_le_bytes(ix as u64) != bytes@.subrange(0, 8) by {
                    if crate::bytes::u64_le_bytes(ix as u64) == bytes@.subrange(0, 8) {
                        crate::bytes::lemma_u64_le_bytes_injective(ix as u64, idx);
                    }
                }
                assert(!crate::bytes::fits_usize_le(bytes@.subrange(0, 8)));
            }
            return None;
        }
        let point_bytes = crate::bytes::sub_bytes(bytes, 8, 104);
        match crate::curve::g1_deserialize(point_bytes.as_slice()) {
            Some(decryption_share) => {
                let d = DecryptionShareFast { decrypter_index: idx as usize, decryption_share };
                proof {
                    assert(d.decrypter_index as u64 == idx);
                    assert(crate::bytes::u64_le_bytes((idx as usize) as u64) == bytes@.subrange(
                        0,
                        8,
                    ));
                    assert(crate::bytes::fits_usize_le(bytes@.subrange(0, 8)));
                }
                Some(d)
            },
            None => None,
        }
    }
}

/// The bytes determine the simple share: eight little-endian index bytes,
/// the canonical pairing value, then the checksum point.
pub open spec fn simple_share_parses_back(bytes: Seq<u8>, d: DecryptionShareSimple) -> bool {
    &&& bytes.len() == 680
    &&& bytes.subrange(0, 8) == crate::bytes::u64_le_bytes(d.decrypter_index as u64)
    &&& crate::curve::gt_deser_of(bytes.subrange(8, 584)) == Some(d.decryption_share)
    &&& crate::curve::g1_deser_of(bytes.subrange(584, 680)) == Some(d.validator_checksum.checksum)
}

impl DecryptionShareSimple {
    /// The canonical encoding: the decrypter index, the pairing value, then
    /// the checksum point.
    pub fn to_bytes(&self) -> (r: Vec<u8>)
        ensures
            r@ == crate::bytes::u64_le_bytes(self.decrypter_index as u64) + crate::curve::gt_ser_of(
                self.decryption_share,
            ) + crate::curve::g1_ser_of(self.validator_checksum.checksum),
            simple_share_parses_back(r@, *self),
    {
        let mut out = crate::bytes::u64_to_le_bytes(self.decrypter_index as u64);
        let value = crate::curve::gt_serialize(&self.decryption_share);
        crate::bytes::append_bytes(&mut out, value.as_slice());
        let point = crate::curve::g1_serialize(&self.validator_checksum.checksum);
        crate::bytes::append_bytes(&mut out, point.as_slice());
        proof {
            let bytes = crate::bytes::u64_le_bytes(self.decrypter_index as u64)
                + crate::curve::gt_ser_of(self.decryption_share) + crate::curve::g1_ser_of(
                self.validator_checksum.checksum,
            );
            assert(bytes.subrange(0, 8) =~= crate::bytes::u64_le_bytes(
                self.decrypter_index as u64,
            ));
            assert(bytes.subrange(8, 584) =~= crate::curve::gt_ser_of(self.decryption_share));
            assert(bytes.subrange(584, 680) =~= crate::curve::g1_ser_of(
                self.validator_checksum.checksum,
            ));
        }
        out
    }

    /// Reads a simple share back from its canonical encoding.  It succeeds
    /// exactly on 680 bytes whose index fits a machine word and whose
    /// pairing value and checksum point decode.
    pub fn from_bytes(bytes: &[u8]) -> (r: Option<DecryptionShareSimple>)
        ensures
            r is Some <==> bytes@.len() == 680 && crate::bytes::fits_usize_le(
                bytes@.subrange(0, 8),
            ) && crate::curve::gt_deser_of(bytes@.subrange(8, 584)) is Some
                && crate::curve::g1_deser_of(bytes@.subrange(584, 680)) is Some,
            r matches Some(d) ==> simple_share_parses_back(bytes@, d),
    {
        if bytes.len() != 680 {
            return None;
        }
        let index_bytes = crate::bytes::sub_bytes(bytes, 0, 8);
        let idx = crate::bytes::u64_from_le_bytes(index_bytes.as_slice());
        if idx > usize::MAX as u64 {
            proof {
                assert forall|ix: usize|
                    #[trigger] crate::bytes::u64_le_bytes(ix as u64) != bytes@.subrange(0, 8) by {
                    if crate::bytes::u64_le_bytes(ix as u64) == bytes@.subrange(0, 8) {
                        crate::bytes::lemma_u64_le_bytes_injective(ix as u64, idx);
                    }
                }
                assert(!crate::bytes::fits_usize_le(bytes@.subrange(0, 8)));
            }
            return None;
        }
        let value_bytes = crate::bytes::sub_bytes(bytes, 8, 584);
        let decryption_share = match crate::curve::gt_deserialize(value_bytes.as_slice()) {
            Some(x) => x,
            None => {
                return None;
            },
        };
        let point_bytes = crate::bytes::sub_bytes(bytes, 584, 680);
        match crate::curve::g1_deserialize(point_bytes.as_slice()) {
            Some(checksum) => {
                let d = DecryptionShareSimple {
                    decrypter_index: idx as usize,
                    decryption_share,
                    validator_checksum: ValidatorShareChecksum { checksum },
                };
                proof {
                    assert(d.decrypter_index as u64 == idx);
                    assert(crate::bytes::u64_le_bytes((idx as usize) as u64) == bytes@.subrange(
                        0,
                        8,
                    ));
                    assert(crate::bytes::fits_usize_le(bytes@.subrange(0, 8)));
                }
                Some(d)
            },
            None => None,
        }
    }
}

/// The bytes determine the precomputed share, laid out as the simple one.
pub open spec fn precomputed_share_parses_back(
    bytes: Seq<u8>,
    d: DecryptionShareSimplePrecomputed,
) -> bool {
    &&& bytes.len() == 680
    &&& bytes.subrange(0, 8) == crate::bytes::u64_le_bytes(d.decrypter_index as u64)
    &&& crate::curve::gt_deser_of(bytes.subrange(8, 584)) == Some(d.decryption_share)
    &&& crate::curve::g1_deser_of(bytes.subrange(584, 680)) == Some(d.validator_checksum.checksum)
}

impl DecryptionShareSimplePrecomputed {
    /// The canonical encoding: the decrypter index, the pairing value, then
    /// the checksum point.
    pub fn to_bytes(&self) -> (r: Vec<u8>)
        ensures
            r@ == crate::bytes::u64_le_bytes(self.decrypter_index as u64) + crate::curve::gt_ser_of(
                self.decryption_share,
            ) + crate::curve::g1_ser_of(self.validator_checksum.checksum),
            precomputed_share_parses_back(r@, *self),
    {
        let mut out = crate::bytes::u64_to_le_bytes(self.decrypter_index as u64);
        let value = crate::curve::gt_serialize(&self.decryption_share);
        crate::bytes::append_bytes(&mut out, value.as_slice());
        let point = crate::curve::g1_serialize(&self.validator_checksum.checksum);
        crate::bytes::append_bytes(&mut out, point.as_slice());
        proof {
            let bytes = crate::bytes::u64_le_bytes(self.decrypter_index as u64)
                + crate::curve::gt_ser_of(self.decryption_share) + crate::curve::g1_ser_of(
                self.validator_checksum.checksum,
            );
            assert(bytes.subrange(0, 8) =~= crate::bytes::u64_le_bytes(
                self.decrypter_index as u64,
            ));
            assert(bytes.subrange(8, 584) =~= crate::curve::gt_ser_of(self.decryption_share));
            assert(bytes.subrange(584, 680) =~= crate::curve::g1_ser_of(
                self.validator_checksum.checksum,
            ));
        }
        out
    }

    /// Reads a precomputed share back from its canonical encoding.  It
    /// succeeds exactly on 680 bytes whose index fits a machine word and
    /// whose pairing value and checksum point decode.
    pub fn from_bytes(bytes: &[u8]) -> (r: Option<DecryptionShareSimplePrecomputed>)
        ensures
            r is Some <==> bytes@.len() == 680 && crate::bytes::fits_usize_le(
                bytes@.subrange(0, 8),
            ) && crate::curve::gt_deser_of(bytes@.subrange(8, 584)) is Some
                && crate::curve::g1_deser_of(bytes@.subrange(584, 680)) is Some,
            r matches Some(d) ==> precomputed_share_parses_back(bytes@, d),
    {
        if bytes.len() != 680 {
            return None;
        }
        let index_bytes = crate::bytes::sub_bytes(bytes, 0, 8);
        let idx = crate::bytes::u64_from_le_bytes(index_bytes.as_slice());
        if idx > usize::MAX as u64 {
            proof {
                assert forall|ix: usize|
                    #[trigger] crate::bytes::u64_le_bytes(ix as u64) != bytes@.subrange(0, 8) by {
                    if crate::bytes::u64_le_bytes(ix as u64) == bytes@.subrange(0, 8) {
                        crate::bytes::lemma_u64_le_bytes_injective(ix as u64, idx);
                    }
                }
                assert(!crate::bytes::fits_usize_le(bytes@.subrange(0, 8)));
            }
            return None;
        }
        let value_bytes = crate::bytes::sub_bytes(bytes, 8, 584);
        let decryption_share = match crate::curve::gt_deserialize(value_bytes.as_slice()) {
            Some(x) => x,
            None => {
                return None;
            },
        };
        let point_bytes = crate::bytes::sub_bytes(bytes, 584, 680);
        match crate::curve::g1_deserialize(point_bytes.as_slice()) {
            Some(checksum) => {
                let d = DecryptionShareSimplePrecomputed {
                    decrypter_index: idx as usize,
                    decryption_share,
                    validator_checksum: ValidatorShareChecksum { checksum },
                };
                proof {
                    assert(d.decrypter_index as u64 == idx);
                    assert(crate::bytes::u64_le_bytes((idx as usize) as u64) == bytes@.subrange(
                        0,
                        8,
                    ));
                    assert(crate::bytes::fits_usize_le(bytes@.subrange(0, 8)));
                }
                Some(d)
            },
            None => None,
        }
    }
}

/// Two fast shares with the same canonical bytes are the same share.
pub proof fn lemma_fast_share_bytes_roundtrip(
    bytes: Seq<u8>,
    a: DecryptionShareFast,
    b: DecryptionShareFast,
)
    requires
        fast_share_parses_back(bytes, a),
        fast_share_parses_back(bytes, b),
    ensures
        a.decrypter_index == b.decrypter_index,
        a.decryption_share == b.decryption_share,
{
    crate::bytes::lemma_u64_le_bytes_injective(a.decrypter_index as u64, b.decrypter_index as u64);
}

/// Two simple shares with the same canonical bytes are the same share.
pub proof fn lemma_simple_share_bytes_roundtrip(
    bytes: Seq<u8>,
    a: DecryptionShareSimple,
    b: DecryptionShareSimple,
)
    requires
        simple_share_parses_back(bytes, a),
        simple_share_parses_back(bytes, b),
    ensures
        a.decrypter_index == b.decrypter_index,
        a.decryption_share == b.decryption_share,
        a.validator_checksum == b.validator_checksum,
{
    crate::bytes::lemma_u64_le_bytes_injective(a.decrypter_index as u64, b.decrypter_index as u64);
}

/// Two precomputed shares with the same canonical bytes are the same share.
pub proof fn lemma_precomputed_share_bytes_roundtrip(
    bytes: Seq<u8>,
    a: DecryptionShareSimplePrecomputed,
    b: DecryptionShareSimplePrecomputed,
)
    requires
        precomputed_share_parses_back(bytes, a),
        precomputed_share_parses_back(bytes, b),
    ensures
        a.decrypter_index == b.decrypter_index,
        a.decryption_share == b.decryption_share,
        a.validator_checksum == b.validator_checksum,
{
    crate::bytes::lemma_u64_le_bytes_injective(a.decrypter_index as u64, b.decrypter_index as u64);
}

} // verus!
