//! The hybrid threshold ciphertext: a commitment in G1, a stream-cipher
//! payload, and a hash-to-curve authentication tag in G2.
use vstd::prelude::*;

use crate::bytes::{append_bytes, sub_bytes};
use crate::curve::{
    chacha_dec_of, chacha_decrypt, chacha_enc_of, chacha_encrypt, fr_random, g1_deser_of,
    g1_mul, g1_mul_of, g1_neg_of, g1_scales_pairings, g1_ser_of, g1_serialize, g2_deser_of,
    g2_mul, g2_mul_of, g2_scales_pairings, g2_ser_of, g2_serialize, gt_pow_of, gt_ser_of,
    gt_serialize, hash_g2_of, hash_to_g2, pairing, pairing_of, pairing_product_is_one, sha256,
    sha256_of, Fr, G1Affine, G2Affine, TargetField,
};
use crate::pvss::PubliclyVerifiableParams;
use crate::{Error, Result};

verus! {

/// The hybrid ciphertext: `commitment = r·g`, `auth_tag = r·H(U‖V‖aad)`, and
/// the symmetric payload `ciphertext`.
#[derive(Clone)]
pub struct Ciphertext {
    /// U: the randomness bound into the ciphertext.
    pub commitment: G1Affine,
    /// W: the chosen-ciphertext integrity tag.
    pub auth_tag: G2Affine,
    /// V: the symmetric (AEAD) payload.
    pub ciphertext: Vec<u8>,
}

/// The 32-byte symmetric key derived from a pairing value: the digest of its
/// canonical encoding.
pub open spec fn shared_key_of(s: TargetField) -> Seq<u8> {
    sha256_of(gt_ser_of(s))
}

/// The 12-byte nonce derived from the commitment: the first twelve digest
/// bytes of its canonical encoding.
pub open spec fn nonce_of(u: G1Affine) -> Seq<u8> {
    sha256_of(g1_ser_of(u)).take(12)
}

/// The bytes bound by the authentication tag: the canonical commitment
/// encoding, the payload, and the associated data.
pub open spec fn tag_hash_input(u: G1Affine, v: Seq<u8>, aad: Seq<u8>) -> Seq<u8> {
    g1_ser_of(u) + v + aad
}

/// The authentication base point: the curve hash of the bound bytes.
pub open spec fn tag_hash_of(u: G1Affine, v: Seq<u8>, aad: Seq<u8>) -> G2Affine {
    hash_g2_of(tag_hash_input(u, v, aad))
}

/// The ciphertext integrity equation relative to the generator `g`:
/// e(U, H(U‖V‖aad)) = e(g, W).
pub open spec fn ciphertext_valid_wrt(c: Ciphertext, aad: Seq<u8>, g: G1Affine) -> bool {
    pairing_of(c.commitment, tag_hash_of(c.commitment, c.ciphertext@, aad)) == pairing_of(
        g,
        c.auth_tag,
    )
}

/// What `encrypt` guarantees of its result, with the sampled randomness
/// `rr` as a witness: the commitment and tag are the `rr`-multiples of the
/// generator and of the tag hash, the payload is the AEAD encryption of the
/// message under the pairing-derived key, that encryption decrypts back to
/// the message, and the integrity equation holds.
pub open spec fn encrypt_witness(
    msg: Seq<u8>,
    aad: Seq<u8>,
    pubkey: G1Affine,
    params: PubliclyVerifiableParams,
    rr: Fr,
    c: Ciphertext,
) -> bool {
    &&& c.commitment == g1_mul_of(rr, params.g)
    &&& g1_scales_pairings(rr, params.g, c.commitment)
    &&& c.ciphertext@ == chacha_enc_of(
        shared_key_of(gt_pow_of(rr, pairing_of(pubkey, params.h))),
        nonce_of(c.commitment),
        msg,
    )
    &&& chacha_dec_of(
        shared_key_of(gt_pow_of(rr, pairing_of(pubkey, params.h))),
        nonce_of(c.commitment),
        c.ciphertext@,
    ) == Some(msg)
    &&& c.ciphertext@.len() == msg.len() + 16
    &&& c.auth_tag == g2_mul_of(rr, tag_hash_of(c.commitment, c.ciphertext@, aad))
    &&& g2_scales_pairings(rr, tag_hash_of(c.commitment, c.ciphertext@, aad), c.auth_tag)
    &&& ciphertext_valid_wrt(c, aad, params.g)
}

/// The bound bytes, computed: the canonical commitment encoding, then the
/// payload, then the associated data.
fn build_tag_hash_input(commitment: &G1Affine, stream_ciphertext: &[u8], aad: &[u8]) -> (r: Vec<
    u8,
>)
    ensures
        r@ == tag_hash_input(*commitment, stream_ciphertext@, aad@),
{
    let mut hash_input = g1_serialize(commitment);
    append_bytes(&mut hash_input, stream_ciphertext);
    append_bytes(&mut hash_input, aad);
    hash_input
}

/// The authentication base point for the given commitment, payload and
/// associated data.
fn construct_tag_hash(commitment: &G1Affine, stream_ciphertext: &[u8], aad: &[u8]) -> (r: G2Affine)
    ensures
        r == tag_hash_of(*commitment, stream_ciphertext@, aad@),
{
    let hash_input = build_tag_hash_input(commitment, stream_ciphertext, aad);
    hash_to_g2(hash_input.as_slice())
}

/// The AEAD nonce for the given commitment.
fn nonce_from_commitment(commitment: &G1Affine) -> (r: Vec<u8>)
    ensures
        r@ == nonce_of(*commitment),
        r@.len() == 12,
{
    let commitment_bytes = g1_serialize(commitment);
    let commitment_hash = sha256(commitment_bytes.as_slice());
    let nonce = sub_bytes(commitment_hash.as_slice(), 0, 12);
    assert(commitment_hash@.subrange(0, 12) =~= sha256_of(g1_ser_of(*commitment)).take(12));
    nonce
}

/// The 32-byte symmetric key for the given pairing value.
pub fn shared_secret_to_chacha(s: &TargetField) -> (r: Vec<u8>)
    ensures
        r@ == shared_key_of(*s),
        r@.len() == 32,
{
    let prf_key = gt_serialize(s);
    sha256(prf_key.as_slice())
}

impl Ciphertext {
    /// The integrity check with no associated data bound: used where only
    /// the header is in question.
    pub fn check(&self, g_inv: &G1Affine) -> (r: bool)
        ensures
            r == ciphertext_valid_wrt(*self, Seq::<u8>::empty(), g1_neg_of(*g_inv)),
    {
        let empty_aad: Vec<u8> = Vec::new();
        let hash_g2 = construct_tag_hash(&self.commitment, self.ciphertext.as_slice(), empty_aad.as_slice());
        pairing_product_is_one(&self.commitment, &hash_g2, g_inv, &self.auth_tag)
    }

    /// The byte length of the canonical encoding: both points uncompressed,
    /// then the payload.
    pub fn serialized_length(&self) -> (r: usize)
        requires
            self.ciphertext@.len() + 288 <= usize::MAX,
        ensures
            r == self.ciphertext@.len() + 288,
    {
        96 + 192 + self.ciphertext.len()
    }

    /// The canonical encoding: the commitment, the tag, then the payload.
    pub fn to_bytes(&self) -> (r: Vec<u8>)
        ensures
            r@ == g1_ser_of(self.commitment) + g2_ser_of(self.auth_tag) + self.ciphertext@,
            ciphertext_parses_back(r@, *self),
    {
        let mut out = g1_serialize(&self.commitment);
        let tag = g2_serialize(&self.auth_tag);
        append_bytes(&mut out, tag.as_slice());
        append_bytes(&mut out, self.ciphertext.as_slice());
        proof {
            let bytes = g1_ser_of(self.commitment) + g2_ser_of(self.auth_tag) + self.ciphertext@;
            assert(bytes.subrange(0, 96) =~= g1_ser_of(self.commitment));
            assert(bytes.subrange(96, 288) =~= g2_ser_of(self.auth_tag));
            assert(bytes.subrange(288, bytes.len() as int) =~= self.ciphertext@);
        }
        out
    }

    /// Reads a ciphertext back from its canonical encoding, validating both
    /// points.
    pub fn from_bytes(bytes: &[u8]) -> (r: Option<Ciphertext>)
        ensures
            r is Some <==> bytes@.len() >= 288 && g1_deser_of(bytes@.subrange(0, 96)) is Some
                && g2_deser_of(bytes@.subrange(96, 288)) is Some,
            r matches Some(c) ==> ciphertext_parses_back(bytes@, c),
    {
        if bytes.len() < 288 {
            return None;
        }
        let commitment_bytes = sub_bytes(bytes, 0, 96);
        let tag_bytes = sub_bytes(bytes, 96, 288);
        let payload = sub_bytes(bytes, 288, bytes.len());
        let commitment = match crate::curve::G1Affine::from_bytes(commitment_bytes.as_slice()) {
            Some(p) => p,
            None => {
                return None;
            },
        };
        let auth_tag = match crate::curve::G2Affine::from_bytes(tag_bytes.as_slice()) {
            Some(p) => p,
            None => {
                return None;
            },
        };
        Some(Ciphertext { commitment, auth_tag, ciphertext: payload })
    }
}

/// The bytes determine the ciphertext: the first 96 decode to its
/// commitment, the next 192 to its tag, and the rest are its payload.
pub open spec fn ciphertext_parses_back(bytes: Seq<u8>, c: Ciphertext) -> bool {
    &&& bytes.len() >= 288
    &&& g1_deser_of(bytes.subrange(0, 96)) == Some(c.commitment)
    &&& g2_deser_of(bytes.subrange(96, 288)) == Some(c.auth_tag)
    &&& bytes.subrange(288, bytes.len() as int) == c.ciphertext@
}

/// The canonical encoding round-trips: a decoder that meets
/// `from_bytes`' contract, given the bytes of `to_bytes`, returns the
/// ciphertext it encoded.
pub proof fn lemma_ciphertext_bytes_roundtrip(bytes: Seq<u8>, c1: Ciphertext, c2: Ciphertext)
    requires
        ciphertext_parses_back(bytes, c1),
        ciphertext_parses_back(bytes, c2),
    ensures
        c1.commitment == c2.commitment,
        c1.auth_tag == c2.auth_tag,
        c1.ciphertext@ == c2.ciphertext@,
{
}

/// Encrypts a message against the session public key: samples `r`, derives
/// the symmetric key from `e(r·Y, h)`, and binds commitment, payload and
/// associated data through the tag hash.
pub fn encrypt(
    message: &[u8],
    aad: &[u8],
    pubkey: &G1Affine,
    params: &PubliclyVerifiableParams,
    rng: &mut rand::rngs::StdRng,
) -> (r: Ciphertext)
    requires
        message@.len() < 0x10_0000_0000,
    ensures
        exists|rr: Fr| #[trigger] encrypt_witness(message@, aad@, *pubkey, *params, rr, r),
{
    let rand_element = fr_random(rng);
    let ry = g1_mul(&rand_element, pubkey);
    let product = pairing(&ry, &params.h);
    let commitment = g1_mul(&rand_element, &params.g);

    let key = shared_secret_to_chacha(&product);
    let nonce = nonce_from_commitment(&commitment);
    let ciphertext = chacha_encrypt(key.as_slice(), nonce.as_slice(), message);

    let tag_base = construct_tag_hash(&commitment, ciphertext.as_slice(), aad);
    let auth_tag = g2_mul(&rand_element, &tag_base);

    let c = Ciphertext { commitment, auth_tag, ciphertext };
    proof {
        assert(pairing_of(c.commitment, tag_hash_of(c.commitment, c.ciphertext@, aad@))
            == gt_pow_of(rand_element, pairing_of(params.g, tag_hash_of(c.commitment, c.ciphertext@, aad@))));
        assert(pairing_of(params.g, c.auth_tag)
            == gt_pow_of(rand_element, pairing_of(params.g, tag_hash_of(c.commitment, c.ciphertext@, aad@))));
        assert(encrypt_witness(message@, aad@, *pubkey, *params, rand_element, c));
    }
    c
}

/// Accepts a ciphertext exactly when the integrity equation holds for the
/// given associated data, relative to the generator whose negation is
/// passed in.
pub fn check_ciphertext_validity(c: &Ciphertext, aad: &[u8], g_inv: &G1Affine) -> (r: Result<()>)
    ensures
        r is Ok <==> ciphertext_valid_wrt(*c, aad@, g1_neg_of(*g_inv)),
        r matches Err(e) ==> e == Error::CiphertextVerificationFailed,
{
    let hash_g2 = construct_tag_hash(&c.commitment, c.ciphertext.as_slice(), aad);
    let is_ciphertext_valid = pairing_product_is_one(&c.commitment, &hash_g2, g_inv, &c.auth_tag);
    if is_ciphertext_valid {
        Ok(())
    } else {
        Err(Error::CiphertextVerificationFailed)
    }
}

/// Decrypts under the AEAD key derived from the given pairing value,
/// without the integrity check.
fn decrypt_with_shared_secret_unchecked(c: &Ciphertext, shared_secret: &TargetField) -> (r: Result<
    Vec<u8>,
>)
    ensures
        r is Ok <==> chacha_dec_of(
            shared_key_of(*shared_secret),
            nonce_of(c.commitment),
            c.ciphertext@,
        ) is Some,
        r matches Ok(m) ==> Some(m@) == chacha_dec_of(
            shared_key_of(*shared_secret),
            nonce_of(c.commitment),
            c.ciphertext@,
        ),
        r matches Err(e) ==> e == Error::CiphertextVerificationFailed,
{
    let nonce = nonce_from_commitment(&c.commitment);
    let key = shared_secret_to_chacha(shared_secret);
    match chacha_decrypt(key.as_slice(), nonce.as_slice(), c.ciphertext.as_slice()) {
        Some(plaintext) => Ok(plaintext),
        None => Err(Error::CiphertextVerificationFailed),
    }
}

/// Checks integrity, then decrypts with the pairing of the commitment and
/// the holder's G2 private key.
pub fn decrypt_symmetric(
    ciphertext: &Ciphertext,
    aad: &[u8],
    private_key: &G2Affine,
    g_inv: &G1Affine,
) -> (r: Result<Vec<u8>>)
    ensures
        r is Ok <==> ciphertext_valid_wrt(*ciphertext, aad@, g1_neg_of(*g_inv)) && chacha_dec_of(
            shared_key_of(pairing_of(ciphertext.commitment, *private_key)),
            nonce_of(ciphertext.commitment),
            ciphertext.ciphertext@,
        ) is Some,
        r matches Ok(m) ==> Some(m@) == chacha_dec_of(
            shared_key_of(pairing_of(ciphertext.commitment, *private_key)),
            nonce_of(ciphertext.commitment),
            ciphertext.ciphertext@,
        ),
        r matches Err(e) ==> e == Error::CiphertextVerificationFailed,
{
    match check_ciphertext_validity(ciphertext, aad, g_inv) {
        Ok(_) => {},
        Err(e) => {
            return Err(e);
        },
    }
    let shared_secret = pairing(&ciphertext.commitment, private_key);
    decrypt_with_shared_secret_unchecked(ciphertext, &shared_secret)
}

/// Checks integrity, then decrypts with a pairing value recovered
/// elsewhere, such as by combining decryption shares.
pub fn decrypt_with_shared_secret(
    ciphertext: &Ciphertext,
    aad: &[u8],
    shared_secret: &TargetField,
    g_inv: &G1Affine,
) -> (r: Result<Vec<u8>>)
    ensures
        r is Ok <==> ciphertext_valid_wrt(*ciphertext, aad@, g1_neg_of(*g_inv)) && chacha_dec_of(
            shared_key_of(*shared_secret),
            nonce_of(ciphertext.commitment),
            ciphertext.ciphertext@,
        ) is Some,
        r matches Ok(m) ==> Some(m@) == chacha_dec_of(
            shared_key_of(*shared_secret),
            nonce_of(ciphertext.commitment),
            ciphertext.ciphertext@,
        ),
        r matches Err(e) ==> e == Error::CiphertextVerificationFailed,
{
    match check_ciphertext_validity(ciphertext, aad, g_inv) {
        Ok(_) => {},
        Err(e) => {
            return Err(e);
        },
    }
    decrypt_with_shared_secret_unchecked(ciphertext, shared_secret)
}

/// Encrypting with the public side of a key pair and decrypting with its
/// private side recovers the message: the integrity equation holds of the
/// fresh ciphertext, and the holder's pairing value equals the one the
/// sender derived, so the AEAD decryption returns the plaintext.
pub proof fn lemma_encrypt_then_decrypt(
    msg: Seq<u8>,
    aad: Seq<u8>,
    pubkey: G1Affine,
    params: PubliclyVerifiableParams,
    a: Fr,
    sk: G2Affine,
    rr: Fr,
    c: Ciphertext,
)
    requires
        encrypt_witness(msg, aad, pubkey, params, rr, c),
        pubkey == g1_mul_of(a, params.g),
        g1_scales_pairings(a, params.g, pubkey),
        sk == g2_mul_of(a, params.h),
        g2_scales_pairings(a, params.h, sk),
    ensures
        ciphertext_valid_wrt(c, aad, params.g),
        chacha_dec_of(
            shared_key_of(pairing_of(c.commitment, sk)),
            nonce_of(c.commitment),
            c.ciphertext@,
        ) == Some(msg),
{
    assert(pairing_of(c.commitment, sk) == gt_pow_of(rr, pairing_of(params.g, sk)));
    assert(pairing_of(params.g, sk) == gt_pow_of(a, pairing_of(params.g, params.h)));
    assert(pairing_of(pubkey, params.h) == gt_pow_of(a, pairing_of(params.g, params.h)));
    assert(pairing_of(c.commitment, sk) == gt_pow_of(rr, pairing_of(pubkey, params.h)));
}

} // verus!
