//! The boundary to the arkworks BLS12-381 arithmetic.
//!
//! Scalars, group elements, the pairing target and the evaluation domain are
//! held in opaque wrapper structs.  Each operation the library needs is
//! wrapped in one trusted function whose contract names the operation's
//! result with an uninterpreted spec function and states only what the
//! arkworks sources and documentation plainly give: determinism, the field
//! identities, the involution of negation, and the bilinearity of the
//! pairing in both arguments.
use ark_ec::pairing::Pairing;
use vstd::prelude::*;

verus! {

/// A scalar field element of BLS12-381.
#[verifier::external_body]
pub struct Fr {
    inner: ark_bls12_381::Fr,
}

/// An affine point of the first pairing source group.
#[verifier::external_body]
pub struct G1Affine {
    inner: ark_bls12_381::G1Affine,
}

/// An affine point of the second pairing source group.
#[verifier::external_body]
pub struct G2Affine {
    inner: ark_bls12_381::G2Affine,
}

/// An element of the pairing target field.
#[verifier::external_body]
pub struct TargetField {
    inner: ark_bls12_381::Fq12,
}

/// The evaluation domain: a power-of-two multiplicative subgroup of the
/// scalar field.
#[verifier::external_body]
pub struct Domain {
    inner: ark_poly::GeneralEvaluationDomain<ark_bls12_381::Fr>,
}

#[verifier::external_type_specification]
#[verifier::external_body]
pub struct ExStdRng(rand::rngs::StdRng);

/// Relies on `ark_ff::Fp` being `Copy`: cloning copies the value.
impl Clone for Fr {
    #[verifier::external_body]
    fn clone(&self) -> (r: Fr)
        ensures
            r == *self,
    {
        Fr { inner: self.inner }
    }
}

impl Copy for Fr {}

/// Relies on the affine G1 point being `Copy`: cloning copies the value.
impl Clone for G1Affine {
    #[verifier::external_body]
    fn clone(&self) -> (r: G1Affine)
        ensures
            r == *self,
    {
        G1Affine { inner: self.inner }
    }
}

impl Copy for G1Affine {}

/// Relies on the affine G2 point being `Copy`: cloning copies the value.
impl Clone for G2Affine {
    #[verifier::external_body]
    fn clone(&self) -> (r: G2Affine)
        ensures
            r == *self,
    {
        G2Affine { inner: self.inner }
    }
}

impl Copy for G2Affine {}

/// Relies on the target field element being `Copy`: cloning copies the value.
impl Clone for TargetField {
    #[verifier::external_body]
    fn clone(&self) -> (r: TargetField)
        ensures
            r == *self,
    {
        TargetField { inner: self.inner }
    }
}

impl Copy for TargetField {}

/// Relies on `ark_poly`'s evaluation domain being `Copy`: cloning copies the
/// value.
impl Clone for Domain {
    #[verifier::external_body]
    fn clone(&self) -> (r: Domain)
        ensures
            r == *self,
    {
        Domain { inner: self.inner }
    }
}

impl Copy for Domain {}

// ---------------------------------------------------------------------------
// Names for the results of the scalar field operations.
// ---------------------------------------------------------------------------

pub uninterp spec fn fr_of_u64(n: u64) -> Fr;

pub uninterp spec fn fr_add_of(a: Fr, b: Fr) -> Fr;

pub uninterp spec fn fr_sub_of(a: Fr, b: Fr) -> Fr;

pub uninterp spec fn fr_mul_of(a: Fr, b: Fr) -> Fr;

pub uninterp spec fn fr_inv_of(a: Fr) -> Fr;

/// The scalar field's zero, as the canonical embedding of the integer 0.
pub open spec fn fr_zero_spec() -> Fr {
    fr_of_u64(0)
}

/// The scalar field's one, as the canonical embedding of the integer 1.
pub open spec fn fr_one_spec() -> Fr {
    fr_of_u64(1)
}

// ---------------------------------------------------------------------------
// Names for the results of the group operations and the pairing.
// ---------------------------------------------------------------------------

pub uninterp spec fn g1_add_of(a: G1Affine, b: G1Affine) -> G1Affine;

pub uninterp spec fn g1_mul_of(s: Fr, p: G1Affine) -> G1Affine;

pub uninterp spec fn g1_neg_of(p: G1Affine) -> G1Affine;

pub uninterp spec fn g2_add_of(a: G2Affine, b: G2Affine) -> G2Affine;

pub uninterp spec fn g2_mul_of(s: Fr, p: G2Affine) -> G2Affine;

pub uninterp spec fn pairing_of(p: G1Affine, q: G2Affine) -> TargetField;

pub uninterp spec fn gt_mul_of(a: TargetField, b: TargetField) -> TargetField;

pub uninterp spec fn gt_pow_of(s: Fr, x: TargetField) -> TargetField;

/// Bilinearity on the left: `out = s·base` scales every pairing with `out`
/// on the left by `s` in the exponent.
pub open spec fn g1_scales_pairings(s: Fr, base: G1Affine, out: G1Affine) -> bool {
    forall|q: G2Affine| #[trigger] pairing_of(out, q) == gt_pow_of(s, pairing_of(base, q))
}

/// Bilinearity on the right: `out = s·base` scales every pairing with `out`
/// on the right by `s` in the exponent.
pub open spec fn g2_scales_pairings(s: Fr, base: G2Affine, out: G2Affine) -> bool {
    forall|p: G1Affine| #[trigger] pairing_of(p, out) == gt_pow_of(s, pairing_of(p, base))
}

/// Additivity on the left: `out = a + b` pairs as the product of the two
/// summands' pairings.
pub open spec fn g1_adds_pairings(a: G1Affine, b: G1Affine, out: G1Affine) -> bool {
    forall|q: G2Affine| #[trigger] pairing_of(out, q) == gt_mul_of(
        pairing_of(a, q),
        pairing_of(b, q),
    )
}

/// Additivity on the right: `out = a + b` pairs as the product of the two
/// summands' pairings.
pub open spec fn g2_adds_pairings(a: G2Affine, b: G2Affine, out: G2Affine) -> bool {
    forall|p: G1Affine| #[trigger] pairing_of(p, out) == gt_mul_of(
        pairing_of(p, a),
        pairing_of(p, b),
    )
}

/// Exponentiating a pairing value by `b` and then by `a` returns it.  Pairing
/// values lie in the subgroup whose order is the scalar field's modulus, so
/// this holds whenever `a` and `b` are mutually inverse scalars.
pub open spec fn fr_pow_cancels(a: Fr, b: Fr) -> bool {
    forall|p: G1Affine, q: G2Affine|
        #[trigger] gt_pow_of(a, gt_pow_of(b, pairing_of(p, q))) == pairing_of(p, q)
}

// ---------------------------------------------------------------------------
// Scalar field operations.
// ---------------------------------------------------------------------------

/// Relies on `From<u64>` for `ark_ff::Fp`, the canonical embedding of the
/// integers: 0 embeds as the additive identity and 1 as the multiplicative
/// identity of the field.
#[verifier::external_body]
pub(crate) fn fr_from_u64(n: u64) -> (r: Fr)
    ensures
        r == fr_of_u64(n),
        n == 0 ==> (forall|x: Fr| #[trigger] fr_add_of(x, r) == x) && (forall|x: Fr|
            #[trigger] fr_add_of(r, x) == x),
        n == 1 ==> (forall|x: Fr| #[trigger] fr_mul_of(x, r) == x) && (forall|x: Fr|
            #[trigger] fr_mul_of(r, x) == x),
{
    Fr { inner: ark_bls12_381::Fr::from(n) }
}

/// Relies on `ark_ff::Fp`'s addition, which is commutative.
#[verifier::external_body]
pub(crate) fn fr_add(a: &Fr, b: &Fr) -> (r: Fr)
    ensures
        r == fr_add_of(*a, *b),
        r == fr_add_of(*b, *a),
{
    Fr { inner: a.inner + b.inner }
}

/// Relies on `ark_ff::Fp`'s subtraction: the difference is zero exactly for
/// equal arguments, and adding the subtrahend back restores the minuend.
#[verifier::external_body]
pub(crate) fn fr_sub(a: &Fr, b: &Fr) -> (r: Fr)
    ensures
        r == fr_sub_of(*a, *b),
        (r == fr_zero_spec()) <==> (*a == *b),
        fr_add_of(r, *b) == *a,
{
    Fr { inner: a.inner - b.inner }
}

/// Relies on `ark_ff::Fp`'s multiplication, which is commutative.
#[verifier::external_body]
pub(crate) fn fr_mul(a: &Fr, b: &Fr) -> (r: Fr)
    ensures
        r == fr_mul_of(*a, *b),
        r == fr_mul_of(*b, *a),
{
    Fr { inner: a.inner * b.inner }
}

/// Relies on `ark_ff::Field::inverse`, defined exactly on the nonzero
/// elements, and on the pairing values lying in the subgroup of the scalar
/// field's prime order, so that raising one to a scalar and then to that
/// scalar's inverse returns it.
#[verifier::external_body]
pub(crate) fn fr_inverse(a: &Fr) -> (r: Fr)
    requires
        *a != fr_zero_spec(),
    ensures
        r == fr_inv_of(*a),
        fr_mul_of(*a, r) == fr_one_spec(),
        fr_mul_of(r, *a) == fr_one_spec(),
        fr_pow_cancels(*a, r),
        fr_pow_cancels(r, *a),
{
    Fr { inner: ark_ff::Field::inverse(&a.inner).unwrap() }
}

/// Relies on `ark_std::UniformRand` to sample a scalar; nothing is promised
/// of the result.
#[verifier::external_body]
pub(crate) fn fr_random(rng: &mut rand::rngs::StdRng) -> (r: Fr)
{
    Fr { inner: ark_std::UniformRand::rand(rng) }
}

/// Relies on `zeroize::Zeroize` for `ark_ff::Fp`: each scalar is overwritten
/// with zero in place.
#[verifier::external_body]
pub(crate) fn wipe_scalars(v: &mut Vec<Fr>)
    ensures
        final(v)@.len() == old(v)@.len(),
        forall|i: int| 0 <= i < final(v)@.len() ==> final(v)@[i] == fr_zero_spec(),
{
    for c in v.iter_mut() {
        zeroize::Zeroize::zeroize(&mut c.inner);
    }
}

/// Relies on `ark_ff::Fp`'s equality, which compares field elements as
/// values.
#[verifier::external_body]
pub(crate) fn fr_equals(a: &Fr, b: &Fr) -> (r: bool)
    ensures
        r == (*a == *b),
{
    a.inner == b.inner
}

/// Relies on `ark_ec`'s equality of affine G1 points, which compares them as
/// values.
#[verifier::external_body]
pub(crate) fn g1_equals(a: &G1Affine, b: &G1Affine) -> (r: bool)
    ensures
        r == (*a == *b),
{
    a.inner == b.inner
}

/// Relies on the target field's equality, which compares elements as values.
#[verifier::external_body]
pub(crate) fn gt_equals(a: &TargetField, b: &TargetField) -> (r: bool)
    ensures
        r == (*a == *b),
{
    a.inner == b.inner
}

// ---------------------------------------------------------------------------
// Group operations.
// ---------------------------------------------------------------------------

/// Relies on the fixed G1 generator of `ark_ec::AffineRepr` for BLS12-381;
/// nothing is assumed of the point itself.
#[verifier::external_body]
pub(crate) fn g1_generator() -> (r: G1Affine)
{
    G1Affine { inner: <ark_bls12_381::G1Affine as ark_ec::AffineRepr>::generator() }
}

/// Relies on the fixed G2 generator of `ark_ec::AffineRepr` for BLS12-381;
/// nothing is assumed of the point itself.
#[verifier::external_body]
pub(crate) fn g2_generator() -> (r: G2Affine)
{
    G2Affine { inner: <ark_bls12_381::G2Affine as ark_ec::AffineRepr>::generator() }
}

/// Relies on `ark_ec`'s point addition in G1, which is commutative, and on
/// the bilinearity of the pairing: e(A + B, Q) = e(A, Q) · e(B, Q).
#[verifier::external_body]
pub(crate) fn g1_add(a: &G1Affine, b: &G1Affine) -> (r: G1Affine)
    ensures
        r == g1_add_of(*a, *b),
        r == g1_add_of(*b, *a),
        g1_adds_pairings(*a, *b, r),
{
    let sum = ark_ec::AffineRepr::into_group(a.inner) + b.inner;
    G1Affine { inner: ark_ec::CurveGroup::into_affine(sum) }
}

/// Relies on `ark_ec`'s scalar multiplication in G1 and on the bilinearity
/// of the BLS12-381 pairing: e(s·P, Q) = e(P, Q)^s for every Q.
#[verifier::external_body]
pub(crate) fn g1_mul(s: &Fr, p: &G1Affine) -> (r: G1Affine)
    ensures
        r == g1_mul_of(*s, *p),
        g1_scales_pairings(*s, *p, r),
{
    G1Affine { inner: ark_ec::CurveGroup::into_affine(p.inner * s.inner) }
}

/// Relies on `ark_ec`'s point negation in G1, an involution.
#[verifier::external_body]
pub(crate) fn g1_neg(p: &G1Affine) -> (r: G1Affine)
    ensures
        r == g1_neg_of(*p),
        g1_neg_of(r) == *p,
{
    G1Affine { inner: -p.inner }
}

/// Relies on `ark_ec`'s point addition in G2, which is commutative, and on
/// the bilinearity of the pairing: e(P, A + B) = e(P, A) · e(P, B).
#[verifier::external_body]
pub(crate) fn g2_add(a: &G2Affine, b: &G2Affine) -> (r: G2Affine)
    ensures
        r == g2_add_of(*a, *b),
        r == g2_add_of(*b, *a),
        g2_adds_pairings(*a, *b, r),
{
    let sum = ark_ec::AffineRepr::into_group(a.inner) + b.inner;
    G2Affine { inner: ark_ec::CurveGroup::into_affine(sum) }
}

/// Relies on `ark_ec`'s scalar multiplication in G2 and on the bilinearity
/// of the BLS12-381 pairing: e(P, s·Q) = e(P, Q)^s for every P.
#[verifier::external_body]
pub(crate) fn g2_mul(s: &Fr, p: &G2Affine) -> (r: G2Affine)
    ensures
        r == g2_mul_of(*s, *p),
        g2_scales_pairings(*s, *p, r),
{
    G2Affine { inner: ark_ec::CurveGroup::into_affine(p.inner * s.inner) }
}

// ---------------------------------------------------------------------------
// Pairing operations.
// ---------------------------------------------------------------------------

/// Relies on `ark_ec::pairing::Pairing::pairing` for BLS12-381, a function
/// of the two points.
#[verifier::external_body]
pub(crate) fn pairing(p: &G1Affine, q: &G2Affine) -> (r: TargetField)
    ensures
        r == pairing_of(*p, *q),
{
    TargetField { inner: ark_bls12_381::Bls12_381::pairing(p.inner, q.inner).0 }
}

/// Relies on `ark_ec::pairing::Pairing::multi_pairing`: the product of the
/// two pairings is one exactly when they are mutually inverse, that is, when
/// e(a1, b1) = e(-a2, b2).
#[verifier::external_body]
pub(crate) fn pairing_product_is_one(
    a1: &G1Affine,
    b1: &G2Affine,
    a2: &G1Affine,
    b2: &G2Affine,
) -> (r: bool)
    ensures
        r == (pairing_of(*a1, *b1) == pairing_of(g1_neg_of(*a2), *b2)),
{
    let out = ark_bls12_381::Bls12_381::multi_pairing(
        [a1.inner, a2.inner],
        [b1.inner, b2.inner],
    );
    ark_ff::One::is_one(&out.0)
}

/// The product of the pairings of the first `j` corresponding pairs.
pub open spec fn gt_pairing_prod(a: Seq<G1Affine>, b: Seq<G2Affine>, j: int) -> TargetField
    decreases j,
{
    if j <= 1 {
        pairing_of(a[0], b[0])
    } else {
        gt_mul_of(gt_pairing_prod(a, b, j - 1), pairing_of(a[j - 1], b[j - 1]))
    }
}

/// Relies on `ark_ec::pairing::Pairing::multi_pairing` over two equally
/// long, nonempty vectors: the result is true exactly when the product of
/// the pairings of corresponding pairs is the identity, written here as a
/// pairing value raised to the zero scalar (`Field::pow` by the zero
/// exponent returns one).
#[verifier::external_body]
pub(crate) fn multi_pairing_is_one(a: &Vec<G1Affine>, b: &Vec<G2Affine>) -> (r: bool)
    requires
        a@.len() == b@.len(),
        a@.len() >= 1,
    ensures
        r == (gt_pairing_prod(a@, b@, a@.len() as int) == gt_pow_of(
            fr_zero_spec(),
            pairing_of(a@[0], b@[0]),
        )),
{
    let out = ark_bls12_381::Bls12_381::multi_pairing(
        a.iter().map(|p| p.inner),
        b.iter().map(|q| q.inner),
    );
    ark_ff::One::is_one(&out.0)
}

/// Relies on `ark_ff::Field::pow` with the scalar's canonical integer
/// representation: exponentiation in the target field.
#[verifier::external_body]
pub(crate) fn gt_pow(x: &TargetField, s: &Fr) -> (r: TargetField)
    ensures
        r == gt_pow_of(*s, *x),
{
    let e = ark_ff::PrimeField::into_bigint(s.inner);
    TargetField { inner: ark_ff::Field::pow(&x.inner, e) }
}

/// Relies on the target field's multiplication, which is commutative.
#[verifier::external_body]
pub(crate) fn gt_mul(a: &TargetField, b: &TargetField) -> (r: TargetField)
    ensures
        r == gt_mul_of(*a, *b),
        r == gt_mul_of(*b, *a),
{
    TargetField { inner: a.inner * b.inner }
}

// ---------------------------------------------------------------------------
// The evaluation domain.
// ---------------------------------------------------------------------------

pub uninterp spec fn domain_size_of(d: Domain) -> usize;

pub uninterp spec fn domain_elements_of(d: Domain) -> Seq<Fr>;

/// Relies on `ark_poly::GeneralEvaluationDomain::new`: over the BLS12-381
/// scalar field (two-adicity 32) it returns, for any requested size up to
/// `u32::MAX`, a radix-2 domain whose size is the least power of two at
/// least the requested size, with one element per position.
#[verifier::external_body]
pub(crate) fn domain_new(num_coeffs: usize) -> (r: Domain)
    requires
        1 <= num_coeffs <= 0xffff_ffff,
    ensures
        num_coeffs <= domain_size_of(r),
        domain_elements_of(r).len() == domain_size_of(r),
{
    Domain {
        inner: <ark_poly::GeneralEvaluationDomain<ark_bls12_381::Fr> as ark_poly::EvaluationDomain<
            ark_bls12_381::Fr,
        >>::new(num_coeffs).unwrap(),
    }
}

/// Relies on `ark_poly::EvaluationDomain::elements`: the domain's elements
/// in their canonical order.
#[verifier::external_body]
pub(crate) fn domain_points(d: &Domain) -> (r: Vec<Fr>)
    ensures
        r@ == domain_elements_of(*d),
        r@.len() == domain_size_of(*d),
{
    ark_poly::EvaluationDomain::<ark_bls12_381::Fr>::elements(&d.inner)
        .map(|x| Fr { inner: x })
        .collect()
}

pub uninterp spec fn g1_fft_of(d: Domain, coeffs: Seq<G1Affine>) -> Seq<G1Affine>;

/// Relies on `ark_poly::EvaluationDomain::fft` over the G1 group: a function
/// of the domain and the coefficients whose result has the domain's size
/// (shorter inputs are zero-padded, longer ones truncated).
#[verifier::external_body]
pub(crate) fn g1_fft(d: &Domain, coeffs: &Vec<G1Affine>) -> (r: Vec<G1Affine>)
    ensures
        r@ == g1_fft_of(*d, coeffs@),
        r@.len() == domain_size_of(*d),
{
    let projective: Vec<ark_bls12_381::G1Projective> =
        coeffs.iter().map(|p| ark_ec::AffineRepr::into_group(p.inner)).collect();
    let evals = ark_poly::EvaluationDomain::<ark_bls12_381::Fr>::fft(&d.inner, &projective);
    ark_ec::CurveGroup::normalize_batch(&evals)
        .into_iter()
        .map(|p| G1Affine { inner: p })
        .collect()
}

// ---------------------------------------------------------------------------
// Hashing and the symmetric cipher.
// ---------------------------------------------------------------------------

pub uninterp spec fn hash_g2_of(message: Seq<u8>) -> G2Affine;

/// Relies on `ark_ec`'s Wahby-Boneh map-to-curve hasher into BLS12-381 G2
/// with SHA-256 under a fixed domain separation tag: a hash onto the group
/// that is a function of the message alone.
#[verifier::external_body]
pub(crate) fn hash_to_g2(message: &[u8]) -> (r: G2Affine)
    ensures
        r == hash_g2_of(message@),
{
    let hasher = <ark_ec::hashing::map_to_curve_hasher::MapToCurveBasedHasher<
        ark_bls12_381::G2Projective,
        ark_ff::field_hashers::DefaultFieldHasher<sha2::Sha256, 128>,
        ark_ec::hashing::curve_maps::wb::WBMap<ark_bls12_381::g2::Config>,
    > as ark_ec::hashing::HashToCurve<ark_bls12_381::G2Projective>>::new(b"FERVEO-TAG-HASH")
        .unwrap();
    G2Affine { inner: ark_ec::hashing::HashToCurve::hash(&hasher, message).unwrap() }
}

pub uninterp spec fn sha256_of(input: Seq<u8>) -> Seq<u8>;

/// Relies on `sha2::Sha256`: a 32-byte digest that is a function of the
/// input alone.
#[verifier::external_body]
pub(crate) fn sha256(input: &[u8]) -> (r: Vec<u8>)
    ensures
        r@ == sha256_of(input@),
        r@.len() == 32,
{
    let digest = <sha2::Sha256 as sha2::digest::Digest>::digest(input);
    digest.to_vec()
}

pub uninterp spec fn chacha_enc_of(key: Seq<u8>, nonce: Seq<u8>, msg: Seq<u8>) -> Seq<u8>;

pub uninterp spec fn chacha_dec_of(key: Seq<u8>, nonce: Seq<u8>, ct: Seq<u8>) -> Option<Seq<u8>>;

/// Relies on `chacha20poly1305`'s AEAD encryption (with no associated data):
/// a function of key, nonce and message that appends a 16-byte tag and that
/// the crate's own decryption inverts.  Encryption fails only when the
/// stream cipher's 32-bit block counter would overflow, at two to the 32nd
/// blocks of 64 bytes; the length bound stays well below that.
#[verifier::external_body]
pub(crate) fn chacha_encrypt(key: &[u8], nonce: &[u8], msg: &[u8]) -> (r: Vec<u8>)
    requires
        key@.len() == 32,
        nonce@.len() == 12,
        msg@.len() < 0x10_0000_0000,
    ensures
        r@ == chacha_enc_of(key@, nonce@, msg@),
        r@.len() == msg@.len() + 16,
        chacha_dec_of(key@, nonce@, r@) == Some(msg@),
{
    let cipher = <chacha20poly1305::ChaCha20Poly1305 as chacha20poly1305::KeyInit>::new(
        chacha20poly1305::Key::from_slice(key),
    );
    chacha20poly1305::aead::Aead::encrypt(
        &cipher,
        chacha20poly1305::Nonce::from_slice(nonce),
        msg,
    )
    .unwrap()
}

/// Relies on `chacha20poly1305`'s AEAD decryption (with no associated data):
/// a function of key, nonce and ciphertext that fails exactly when the
/// authentication tag does not match.
#[verifier::external_body]
pub(crate) fn chacha_decrypt(key: &[u8], nonce: &[u8], ct: &[u8]) -> (r: Option<Vec<u8>>)
    requires
        key@.len() == 32,
        nonce@.len() == 12,
    ensures
        r is Some <==> chacha_dec_of(key@, nonce@, ct@) is Some,
        r matches Some(m) ==> chacha_dec_of(key@, nonce@, ct@) == Some(m@),
{
    let cipher = <chacha20poly1305::ChaCha20Poly1305 as chacha20poly1305::KeyInit>::new(
        chacha20poly1305::Key::from_slice(key),
    );
    chacha20poly1305::aead::Aead::decrypt(
        &cipher,
        chacha20poly1305::Nonce::from_slice(nonce),
        ct,
    )
    .ok()
}

// ---------------------------------------------------------------------------
// Canonical serialization.
// ---------------------------------------------------------------------------

pub uninterp spec fn fr_ser_of(x: Fr) -> Seq<u8>;

pub uninterp spec fn fr_deser_of(bytes: Seq<u8>) -> Option<Fr>;

pub uninterp spec fn g1_ser_of(p: G1Affine) -> Seq<u8>;

pub uninterp spec fn g1_deser_of(bytes: Seq<u8>) -> Option<G1Affine>;

pub uninterp spec fn g2_ser_of(p: G2Affine) -> Seq<u8>;

pub uninterp spec fn g2_deser_of(bytes: Seq<u8>) -> Option<G2Affine>;

pub uninterp spec fn gt_ser_of(x: TargetField) -> Seq<u8>;

pub uninterp spec fn gt_deser_of(bytes: Seq<u8>) -> Option<TargetField>;

/// Relies on `ark_serialize`'s canonical uncompressed encoding of scalar
/// field elements: 32 bytes, inverted by the crate's own deserialization.
#[verifier::external_body]
pub(crate) fn fr_serialize(x: &Fr) -> (r: Vec<u8>)
    ensures
        r@ == fr_ser_of(*x),
        r@.len() == 32,
        fr_deser_of(r@) == Some(*x),
{
    let mut out = Vec::new();
    ark_serialize::CanonicalSerialize::serialize_uncompressed(&x.inner, &mut out).unwrap();
    out
}

/// Relies on `ark_serialize`'s canonical uncompressed decoding of scalar
/// field elements, with validation: a function of the bytes alone.
#[verifier::external_body]
pub(crate) fn fr_deserialize(bytes: &[u8]) -> (r: Option<Fr>)
    ensures
        r == fr_deser_of(bytes@),
{
    <ark_bls12_381::Fr as ark_serialize::CanonicalDeserialize>::deserialize_uncompressed(bytes)
        .ok()
        .map(|inner| Fr { inner })
}

/// Relies on `ark_serialize`'s canonical uncompressed encoding of affine G1
/// points: 96 bytes, inverted by the crate's own deserialization.
#[verifier::external_body]
pub(crate) fn g1_serialize(p: &G1Affine) -> (r: Vec<u8>)
    ensures
        r@ == g1_ser_of(*p),
        r@.len() == 96,
        g1_deser_of(r@) == Some(*p),
{
    let mut out = Vec::new();
    ark_serialize::CanonicalSerialize::serialize_uncompressed(&p.inner, &mut out).unwrap();
    out
}

/// Relies on `ark_serialize`'s canonical uncompressed decoding of affine G1
/// points, with this version's validation (the subgroup check): a function
/// of the bytes alone.
#[verifier::external_body]
pub(crate) fn g1_deserialize(bytes: &[u8]) -> (r: Option<G1Affine>)
    ensures
        r == g1_deser_of(bytes@),
{
    <ark_bls12_381::G1Affine as ark_serialize::CanonicalDeserialize>::deserialize_uncompressed(
        bytes,
    )
    .ok()
    .map(|inner| G1Affine { inner })
}

/// Relies on `ark_serialize`'s canonical uncompressed encoding of affine G2
/// points: 192 bytes, inverted by the crate's own deserialization.
#[verifier::external_body]
pub(crate) fn g2_serialize(p: &G2Affine) -> (r: Vec<u8>)
    ensures
        r@ == g2_ser_of(*p),
        r@.len() == 192,
        g2_deser_of(r@) == Some(*p),
{
    let mut out = Vec::new();
    ark_serialize::CanonicalSerialize::serialize_uncompressed(&p.inner, &mut out).unwrap();
    out
}

/// Relies on `ark_serialize`'s canonical uncompressed decoding of affine G2
/// points, with this version's validation (the subgroup check): a function
/// of the bytes alone.
#[verifier::external_body]
pub(crate) fn g2_deserialize(bytes: &[u8]) -> (r: Option<G2Affine>)
    ensures
        r == g2_deser_of(bytes@),
{
    <ark_bls12_381::G2Affine as ark_serialize::CanonicalDeserialize>::deserialize_uncompressed(
        bytes,
    )
    .ok()
    .map(|inner| G2Affine { inner })
}

/// Relies on `ark_serialize`'s canonical uncompressed encoding of the target
/// field: 576 bytes, inverted by the crate's own deserialization.
#[verifier::external_body]
pub(crate) fn gt_serialize(x: &TargetField) -> (r: Vec<u8>)
    ensures
        r@ == gt_ser_of(*x),
        r@.len() == 576,
        gt_deser_of(r@) == Some(*x),
{
    let mut out = Vec::new();
    ark_serialize::CanonicalSerialize::serialize_uncompressed(&x.inner, &mut out).unwrap();
    out
}

/// Relies on `ark_serialize`'s canonical uncompressed decoding of the target
/// field: a function of the bytes alone.
#[verifier::external_body]
pub(crate) fn gt_deserialize(bytes: &[u8]) -> (r: Option<TargetField>)
    ensures
        r == gt_deser_of(bytes@),
{
    <ark_bls12_381::Fq12 as ark_serialize::CanonicalDeserialize>::deserialize_uncompressed(bytes)
        .ok()
        .map(|inner| TargetField { inner })
}

// ---------------------------------------------------------------------------
// The public byte view of the opaque values.
// ---------------------------------------------------------------------------

impl Fr {
    /// The canonical 32-byte encoding of the scalar.
    pub fn to_bytes(&self) -> (r: Vec<u8>)
        ensures
            r@ == fr_ser_of(*self),
            r@.len() == 32,
            fr_deser_of(r@) == Some(*self),
    {
        fr_serialize(self)
    }

    /// Reads a scalar back from its canonical 32-byte encoding.
    pub fn from_bytes(bytes: &[u8]) -> (r: Option<Fr>)
        ensures
            r == fr_deser_of(bytes@),
    {
        fr_deserialize(bytes)
    }

    /// The canonical embedding of a small integer into the scalar field.
    pub fn from_u64(n: u64) -> (r: Fr)
        ensures
            r == fr_of_u64(n),
    {
        fr_from_u64(n)
    }

    /// A scalar drawn from the given random number generator.
    pub fn random(rng: &mut rand::rngs::StdRng) -> (r: Fr)
    {
        fr_random(rng)
    }
}

impl G1Affine {
    /// The canonical uncompressed 96-byte encoding of the point.
    pub fn to_bytes(&self) -> (r: Vec<u8>)
        ensures
            r@ == g1_ser_of(*self),
            r@.len() == 96,
            g1_deser_of(r@) == Some(*self),
    {
        g1_serialize(self)
    }

    /// Reads a point back from its canonical uncompressed encoding, with
    /// the curve library's validation.
    pub fn from_bytes(bytes: &[u8]) -> (r: Option<G1Affine>)
        ensures
            r == g1_deser_of(bytes@),
    {
        g1_deserialize(bytes)
    }
}

impl G2Affine {
    /// The canonical uncompressed 192-byte encoding of the point.
    pub fn to_bytes(&self) -> (r: Vec<u8>)
        ensures
            r@ == g2_ser_of(*self),
            r@.len() == 192,
            g2_deser_of(r@) == Some(*self),
    {
        g2_serialize(self)
    }

    /// Reads a point back from its canonical uncompressed encoding, with
    /// the curve library's validation.
    pub fn from_bytes(bytes: &[u8]) -> (r: Option<G2Affine>)
        ensures
            r == g2_deser_of(bytes@),
    {
        g2_deserialize(bytes)
    }
}

impl TargetField {
    /// The canonical uncompressed 576-byte encoding of the element.
    pub fn to_bytes(&self) -> (r: Vec<u8>)
        ensures
            r@ == gt_ser_of(*self),
            r@.len() == 576,
            gt_deser_of(r@) == Some(*self),
    {
        gt_serialize(self)
    }

    /// Reads an element back from its canonical uncompressed encoding.
    pub fn from_bytes(bytes: &[u8]) -> (r: Option<TargetField>)
        ensures
            r == gt_deser_of(bytes@),
    {
        gt_deserialize(bytes)
    }
}

} // verus!
