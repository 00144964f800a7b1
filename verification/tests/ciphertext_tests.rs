use ark_ec::{AffineRepr, CurveGroup};
use ark_serialize::CanonicalSerialize;
use ark_std::UniformRand;
use rand::rngs::StdRng;
use rand::SeedableRng;

use ferveo::ciphertext::{
    check_ciphertext_validity, decrypt_symmetric, encrypt, shared_secret_to_chacha, Ciphertext,
};
use ferveo::curve::{G1Affine, G2Affine, TargetField};
use ferveo::pvss::PubliclyVerifiableParams;

fn ark_bytes<T: CanonicalSerialize>(x: &T) -> Vec<u8> {
    let mut out = Vec::new();
    x.serialize_uncompressed(&mut out).unwrap();
    out
}

fn g1_to_lib(p: ark_bls12_381::G1Affine) -> G1Affine {
    G1Affine::from_bytes(&ark_bytes(&p)).unwrap()
}

fn g2_to_lib(p: ark_bls12_381::G2Affine) -> G2Affine {
    G2Affine::from_bytes(&ark_bytes(&p)).unwrap()
}

/// A plain key pair: `(pubkey, privkey) = (a·g, a·h)`.
fn keypair(seed: u64) -> (G1Affine, G2Affine) {
    let rng = &mut StdRng::seed_from_u64(seed);
    let a = ark_bls12_381::Fr::rand(rng);
    let pubkey = (ark_bls12_381::G1Affine::generator() * a).into_affine();
    let privkey = (ark_bls12_381::G2Affine::generator() * a).into_affine();
    (g1_to_lib(pubkey), g2_to_lib(privkey))
}

#[test]
fn ciphertext_serialization() {
    let rng = &mut StdRng::seed_from_u64(10);
    let msg: &[u8] = "abc".as_bytes();
    let aad: &[u8] = "my-aad".as_bytes();
    let (pubkey, _) = keypair(11);
    let params = PubliclyVerifiableParams::default();

    let ciphertext = encrypt(msg, aad, &pubkey, &params, rng);
    let deserialized: Ciphertext = Ciphertext::from_bytes(&ciphertext.to_bytes()).unwrap();

    assert_eq!(ciphertext.to_bytes(), deserialized.to_bytes());
    assert_eq!(ciphertext.ciphertext, deserialized.ciphertext);
    assert_eq!(ciphertext.commitment.to_bytes(), deserialized.commitment.to_bytes());
}

#[test]
fn symmetric_encryption() {
    let rng = &mut StdRng::seed_from_u64(12);
    let msg: &[u8] = "abc".as_bytes();
    let aad: &[u8] = "my-aad".as_bytes();
    let (pubkey, privkey) = keypair(13);
    let params = PubliclyVerifiableParams::default();
    let g_inv = params.g_inv();

    let ciphertext = encrypt(msg, aad, &pubkey, &params, rng);
    let plaintext = decrypt_symmetric(&ciphertext, aad, &privkey, &g_inv).unwrap();

    assert_eq!(msg, &plaintext[..]);
}

#[test]
fn ciphertext_validity_check() {
    let rng = &mut StdRng::seed_from_u64(14);
    let msg: &[u8] = "abc".as_bytes();
    let aad: &[u8] = "my-aad".as_bytes();
    let (pubkey, _) = keypair(15);
    let params = PubliclyVerifiableParams::default();
    let g_inv = params.g_inv();
    let mut ciphertext = encrypt(msg, aad, &pubkey, &params, rng);

    // So far, the ciphertext is valid.
    assert!(check_ciphertext_validity(&ciphertext, aad, &g_inv).is_ok());

    // Malformed the ciphertext.
    ciphertext.ciphertext[0] += 1;
    assert!(check_ciphertext_validity(&ciphertext, aad, &g_inv).is_err());

    // Malformed the AAD.
    let aad = "bad aad".as_bytes();
    assert!(check_ciphertext_validity(&ciphertext, aad, &g_inv).is_err());
}

#[test]
fn single_bit_flip_in_payload_is_rejected() {
    let rng = &mut StdRng::seed_from_u64(16);
    let msg: &[u8] = "a longer message with several blocks of content".as_bytes();
    let aad: &[u8] = "my-aad".as_bytes();
    let (pubkey, _) = keypair(17);
    let params = PubliclyVerifiableParams::default();
    let g_inv = params.g_inv();
    let ciphertext = encrypt(msg, aad, &pubkey, &params, rng);

    for bit in [0usize, 7, 13] {
        let mut tampered = ciphertext.clone();
        let byte = bit / 8;
        tampered.ciphertext[byte] ^= 1 << (bit % 8);
        assert!(check_ciphertext_validity(&tampered, aad, &g_inv).is_err());
    }
    // Any change to the associated data is rejected too.
    assert!(check_ciphertext_validity(&ciphertext, "my-aae".as_bytes(), &g_inv).is_err());
}

#[test]
fn header_check_binds_no_associated_data() {
    let rng = &mut StdRng::seed_from_u64(21);
    let (pubkey, _) = keypair(22);
    let params = PubliclyVerifiableParams::default();
    let g_inv = params.g_inv();

    // A ciphertext with no associated data passes the header-only check.
    let plain = encrypt("abc".as_bytes(), "".as_bytes(), &pubkey, &params, rng);
    assert!(plain.check(&g_inv));

    // One whose tag binds associated data does not.
    let bound = encrypt("abc".as_bytes(), "my-aad".as_bytes(), &pubkey, &params, rng);
    assert!(!bound.check(&g_inv));
}

#[test]
fn shared_secret_key_derivation_is_stable() {
    let rng = &mut StdRng::seed_from_u64(18);
    let x = ark_bls12_381::Fq12::rand(rng);
    let lib_x = TargetField::from_bytes(&ark_bytes(&x)).unwrap();
    let key1 = shared_secret_to_chacha(&lib_x);
    let key2 = shared_secret_to_chacha(&lib_x);
    assert_eq!(key1, key2);
    assert_eq!(key1.len(), 32);
    // The key is the digest of the canonical encoding, not the encoding.
    assert_ne!(&key1[..], &ark_bytes(&x)[..32]);
}

#[test]
fn corrupted_ciphertext_bytes_are_refused() {
    let rng = &mut StdRng::seed_from_u64(19);
    let (pubkey, _) = keypair(20);
    let params = PubliclyVerifiableParams::default();
    let ciphertext = encrypt("abc".as_bytes(), "my-aad".as_bytes(), &pubkey, &params, rng);

    let bytes = ciphertext.to_bytes();
    // Too short to hold both points.
    assert!(Ciphertext::from_bytes(&bytes[..100]).is_none());
    // A commitment that is not a valid curve point.
    let mut bad = bytes.clone();
    bad[0] ^= 0xff;
    assert!(Ciphertext::from_bytes(&bad).is_none());
}

#[test]
fn serialized_length_matches_the_encoding() {
    let rng = &mut StdRng::seed_from_u64(23);
    let (pubkey, _) = keypair(24);
    let params = PubliclyVerifiableParams::default();
    let ciphertext = encrypt("abcdef".as_bytes(), "my-aad".as_bytes(), &pubkey, &params, rng);
    assert_eq!(ciphertext.serialized_length(), ciphertext.to_bytes().len());
}

#[test]
fn wrong_shared_secret_fails_to_decrypt() {
    let rng = &mut StdRng::seed_from_u64(25);
    let (pubkey, _) = keypair(26);
    let params = PubliclyVerifiableParams::default();
    let g_inv = params.g_inv();
    let ciphertext = encrypt("abc".as_bytes(), "my-aad".as_bytes(), &pubkey, &params, rng);

    let wrong = TargetField::from_bytes(&ark_bytes(&ark_bls12_381::Fq12::rand(rng))).unwrap();
    let result = ferveo::ciphertext::decrypt_with_shared_secret(
        &ciphertext,
        "my-aad".as_bytes(),
        &wrong,
        &g_inv,
    );
    assert!(matches!(result, Err(ferveo::Error::CiphertextVerificationFailed)));
}
