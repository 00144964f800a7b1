use ark_serialize::CanonicalSerialize;

use rand::rngs::StdRng;
use rand::SeedableRng;

use ferveo::combine::prepare_combine_simple;
use ferveo::curve::Fr;
use ferveo::poly::poly_eval;
use ferveo::refresh::make_random_polynomial_with_root;
use ferveo::Error;

fn ark_bytes<T: CanonicalSerialize>(x: &T) -> Vec<u8> {
    let mut out = Vec::new();
    x.serialize_uncompressed(&mut out).unwrap();
    out
}

#[test]
fn error_description_for_invalid_threshold() {
    let e = Error::InvalidThreshold;
    assert_eq!(
        e.to_string(),
        "The security threshold does not fit the number of shares"
    );
}

#[test]
fn error_descriptions_name_the_offending_values() {
    assert_eq!(
        Error::InsufficientValidators(3, 4).to_string(),
        "Insufficient validators: 3 of 4"
    );
    assert_eq!(
        Error::DuplicatedShareIndex(12).to_string(),
        "Duplicated share index: 12"
    );
    assert_eq!(Error::InvalidShareIndex(0).to_string(), "Invalid share index: 0");
    assert_eq!(
        Error::NoTranscriptsToAggregate.to_string(),
        "No transcripts to aggregate"
    );
    assert_eq!(
        Error::InvalidTranscriptAggregate.to_string(),
        "Transcript aggregate doesn't match the received PVSS instances"
    );
    assert_eq!(
        Error::CiphertextVerificationFailed.to_string(),
        "Ciphertext verification failed"
    );
    assert_eq!(
        Error::DecryptionShareVerificationFailed.to_string(),
        "Decryption share verification failed"
    );
    assert_eq!(
        Error::DuplicatedShareIndex(1048576).to_string(),
        "Duplicated share index: 1048576"
    );
}

#[test]
fn polynomial_evaluation_matches_the_formula() {
    // 1 + 2x + 3x^2 at x = 2 is 17.
    let coeffs = vec![Fr::from_u64(1), Fr::from_u64(2), Fr::from_u64(3)];
    let x = Fr::from_u64(2);
    let value = poly_eval(&coeffs, &x);
    assert_eq!(value.to_bytes(), ark_bytes(&ark_bls12_381::Fr::from(17u64)));
}

#[test]
fn lagrange_coefficients_at_zero_match_the_formula() {
    // Over the points {1, 2}, the weights at zero are 2 and -1.
    let points = vec![Fr::from_u64(1), Fr::from_u64(2)];
    let weights = prepare_combine_simple(&points);
    assert_eq!(weights.len(), 2);
    assert_eq!(weights[0].to_bytes(), ark_bytes(&ark_bls12_381::Fr::from(2u64)));
    assert_eq!(
        weights[1].to_bytes(),
        ark_bytes(&(-ark_bls12_381::Fr::from(1u64)))
    );
}

#[test]
fn scalar_byte_encoding_round_trips() {
    let x = Fr::from_u64(123456789);
    let bytes = x.to_bytes();
    assert_eq!(bytes.len(), 32);
    let back = Fr::from_bytes(&bytes).unwrap();
    assert_eq!(back.to_bytes(), bytes);
    // The canonical encoding is little endian.
    assert_eq!(bytes[0], 0x15);
    assert_eq!(bytes[1], 0xcd);
    assert_eq!(bytes[2], 0x5b);
    assert_eq!(bytes[3], 0x07);
}

#[test]
fn update_polynomial_vanishes_at_its_root() {
    let rng = &mut StdRng::seed_from_u64(40);
    let root = Fr::from_u64(37);
    let poly = make_random_polynomial_with_root(5, &root, rng);
    assert_eq!(poly.0.len(), 6);
    let at_root = poly_eval(&poly.0, &root);
    assert_eq!(at_root.to_bytes(), Fr::from_u64(0).to_bytes());
    // Away from the root the polynomial is almost surely nonzero.
    let elsewhere = poly_eval(&poly.0, &Fr::from_u64(38));
    assert_ne!(elsewhere.to_bytes(), Fr::from_u64(0).to_bytes());
}
