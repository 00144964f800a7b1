use ark_ec::{AffineRepr, CurveGroup};
use ark_serialize::CanonicalSerialize;
use ark_std::UniformRand;
use rand::rngs::StdRng;
use rand::SeedableRng;

use ferveo::ciphertext::encrypt;
use ferveo::curve::{Fr, G1Affine, G2Affine, TargetField};
use ferveo::decryption::{
    verify_decryption_shares_simple, BlindedKeyShare, DecryptionShareFast, DecryptionShareSimple,
    DecryptionShareSimplePrecomputed, PrivateKeyShare, PublicDecryptionContextSimple,
    ValidatorShareChecksum,
};
use ferveo::pvss::PubliclyVerifiableParams;
use ferveo::Error;

fn ark_bytes<T: CanonicalSerialize>(x: &T) -> Vec<u8> {
    let mut out = Vec::new();
    x.serialize_uncompressed(&mut out).unwrap();
    out
}

fn fr_to_lib(x: ark_bls12_381::Fr) -> Fr {
    Fr::from_bytes(&ark_bytes(&x)).unwrap()
}

fn g2_to_lib(p: ark_bls12_381::G2Affine) -> G2Affine {
    G2Affine::from_bytes(&ark_bytes(&p)).unwrap()
}

fn gt_to_lib(x: ark_bls12_381::Fq12) -> TargetField {
    TargetField::from_bytes(&ark_bytes(&x)).unwrap()
}

#[test]
fn decryption_share_serialization() {
    let decryption_share = DecryptionShareFast {
        decrypter_index: 1,
        decryption_share: G1Affine::from_bytes(&ark_bytes(
            &ark_bls12_381::G1Affine::generator(),
        ))
        .unwrap(),
    };

    let serialized = decryption_share.to_bytes();
    let deserialized: DecryptionShareFast =
        DecryptionShareFast::from_bytes(&serialized).unwrap();
    assert_eq!(serialized, deserialized.to_bytes());
    assert_eq!(deserialized.decrypter_index, 1);
}

#[test]
fn simple_share_serialization_roundtrip() {
    let rng = &mut StdRng::seed_from_u64(30);
    let share = DecryptionShareSimple {
        decrypter_index: 5,
        decryption_share: gt_to_lib(ark_bls12_381::Fq12::rand(rng)),
        validator_checksum: ValidatorShareChecksum {
            checksum: G1Affine::from_bytes(&ark_bytes(
                &(ark_bls12_381::G1Affine::generator() * ark_bls12_381::Fr::rand(rng))
                    .into_affine(),
            ))
            .unwrap(),
        },
    };
    let serialized = share.to_bytes();
    let deserialized = DecryptionShareSimple::from_bytes(&serialized).unwrap();
    assert_eq!(serialized, deserialized.to_bytes());
    assert_eq!(deserialized.decrypter_index, 5);

    // A truncated encoding is refused.
    assert!(DecryptionShareSimple::from_bytes(&serialized[..100]).is_none());
}

#[test]
fn precomputed_share_serialization_roundtrip() {
    let rng = &mut StdRng::seed_from_u64(31);
    let share = DecryptionShareSimplePrecomputed {
        decrypter_index: 7,
        decryption_share: gt_to_lib(ark_bls12_381::Fq12::rand(rng)),
        validator_checksum: ValidatorShareChecksum {
            checksum: G1Affine::from_bytes(&ark_bytes(
                &(ark_bls12_381::G1Affine::generator() * ark_bls12_381::Fr::rand(rng))
                    .into_affine(),
            ))
            .unwrap(),
        },
    };
    let serialized = share.to_bytes();
    let deserialized = DecryptionShareSimplePrecomputed::from_bytes(&serialized).unwrap();
    assert_eq!(serialized, deserialized.to_bytes());
    assert_eq!(deserialized.decrypter_index, 7);
}

#[test]
fn checksum_serialization_roundtrip() {
    let rng = &mut StdRng::seed_from_u64(32);
    let checksum = ValidatorShareChecksum {
        checksum: G1Affine::from_bytes(&ark_bytes(
            &(ark_bls12_381::G1Affine::generator() * ark_bls12_381::Fr::rand(rng)).into_affine(),
        ))
        .unwrap(),
    };
    let serialized = checksum.to_bytes();
    let deserialized = ValidatorShareChecksum::from_bytes(&serialized).unwrap();
    assert_eq!(serialized, deserialized.to_bytes());
}

#[test]
fn tampered_decryption_share_fails_verification() {
    let rng = &mut StdRng::seed_from_u64(33);
    let params = PubliclyVerifiableParams::default();
    let g_inv = params.g_inv();
    let aad: &[u8] = "my-aad".as_bytes();

    // A single holder: the share aggregate is its own encrypted share.
    let dk = ark_bls12_381::Fr::rand(rng);
    let phi0 = ark_bls12_381::Fr::rand(rng);
    let y = (ark_bls12_381::G2Affine::generator() * (dk * phi0)).into_affine();
    let z = PrivateKeyShare {
        private_key_share: g2_to_lib(
            (ark_bls12_381::G2Affine::generator() * phi0).into_affine(),
        ),
    };
    let validator_pk = g2_to_lib((ark_bls12_381::G2Affine::generator() * dk).into_affine());
    let pubkey = ferveo::curve::G1Affine::from_bytes(&ark_bytes(
        &(ark_bls12_381::G1Affine::generator() * phi0).into_affine(),
    ))
    .unwrap();
    let ciphertext = encrypt("abc".as_bytes(), aad, &pubkey, &params, rng);

    let share = DecryptionShareSimple::create(
        0,
        &fr_to_lib(dk),
        &z,
        &ciphertext,
        aad,
        &g_inv,
    )
    .unwrap();

    // The honest share verifies against the matching aggregate entry.
    assert!(share.verify(&g2_to_lib(y), &validator_pk, &params.h, &ciphertext));

    // A tampered pairing value does not.
    let mut bad = share;
    bad.decryption_share = gt_to_lib(ark_bls12_381::Fq12::rand(rng));
    assert!(!bad.verify(&g2_to_lib(y), &validator_pk, &params.h, &ciphertext));

    // Nor does an honest share against the wrong validator key.
    let wrong_pk = g2_to_lib(
        (ark_bls12_381::G2Affine::generator() * ark_bls12_381::Fr::rand(rng)).into_affine(),
    );
    assert!(!share.verify(&g2_to_lib(y), &wrong_pk, &params.h, &ciphertext));
}

#[test]
fn out_of_range_share_index_is_refused() {
    let rng = &mut StdRng::seed_from_u64(34);
    let params = PubliclyVerifiableParams::default();
    let g_inv = params.g_inv();
    let dk = fr_to_lib(ark_bls12_381::Fr::rand(rng));

    // An aggregated transcript with two shares.
    let mut transcript: ferveo::pvss::AggregatedPvss = ferveo::pvss::AggregatedPvss {
        coeffs: Vec::new(),
        shares: Vec::new(),
        sigma: params.h,
        phantom: core::marker::PhantomData,
    };
    transcript.shares.push(params.h);
    transcript.shares.push(params.h);

    let result = transcript.decrypt_private_key_share(&dk, 5);
    assert!(matches!(result, Err(Error::InvalidShareIndex(5))));

    let pubkey = params.g;
    let ciphertext = encrypt("abc".as_bytes(), "aad".as_bytes(), &pubkey, &params, rng);
    let share_result =
        transcript.make_decryption_share_simple(&ciphertext, "aad".as_bytes(), &dk, 9, &g_inv);
    assert!(matches!(share_result, Err(Error::InvalidShareIndex(9))));
}

#[test]
fn fast_share_index_is_encoded_little_endian() {
    let share = DecryptionShareFast {
        decrypter_index: 258,
        decryption_share: G1Affine::from_bytes(&ark_bytes(
            &ark_bls12_381::G1Affine::generator(),
        ))
        .unwrap(),
    };
    let bytes = share.to_bytes();
    assert_eq!(bytes.len(), 104);
    assert_eq!(&bytes[..8], &[2, 1, 0, 0, 0, 0, 0, 0]);
}

#[test]
fn verify_decryption_shares_simple_accepts_honest_and_rejects_tampered() {
    let rng = &mut StdRng::seed_from_u64(35);
    let params = PubliclyVerifiableParams::default();
    let g_inv = params.g_inv();
    let aad: &[u8] = "my-aad".as_bytes();

    // Two holders of a shared polynomial's evaluations.
    let dks: Vec<ark_bls12_381::Fr> =
        (0..2).map(|_| ark_bls12_381::Fr::rand(rng)).collect();
    let evals: Vec<ark_bls12_381::Fr> =
        (0..2).map(|_| ark_bls12_381::Fr::rand(rng)).collect();
    let h = ark_bls12_381::G2Affine::generator();
    let pubkey = ferveo::curve::G1Affine::from_bytes(&ark_bytes(
        &ark_bls12_381::G1Affine::generator(),
    ))
    .unwrap();
    let ciphertext = encrypt("abc".as_bytes(), aad, &pubkey, &params, rng);

    let mut shares = Vec::new();
    let mut contexts = Vec::new();
    for i in 0..2 {
        let z = PrivateKeyShare { private_key_share: g2_to_lib((h * evals[i]).into_affine()) };
        let y = (h * (dks[i] * evals[i])).into_affine();
        shares.push(
            DecryptionShareSimple::create(i, &fr_to_lib(dks[i]), &z, &ciphertext, aad, &g_inv)
                .unwrap(),
        );
        contexts.push(PublicDecryptionContextSimple {
            domain: fr_to_lib(ark_bls12_381::Fr::rand(rng)),
            blinded_key_share: BlindedKeyShare {
                blinding_key: g2_to_lib((h * dks[i]).into_affine()),
                blinded_key_share: g2_to_lib(y),
            },
            h: params.h,
            validator_public_key: g2_to_lib((h * dks[i]).into_affine()),
        });
    }
    assert!(verify_decryption_shares_simple(&contexts, &ciphertext, &shares));

    // A tampered share value is caught.
    shares[1].decryption_share = gt_to_lib(ark_bls12_381::Fq12::rand(rng));
    assert!(!verify_decryption_shares_simple(&contexts, &ciphertext, &shares));
}

#[test]
fn recovery_updates_are_applied_to_the_decrypted_share() {
    let rng = &mut StdRng::seed_from_u64(36);
    let params = PubliclyVerifiableParams::default();
    let dk = ark_bls12_381::Fr::rand(rng);
    let eval = ark_bls12_381::Fr::rand(rng);
    let h = ark_bls12_381::G2Affine::generator();

    // One encrypted share and two update contributions.
    let mut transcript: ferveo::pvss::AggregatedPvss = ferveo::pvss::AggregatedPvss {
        coeffs: Vec::new(),
        shares: Vec::new(),
        sigma: params.h,
        phantom: core::marker::PhantomData,
    };
    transcript.shares.push(g2_to_lib((h * (dk * eval)).into_affine()));
    let d1 = ark_bls12_381::Fr::rand(rng);
    let d2 = ark_bls12_381::Fr::rand(rng);
    let updates = vec![
        g2_to_lib((h * d1).into_affine()),
        g2_to_lib((h * d2).into_affine()),
    ];

    let updated = transcript
        .update_private_key_share_for_recovery(&fr_to_lib(dk), 0, &updates)
        .unwrap();
    let expected = (h * (eval + d1 + d2)).into_affine();
    assert_eq!(updated.private_key_share.to_bytes(), ark_bytes(&expected));
}

#[test]
fn corrupted_share_bytes_are_refused() {
    let rng = &mut StdRng::seed_from_u64(37);
    let share = DecryptionShareFast {
        decrypter_index: 3,
        decryption_share: G1Affine::from_bytes(&ark_bytes(
            &(ark_bls12_381::G1Affine::generator() * ark_bls12_381::Fr::rand(rng))
                .into_affine(),
        ))
        .unwrap(),
    };
    let bytes = share.to_bytes();
    // The honest encoding round-trips.
    assert!(DecryptionShareFast::from_bytes(&bytes).is_some());
    // A corrupted point is refused.
    let mut bad = bytes.clone();
    bad[8] ^= 0xff;
    assert!(DecryptionShareFast::from_bytes(&bad).is_none());
    // A wrong length is refused.
    assert!(DecryptionShareFast::from_bytes(&bytes[..100]).is_none());
}
