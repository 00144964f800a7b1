use ark_ec::{AffineRepr, CurveGroup};
use ark_serialize::{CanonicalDeserialize, CanonicalSerialize};
use ark_std::UniformRand;
use rand::rngs::StdRng;
use rand::SeedableRng;

use ferveo::curve::{Fr, G1Affine, G2Affine};
use ferveo::dkg::{assert_no_share_duplicates, DkgParams, PubliclyVerifiableDkg, Validator};
use ferveo::pvss::{aggregate, PubliclyVerifiableParams, PubliclyVerifiableSS, Unaggregated};
use ferveo::Error;

fn ark_bytes<T: CanonicalSerialize>(x: &T) -> Vec<u8> {
    let mut out = Vec::new();
    x.serialize_uncompressed(&mut out).unwrap();
    out
}

fn fr_to_lib(x: ark_bls12_381::Fr) -> Fr {
    Fr::from_bytes(&ark_bytes(&x)).unwrap()
}

fn g2_to_lib(p: ark_bls12_381::G2Affine) -> G2Affine {
    G2Affine::from_bytes(&ark_bytes(&p)).unwrap()
}

fn g1_bytes(p: &G1Affine) -> Vec<u8> {
    p.to_bytes()
}

fn gen_keypairs(n: u32) -> Vec<(ark_bls12_381::Fr, ark_bls12_381::G2Affine)> {
    let rng = &mut StdRng::seed_from_u64(42);
    (0..n)
        .map(|_| {
            let dk = ark_bls12_381::Fr::rand(rng);
            let ek = (ark_bls12_381::G2Affine::generator() * dk).into_affine();
            (dk, ek)
        })
        .collect()
}

fn gen_validators(keypairs: &[(ark_bls12_381::Fr, ark_bls12_381::G2Affine)]) -> Vec<Validator> {
    keypairs
        .iter()
        .enumerate()
        .map(|(i, (_, ek))| Validator { share_index: i as u32, encryption_key: g2_to_lib(*ek) })
        .collect()
}

fn setup_dkg(n: u32, t: u32) -> PubliclyVerifiableDkg {
    let keypairs = gen_keypairs(n);
    let validators = gen_validators(&keypairs);
    let params = DkgParams::new(0, t, n).unwrap();
    let me = validators[0];
    PubliclyVerifiableDkg::new(&validators, &params, &me).unwrap()
}

/// A dealt session: every validator's transcript is recorded in the
/// session, and the list of transcripts is returned beside it.
fn setup_dealt_dkg(n: u32, t: u32) -> (PubliclyVerifiableDkg, Vec<PubliclyVerifiableSS<Unaggregated>>) {
    let rng = &mut StdRng::seed_from_u64(7);
    let mut dkg = setup_dkg(n, t);
    let mut list = Vec::new();
    for _ in 0..n {
        let s = fr_to_lib(ark_bls12_381::Fr::rand(rng));
        let pvss: PubliclyVerifiableSS<Unaggregated> =
            PubliclyVerifiableSS::new(&s, &dkg, rng).unwrap();
        dkg.vss.push(pvss.clone());
        list.push(pvss);
    }
    (dkg, list)
}

#[test]
fn test_new_pvss() {
    let rng = &mut StdRng::seed_from_u64(1);
    let dkg = setup_dkg(4, 3);
    let s_ark = ark_bls12_381::Fr::rand(rng);
    let s = fr_to_lib(s_ark);
    let pvss: PubliclyVerifiableSS<Unaggregated> =
        PubliclyVerifiableSS::new(&s, &dkg, rng).expect("Test failed");

    // The chosen secret coefficient is committed in the first position.
    let expected_first = (ark_bls12_381::G1Affine::generator() * s_ark).into_affine();
    assert_eq!(g1_bytes(&pvss.coeffs[0]), ark_bytes(&expected_first));
    // A polynomial of the threshold's degree was created.
    assert_eq!(pvss.coeffs.len(), 3);
    // One share per validator was created.
    assert_eq!(pvss.shares.len(), 4);
    // The proof of knowledge is the secret times the G2 generator.
    let expected_sigma = (ark_bls12_381::G2Affine::generator() * s_ark).into_affine();
    assert_eq!(pvss.sigma.to_bytes(), ark_bytes(&expected_sigma));
    // Both verifications pass on an honest transcript.
    let params = PubliclyVerifiableParams::default();
    assert!(pvss.verify_optimistic(&params));
    assert!(pvss.verify_full(&dkg));
}

#[test]
fn test_verify_pvss_wrong_proof_of_knowledge() {
    let rng = &mut StdRng::seed_from_u64(2);
    let dkg = setup_dkg(4, 3);
    // A nonzero secret, so that the tampered proof cannot accidentally hold.
    let mut s_ark = ark_bls12_381::Fr::rand(rng);
    while s_ark == ark_bls12_381::Fr::from(0u64) {
        s_ark = ark_bls12_381::Fr::rand(rng);
    }
    let s = fr_to_lib(s_ark);
    let mut pvss: PubliclyVerifiableSS<Unaggregated> =
        PubliclyVerifiableSS::new(&s, &dkg, rng).expect("Test failed");

    pvss.sigma = g2_to_lib(ark_bls12_381::G2Affine::identity());
    let params = PubliclyVerifiableParams::default();
    assert!(!pvss.verify_optimistic(&params));
}

#[test]
fn test_verify_pvss_bad_shares() {
    let rng = &mut StdRng::seed_from_u64(3);
    let dkg = setup_dkg(4, 3);
    let s = fr_to_lib(ark_bls12_381::Fr::rand(rng));
    let pvss: PubliclyVerifiableSS<Unaggregated> =
        PubliclyVerifiableSS::new(&s, &dkg, rng).unwrap();

    // So far, everything works.
    let params = PubliclyVerifiableParams::default();
    assert!(pvss.verify_optimistic(&params));
    assert!(pvss.verify_full(&dkg));

    // Now, tamper with one of the dealt shares.
    let mut bad_pvss = pvss;
    bad_pvss.shares[0] = g2_to_lib(ark_bls12_381::G2Affine::identity());

    // The optimistic verification does not catch this issue.
    assert!(bad_pvss.verify_optimistic(&params));
    // The full verification does.
    assert!(!bad_pvss.verify_full(&dkg));
}

#[test]
fn test_canonical_share_indices_are_enforced() {
    let shares_num = 4;
    let security_threshold = shares_num - 1;
    let keypairs = gen_keypairs(shares_num);
    let mut validators = gen_validators(&keypairs);
    let me = validators[0];

    // The share indices are no longer unique.
    let duplicated_index = 0;
    validators.insert(duplicated_index, me);

    // And because of that the DKG must fail.
    let params = DkgParams::new(0, security_threshold, shares_num).unwrap();
    let result = PubliclyVerifiableDkg::new(&validators, &params, &me);
    assert!(result.is_err());
    let err = match result {
        Err(e) => e,
        Ok(_) => panic!("expected an error"),
    };
    assert_eq!(
        err.to_string(),
        Error::DuplicatedShareIndex(duplicated_index as u32).to_string()
    );
}

#[test]
fn test_aggregate_pvss() {
    let (dkg, pvss_list) = setup_dealt_dkg(4, 3);
    let aggregated = aggregate(&pvss_list).unwrap();
    // A polynomial of the threshold's degree was created.
    assert_eq!(aggregated.coeffs.len(), 3);
    // One share per validator was created.
    assert_eq!(aggregated.shares.len(), 4);
    // The optimistic verification passes.
    let params = PubliclyVerifiableParams::default();
    assert!(aggregated.verify_optimistic(&params));
    // The full verification passes.
    assert!(aggregated.verify_full(&dkg));
    // The aggregation check passes.
    assert!(aggregated.verify_aggregation(&dkg).expect("Test failed"));
}

#[test]
fn test_verify_aggregation_fails_if_constant_term_wrong() {
    let (dkg, pvss_list) = setup_dealt_dkg(4, 3);
    let mut aggregated = aggregate(&pvss_list).unwrap();
    aggregated.coeffs[0] = G1Affine::from_bytes(&ark_bytes(&ark_bls12_381::G1Affine::identity()))
        .unwrap();
    assert_eq!(
        aggregated.verify_aggregation(&dkg).expect_err("Test failed").to_string(),
        "Transcript aggregate doesn't match the received PVSS instances"
    );
}

#[test]
fn test_aggregate_of_empty_list_is_refused() {
    let empty: Vec<PubliclyVerifiableSS<Unaggregated>> = Vec::new();
    assert!(matches!(aggregate(&empty), Err(Error::NoTranscriptsToAggregate)));
}

#[test]
fn test_aggregate_sums_first_coefficients_and_sigmas() {
    let (_dkg, pvss_list) = setup_dealt_dkg(4, 3);
    let aggregated = aggregate(&pvss_list).unwrap();

    // The first commitment of the aggregate is the sum of the inputs'.
    let mut coeff_sum = ark_bls12_381::G1Projective::from(
        ark_bls12_381::G1Affine::deserialize_uncompressed(&g1_bytes(&pvss_list[0].coeffs[0])[..])
            .unwrap(),
    );
    let mut sigma_sum = ark_bls12_381::G2Projective::from(
        ark_bls12_381::G2Affine::deserialize_uncompressed(&pvss_list[0].sigma.to_bytes()[..])
            .unwrap(),
    );
    for pvss in pvss_list.iter().skip(1) {
        coeff_sum += ark_bls12_381::G1Affine::deserialize_uncompressed(
            &g1_bytes(&pvss.coeffs[0])[..],
        )
        .unwrap();
        sigma_sum += ark_bls12_381::G2Affine::deserialize_uncompressed(
            &pvss.sigma.to_bytes()[..],
        )
        .unwrap();
    }
    assert_eq!(g1_bytes(&aggregated.coeffs[0]), ark_bytes(&coeff_sum.into_affine()));
    assert_eq!(aggregated.sigma.to_bytes(), ark_bytes(&sigma_sum.into_affine()));
}

#[test]
fn test_dkg_rejects_out_of_place_share_index() {
    let keypairs = gen_keypairs(3);
    let mut validators = gen_validators(&keypairs);
    // Unique indices, but not in canonical order.
    validators[1].share_index = 2;
    validators[2].share_index = 1;
    let params = DkgParams::new(0, 2, 3).unwrap();
    let me = validators[0];
    let result = PubliclyVerifiableDkg::new(&validators, &params, &me);
    assert!(matches!(result, Err(Error::InvalidShareIndex(_))));
}

#[test]
fn test_dkg_rejects_wrong_validator_count() {
    let keypairs = gen_keypairs(3);
    let validators = gen_validators(&keypairs);
    let params = DkgParams::new(0, 3, 4).unwrap();
    let me = validators[0];
    let result = PubliclyVerifiableDkg::new(&validators, &params, &me);
    assert!(matches!(result, Err(Error::InsufficientValidators(3, 4))));
}

#[test]
fn test_dkg_params_reject_bad_threshold() {
    assert!(matches!(DkgParams::new(0, 0, 4), Err(Error::InvalidThreshold)));
    assert!(matches!(DkgParams::new(0, 5, 4), Err(Error::InvalidThreshold)));
    assert!(DkgParams::new(0, 4, 4).is_ok());
}

#[test]
fn test_dealing_works_off_the_power_of_two_sizes() {
    // Five validators need a domain of eight points; the transcript still
    // deals one share per validator and verifies in full.
    let rng = &mut StdRng::seed_from_u64(5);
    let dkg = setup_dkg(5, 3);
    let s = fr_to_lib(ark_bls12_381::Fr::rand(rng));
    let pvss: PubliclyVerifiableSS<Unaggregated> =
        PubliclyVerifiableSS::new(&s, &dkg, rng).unwrap();
    assert_eq!(pvss.shares.len(), 5);
    assert!(pvss.verify_full(&dkg));
}

#[test]
fn test_duplicate_detection_names_the_first_repeated_index() {
    let keypairs = gen_keypairs(4);
    let mut validators = gen_validators(&keypairs);
    assert!(assert_no_share_duplicates(&validators).is_ok());
    validators[3].share_index = 1;
    assert!(matches!(
        assert_no_share_duplicates(&validators),
        Err(Error::DuplicatedShareIndex(1))
    ));
}

#[test]
fn test_secret_polynomial_can_be_wiped() {
    let rng = &mut StdRng::seed_from_u64(9);
    let s = fr_to_lib(ark_bls12_381::Fr::rand(rng));
    let mut poly = ferveo::pvss::SecretPolynomial::new(&s, 3, rng);
    poly.zeroize();
    assert_eq!(poly.0.len(), 4);
    let zero_bytes = Fr::from_u64(0).to_bytes();
    for c in poly.0.iter() {
        assert_eq!(c.to_bytes(), zero_bytes);
    }
}
