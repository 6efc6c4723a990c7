use blstrs::{G1Projective, Scalar};
use group::Group;
use zk_interval::constants::{decompress, sk_to_g1, DecodeError};
use zk_interval::schnorr::{
    challenge_scalar, create_schnorr_proof, create_schnorr_proof_with_nonce,
    fiat_shamir_challenge, fiat_shamir_heuristic, prove_schnorr, random_scalar,
    try_create_schnorr_proof, try_fiat_shamir_heuristic, try_prove_schnorr,
};

const G_UPPER: &str = "97F1D3A73197D7942695638C4FA9AC0FC3688C4F9774B905A14E3A3F171BAC586C55E83FF97A1AEFFB3AF00ADB22C6BB";
const VECTOR_COMMITMENT: &str = "86f0c64bd433568dd92751f0bee97feaaeee6f3c2144b210be68d2bc85253b1994703caf7f8361ccf246fef52c0ad859";
const VECTOR_GENERATOR: &str = "97f1d3a73197d7942695638c4fa9ac0fc3688c4f9774b905a14e3a3f171bac586c55e83ff97a1aeffb3af00adb22c6bb";
const VECTOR_PUBLIC: &str = "a2cbc5c3c72a7bc9047971345df392a67279d2f32082891976d913c699885c3ff9a90a8ea942bef4729cf93f526521e4";
const VECTOR_CHALLENGE: &str = "c4f2937e8317aee04a17b6ea65b2e3706aabd75dd2ebce5e6c8744ed";

/// The number that hex text stands for, built digit by digit in the field.
fn scalar_of_hex(text: &str) -> Scalar {
    let mut acc = Scalar::from(0u64);
    for c in text.chars() {
        acc = acc * Scalar::from(16u64) + Scalar::from(c.to_digit(16).unwrap() as u64);
    }
    acc
}

#[test]
fn test_empty_fiat_shamir_heuristic() {
    assert_eq!(
        fiat_shamir_heuristic("".to_string(), "".to_string(), "".to_string()),
        "836cc68931c2e4e3e838602eca1902591d216837bafddfe6f0c8cb07"
    )
}

#[test]
fn test_real_fiat_shamir_heuristic() {
    assert_eq!(fiat_shamir_heuristic(
    "86f0c64bd433568dd92751f0bee97feaaeee6f3c2144b210be68d2bc85253b1994703caf7f8361ccf246fef52c0ad859".to_string(),
    "97f1d3a73197d7942695638c4fa9ac0fc3688c4f9774b905a14e3a3f171bac586c55e83ff97a1aeffb3af00adb22c6bb".to_string(),
    "a2cbc5c3c72a7bc9047971345df392a67279d2f32082891976d913c699885c3ff9a90a8ea942bef4729cf93f526521e4".to_string(),
  ), "c4f2937e8317aee04a17b6ea65b2e3706aabd75dd2ebce5e6c8744ed")
}

#[test]
fn valid_schnorr_proof() {
    let generator = "97F1D3A73197D7942695638C4FA9AC0FC3688C4F9774B905A14E3A3F171BAC586C55E83FF97A1AEFFB3AF00ADB22C6BB";
    let sk = random_scalar();
    let public_value = sk_to_g1(generator, sk);
    let (z_b, g_r_b) = create_schnorr_proof(generator.to_string(), public_value.clone(), sk);
    assert!(prove_schnorr(generator, &public_value, &z_b, &g_r_b))
}

#[test]
fn valid_endpoint_proof() {
    let generator = "97F1D3A73197D7942695638C4FA9AC0FC3688C4F9774B905A14E3A3F171BAC586C55E83FF97A1AEFFB3AF00ADB22C6BB";
    let sk = Scalar::from(0u64);
    let public_value = sk_to_g1(generator, sk);
    let (z_b, g_r_b) = create_schnorr_proof(generator.to_string(), public_value.clone(), sk);
    assert!(prove_schnorr(generator, &public_value, &z_b, &g_r_b))
}

#[test]
fn fiat_shamir_is_deterministic() {
    let once = fiat_shamir_heuristic(
        VECTOR_COMMITMENT.to_string(),
        VECTOR_GENERATOR.to_string(),
        VECTOR_PUBLIC.to_string(),
    );
    let again = fiat_shamir_heuristic(
        VECTOR_COMMITMENT.to_string(),
        VECTOR_GENERATOR.to_string(),
        VECTOR_PUBLIC.to_string(),
    );
    assert_eq!(once, again);
    assert_eq!(once.len(), 56);
}

#[test]
fn fiat_shamir_reads_either_case() {
    assert_eq!(
        fiat_shamir_heuristic(
            VECTOR_COMMITMENT.to_uppercase(),
            VECTOR_GENERATOR.to_uppercase(),
            VECTOR_PUBLIC.to_uppercase(),
        ),
        VECTOR_CHALLENGE
    );
}

#[test]
fn fiat_shamir_hashes_the_texts_in_order() {
    let swapped = fiat_shamir_heuristic(
        VECTOR_GENERATOR.to_string(),
        VECTOR_COMMITMENT.to_string(),
        VECTOR_PUBLIC.to_string(),
    );
    assert_ne!(swapped, VECTOR_CHALLENGE);
}

#[test]
fn fiat_shamir_hashes_the_texts_put_together() {
    // Only the concatenation counts, not where one text ends.
    let whole = format!("{}{}{}", VECTOR_COMMITMENT, VECTOR_GENERATOR, VECTOR_PUBLIC);
    assert_eq!(
        fiat_shamir_heuristic(whole.clone(), "".to_string(), "".to_string()),
        VECTOR_CHALLENGE
    );
    assert_eq!(
        fiat_shamir_heuristic(whole[..1].to_string(), whole[1..3].to_string(), whole[3..].to_string()),
        VECTOR_CHALLENGE
    );
}

#[test]
fn fiat_shamir_of_one_zero_byte() {
    // BLAKE2b-224 of the single byte 0x00.
    assert_eq!(
        fiat_shamir_heuristic("00".to_string(), "".to_string(), "".to_string()),
        "0d94e174732ef9aae73f395ab44507bfa983d65023c11a951f0c32e4"
    );
}

#[test]
fn try_fiat_shamir_agrees_and_rejects() {
    assert_eq!(
        try_fiat_shamir_heuristic(VECTOR_COMMITMENT, VECTOR_GENERATOR, VECTOR_PUBLIC),
        Ok(VECTOR_CHALLENGE.to_string())
    );
    assert_eq!(
        try_fiat_shamir_heuristic("", "", ""),
        Ok("836cc68931c2e4e3e838602eca1902591d216837bafddfe6f0c8cb07".to_string())
    );
    assert_eq!(try_fiat_shamir_heuristic("a", "", ""), Err(DecodeError::InvalidHex));
    assert_eq!(try_fiat_shamir_heuristic("ab", "cd", "eg"), Err(DecodeError::InvalidHex));
    assert_eq!(try_fiat_shamir_heuristic("ab", "c", "def"), Ok(
        fiat_shamir_heuristic("abcdef".to_string(), "".to_string(), "".to_string())
    ));
}

#[test]
fn challenge_scalar_reads_the_digest_big_endian() {
    let mut digest = [0u8; 28];
    digest[27] = 1;
    assert_eq!(challenge_scalar(&digest), Scalar::from(1u64));
    digest[26] = 1;
    assert_eq!(challenge_scalar(&digest), Scalar::from(257u64));
    let mut top = [0u8; 28];
    top[0] = 0x80;
    // 2^223
    let mut expected = Scalar::from(1u64);
    for _ in 0..223 {
        expected = expected + expected;
    }
    assert_eq!(challenge_scalar(&top), expected);
    assert_eq!(challenge_scalar(&[0u8; 28]), Scalar::from(0u64));
}

#[test]
fn challenge_scalar_of_the_largest_digest() {
    // 2^224 - 1
    let mut expected = Scalar::from(1u64);
    for _ in 0..224 {
        expected = expected + expected;
    }
    expected = expected - Scalar::from(1u64);
    assert_eq!(challenge_scalar(&[0xffu8; 28]), expected);
}

#[test]
fn challenge_is_the_number_of_the_challenge_text() {
    let c = fiat_shamir_challenge(VECTOR_COMMITMENT, VECTOR_GENERATOR, VECTOR_PUBLIC);
    assert_eq!(c, scalar_of_hex(VECTOR_CHALLENGE));
    let empty = fiat_shamir_challenge("", "", "");
    assert_eq!(
        empty,
        scalar_of_hex("836cc68931c2e4e3e838602eca1902591d216837bafddfe6f0c8cb07")
    );
}

#[test]
fn proof_with_given_nonce_is_commitment_and_response() {
    let sk = Scalar::from(7u64);
    let k = Scalar::from(5u64);
    let public_value = sk_to_g1(G_UPPER, sk);
    let (z, commitment) = create_schnorr_proof_with_nonce(G_UPPER, &public_value, &sk, &k);

    // The commitment is generator * k, in lower-case hex.
    assert_eq!(commitment, sk_to_g1(G_UPPER, k));
    assert_eq!(decompress(&commitment), G1Projective::generator() * k);

    // The response is k + c * sk for the challenge of the transcript.
    let c_text = fiat_shamir_heuristic(
        commitment.clone(),
        G_UPPER.to_string(),
        public_value.clone(),
    );
    let c = scalar_of_hex(&c_text);
    assert_eq!(z, k + c * sk);

    assert!(prove_schnorr(G_UPPER, &public_value, &z, &commitment));
}

#[test]
fn proof_with_given_nonce_for_another_generator() {
    let generator = sk_to_g1(G_UPPER, Scalar::from(9u64));
    let sk = Scalar::from(1234u64);
    let k = Scalar::from(99u64);
    let public_value = sk_to_g1(&generator, sk);
    let (z, commitment) = create_schnorr_proof_with_nonce(&generator, &public_value, &sk, &k);
    assert_eq!(decompress(&commitment), G1Projective::generator() * Scalar::from(891u64));
    assert!(prove_schnorr(&generator, &public_value, &z, &commitment));
    // Relative to g the same proof does not hold.
    assert!(!prove_schnorr(G_UPPER, &public_value, &z, &commitment));
}

#[test]
fn proof_of_zero_secret_with_zero_nonce() {
    let zero = Scalar::from(0u64);
    let public_value = sk_to_g1(G_UPPER, zero);
    let (z, commitment) = create_schnorr_proof_with_nonce(G_UPPER, &public_value, &zero, &zero);
    assert_eq!(z, zero);
    assert_eq!(commitment, public_value);
    assert!(prove_schnorr(G_UPPER, &public_value, &z, &commitment));
}

#[test]
fn two_proofs_of_one_secret_differ() {
    let sk = Scalar::from(42u64);
    let public_value = sk_to_g1(G_UPPER, sk);
    let (z1, r1) = create_schnorr_proof(G_UPPER.to_string(), public_value.clone(), sk);
    let (z2, r2) = create_schnorr_proof(G_UPPER.to_string(), public_value.clone(), sk);
    assert_ne!(r1, r2);
    assert_ne!(z1, z2);
    assert!(prove_schnorr(G_UPPER, &public_value, &z1, &r1));
    assert!(prove_schnorr(G_UPPER, &public_value, &z2, &r2));
}

#[test]
fn random_scalars_differ() {
    assert_ne!(random_scalar(), random_scalar());
}

#[test]
fn wrong_response_is_rejected() {
    let sk = Scalar::from(42u64);
    let public_value = sk_to_g1(G_UPPER, sk);
    let (z, commitment) = create_schnorr_proof(G_UPPER.to_string(), public_value.clone(), sk);
    let off = z + Scalar::from(1u64);
    assert!(!prove_schnorr(G_UPPER, &public_value, &off, &commitment));
}

#[test]
fn wrong_public_point_is_rejected() {
    let sk = Scalar::from(42u64);
    let public_value = sk_to_g1(G_UPPER, sk);
    let other = sk_to_g1(G_UPPER, Scalar::from(43u64));
    let (z, commitment) = create_schnorr_proof(G_UPPER.to_string(), public_value.clone(), sk);
    assert!(!prove_schnorr(G_UPPER, &other, &z, &commitment));
}

#[test]
fn wrong_commitment_is_rejected() {
    let sk = Scalar::from(42u64);
    let public_value = sk_to_g1(G_UPPER, sk);
    let (z, _) = create_schnorr_proof(G_UPPER.to_string(), public_value.clone(), sk);
    let other = sk_to_g1(G_UPPER, Scalar::from(1000u64));
    assert!(!prove_schnorr(G_UPPER, &public_value, &z, &other));
}

#[test]
fn proof_made_without_the_secret_is_rejected() {
    let public_value = sk_to_g1(G_UPPER, Scalar::from(42u64));
    let guess = Scalar::from(41u64);
    let (z, commitment) = create_schnorr_proof(G_UPPER.to_string(), public_value.clone(), guess);
    assert!(!prove_schnorr(G_UPPER, &public_value, &z, &commitment));
}

#[test]
fn try_prove_schnorr_agrees_and_rejects() {
    let sk = Scalar::from(42u64);
    let public_value = sk_to_g1(G_UPPER, sk);
    let (z, commitment) = create_schnorr_proof(G_UPPER.to_string(), public_value.clone(), sk);
    assert_eq!(try_prove_schnorr(G_UPPER, &public_value, &z, &commitment), Ok(true));
    let off = z + Scalar::from(1u64);
    assert_eq!(try_prove_schnorr(G_UPPER, &public_value, &off, &commitment), Ok(false));

    let no_point = "00".repeat(48);
    assert_eq!(
        try_prove_schnorr("97F1", &public_value, &z, &commitment),
        Err(DecodeError::WrongLength)
    );
    assert_eq!(
        try_prove_schnorr(G_UPPER, "nothex", &z, &commitment),
        Err(DecodeError::InvalidHex)
    );
    assert_eq!(
        try_prove_schnorr(G_UPPER, &public_value, &z, &no_point),
        Err(DecodeError::InvalidPoint)
    );
    // The generator is read first, then the public point.
    assert_eq!(
        try_prove_schnorr("97F1", "nothex", &z, &no_point),
        Err(DecodeError::WrongLength)
    );
    assert_eq!(
        try_prove_schnorr(G_UPPER, "nothex", &z, &no_point),
        Err(DecodeError::InvalidHex)
    );
}

#[test]
fn try_create_schnorr_proof_agrees_and_rejects() {
    let sk = Scalar::from(42u64);
    let public_value = sk_to_g1(G_UPPER, sk);
    let (z, commitment) = try_create_schnorr_proof(G_UPPER, &public_value, sk).unwrap();
    assert!(prove_schnorr(G_UPPER, &public_value, &z, &commitment));

    assert_eq!(
        try_create_schnorr_proof("97F1", &public_value, sk),
        Err(DecodeError::WrongLength)
    );
    assert_eq!(
        try_create_schnorr_proof(&"00".repeat(48), &public_value, sk),
        Err(DecodeError::InvalidPoint)
    );
    assert_eq!(try_create_schnorr_proof(G_UPPER, "abc", sk), Err(DecodeError::InvalidHex));
    // The public point is only hashed: any hex text will do.
    assert!(try_create_schnorr_proof(G_UPPER, "abcd", sk).is_ok());
}
