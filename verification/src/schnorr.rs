//! Non-interactive Schnorr proofs of knowledge of a discrete logarithm, with
//! the challenge derived from the transcript by the Fiat-Shamir heuristic.
//!
//! Points travel as the hex text of their compressed encoding. The transcript
//! of a proof is the text of the commitment point, of the generator and of the
//! public point, in that order; its bytes are hashed with BLAKE2b-224 and the
//! digest, read as a big-endian number, is the challenge.

use crate::constants::{
    check_point_hex, decompress, hex_of_point, point_of_hex, sk_to_g1, DecodeError,
};
use crate::curve::{g1_add, g1_eq, g1_index, g1_mul};
use crate::encoding::{
    hex_bytes, hex_decode, hex_encode, hex_string, is_hex, is_hex_text, lemma_hex_concat,
    lemma_hex_round_trip,
};
use crate::field::{
    be_value, field_mul, group_order, lemma_28_bytes_below_order, lemma_be_value_leading_zeros,
    scalar_add, scalar_from_bytes_be, scalar_mul, scalar_value,
};
use blake2::digest::consts::U28;
use blake2::{Blake2b, Digest};
use blstrs::Scalar;
use ff::Field;
use rand_core::OsRng;
use vstd::arithmetic::div_mod::*;
use vstd::pervasive::unreached;
use vstd::prelude::*;
use vstd::string::*;

verus! {

/// The BLAKE2b digest of 28 bytes of a byte string, as
/// `Blake2b::<U28>::digest` computes it.
pub uninterp spec fn blake2b_224_digest(data: Seq<u8>) -> Seq<u8>;

/// `Blake2b::<U28>::digest`: the unkeyed BLAKE2b hash with an output of 28
/// bytes.
#[verifier::external_body]
pub(crate) fn blake2b_224(data: &[u8]) -> (digest: [u8; 28])
    ensures
        digest@ == blake2b_224_digest(data@),
{
    Blake2b::<U28>::digest(data).into()
}

/// `Scalar::random` on the operating system's generator: a scalar drawn
/// uniformly from the field. Each call gives a fresh value, of which only the
/// range is known. Where the system has no randomness to give, the call
/// aborts.
#[verifier::external_body]
pub fn random_scalar() -> (s: Scalar)
    ensures
        scalar_value(s) < group_order(),
{
    Scalar::random(OsRng)
}

/// The transcript of a proof: the three texts in their fixed order.
pub open spec fn transcript(
    commitment: Seq<char>,
    generator: Seq<char>,
    public: Seq<char>,
) -> Seq<char> {
    commitment + generator + public
}

/// The digest of the bytes that the transcript stands for.
pub open spec fn challenge_digest(
    commitment: Seq<char>,
    generator: Seq<char>,
    public: Seq<char>,
) -> Seq<u8> {
    blake2b_224_digest(hex_bytes(transcript(commitment, generator, public)))
}

/// The challenge as text: the digest in lower-case hex.
pub open spec fn challenge_hex(
    commitment: Seq<char>,
    generator: Seq<char>,
    public: Seq<char>,
) -> Seq<char> {
    hex_string(challenge_digest(commitment, generator, public))
}

/// The challenge as a number: the digest read big-endian.
pub open spec fn challenge_value(
    commitment: Seq<char>,
    generator: Seq<char>,
    public: Seq<char>,
) -> nat {
    be_value(challenge_digest(commitment, generator, public))
}

/// The response to challenge `c` of a prover who holds the secret `sk` and
/// drew the nonce `k`.
pub open spec fn schnorr_response(k: nat, c: nat, sk: nat) -> nat {
    (k + c * sk) % group_order()
}

/// The verifier's equation `generator * z == commitment + public * c`, on
/// the indices of the three points.
pub open spec fn schnorr_accepts(
    generator: nat,
    public: nat,
    z: nat,
    commitment: nat,
    c: nat,
) -> bool {
    (generator * z) % group_order() == (commitment + public * c) % group_order()
}

/// Whether `(z, commitment)` is accepted as a proof of knowledge of the
/// discrete logarithm of `public` relative to `generator`.
pub open spec fn schnorr_valid(
    generator: Seq<char>,
    public: Seq<char>,
    z: nat,
    commitment: Seq<char>,
) -> bool {
    &&& point_of_hex(generator) is Ok
    &&& point_of_hex(public) is Ok
    &&& point_of_hex(commitment) is Ok
    &&& schnorr_accepts(
        point_of_hex(generator).unwrap(),
        point_of_hex(public).unwrap(),
        z,
        point_of_hex(commitment).unwrap(),
        challenge_value(commitment, generator, public),
    )
}

/// Whether `(z, commitment)` is what a prover with secret `sk` makes from the
/// nonce `k`: the commitment is the text of `generator * k`, and `z` answers
/// the challenge of the transcript.
pub open spec fn schnorr_proof_of(
    generator: Seq<char>,
    public: Seq<char>,
    sk: nat,
    k: nat,
    z: nat,
    commitment: Seq<char>,
) -> bool {
    &&& point_of_hex(generator) is Ok
    &&& commitment == hex_of_point(field_mul(point_of_hex(generator).unwrap(), k))
    &&& point_of_hex(commitment) == Ok::<nat, DecodeError>(
        field_mul(point_of_hex(generator).unwrap(), k),
    )
    &&& z == schnorr_response(k, challenge_value(commitment, generator, public), sk)
}

/// Whether `(z, commitment)` is what a prover with secret `sk` makes from
/// some nonce.
pub open spec fn is_schnorr_proof(
    generator: Seq<char>,
    public: Seq<char>,
    sk: nat,
    z: nat,
    commitment: Seq<char>,
) -> bool {
    exists|k: nat|
        k < group_order() && #[trigger] schnorr_proof_of(generator, public, sk, k, z, commitment)
}

/// The verifier's equation holds of an honest response, whatever the
/// challenge is.
pub proof fn lemma_response_accepted(generator: nat, sk: nat, k: nat, c: nat)
    ensures
        schnorr_accepts(
            generator,
            field_mul(generator, sk),
            schnorr_response(k, c, sk),
            field_mul(generator, k),
            c,
        ),
{
    let m = group_order() as int;
    let g = generator as int;
    lemma_mul_mod_noop_right(g, (k + c * sk) as int, m);
    lemma_mul_mod_noop_left(g * sk, c as int, m);
    lemma_add_mod_noop(g * k, (g * sk) * c, m);
    assert(g * (k + c * sk) == g * k + (g * sk) * c) by (nonlinear_arith);
}

/// Completeness: a proof made with the secret behind the public point is
/// accepted, for every secret (zero too) and every nonce.
pub proof fn lemma_schnorr_complete(
    generator: Seq<char>,
    public: Seq<char>,
    sk: nat,
    k: nat,
    z: nat,
    commitment: Seq<char>,
)
    requires
        schnorr_proof_of(generator, public, sk, k, z, commitment),
        point_of_hex(public) == Ok::<nat, DecodeError>(
            field_mul(point_of_hex(generator).unwrap(), sk),
        ),
    ensures
        schnorr_valid(generator, public, z, commitment),
{
    lemma_response_accepted(
        point_of_hex(generator).unwrap(),
        sk,
        k,
        challenge_value(commitment, generator, public),
    );
}

/// The challenge that is read from the challenge text is the challenge.
pub proof fn lemma_challenge_text(commitment: Seq<char>, generator: Seq<char>, public: Seq<char>)
    ensures
        is_hex(challenge_hex(commitment, generator, public)),
        be_value(hex_bytes(challenge_hex(commitment, generator, public))) == challenge_value(
            commitment,
            generator,
            public,
        ),
{
    lemma_hex_round_trip(challenge_digest(commitment, generator, public));
}

/// The digest of the bytes that the three texts, put together, stand for.
fn transcript_digest(commitment: &str, generator: &str, public: &str) -> (digest: [u8; 28])
    requires
        is_hex(transcript(commitment@, generator@, public@)),
    ensures
        digest@ == challenge_digest(commitment@, generator@, public@),
{
    let mut text = String::from_str(commitment);
    text.append(generator);
    text.append(public);
    match hex_decode(text.as_str()) {
        Some(bytes) => blake2b_224(bytes.as_slice()),
        None => unreached(),
    }
}

/// The Fiat-Shamir challenge of a transcript, as lower-case hex text of 56
/// digits.
pub fn fiat_shamir_heuristic(
    commitment: String,
    generator: String,
    public: String,
) -> (challenge: String)
    requires
        is_hex(transcript(commitment@, generator@, public@)),
    ensures
        challenge@ == challenge_hex(commitment@, generator@, public@),
        challenge@.len() == 56,
{
    let digest = transcript_digest(commitment.as_str(), generator.as_str(), public.as_str());
    hex_encode(&digest)
}

/// The Fiat-Shamir challenge of a transcript as text, or `InvalidHex` where
/// the three texts together are no hex text.
pub fn try_fiat_shamir_heuristic(
    commitment: &str,
    generator: &str,
    public: &str,
) -> (outcome: Result<String, DecodeError>)
    ensures
        match outcome {
            Ok(challenge) => is_hex(transcript(commitment@, generator@, public@)) && challenge@
                == challenge_hex(commitment@, generator@, public@),
            Err(e) => !is_hex(transcript(commitment@, generator@, public@)) && e
                == DecodeError::InvalidHex,
        },
{
    let mut text = String::from_str(commitment);
    text.append(generator);
    text.append(public);
    if is_hex_text(text.as_str()) {
        Ok(
            fiat_shamir_heuristic(
                String::from_str(commitment),
                String::from_str(generator),
                String::from_str(public),
            ),
        )
    } else {
        Err(DecodeError::InvalidHex)
    }
}

/// The scalar that a digest stands for: its 28 bytes read as a big-endian
/// number, which is below the group order.
pub fn challenge_scalar(digest: &[u8; 28]) -> (c: Scalar)
    ensures
        scalar_value(c) == be_value(digest@),
{
    let mut buf: [u8; 32] = [0u8; 32];
    let mut i: usize = 0;
    while i < 28
        invariant
            i <= 28,
            forall|j: int| 0 <= j < 4 ==> buf@[j] == 0,
            forall|j: int| 0 <= j < i ==> buf@[j + 4] == digest@[j],
        decreases 28 - i,
    {
        buf[i + 4] = digest[i];
        i += 1;
    }
    proof {
        assert(buf@ =~= Seq::new(4, |i: int| 0u8) + digest@);
        lemma_be_value_leading_zeros(4, digest@);
        lemma_28_bytes_below_order(digest@);
    }
    match scalar_from_bytes_be(&buf) {
        Some(c) => c,
        None => unreached(),
    }
}

/// The Fiat-Shamir challenge of a transcript, as a scalar.
pub fn fiat_shamir_challenge(commitment: &str, generator: &str, public: &str) -> (c: Scalar)
    requires
        is_hex(transcript(commitment@, generator@, public@)),
    ensures
        scalar_value(c) == challenge_value(commitment@, generator@, public@),
{
    let digest = transcript_digest(commitment, generator, public);
    challenge_scalar(&digest)
}

/// Proves knowledge of `sk` with the given nonce: the commitment point
/// `generator * k` as text, and the response `k + c * sk` to the challenge
/// `c` of the transcript.
///
/// A nonce serves one proof only.
pub fn create_schnorr_proof_with_nonce(
    generator: &str,
    public_value: &str,
    sk: &Scalar,
    k: &Scalar,
) -> (pair: (Scalar, String))
    requires
        point_of_hex(generator@) is Ok,
        is_hex(public_value@),
    ensures
        schnorr_proof_of(
            generator@,
            public_value@,
            scalar_value(*sk),
            scalar_value(*k),
            scalar_value(pair.0),
            pair.1@,
        ),
{
    let commitment = sk_to_g1(generator, *k);
    proof {
        lemma_hex_concat(commitment@, generator@);
        lemma_hex_concat(commitment@ + generator@, public_value@);
    }
    let c = fiat_shamir_challenge(commitment.as_str(), generator, public_value);
    let z = scalar_add(k, &scalar_mul(&c, sk));
    proof {
        let m = group_order() as int;
        lemma_add_mod_noop_right(
            scalar_value(*k) as int,
            (scalar_value(c) * scalar_value(*sk)) as int,
            m,
        );
    }
    (z, commitment)
}

/// Proves knowledge of `sk` with a fresh random nonce. Where `public_value`
/// is the text of `generator * sk`, the proof is one that `prove_schnorr`
/// accepts.
pub fn create_schnorr_proof(
    generator: String,
    public_value: String,
    sk: Scalar,
) -> (pair: (Scalar, String))
    requires
        point_of_hex(generator@) is Ok,
        is_hex(public_value@),
    ensures
        is_schnorr_proof(
            generator@,
            public_value@,
            scalar_value(sk),
            scalar_value(pair.0),
            pair.1@,
        ),
        point_of_hex(public_value@) == Ok::<nat, DecodeError>(
            field_mul(point_of_hex(generator@).unwrap(), scalar_value(sk)),
        ) ==> schnorr_valid(generator@, public_value@, scalar_value(pair.0), pair.1@),
{
    let k = random_scalar();
    let pair = create_schnorr_proof_with_nonce(
        generator.as_str(),
        public_value.as_str(),
        &sk,
        &k,
    );
    proof {
        assert(schnorr_proof_of(
            generator@,
            public_value@,
            scalar_value(sk),
            scalar_value(k),
            scalar_value(pair.0),
            pair.1@,
        ));
        if point_of_hex(public_value@) == Ok::<nat, DecodeError>(
            field_mul(point_of_hex(generator@).unwrap(), scalar_value(sk)),
        ) {
            lemma_schnorr_complete(
                generator@,
                public_value@,
                scalar_value(sk),
                scalar_value(k),
                scalar_value(pair.0),
                pair.1@,
            );
        }
    }
    pair
}

/// Proves knowledge of `sk` with a fresh random nonce, or says why no proof
/// can be made: `generator` stands for no point, or `public_value` is no hex
/// text.
pub fn try_create_schnorr_proof(
    generator: &str,
    public_value: &str,
    sk: Scalar,
) -> (outcome: Result<(Scalar, String), DecodeError>)
    ensures
        match outcome {
            Ok(pair) => point_of_hex(generator@) is Ok && is_hex(public_value@)
                && is_schnorr_proof(
                generator@,
                public_value@,
                scalar_value(sk),
                scalar_value(pair.0),
                pair.1@,
            ) && (point_of_hex(public_value@) == Ok::<nat, DecodeError>(
                field_mul(point_of_hex(generator@).unwrap(), scalar_value(sk)),
            ) ==> schnorr_valid(generator@, public_value@, scalar_value(pair.0), pair.1@)),
            Err(e) => if point_of_hex(generator@) is Err {
                point_of_hex(generator@) == Err::<nat, DecodeError>(e)
            } else {
                !is_hex(public_value@) && e == DecodeError::InvalidHex
            },
        },
{
    match check_point_hex(generator) {
        Err(e) => Err(e),
        Ok(_) => {
            if is_hex_text(public_value) {
                Ok(
                    create_schnorr_proof(
                        String::from_str(generator),
                        String::from_str(public_value),
                        sk,
                    ),
                )
            } else {
                Err(DecodeError::InvalidHex)
            }
        },
    }
}

/// Verifies a proof of knowledge: recomputes the challenge `c` from the
/// transcript and accepts exactly when
/// `generator * z == commitment + public_value * c`.
pub fn prove_schnorr(
    generator: &str,
    public_value: &str,
    z: &Scalar,
    commitment: &str,
) -> (ok: bool)
    requires
        point_of_hex(generator@) is Ok,
        point_of_hex(public_value@) is Ok,
        point_of_hex(commitment@) is Ok,
    ensures
        ok == schnorr_valid(generator@, public_value@, scalar_value(*z), commitment@),
{
    let base = decompress(generator);
    let public = decompress(public_value);
    let nonce_point = decompress(commitment);
    proof {
        lemma_hex_concat(commitment@, generator@);
        lemma_hex_concat(commitment@ + generator@, public_value@);
    }
    let c = fiat_shamir_challenge(commitment, generator, public_value);
    let left = g1_mul(&base, z);
    let right = g1_add(&nonce_point, &g1_mul(&public, &c));
    proof {
        let m = group_order() as int;
        lemma_add_mod_noop_right(
            g1_index(nonce_point) as int,
            (g1_index(public) * scalar_value(c)) as int,
            m,
        );
    }
    g1_eq(&left, &right)
}

/// Verifies a proof of knowledge, or says which of the three texts stands
/// for no point: the generator, the public point and the commitment are read
/// in that order.
pub fn try_prove_schnorr(
    generator: &str,
    public_value: &str,
    z: &Scalar,
    commitment: &str,
) -> (outcome: Result<bool, DecodeError>)
    ensures
        match outcome {
            Ok(ok) => ok == schnorr_valid(
                generator@,
                public_value@,
                scalar_value(*z),
                commitment@,
            ) && point_of_hex(generator@) is Ok && point_of_hex(public_value@) is Ok
                && point_of_hex(commitment@) is Ok,
            Err(e) => if point_of_hex(generator@) is Err {
                point_of_hex(generator@) == Err::<nat, DecodeError>(e)
            } else if point_of_hex(public_value@) is Err {
                point_of_hex(public_value@) == Err::<nat, DecodeError>(e)
            } else {
                point_of_hex(commitment@) == Err::<nat, DecodeError>(e)
            },
        },
{
    match check_point_hex(generator) {
        Err(e) => Err(e),
        Ok(_) => match check_point_hex(public_value) {
            Err(e) => Err(e),
            Ok(_) => match check_point_hex(commitment) {
                Err(e) => Err(e),
                Ok(_) => Ok(prove_schnorr(generator, public_value, z, commitment)),
            },
        },
    }
}

} // verus!
