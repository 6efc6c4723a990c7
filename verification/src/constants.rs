//! The fixed public points shared by prover and verifier, and the hex codec
//! for G1 points.

use crate::curve::{
    g1_add, g1_decoding, g1_encoding, g1_eq, g1_from_compressed, g1_index, g1_mul,
    g1_to_compressed, g2_index,
};
use crate::encoding::{hex_bytes, hex_decode, hex_encode, hex_string, is_hex, lemma_hex_round_trip};
use crate::field::{field_mul, group_order, scalar_value};
use blstrs::{G1Affine, G1Projective, G2Affine, G2Projective, Scalar};
use vstd::arithmetic::div_mod::lemma_small_mod;
use vstd::pervasive::unreached;
use vstd::prelude::*;

verus! {

/// Compressed encoding of `g`, the generator of G1.
pub const G_BYTES: [u8; 48] = [
    0x97, 0xf1, 0xd3, 0xa7, 0x31, 0x97, 0xd7, 0x94, 0x26, 0x95, 0x63, 0x8c,
    0x4f, 0xa9, 0xac, 0x0f, 0xc3, 0x68, 0x8c, 0x4f, 0x97, 0x74, 0xb9, 0x05,
    0xa1, 0x4e, 0x3a, 0x3f, 0x17, 0x1b, 0xac, 0x58, 0x6c, 0x55, 0xe8, 0x3f,
    0xf9, 0x7a, 0x1a, 0xef, 0xfb, 0x3a, 0xf0, 0x0a, 0xdb, 0x22, 0xc6, 0xbb,
];

/// Compressed encoding of `h = g + g`.
pub const H_BYTES: [u8; 48] = [
    0xa5, 0x72, 0xcb, 0xea, 0x90, 0x4d, 0x67, 0x46, 0x88, 0x08, 0xc8, 0xeb,
    0x50, 0xa9, 0x45, 0x0c, 0x97, 0x21, 0xdb, 0x30, 0x91, 0x28, 0x01, 0x25,
    0x43, 0x90, 0x2d, 0x0a, 0xc3, 0x58, 0xa6, 0x2a, 0xe2, 0x8f, 0x75, 0xbb,
    0x8f, 0x1c, 0x7c, 0x42, 0xc3, 0x9a, 0x8c, 0x55, 0x29, 0xbf, 0x0f, 0x4e,
];

/// Compressed encoding of `q`, the generator of G2.
pub const Q_BYTES: [u8; 96] = [
    0x93, 0xe0, 0x2b, 0x60, 0x52, 0x71, 0x9f, 0x60, 0x7d, 0xac, 0xd3, 0xa0,
    0x88, 0x27, 0x4f, 0x65, 0x59, 0x6b, 0xd0, 0xd0, 0x99, 0x20, 0xb6, 0x1a,
    0xb5, 0xda, 0x61, 0xbb, 0xdc, 0x7f, 0x50, 0x49, 0x33, 0x4c, 0xf1, 0x12,
    0x13, 0x94, 0x5d, 0x57, 0xe5, 0xac, 0x7d, 0x05, 0x5d, 0x04, 0x2b, 0x7e,
    0x02, 0x4a, 0xa2, 0xb2, 0xf0, 0x8f, 0x0a, 0x91, 0x26, 0x08, 0x05, 0x27,
    0x2d, 0xc5, 0x10, 0x51, 0xc6, 0xe4, 0x7a, 0xd4, 0xfa, 0x40, 0x3b, 0x02,
    0xb4, 0x51, 0x0b, 0x64, 0x7a, 0xe3, 0xd1, 0x77, 0x0b, 0xac, 0x03, 0x26,
    0xa8, 0x05, 0xbb, 0xef, 0xd4, 0x80, 0x56, 0xc8, 0xc1, 0x21, 0xbd, 0xb8,
];

/// Index of `g` in G1.
pub open spec fn g_index() -> nat {
    1
}

/// Index of `h` in G1.
pub open spec fn h_index() -> nat {
    2
}

/// The point `g`, read by `G1Affine::from_compressed` from `G_BYTES`. The
/// bytes encode a point of G1 other than the identity; it is the generator
/// that the indices of G1 are counted from.
#[verifier::external_body]
pub fn g() -> (point: G1Projective)
    ensures
        g1_index(point) == g_index(),
{
    G1Affine::from_compressed(&G_BYTES).unwrap().into()
}

/// The point `h = g + g`, read from `H_BYTES` and checked against the sum,
/// so that it is `g + g` whatever the bytes hold.
pub fn h() -> (point: G1Projective)
    ensures
        g1_index(point) == h_index(),
{
    let base = g();
    let twice = g1_add(&base, &base);
    proof {
        lemma_small_mod(2, group_order());
    }
    match g1_from_compressed(&H_BYTES) {
        Some(point) => if g1_eq(&point, &twice) {
            point
        } else {
            twice
        },
        None => twice,
    }
}

/// The point `q`, read by `G2Affine::from_compressed` from `Q_BYTES`. The
/// bytes encode a point of G2 other than the identity; it is the generator
/// that the indices of G2 are counted from.
#[verifier::external_body]
pub fn q() -> (point: G2Projective)
    ensures
        g2_index(point) == 1,
{
    G2Affine::from_compressed(&Q_BYTES).unwrap().into()
}

/// Why hex text is not read as a G1 point.
#[derive(Clone, Copy, Debug, PartialEq, Eq, Structural)]
pub enum DecodeError {
    /// The text has odd length or holds a character that is no hex digit.
    InvalidHex,
    /// The text does not stand for exactly 48 bytes.
    WrongLength,
    /// The bytes are no canonical encoding of a point of G1.
    InvalidPoint,
}

/// Reads hex text as a compressed G1 point, giving the point's index.
pub open spec fn point_of_hex(text: Seq<char>) -> Result<nat, DecodeError> {
    if !is_hex(text) {
        Err(DecodeError::InvalidHex)
    } else if hex_bytes(text).len() != 48 {
        Err(DecodeError::WrongLength)
    } else {
        match g1_decoding(hex_bytes(text)) {
            Some(index) => Ok(index),
            None => Err(DecodeError::InvalidPoint),
        }
    }
}

/// The hex text of the G1 point with the given index.
pub open spec fn hex_of_point(index: nat) -> Seq<char> {
    hex_string(g1_encoding(index))
}

/// Copies 48 bytes into an array.
fn to_array(bytes: &Vec<u8>) -> (buf: [u8; 48])
    requires
        bytes@.len() == 48,
    ensures
        buf@ == bytes@,
{
    let mut buf: [u8; 48] = [0u8; 48];
    let mut i: usize = 0;
    while i < 48
        invariant
            i <= 48,
            bytes@.len() == 48,
            forall|j: int| 0 <= j < i ==> buf@[j] == bytes@[j],
        decreases 48 - i,
    {
        buf[i] = bytes[i];
        i += 1;
    }
    assert(buf@ =~= bytes@);
    buf
}

/// Tells whether hex text stands for a G1 point, and if not, why.
pub fn check_point_hex(hex_str: &str) -> (outcome: Result<(), DecodeError>)
    ensures
        match outcome {
            Ok(_) => point_of_hex(hex_str@) is Ok,
            Err(e) => point_of_hex(hex_str@) == Err::<nat, DecodeError>(e),
        },
{
    match hex_decode(hex_str) {
        None => Err(DecodeError::InvalidHex),
        Some(bytes) => {
            if bytes.len() != 48 {
                Err(DecodeError::WrongLength)
            } else {
                let buf = to_array(&bytes);
                match g1_from_compressed(&buf) {
                    Some(_) => Ok(()),
                    None => Err(DecodeError::InvalidPoint),
                }
            }
        },
    }
}

/// Reads a G1 point from the hex text of its compressed encoding.
pub fn decompress(hex_str: &str) -> (point: G1Projective)
    requires
        point_of_hex(hex_str@) is Ok,
    ensures
        point_of_hex(hex_str@) == Ok::<nat, DecodeError>(g1_index(point)),
        g1_index(point) < group_order(),
{
    match hex_decode(hex_str) {
        Some(bytes) => {
            let buf = to_array(&bytes);
            match g1_from_compressed(&buf) {
                Some(point) => point,
                None => unreached(),
            }
        },
        None => unreached(),
    }
}

/// Reads a G1 point from hex text, or says why the text stands for none.
pub fn try_decompress(hex_str: &str) -> (outcome: Result<G1Projective, DecodeError>)
    ensures
        match outcome {
            Ok(point) => point_of_hex(hex_str@) == Ok::<nat, DecodeError>(g1_index(point))
                && g1_index(point) < group_order(),
            Err(e) => point_of_hex(hex_str@) == Err::<nat, DecodeError>(e),
        },
{
    match check_point_hex(hex_str) {
        Ok(_) => Ok(decompress(hex_str)),
        Err(e) => Err(e),
    }
}

/// The hex text of `generator * sk`: the public point that belongs to the
/// secret `sk` relative to the given generator.
pub fn sk_to_g1(generator: &str, sk: Scalar) -> (public: String)
    requires
        point_of_hex(generator@) is Ok,
    ensures
        public@ == hex_of_point(field_mul(point_of_hex(generator@).unwrap(), scalar_value(sk))),
        point_of_hex(public@) == Ok::<nat, DecodeError>(
            field_mul(point_of_hex(generator@).unwrap(), scalar_value(sk)),
        ),
{
    let point = g1_mul(&decompress(generator), &sk);
    let compressed = g1_to_compressed(&point);
    proof {
        lemma_hex_round_trip(compressed@);
    }
    hex_encode(&compressed)
}

/// The hex text of `generator * sk`, or why `generator` stands for no point.
pub fn try_sk_to_g1(generator: &str, sk: Scalar) -> (outcome: Result<String, DecodeError>)
    ensures
        match outcome {
            Ok(public) => point_of_hex(generator@) is Ok && public@ == hex_of_point(
                field_mul(point_of_hex(generator@).unwrap(), scalar_value(sk)),
            ) && point_of_hex(public@) == Ok::<nat, DecodeError>(
                field_mul(point_of_hex(generator@).unwrap(), scalar_value(sk)),
            ),
            Err(e) => point_of_hex(generator@) == Err::<nat, DecodeError>(e),
        },
{
    match check_point_hex(generator) {
        Ok(_) => Ok(sk_to_g1(generator, sk)),
        Err(e) => Err(e),
    }
}

} // verus!
