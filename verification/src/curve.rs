//! The three groups of the pairing: G1, G2 and the target group Gt.
//!
//! Each is cyclic of prime order `r`, so each of its elements but the
//! identity generates it. A point is described by its index: the multiple of
//! the group's generator that it is. The generators are the fixed points `g`
//! of G1 and `q` of G2 that the `constants` module reads, and the pairing of
//! the two in Gt. Under that reading G1 is the integers modulo `r` with
//! addition, scalar multiplication is multiplication of residues, and the
//! pairing multiplies indices.
//!
//! The indices speak of points that lie in the prime-order groups, as every
//! point does that was decoded with the subgroup check or computed from such
//! points.

use crate::field::{field_add, field_mul, group_order, scalar_value};
use blstrs::{G1Projective, G2Projective, Gt, Scalar};
use group::Curve;
use vstd::prelude::*;

verus! {

/// `blstrs::G1Projective`, a point of G1. Its coordinates are not looked at:
/// `g1_index` says which element of the group it is.
#[verifier::external_type_specification]
#[verifier::external_body]
pub struct ExG1Projective(blstrs::G1Projective);

/// `blstrs::G2Projective`, a point of G2, described by `g2_index`.
#[verifier::external_type_specification]
#[verifier::external_body]
pub struct ExG2Projective(blstrs::G2Projective);

/// `blstrs::Gt`, an element of the target group, described by `gt_index`.
#[verifier::external_type_specification]
#[verifier::external_body]
pub struct ExGt(blstrs::Gt);

/// The index of a G1 point: the `k` below the group order with
/// `point == g * k`.
pub uninterp spec fn g1_index(p: G1Projective) -> nat;

/// The index of a G2 point: the `k` below the group order with
/// `point == q * k`.
pub uninterp spec fn g2_index(q: G2Projective) -> nat;

/// The index of a Gt element: the `k` below the group order for which the
/// element is `k` times the pairing of `g` and `q`.
pub uninterp spec fn gt_index(t: Gt) -> nat;

/// The compressed encoding of the G1 point with the given index, as
/// `G1Affine::to_compressed` writes it.
pub uninterp spec fn g1_encoding(index: nat) -> Seq<u8>;

/// The index of the G1 point that `G1Projective::from_compressed` reads from
/// the given bytes, or `None` where it rejects them.
pub uninterp spec fn g1_decoding(bytes: Seq<u8>) -> Option<nat>;

/// `G1Projective`'s `Add`: the group law of G1. Indices add modulo the group
/// order.
#[verifier::external_body]
pub(crate) fn g1_add(a: &G1Projective, b: &G1Projective) -> (sum: G1Projective)
    ensures
        g1_index(sum) == field_add(g1_index(*a), g1_index(*b)),
{
    a + b
}

/// `G1Projective`'s `Mul<&Scalar>`: scalar multiplication in G1. The index is
/// multiplied by the scalar modulo the group order.
#[verifier::external_body]
pub(crate) fn g1_mul(p: &G1Projective, s: &Scalar) -> (product: G1Projective)
    ensures
        g1_index(product) == field_mul(g1_index(*p), scalar_value(*s)),
{
    p * s
}

/// `G1Projective`'s `PartialEq::eq`: two values are equal when they are the
/// same group element, whatever projective coordinates represent it.
#[verifier::external_body]
pub(crate) fn g1_eq(a: &G1Projective, b: &G1Projective) -> (same: bool)
    ensures
        same == (g1_index(*a) == g1_index(*b)),
{
    a == b
}

/// `G1Projective::from_compressed`: reads a compressed point, rejecting bytes
/// that are no canonical encoding of a point of the prime-order group.
#[verifier::external_body]
pub(crate) fn g1_from_compressed(bytes: &[u8; 48]) -> (point: Option<G1Projective>)
    ensures
        point is Some <==> g1_decoding(bytes@) is Some,
        point is Some ==> g1_decoding(bytes@) == Some(g1_index(point.unwrap())),
        point is Some ==> g1_index(point.unwrap()) < group_order(),
{
    G1Projective::from_compressed(bytes).into()
}

/// `G1Affine::to_compressed` on the point's affine form: the canonical
/// 48-byte encoding, which `from_compressed` reads back as the same point.
#[verifier::external_body]
pub(crate) fn g1_to_compressed(p: &G1Projective) -> (bytes: [u8; 48])
    ensures
        bytes@ == g1_encoding(g1_index(*p)),
        g1_decoding(bytes@) == Some(g1_index(*p)),
{
    p.to_affine().to_compressed()
}

/// `blstrs::pairing` on the affine forms of the two points. The pairing is
/// bilinear and not degenerate, so the index of the result is the product of
/// the indices.
#[verifier::external_body]
pub(crate) fn pairing(p: &G1Projective, q: &G2Projective) -> (e: Gt)
    ensures
        gt_index(e) == field_mul(g1_index(*p), g2_index(*q)),
{
    blstrs::pairing(&p.to_affine(), &q.to_affine())
}

/// `Gt`'s `PartialEq::eq`: equality of elements of the target group.
#[verifier::external_body]
pub(crate) fn gt_eq(a: &Gt, b: &Gt) -> (same: bool)
    ensures
        same == (gt_index(*a) == gt_index(*b)),
{
    a == b
}

} // verus!
