//! The range proof: seven commitments whose blinding factors cancel in one
//! pairing equation.
//!
//! For public endpoints `a` and `b` and a secret `d` the prover commits to
//! the upper slack `a - d`, to `d` twice over, to both endpoints and to the
//! lower slack `d - b`, and adds two commitments to zero that carry the sums
//! of the blinding factors. The verifier checks
//! `pairing(Y + D + P, q) == pairing(A + B + W + L, q)`.
//!
//! The equation compares `(a - d) + 2 * d` with `a + b + (d - b)`, which
//! agree for every `a`, `b` and `d`: it ties the seven points to one another,
//! and does not by itself bound `d` by the endpoints.

use crate::constants::q;
use crate::curve::{g1_add, g1_index, gt_eq, pairing};
use crate::field::{
    field_add, field_sub, group_order, lemma_congruent_cancel, lemma_congruent_residue,
    lemma_congruent_residues_equal, lemma_congruent_sum, scalar_add, scalar_from_u64, scalar_sub,
    scalar_value,
};
use crate::pedersen::{commit_index, commitment, lemma_commit_congruent};
use crate::schnorr::random_scalar;
use blstrs::{G1Projective, Scalar};
use vstd::arithmetic::div_mod::*;
use vstd::prelude::*;

verus! {

/// The seven points of a range proof, each by its index in G1.
pub struct RangeIndices {
    pub y: nat,
    pub d: nat,
    pub p: nat,
    pub a: nat,
    pub b: nat,
    pub w: nat,
    pub l: nat,
}

/// The indices of seven points.
pub open spec fn indices_of(
    y: G1Projective,
    d: G1Projective,
    p: G1Projective,
    a: G1Projective,
    b: G1Projective,
    w: G1Projective,
    l: G1Projective,
) -> RangeIndices {
    RangeIndices {
        y: g1_index(y),
        d: g1_index(d),
        p: g1_index(p),
        a: g1_index(a),
        b: g1_index(b),
        w: g1_index(w),
        l: g1_index(l),
    }
}

/// Whether each of the seven indices is reduced.
pub open spec fn reduced(s: RangeIndices) -> bool {
    &&& s.y < group_order()
    &&& s.d < group_order()
    &&& s.p < group_order()
    &&& s.a < group_order()
    &&& s.b < group_order()
    &&& s.w < group_order()
    &&& s.l < group_order()
}

/// The proof that an honest prover makes for endpoints `a`, `b` and secret
/// `d` from the six blinding factors.
pub open spec fn honest_range_proof(
    a: nat,
    b: nat,
    d: nat,
    yr: nat,
    dr1: nat,
    dr2: nat,
    ar: nat,
    br: nat,
    wr: nat,
) -> RangeIndices {
    RangeIndices {
        y: commit_index(field_sub(a, d), yr),
        d: field_add(commit_index(d, dr1), commit_index(d, dr2)),
        p: commit_index(0, field_add(field_add(ar, br), wr)),
        a: commit_index(a, ar),
        b: commit_index(b, br),
        w: commit_index(field_sub(d, b), wr),
        l: commit_index(0, field_add(field_add(yr, dr1), dr2)),
    }
}

/// The verifier's equation `Y + D + P == A + B + W + L` in G1, which is what
/// the two pairings with the generator of G2 compare.
pub open spec fn range_check(s: RangeIndices) -> bool {
    (s.y + s.d + s.p) % group_order() == (s.a + s.b + s.w + s.l) % group_order()
}

/// Whether `s` is a proof that an honest prover makes for `a`, `b` and `d`
/// with the endpoint blindings `ar` and `br` and some other four.
pub open spec fn is_range_proof(a: nat, b: nat, d: nat, ar: nat, br: nat, s: RangeIndices) -> bool {
    exists|yr: nat, dr1: nat, dr2: nat, wr: nat|
        yr < group_order() && dr1 < group_order() && dr2 < group_order() && wr < group_order()
            && s == #[trigger] honest_range_proof(a, b, d, yr, dr1, dr2, ar, br, wr)
}

/// Completeness: the proof of an honest prover passes the check, for every
/// `a`, `b` and `d` and all blinding factors.
pub proof fn lemma_range_complete(
    a: nat,
    b: nat,
    d: nat,
    yr: nat,
    dr1: nat,
    dr2: nat,
    ar: nat,
    br: nat,
    wr: nat,
)
    ensures
        range_check(honest_range_proof(a, b, d, yr, dr1, dr2, ar, br, wr)),
        reduced(honest_range_proof(a, b, d, yr, dr1, dr2, ar, br, wr)),
{
    let s = honest_range_proof(a, b, d, yr, dr1, dr2, ar, br, wr);
    let (ai, bi, di) = (a as int, b as int, d as int);
    let (yri, dr1i, dr2i) = (yr as int, dr1 as int, dr2 as int);
    let (ari, bri, wri) = (ar as int, br as int, wr as int);
    // Y commits to a - d.
    lemma_congruent_residue(ai - di);
    lemma_commit_congruent(field_sub(a, d), yr, ai - di, yri);
    // D is two commitments to d.
    lemma_commit_congruent(d, dr1, di, dr1i);
    lemma_commit_congruent(d, dr2, di, dr2i);
    lemma_congruent_sum(
        commit_index(d, dr1) as int,
        2 * di + dr1i,
        commit_index(d, dr2) as int,
        2 * di + dr2i,
    );
    lemma_congruent_residue((commit_index(d, dr1) + commit_index(d, dr2)) as int);
    // P carries ar + br + wr.
    lemma_congruent_residue(ari + bri);
    lemma_congruent_sum(field_add(ar, br) as int, ari + bri, wri, wri);
    lemma_congruent_residue(field_add(ar, br) as int + wri);
    lemma_commit_congruent(0, field_add(field_add(ar, br), wr), 0, ari + bri + wri);
    // A, B and W commit to a, b and d - b.
    lemma_commit_congruent(a, ar, ai, ari);
    lemma_commit_congruent(b, br, bi, bri);
    lemma_congruent_residue(di - bi);
    lemma_commit_congruent(field_sub(d, b), wr, di - bi, wri);
    // L carries yr + dr1 + dr2.
    lemma_congruent_residue(yri + dr1i);
    lemma_congruent_sum(field_add(yr, dr1) as int, yri + dr1i, dr2i, dr2i);
    lemma_congruent_residue(field_add(yr, dr1) as int + dr2i);
    lemma_commit_congruent(0, field_add(field_add(yr, dr1), dr2), 0, yri + dr1i + dr2i);
    // Both sides come to 2 * (a + d) and the sum of all six blindings.
    lemma_congruent_sum(s.y as int, 2 * (ai - di) + yri, s.d as int, 4 * di + dr1i + dr2i);
    lemma_congruent_sum(
        (s.y + s.d) as int,
        2 * (ai - di) + yri + 4 * di + dr1i + dr2i,
        s.p as int,
        ari + bri + wri,
    );
    lemma_congruent_sum(s.a as int, 2 * ai + ari, s.b as int, 2 * bi + bri);
    lemma_congruent_sum(
        (s.a + s.b) as int,
        2 * ai + ari + 2 * bi + bri,
        s.w as int,
        2 * (di - bi) + wri,
    );
    lemma_congruent_sum(
        (s.a + s.b + s.w) as int,
        2 * ai + ari + 2 * bi + bri + 2 * (di - bi) + wri,
        s.l as int,
        yri + dr1i + dr2i,
    );
}

/// Whether `t` is `s` with exactly one of the seven points replaced by
/// another point.
pub open spec fn one_replaced(s: RangeIndices, t: RangeIndices) -> bool {
    (if s.y != t.y { 1int } else { 0 }) + (if s.d != t.d { 1int } else { 0 })
        + (if s.p != t.p { 1int } else { 0 }) + (if s.a != t.a { 1int } else { 0 })
        + (if s.b != t.b { 1int } else { 0 }) + (if s.w != t.w { 1int } else { 0 })
        + (if s.l != t.l { 1int } else { 0 }) == 1
}

/// A proof that passes the check fails it once any single point is replaced
/// by another point.
pub proof fn lemma_range_replaced_point_fails(s: RangeIndices, t: RangeIndices)
    requires
        reduced(s),
        reduced(t),
        range_check(s),
        one_replaced(s, t),
    ensures
        !range_check(t),
{
    if range_check(t) {
        if s.y != t.y {
            lemma_congruent_cancel(s.y as int, t.y as int, (s.d + s.p) as int);
            lemma_congruent_residues_equal(s.y, t.y);
        } else if s.d != t.d {
            lemma_congruent_cancel(s.d as int, t.d as int, (s.y + s.p) as int);
            lemma_congruent_residues_equal(s.d, t.d);
        } else if s.p != t.p {
            lemma_congruent_cancel(s.p as int, t.p as int, (s.y + s.d) as int);
            lemma_congruent_residues_equal(s.p, t.p);
        } else if s.a != t.a {
            lemma_congruent_cancel(s.a as int, t.a as int, (s.b + s.w + s.l) as int);
            lemma_congruent_residues_equal(s.a, t.a);
        } else if s.b != t.b {
            lemma_congruent_cancel(s.b as int, t.b as int, (s.a + s.w + s.l) as int);
            lemma_congruent_residues_equal(s.b, t.b);
        } else if s.w != t.w {
            lemma_congruent_cancel(s.w as int, t.w as int, (s.a + s.b + s.l) as int);
            lemma_congruent_residues_equal(s.w, t.w);
        } else {
            lemma_congruent_cancel(s.l as int, t.l as int, (s.a + s.b + s.w) as int);
            lemma_congruent_residues_equal(s.l, t.l);
        }
    }
}

/// Builds the range proof for endpoints `a`, `b` and secret `d` from the
/// given six blinding factors. Returns the points `Y, D, P, A, B, W, L` and
/// the blindings `ar`, `br` of the endpoint commitments.
pub fn create_range_proof_with_blinding(
    a: Scalar,
    b: Scalar,
    d: Scalar,
    yr: Scalar,
    dr1: Scalar,
    dr2: Scalar,
    ar: Scalar,
    br: Scalar,
    wr: Scalar,
) -> (parts: (
    G1Projective,
    G1Projective,
    G1Projective,
    G1Projective,
    G1Projective,
    G1Projective,
    G1Projective,
    Scalar,
    Scalar,
))
    ensures
        indices_of(parts.0, parts.1, parts.2, parts.3, parts.4, parts.5, parts.6)
            == honest_range_proof(
            scalar_value(a),
            scalar_value(b),
            scalar_value(d),
            scalar_value(yr),
            scalar_value(dr1),
            scalar_value(dr2),
            scalar_value(ar),
            scalar_value(br),
            scalar_value(wr),
        ),
        parts.7 == ar,
        parts.8 == br,
{
    let y: G1Projective = commitment(scalar_sub(&a, &d), yr);
    let d_point: G1Projective = g1_add(&commitment(d, dr1), &commitment(d, dr2));

    let a_point: G1Projective = commitment(a, ar);
    let b_point: G1Projective = commitment(b, br);
    let w: G1Projective = commitment(scalar_sub(&d, &b), wr);

    let p: G1Projective = commitment(scalar_from_u64(0), scalar_add(&scalar_add(&ar, &br), &wr));
    let l: G1Projective = commitment(scalar_from_u64(0), scalar_add(&scalar_add(&yr, &dr1), &dr2));

    (y, d_point, p, a_point, b_point, w, l, ar, br)
}

/// Builds a range proof for endpoints `a`, `b` and secret `d` with six fresh
/// random blinding factors. Returns the points `Y, D, P, A, B, W, L` and the
/// blindings `ar`, `br` of the endpoint commitments `A` and `B`, which serve
/// as the secrets of the two Schnorr proofs that go with the range proof.
///
/// Whatever the blindings are, the seven points pass `prove_range`.
pub fn create_range_proof(a: Scalar, b: Scalar, d: Scalar) -> (parts: (
    G1Projective,
    G1Projective,
    G1Projective,
    G1Projective,
    G1Projective,
    G1Projective,
    G1Projective,
    Scalar,
    Scalar,
))
    ensures
        is_range_proof(
            scalar_value(a),
            scalar_value(b),
            scalar_value(d),
            scalar_value(parts.7),
            scalar_value(parts.8),
            indices_of(parts.0, parts.1, parts.2, parts.3, parts.4, parts.5, parts.6),
        ),
        g1_index(parts.3) == commit_index(scalar_value(a), scalar_value(parts.7)),
        g1_index(parts.4) == commit_index(scalar_value(b), scalar_value(parts.8)),
        scalar_value(parts.7) < group_order(),
        scalar_value(parts.8) < group_order(),
        range_check(indices_of(parts.0, parts.1, parts.2, parts.3, parts.4, parts.5, parts.6)),
{
    let yr: Scalar = random_scalar();
    let dr1: Scalar = random_scalar();
    let dr2: Scalar = random_scalar();

    let ar: Scalar = random_scalar();
    let br: Scalar = random_scalar();
    let wr: Scalar = random_scalar();

    let parts = create_range_proof_with_blinding(a, b, d, yr, dr1, dr2, ar, br, wr);
    proof {
        lemma_range_complete(
            scalar_value(a),
            scalar_value(b),
            scalar_value(d),
            scalar_value(yr),
            scalar_value(dr1),
            scalar_value(dr2),
            scalar_value(ar),
            scalar_value(br),
            scalar_value(wr),
        );
        assert(indices_of(parts.0, parts.1, parts.2, parts.3, parts.4, parts.5, parts.6)
            == honest_range_proof(
            scalar_value(a),
            scalar_value(b),
            scalar_value(d),
            scalar_value(yr),
            scalar_value(dr1),
            scalar_value(dr2),
            scalar_value(parts.7),
            scalar_value(parts.8),
            scalar_value(wr),
        ));
    }
    parts
}

/// Performs the pairing check
/// `pairing(y + d + p, q) == pairing(a + b + w + l, q)`.
///
/// Returns true if the proof is valid.
pub fn prove_range(
    y: G1Projective,
    d: G1Projective,
    p: G1Projective,
    a: G1Projective,
    b: G1Projective,
    w: G1Projective,
    l: G1Projective,
) -> (ok: bool)
    ensures
        ok == range_check(indices_of(y, d, p, a, b, w, l)),
{
    let anchor = q();

    let left: G1Projective = g1_add(&g1_add(&y, &d), &p);
    let right: G1Projective = g1_add(&g1_add(&g1_add(&a, &b), &w), &l);

    proof {
        let m = group_order() as int;
        let (yi, di, pi) = (g1_index(y) as int, g1_index(d) as int, g1_index(p) as int);
        let (ai, bi) = (g1_index(a) as int, g1_index(b) as int);
        let (wi, li) = (g1_index(w) as int, g1_index(l) as int);
        lemma_add_mod_noop_right(pi, yi + di, m);
        lemma_add_mod_noop_right(wi, ai + bi, m);
        lemma_add_mod_noop_right(li, ai + bi + wi, m);
        lemma_mod_twice(yi + di + pi, m);
        lemma_mod_twice(ai + bi + wi + li, m);
    }
    gt_eq(&pairing(&left, &anchor), &pairing(&right, &anchor))
}

} // verus!
