//! Pedersen-style commitments in G1.

use crate::constants::{g, g_index, h, h_index};
use crate::curve::{g1_add, g1_index, g1_mul};
use crate::field::{
    congruent, field_add, field_mul, field_sub, group_order, lemma_congruent_cancel,
    lemma_congruent_residue, lemma_congruent_residues_equal, lemma_congruent_scaled,
    lemma_congruent_sum, scalar_value,
};
use blstrs::{G1Projective, Scalar};
use vstd::arithmetic::div_mod::*;
use vstd::prelude::*;

verus! {

/// The index of the commitment to value `v` under blinding `r`: the point
/// `h * v + g * r`.
pub open spec fn commit_index(v: nat, r: nat) -> nat {
    (h_index() * v + g_index() * r) % group_order()
}

/// A commitment's index is congruent to twice the value plus the blinding,
/// taken in any numbers that value and blinding are congruent to.
pub proof fn lemma_commit_congruent(v: nat, r: nat, v0: int, r0: int)
    requires
        congruent(v as int, v0),
        congruent(r as int, r0),
    ensures
        congruent(commit_index(v, r) as int, 2 * v0 + r0),
        commit_index(v, r) < group_order(),
{
    let vi = v as int;
    let ri = r as int;
    lemma_congruent_scaled(2, vi, v0);
    lemma_congruent_sum(2 * vi, 2 * v0, ri, r0);
    lemma_congruent_residue(2 * vi + ri);
}

/// Homomorphism: the sum of two commitments is the commitment to the sum of
/// the values under the sum of the blindings.
pub proof fn lemma_commit_homomorphic(v1: nat, r1: nat, v2: nat, r2: nat)
    ensures
        field_add(commit_index(v1, r1), commit_index(v2, r2)) == commit_index(
            field_add(v1, v2),
            field_add(r1, r2),
        ),
{
    let c1 = commit_index(v1, r1) as int;
    let c2 = commit_index(v2, r2) as int;
    let (a1, b1, a2, b2) = (v1 as int, r1 as int, v2 as int, r2 as int);
    lemma_commit_congruent(v1, r1, a1, b1);
    lemma_commit_congruent(v2, r2, a2, b2);
    lemma_congruent_sum(c1, 2 * a1 + b1, c2, 2 * a2 + b2);
    lemma_congruent_residue(c1 + c2);
    lemma_congruent_residue(a1 + a2);
    lemma_congruent_residue(b1 + b2);
    lemma_commit_congruent(field_add(v1, v2), field_add(r1, r2), a1 + a2, b1 + b2);
    lemma_congruent_residues_equal(
        field_add(commit_index(v1, r1), commit_index(v2, r2)),
        commit_index(field_add(v1, v2), field_add(r1, r2)),
    );
}

/// The commitments to zero under the blindings one and two are the two fixed
/// points: `g`, and `h = g + g`.
pub proof fn lemma_commit_fixed_points()
    ensures
        commit_index(0, 0) == 0,
        commit_index(0, 1) == g_index(),
        commit_index(0, 2) == h_index(),
        h_index() == field_add(g_index(), g_index()),
{
    lemma_small_mod(0, group_order());
    lemma_small_mod(1, group_order());
    lemma_small_mod(2, group_order());
}

/// Hiding: every point of G1 is a commitment to every value, under the
/// blinding that makes up the difference. A commitment alone says nothing of
/// the value.
pub proof fn lemma_commit_hiding(c: nat, v: nat)
    requires
        c < group_order(),
    ensures
        field_sub(c, field_mul(2, v)) < group_order(),
        commit_index(v, field_sub(c, field_mul(2, v))) == c,
{
    let twice = 2 * (v as int);
    let reduced = field_mul(2, v) as int;
    let r = field_sub(c, field_mul(2, v));
    lemma_congruent_residue(twice);
    lemma_congruent_residue(c - reduced);
    lemma_congruent_scaled(-1, reduced, twice);
    lemma_congruent_sum(c as int, c as int, -reduced, -twice);
    assert(congruent(r as int, c - twice));
    lemma_commit_congruent(v, r, v as int, c - twice);
    lemma_congruent_residues_equal(commit_index(v, r), c);
}

/// A commitment is the identity exactly when the blinding is the negative of
/// twice the value.
pub proof fn lemma_commit_identity_blinding(v: nat, r: nat)
    requires
        r < group_order(),
    ensures
        commit_index(v, r) == 0 <==> r == field_sub(0, field_mul(2, v)),
{
    let twice = 2 * (v as int);
    let reduced = field_mul(2, v) as int;
    let neg = field_sub(0, field_mul(2, v));
    lemma_congruent_residue(twice);
    lemma_congruent_residue(0 - reduced);
    lemma_congruent_scaled(-1, reduced, twice);
    assert(congruent(neg as int, -twice));
    lemma_congruent_sum(neg as int, -twice, twice, twice);
    assert(congruent(neg as int + twice, 0));
    lemma_small_mod(0, group_order());
    if commit_index(v, r) == 0 {
        assert(congruent(r as int + twice, neg as int + twice));
        lemma_congruent_cancel(r as int, neg as int, twice);
        lemma_congruent_residues_equal(r, neg);
    }
}

/// A commitment to a reduced value under a reduced blinding is the identity
/// exactly when both are zero, as long as the blinding does not cancel a
/// value that is not zero.
pub proof fn lemma_commit_identity(v: nat, r: nat)
    requires
        v < group_order(),
        r < group_order(),
        v == 0 || (2 * v + r) % group_order() != 0,
    ensures
        commit_index(v, r) == 0 <==> (v == 0 && r == 0),
{
    lemma_small_mod(r, group_order());
}

/// Commits to `v` under the blinding factor `r`: `h * v + g * r`.
pub fn commitment(v: Scalar, r: Scalar) -> (c: G1Projective)
    ensures
        g1_index(c) == commit_index(scalar_value(v), scalar_value(r)),
{
    let hv = g1_mul(&h(), &v);
    let gr = g1_mul(&g(), &r);
    proof {
        let m = group_order() as int;
        let x = (2 * scalar_value(v)) as int;
        let y = scalar_value(r) as int;
        lemma_add_mod_noop(x, y, m);
    }
    g1_add(&hv, &gr)
}

} // verus!
