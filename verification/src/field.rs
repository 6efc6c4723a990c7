//! The scalar field: integers modulo the prime order of the curve's groups.

use blstrs::Scalar;
use vstd::arithmetic::div_mod::*;
use vstd::prelude::*;

verus! {

/// `blstrs::Scalar`, an element of the scalar field. Its inside is not
/// looked at: `scalar_value` says which residue it is.
#[verifier::external_type_specification]
#[verifier::external_body]
pub struct ExScalar(blstrs::Scalar);

/// The prime order `r` of the groups G1, G2 and Gt, which is the modulus of
/// the scalar field.
pub open spec fn group_order() -> nat {
    0x73eda753299d7d483339d80809a1d80553bda402fffe5bfeffffffff00000001nat
}

/// The integer that a scalar stands for: the residue whose canonical byte
/// encoding `Scalar::to_bytes_le` gives.
pub uninterp spec fn scalar_value(s: Scalar) -> nat;

/// Sum of two residues.
pub open spec fn field_add(a: nat, b: nat) -> nat {
    (a + b) % group_order()
}

/// Difference of two residues.
pub open spec fn field_sub(a: nat, b: nat) -> nat {
    ((a as int - b as int) % (group_order() as int)) as nat
}

/// Product of two residues.
pub open spec fn field_mul(a: nat, b: nat) -> nat {
    (a * b) % group_order()
}

/// Whether two integers are the same residue.
pub open spec fn congruent(x: int, y: int) -> bool {
    x % (group_order() as int) == y % (group_order() as int)
}

/// A residue is congruent to the number it was reduced from.
pub proof fn lemma_congruent_residue(x: int)
    ensures
        congruent(x % (group_order() as int), x),
        0 <= x % (group_order() as int) < group_order(),
{
    lemma_mod_twice(x, group_order() as int);
}

/// Congruences may be added.
pub proof fn lemma_congruent_sum(x1: int, y1: int, x2: int, y2: int)
    requires
        congruent(x1, y1),
        congruent(x2, y2),
    ensures
        congruent(x1 + x2, y1 + y2),
{
    lemma_add_mod_noop(x1, x2, group_order() as int);
    lemma_add_mod_noop(y1, y2, group_order() as int);
}

/// A congruence may be multiplied by a number.
pub proof fn lemma_congruent_scaled(c: int, x: int, y: int)
    requires
        congruent(x, y),
    ensures
        congruent(c * x, c * y),
{
    lemma_mul_mod_noop_right(c, x, group_order() as int);
    lemma_mul_mod_noop_right(c, y, group_order() as int);
}

/// Two residues that are congruent are equal.
pub proof fn lemma_congruent_residues_equal(x: nat, y: nat)
    requires
        x < group_order(),
        y < group_order(),
        congruent(x as int, y as int),
    ensures
        x == y,
{
    lemma_small_mod(x, group_order());
    lemma_small_mod(y, group_order());
}

/// A common summand may be cancelled from a congruence.
pub proof fn lemma_congruent_cancel(x: int, y: int, s: int)
    requires
        congruent(x + s, y + s),
    ensures
        congruent(x, y),
{
    let m = group_order() as int;
    lemma_mod_equivalence(x + s, y + s, m);
    lemma_mod_equivalence(x, y, m);
}

/// The number that a byte string is when read with the first byte as the
/// most significant.
pub open spec fn be_value(bytes: Seq<u8>) -> nat
    decreases bytes.len(),
{
    if bytes.len() == 0 {
        0
    } else {
        256 * be_value(bytes.drop_last()) + bytes.last() as nat
    }
}

/// `256` to the power `n`: the number of byte strings of length `n`.
pub open spec fn byte_power(n: nat) -> nat
    decreases n,
{
    if n == 0 {
        1
    } else {
        256 * byte_power((n - 1) as nat)
    }
}

/// A byte string of length `n` stands for a number below `256^n`.
pub proof fn lemma_be_value_bound(bytes: Seq<u8>)
    ensures
        be_value(bytes) < byte_power(bytes.len()),
    decreases bytes.len(),
{
    if bytes.len() > 0 {
        lemma_be_value_bound(bytes.drop_last());
    }
}

/// Zero bytes in front do not change the number.
pub proof fn lemma_be_value_leading_zeros(n: nat, bytes: Seq<u8>)
    ensures
        be_value(Seq::new(n, |i: int| 0u8) + bytes) == be_value(bytes),
    decreases bytes.len(), n,
{
    let zeros = Seq::new(n, |i: int| 0u8);
    if bytes.len() > 0 {
        assert((zeros + bytes).drop_last() =~= zeros + bytes.drop_last());
        lemma_be_value_leading_zeros(n, bytes.drop_last());
    } else if n > 0 {
        let fewer = Seq::new((n - 1) as nat, |i: int| 0u8);
        assert(zeros + bytes =~= zeros);
        assert(zeros.drop_last() =~= fewer);
        assert(fewer + Seq::<u8>::empty() =~= fewer);
        lemma_be_value_leading_zeros((n - 1) as nat, Seq::<u8>::empty());
    } else {
        assert(zeros + bytes =~= Seq::<u8>::empty());
    }
}

/// Every number of 28 bytes is below the group order, which has 255 bits.
pub proof fn lemma_28_bytes_below_order(bytes: Seq<u8>)
    requires
        bytes.len() == 28,
    ensures
        be_value(bytes) < group_order(),
{
    lemma_be_value_bound(bytes);
    reveal_with_fuel(byte_power, 29);
    assert(byte_power(28) == 0x100000000000000000000000000000000000000000000000000000000nat);
}

/// `Scalar`'s `Add`: addition in the scalar field. The result is reduced.
#[verifier::external_body]
pub(crate) fn scalar_add(a: &Scalar, b: &Scalar) -> (sum: Scalar)
    ensures
        scalar_value(sum) == field_add(scalar_value(*a), scalar_value(*b)),
{
    a + b
}

/// `Scalar`'s `Sub`: subtraction in the scalar field. The result is reduced.
#[verifier::external_body]
pub(crate) fn scalar_sub(a: &Scalar, b: &Scalar) -> (difference: Scalar)
    ensures
        scalar_value(difference) == field_sub(scalar_value(*a), scalar_value(*b)),
{
    a - b
}

/// `Scalar`'s `Mul`: multiplication in the scalar field. The result is
/// reduced.
#[verifier::external_body]
pub(crate) fn scalar_mul(a: &Scalar, b: &Scalar) -> (product: Scalar)
    ensures
        scalar_value(product) == field_mul(scalar_value(*a), scalar_value(*b)),
{
    a * b
}

/// `Scalar::from(u64)`: the scalar that stands for the given integer, which
/// is below the modulus.
#[verifier::external_body]
pub(crate) fn scalar_from_u64(x: u64) -> (s: Scalar)
    ensures
        scalar_value(s) == x,
{
    Scalar::from(x)
}

/// `Scalar::from_bytes_be`: the scalar that stands for the big-endian number
/// in the 32 bytes, where that number is below the modulus; `None` otherwise.
#[verifier::external_body]
pub(crate) fn scalar_from_bytes_be(bytes: &[u8; 32]) -> (s: Option<Scalar>)
    ensures
        s is Some <==> be_value(bytes@) < group_order(),
        s is Some ==> scalar_value(s.unwrap()) == be_value(bytes@),
{
    Scalar::from_bytes_be(bytes).into()
}

} // verus!
