//! Blinding factors: how they are made, combined over the inputs and outputs
//! of a transfer, and turned into commitments.

use vstd::prelude::*;
use crate::commitment::all_points;
use crate::commitment::commit_point;
use crate::commitment::lift;
use crate::commitment::net_exponent;
use crate::commitment::pedersen;
use crate::commitment::same_point;
use crate::commitment::sum_points;
use crate::commitment::Commitment;
use crate::context::Curve;
use crate::error::Error;
use crate::field::field_add;
use crate::field::field_sub;
use crate::field::group_order;
use crate::field::lemma_congruent;
use crate::field::lemma_congruent_add;
use crate::field::lemma_congruent_chain;
use crate::field::lemma_congruent_reduce;
use crate::field::lemma_congruent_reduced;
use crate::field::lemma_field_sub;
use crate::scalar::Scalar;

verus! {

/// The unit of the field summed `count` times.
pub open spec fn unit_sum(count: nat) -> nat
    decreases count,
{
    if count == 0 {
        0
    } else {
        field_add(unit_sum((count - 1) as nat), 1)
    }
}

/// Summing the unit `count` times gives `count`, reduced.
pub proof fn lemma_unit_sum(count: nat)
    ensures
        unit_sum(count) == count % group_order(),
    decreases count,
{
    if count > 0 {
        lemma_unit_sum((count - 1) as nat);
    }
}

/// The sum of the factors as integers, not reduced.
pub open spec fn total(factors: Seq<Scalar>) -> nat
    decreases factors.len(),
{
    if factors.len() == 0 {
        0
    } else {
        total(factors.drop_last()) + factors.last()@
    }
}

/// Two sequences put together sum to the sum of their sums.
pub proof fn lemma_total_concat(a: Seq<Scalar>, b: Seq<Scalar>)
    ensures
        total(a + b) == total(a) + total(b),
    decreases b.len(),
{
    if b.len() == 0 {
        assert(a + b =~= a);
    } else {
        assert((a + b).drop_last() =~= a + b.drop_last());
        lemma_total_concat(a, b.drop_last());
    }
}

/// The sum of the factors in the field. The order of the factors and the
/// way they are grouped do not matter to it.
pub open spec fn combined(factors: Seq<Scalar>) -> nat {
    total(factors) % group_order()
}

/// The excess blinding factor: the sum over the outputs less the sum over
/// the inputs, in the field.
pub open spec fn excess(outputs: Seq<Scalar>, inputs: Seq<Scalar>) -> nat {
    ((total(outputs) - total(inputs)) % (group_order() as int)) as nat
}

/// The blinding factor that is `i` units.
pub fn blinding(secp: &Curve, i: u64) -> (sum: Scalar)
    ensures
        sum@ == unit_sum(i as nat),
        sum@ == i,
{
    let one = Scalar::one();
    let mut sum = Scalar::zero();
    for k in 0..i
        invariant
            one@ == 1,
            sum@ == unit_sum(k as nat),
    {
        sum = sum.add(secp, &one);
    }
    proof {
        lemma_unit_sum(i as nat);
    }
    sum
}

/// The sum of two blinding factors.
pub fn add_blinding(secp: &Curve, a: &Scalar, b: &Scalar) -> (sum: Scalar)
    ensures
        sum@ == field_add(a@, b@),
{
    a.add(secp, b)
}

/// The sum of any number of blinding factors; of none, zero.
pub fn combine(secp: &Curve, factors: &Vec<Scalar>) -> (sum: Scalar)
    ensures
        sum@ == combined(factors@),
{
    let mut sum = Scalar::zero();
    let mut i: usize = 0;
    while i < factors.len()
        invariant
            0 <= i <= factors.len(),
            sum@ == combined(factors@.take(i as int)),
        decreases factors.len() - i,
    {
        proof {
            assert(factors@.take(i + 1).drop_last() =~= factors@.take(i as int));
        }
        sum = sum.add(secp, &factors[i]);
        i += 1;
    }
    proof {
        assert(factors@.take(i as int) =~= factors@);
    }
    sum
}

/// The excess blinding factor of a transfer: what the outputs' blinding
/// factors sum to, less what the inputs' sum to.
pub fn excess_blinding(secp: &Curve, outputs: &Vec<Scalar>, inputs: &Vec<Scalar>) -> (net: Scalar)
    ensures
        net@ == excess(outputs@, inputs@),
{
    let gained = combine(secp, outputs);
    let spent = combine(secp, inputs);
    gained.sub(secp, &spent)
}

/// Splits a blinding factor in two: given the whole and one part, the other
/// part, which sums with the first to the whole.
pub fn split_blinding(secp: &Curve, whole: &Scalar, part: &Scalar) -> (rest: Scalar)
    ensures
        rest@ == field_sub(whole@, part@),
        field_add(part@, rest@) == whole@,
{
    let rest = whole.sub(secp, part);
    proof {
        use_type_invariant(whole);
        whole.lemma_below_order();
        let p = part@ as int;
        let r = rest@ as int;
        let w = whole@ as int;
        let sum = field_add(part@, rest@) as int;
        lemma_field_sub(whole@, part@);
        lemma_congruent(p, p);
        lemma_congruent_add(p, p, r, w - p);
        lemma_congruent_reduce(p + r);
        lemma_congruent_chain(sum, p + r, w);
        lemma_congruent_reduced(sum, w);
    }
    rest
}

/// The commitment to a value under a blinding factor. Refused where the
/// point is the neutral element, which has no encoding.
pub fn commit(secp: &Curve, value: u64, blinding: &Scalar) -> (r: Result<Commitment, Error>)
    ensures
        r is Ok <==> pedersen(value as nat, blinding@) != 0,
        r matches Ok(c) ==> c.is_point() && c.point() == pedersen(value as nat, blinding@),
        r matches Err(e) ==> e == Error::InvalidCommitment,
{
    match commit_point(secp, value, blinding) {
        Some(c) => Ok(c),
        None => Err(Error::InvalidCommitment),
    }
}

/// The commitment to the value zero under a blinding factor: the blinding
/// factor lifted to the curve. Refused where the blinding factor is zero.
pub fn commit_to_zero(secp: &Curve, blinding: &Scalar) -> (r: Result<Commitment, Error>)
    ensures
        r is Ok <==> blinding@ != 0,
        r matches Ok(c) ==> c.is_point() && c.point() == blinding@,
        r matches Err(e) ==> e == Error::InvalidCommitment,
{
    match lift(secp, blinding) {
        Some(c) => Ok(c),
        None => Err(Error::InvalidCommitment),
    }
}

/// Whether the outputs less the inputs are the commitment to zero under the
/// claimed excess blinding factor: the check that no value was made or lost.
pub fn verify_balance(
    secp: &Curve,
    outputs: &Vec<Commitment>,
    inputs: &Vec<Commitment>,
    claimed: &Scalar,
) -> (r: Result<(), Error>)
    ensures
        r == (if !(all_points(outputs@) && all_points(inputs@)) {
            Err::<(), Error>(Error::InvalidCommitment)
        } else if net_exponent(outputs@, inputs@) != claimed@ {
            Err(Error::BalanceViolation)
        } else {
            Ok(())
        }),
{
    let net = sum_points(secp, outputs, inputs)?;
    let lifted = lift(secp, claimed);
    if same_point(&net, &lifted) {
        Ok(())
    } else {
        Err(Error::BalanceViolation)
    }
}

} // verus!
