//! What holds of the commitment algebra and of the signing protocol, for
//! every input. Each law is proved from the contracts of the functions it
//! speaks of.

use vstd::prelude::*;
use crate::blinding::combined;
use crate::blinding::excess;
use crate::blinding::lemma_total_concat;
use crate::blinding::lemma_unit_sum;
use crate::blinding::total;
use crate::blinding::unit_sum;
use crate::commitment::exponent_sum;
use crate::commitment::net_exponent;
use crate::commitment::pedersen;
use crate::commitment::point_add;
use crate::commitment::value_generator;
use crate::commitment::Commitment;
use crate::commitment::VALUE_GENERATOR;
use crate::error::Error;
use crate::field::congruent;
use crate::field::field_add;
use crate::field::field_mul;
use crate::field::field_sub;
use crate::field::group_order;
use crate::field::lemma_congruent;
use crate::field::lemma_congruent_add;
use crate::field::lemma_congruent_cancel;
use crate::field::lemma_congruent_chain;
use crate::field::lemma_congruent_flip;
use crate::field::lemma_congruent_mul;
use crate::field::lemma_congruent_reduce;
use crate::field::lemma_congruent_reduced;
use crate::field::lemma_congruent_sub;
use crate::field::lemma_field_sub;
use crate::scalar::Scalar;
use crate::signature::partial;
use crate::signature::partial_verdict;
use crate::signature::signature_holds;
use crate::transfer::finalize_verdict;
use crate::transfer::is_proposal;
use crate::transfer::is_response;
use crate::transfer::Message;
use crate::transfer::Response;

verus! {

/// Blinding factors add as the numbers of units they are made of: `i` units
/// plus `j` units are `i + j` units.
pub proof fn law_blinding_additive(i: nat, j: nat)
    ensures
        field_add(unit_sum(i), unit_sum(j)) == unit_sum(i + j),
{
    lemma_unit_sum(i);
    lemma_unit_sum(j);
    lemma_unit_sum(i + j);
}

/// Combining is associative: the factors of two lists put together combine
/// to the sum of what each list combines to.
pub proof fn law_combine_associative(a: Seq<Scalar>, b: Seq<Scalar>)
    ensures
        combined(a + b) == field_add(combined(a), combined(b)),
{
    lemma_total_concat(a, b);
}

/// Combining is commutative: two lists put together combine to the same in
/// either order.
pub proof fn law_combine_commutative(a: Seq<Scalar>, b: Seq<Scalar>)
    ensures
        combined(a + b) == combined(b + a),
{
    lemma_total_concat(a, b);
    lemma_total_concat(b, a);
}

/// Commitments add as what they commit to: the sum of the commitments to
/// `(v1, b1)` and to `(v2, b2)` is the commitment to `(v1 + v2, b1 + b2)`.
pub proof fn law_commitments_add(v1: nat, b1: nat, v2: nat, b2: nat)
    ensures
        point_add(pedersen(v1, b1), pedersen(v2, b2)) == pedersen(v1 + v2, field_add(b1, b2)),
{
    let h = value_generator();
    assert((v1 + v2) * h == v1 * h + v2 * h) by (nonlinear_arith);
}

/// A commitment to the value zero is the lift of its blinding factor.
pub proof fn law_zero_value_is_lift(blinding: nat)
    ensures
        pedersen(0, blinding) == blinding % group_order(),
{
    assert(0 * value_generator() == 0) by (nonlinear_arith);
}

/// The sum of a sequence of amounts.
pub open spec fn value_sum(values: Seq<u64>) -> nat
    decreases values.len(),
{
    if values.len() == 0 {
        0
    } else {
        value_sum(values.drop_last()) + values.last() as nat
    }
}

/// Whether each commitment of a sequence commits to the amount and under
/// the blinding factor at its place.
pub open spec fn opens(points: Seq<Commitment>, values: Seq<u64>, blindings: Seq<Scalar>) -> bool {
    &&& points.len() == values.len()
    &&& points.len() == blindings.len()
    &&& forall|i: int|
        0 <= i < points.len() ==> (#[trigger] points[i]).point() == pedersen(
            values[i] as nat,
            blindings[i]@,
        )
}

/// Commitments sum, up to multiples of the group order, to the sum of
/// their amounts times `H` plus the sum of their blinding factors.
pub proof fn lemma_sum_of_openings(
    points: Seq<Commitment>,
    values: Seq<u64>,
    blindings: Seq<Scalar>,
)
    requires
        opens(points, values, blindings),
    ensures
        (exponent_sum(points) - (value_sum(values) * value_generator() + total(blindings))) % (
        group_order() as int) == 0,
    decreases points.len(),
{
    let h = value_generator();
    let n = group_order() as int;
    if points.len() == 0 {
        assert(value_sum(values) * h == 0) by (nonlinear_arith)
            requires
                value_sum(values) == 0,
        ;
    } else {
        let last = points.len() - 1;
        let v = values[last] as nat;
        let b = blindings[last]@;
        let fewer = value_sum(values.drop_last());
        assert(opens(points.drop_last(), values.drop_last(), blindings.drop_last())) by {
            assert forall|i: int| 0 <= i < last implies (#[trigger] points.drop_last()[i]).point()
                == pedersen(values.drop_last()[i] as nat, blindings.drop_last()[i]@) by {
                assert(points.drop_last()[i] == points[i]);
            }
        }
        lemma_sum_of_openings(points.drop_last(), values.drop_last(), blindings.drop_last());
        assert(points[last].point() == (v * h + b) % group_order());
        assert(exponent_sum(points) == exponent_sum(points.drop_last()) + points[last].point());
        assert(total(blindings) == total(blindings.drop_last()) + b);
        assert(value_sum(values) * h == fewer * h + v * h) by (nonlinear_arith)
            requires
                value_sum(values) == fewer + v,
        ;
        let rest = exponent_sum(points.drop_last()) - (fewer * h + total(blindings.drop_last()));
        let step = (v * h + b) % group_order() - (v * h + b);
        assert(rest % n == 0);
        assert(step % n == 0);
        assert(exponent_sum(points) - (value_sum(values) * h + total(blindings)) == rest + step);
    }
}

/// Where the outputs commit to amounts that sum to what the inputs' amounts
/// sum to, the outputs less the inputs are the commitment to zero under the
/// excess blinding factor: the lift of that factor.
pub proof fn law_balanced_excess(
    outputs: Seq<Commitment>,
    out_values: Seq<u64>,
    out_blindings: Seq<Scalar>,
    inputs: Seq<Commitment>,
    in_values: Seq<u64>,
    in_blindings: Seq<Scalar>,
)
    requires
        opens(outputs, out_values, out_blindings),
        opens(inputs, in_values, in_blindings),
        value_sum(out_values) == value_sum(in_values),
    ensures
        net_exponent(outputs, inputs) == pedersen(0, excess(out_blindings, in_blindings)),
        net_exponent(outputs, inputs) == excess(out_blindings, in_blindings),
{
    lemma_sum_of_openings(outputs, out_values, out_blindings);
    lemma_sum_of_openings(inputs, in_values, in_blindings);
    law_zero_value_is_lift(excess(out_blindings, in_blindings));
}

/// Where the outputs' amounts sum to one more or one less than the inputs'
/// amounts, the outputs less the inputs are not the lift of the excess
/// blinding factor, so the balance check fails.
pub proof fn law_off_by_one_unbalanced(
    outputs: Seq<Commitment>,
    out_values: Seq<u64>,
    out_blindings: Seq<Scalar>,
    inputs: Seq<Commitment>,
    in_values: Seq<u64>,
    in_blindings: Seq<Scalar>,
)
    requires
        Commitment(VALUE_GENERATOR).is_point(),
        opens(outputs, out_values, out_blindings),
        opens(inputs, in_values, in_blindings),
        value_sum(out_values) == value_sum(in_values) + 1 || value_sum(out_values) + 1
            == value_sum(in_values),
    ensures
        net_exponent(outputs, inputs) != excess(out_blindings, in_blindings),
{
    let h = value_generator();
    lemma_sum_of_openings(outputs, out_values, out_blindings);
    lemma_sum_of_openings(inputs, in_values, in_blindings);
    assert((value_sum(in_values) + 1) * h == value_sum(in_values) * h + h) by (nonlinear_arith);
    assert((value_sum(out_values) + 1) * h == value_sum(out_values) * h + h)
        by (nonlinear_arith);
}

/// A partial signature made as `nonce + challenge * blinding` passes the
/// check against the lifts of its nonce and of its blinding factor.
pub proof fn law_partial_signature_holds(
    nonce: nat,
    blinding: nat,
    challenge: nat,
    nonce_lift: Commitment,
    blinding_lift: Commitment,
)
    requires
        nonce_lift.is_point(),
        nonce_lift.point() == nonce,
        blinding_lift.is_point(),
        blinding_lift.point() == blinding,
    ensures
        signature_holds(partial(nonce, challenge, blinding), nonce, blinding, challenge),
        partial_verdict(partial(nonce, challenge, blinding), nonce_lift, blinding_lift, challenge)
            == Ok::<(), Error>(()),
{
}

/// Where one signature passes the check, no other scalar passes it against
/// the same nonce, key and challenge.
pub proof fn law_other_signature_rejected(
    signature: Scalar,
    other: Scalar,
    nonce: Commitment,
    blinding: Commitment,
    challenge: nat,
)
    requires
        signature.in_field(),
        other.in_field(),
        nonce.is_point(),
        blinding.is_point(),
        partial_verdict(signature@, nonce, blinding, challenge) is Ok,
        other@ != signature@,
    ensures
        partial_verdict(other@, nonce, blinding, challenge) == Err::<(), Error>(
            Error::InvalidPartialSignature,
        ),
{
    signature.lemma_below_order();
    other.lemma_below_order();
}

/// Where a signature passes the check against one nonce, it fails against
/// every other point in the nonce's place.
pub proof fn law_other_nonce_rejected(
    signature: nat,
    nonce: Commitment,
    other: Commitment,
    blinding: Commitment,
    challenge: nat,
)
    requires
        nonce.is_point(),
        other.is_point(),
        blinding.is_point(),
        partial_verdict(signature, nonce, blinding, challenge) is Ok,
        other.point() != nonce.point(),
    ensures
        partial_verdict(signature, other, blinding, challenge) == Err::<(), Error>(
            Error::InvalidPartialSignature,
        ),
{
}

/// Where a signature passes the check against one key, it fails against
/// every other point in the key's place, provided that the challenge has
/// an inverse in the field.
pub proof fn law_other_key_rejected(
    signature: nat,
    nonce: Commitment,
    blinding: Commitment,
    other: Commitment,
    challenge: nat,
    inverse: nat,
)
    requires
        nonce.is_point(),
        blinding.is_point(),
        other.is_point(),
        partial_verdict(signature, nonce, blinding, challenge) is Ok,
        other.point() != blinding.point(),
        field_mul(challenge, inverse) == 1,
    ensures
        partial_verdict(signature, nonce, other, challenge) == Err::<(), Error>(
            Error::InvalidPartialSignature,
        ),
{
    let k = nonce.point() as int;
    let e = challenge as int;
    let b = blinding.point() as int;
    let c = other.point() as int;
    if signature_holds(signature, nonce.point(), other.point(), challenge) {
        lemma_congruent(signature as int, k + e * b);
        lemma_congruent(signature as int, k + e * c);
        lemma_congruent_flip(signature as int, k + e * b);
        lemma_congruent_chain(k + e * b, signature as int, k + e * c);
        lemma_congruent(k, k);
        lemma_congruent_sub(k + e * b, k + e * c, k, k);
        lemma_congruent((e * inverse) as int, 1);
        lemma_congruent_cancel(e, inverse as int, b, c);
        lemma_congruent_reduced(b, c);
    }
}

/// Where a signature passes the check under one challenge, it fails under
/// every other, provided that the key has an inverse in the field.
pub proof fn law_other_challenge_rejected(
    signature: nat,
    nonce: Commitment,
    blinding: Commitment,
    challenge: Scalar,
    other: Scalar,
    inverse: nat,
)
    requires
        challenge.in_field(),
        other.in_field(),
        nonce.is_point(),
        blinding.is_point(),
        partial_verdict(signature, nonce, blinding, challenge@) is Ok,
        other@ != challenge@,
        field_mul(blinding.point(), inverse) == 1,
    ensures
        partial_verdict(signature, nonce, blinding, other@) == Err::<(), Error>(
            Error::InvalidPartialSignature,
        ),
{
    challenge.lemma_below_order();
    other.lemma_below_order();
    let k = nonce.point() as int;
    let b = blinding.point() as int;
    let e = challenge@ as int;
    let f = other@ as int;
    if signature_holds(signature, nonce.point(), blinding.point(), other@) {
        lemma_congruent(signature as int, k + e * b);
        lemma_congruent(signature as int, k + f * b);
        lemma_congruent_flip(signature as int, k + e * b);
        lemma_congruent_chain(k + e * b, signature as int, k + f * b);
        lemma_congruent(k, k);
        lemma_congruent_sub(k + e * b, k + f * b, k, k);
        assert(e * b == b * e && f * b == b * f) by (nonlinear_arith);
        lemma_congruent((b * inverse) as int, 1);
        lemma_congruent_cancel(b, inverse as int, e, f);
        lemma_congruent_reduced(e, f);
    }
}

/// A response whose signature was replaced by another scalar stops the
/// transfer at the check of the partial signature: no transaction is
/// assembled.
pub proof fn law_tampered_response_rejected(
    msg: Message,
    resp: Response,
    forged: Response,
    challenge: nat,
    nonce: nat,
    blinding_sum: nat,
)
    requires
        resp.sign.in_field(),
        forged.sign.in_field(),
        partial_verdict(resp.sign@, resp.nonce, resp.blinding, challenge) is Ok,
        forged.nonce == resp.nonce,
        forged.blinding == resp.blinding,
        forged.sign@ != resp.sign@,
    ensures
        finalize_verdict(msg, forged, challenge, nonce, blinding_sum) == Err::<(), Error>(
            Error::InvalidPartialSignature,
        ),
{
    law_other_signature_rejected(resp.sign, forged.sign, resp.nonce, resp.blinding, challenge);
}

/// A commitment is congruent to its amount times `H` plus its blinding
/// factor.
proof fn lemma_pedersen(value: nat, blinding: nat)
    ensures
        congruent(
            pedersen(value, blinding) as int,
            (value * value_generator() + blinding) as int,
        ),
{
    lemma_congruent_reduce((value * value_generator() + blinding) as int);
}

/// The kernel excess of a transfer whose amounts balance is the sum of the
/// two parties' blinding factors, lifted.
proof fn lemma_transfer_excess(
    input_amount: nat,
    input_blinding: nat,
    change_amount: nat,
    change_blinding: nat,
    amount: nat,
    receiver_blinding: nat,
)
    requires
        input_amount == change_amount + amount,
    ensures
        ((pedersen(change_amount, change_blinding) + pedersen(amount, receiver_blinding)
            - pedersen(input_amount, input_blinding)) % (group_order() as int)) as nat
            == field_add(field_sub(change_blinding, input_blinding), receiver_blinding),
{
    let h = value_generator();
    let input = pedersen(input_amount, input_blinding) as int;
    let change = pedersen(change_amount, change_blinding) as int;
    let output = pedersen(amount, receiver_blinding) as int;
    let kept: int = (change_amount * h) as int;
    let sent: int = (amount * h) as int;
    assert(input_amount * h == kept + sent) by (nonlinear_arith)
        requires
            input_amount == change_amount + amount,
            kept == change_amount * h,
            sent == amount * h,
    ;
    let spent: int = field_sub(change_blinding, input_blinding) as int;
    let cb: int = change_blinding as int;
    let ib: int = input_blinding as int;
    let rb: int = receiver_blinding as int;
    lemma_pedersen(input_amount, input_blinding);
    lemma_pedersen(change_amount, change_blinding);
    lemma_pedersen(amount, receiver_blinding);
    lemma_field_sub(change_blinding, input_blinding);
    lemma_congruent_add(change, kept + cb, output, sent + rb);
    lemma_congruent_sub(change + output, kept + cb + sent + rb, input, kept + sent + ib);
    lemma_congruent(rb, rb);
    lemma_congruent_add(spent, cb - ib, rb, rb);
    lemma_congruent_flip(spent + rb, cb - ib + rb);
    lemma_congruent_chain(change + output - input, cb - ib + rb, spent + rb);
    lemma_congruent(change + output - input, spent + rb);
}

/// The sum of two honest partial signatures holds against the sum of the
/// nonces and the sum of the blinding factors.
proof fn lemma_aggregate_holds(
    own_nonce: nat,
    own_blinding: nat,
    other_nonce: nat,
    other_blinding: nat,
    challenge: nat,
)
    ensures
        signature_holds(
            field_add(
                partial(other_nonce, challenge, other_blinding),
                partial(own_nonce, challenge, own_blinding),
            ),
            point_add(other_nonce, own_nonce),
            field_add(own_blinding, other_blinding),
            challenge,
        ),
{
    let e = challenge as int;
    let own: int = e * own_blinding;
    let other: int = e * other_blinding;
    let excess = field_add(own_blinding, other_blinding) as int;
    let nonces = point_add(other_nonce, own_nonce) as int;
    let first = partial(other_nonce, challenge, other_blinding) as int;
    let second = partial(own_nonce, challenge, own_blinding) as int;
    let signature = field_add(first as nat, second as nat) as int;
    assert(e * (own_blinding + other_blinding) == own + other) by (nonlinear_arith)
        requires
            own == e * own_blinding,
            other == e * other_blinding,
    ;
    lemma_congruent_reduce((own_blinding + other_blinding) as int);
    lemma_congruent_mul(e, excess, (own_blinding + other_blinding) as int);
    lemma_congruent_reduce((other_nonce + own_nonce) as int);
    lemma_congruent_add(nonces, (other_nonce + own_nonce) as int, e * excess, own + other);
    lemma_congruent_reduce(other_nonce + other);
    lemma_congruent_reduce(own_nonce + own);
    lemma_congruent_add(first, other_nonce + other, second, own_nonce + own);
    lemma_congruent_reduce(first + second);
    lemma_congruent_chain(signature, first + second, other_nonce + other + own_nonce + own);
    lemma_congruent_flip(nonces + e * excess, other_nonce + own_nonce + own + other);
    lemma_congruent_chain(
        signature,
        other_nonce + own_nonce + own + other,
        nonces + e * excess,
    );
    lemma_congruent(signature, nonces + e * excess);
}

/// A transfer between two parties who follow the protocol goes through:
/// where the proposal and the response were made as the protocol says, the
/// input's amount is the change's plus the transferred amount, and neither
/// the two nonces nor the two parties' blinding factors sum to zero,
/// finalizing passes every check.
pub proof fn law_honest_transfer_finalizes(
    msg: Message,
    blinding_sum: nat,
    resp: Response,
    challenge: nat,
    input_amount: u64,
    input_blinding: nat,
    change_amount: u64,
    change_blinding: nat,
    own_nonce: nat,
    receiver_blinding: nat,
    receiver_nonce: nat,
)
    requires
        is_proposal(
            msg,
            blinding_sum,
            msg.amount,
            input_amount,
            input_blinding,
            change_amount,
            change_blinding,
            own_nonce,
        ),
        is_response(resp, msg.amount, challenge, receiver_blinding, receiver_nonce),
        input_amount == change_amount + msg.amount,
        point_add(receiver_nonce, own_nonce) != 0,
        field_add(blinding_sum, receiver_blinding) != 0,
    ensures
        finalize_verdict(msg, resp, challenge, own_nonce, blinding_sum) == Ok::<(), Error>(()),
{
    let inputs = seq![msg.input];
    let outputs = seq![msg.change_output, resp.output];
    assert(exponent_sum(inputs) == msg.input.point()) by {
        assert(inputs.drop_last() =~= Seq::empty());
        reveal_with_fuel(exponent_sum, 2);
    }
    assert(exponent_sum(outputs) == msg.change_output.point() + resp.output.point()) by {
        assert(outputs.drop_last() =~= seq![msg.change_output]);
        assert(outputs.drop_last().drop_last() =~= Seq::empty());
        reveal_with_fuel(exponent_sum, 3);
    }
    lemma_transfer_excess(
        input_amount as nat,
        input_blinding,
        change_amount as nat,
        change_blinding,
        msg.amount as nat,
        receiver_blinding,
    );
    lemma_aggregate_holds(own_nonce, blinding_sum, receiver_nonce, receiver_blinding, challenge);
}

} // verus!
