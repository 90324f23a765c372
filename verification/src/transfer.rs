//! The two messages of a transfer and the three steps that make them: the
//! initiator proposes, the receiver responds, the initiator finalizes.
//!
//! No step draws a secret: blinding factors and nonces are handed in, so
//! that the caller decides where they come from.

use vstd::prelude::*;
use crate::blinding::commit;
use crate::blinding::commit_to_zero;
use crate::commitment::all_points;
use crate::commitment::net_exponent;
use crate::commitment::pedersen;
use crate::commitment::point_add;
use crate::commitment::Commitment;
use crate::context::Curve;
use crate::error::Error;
use crate::field::field_add;
use crate::field::field_sub;
use crate::kernel::transaction_verdict;
use crate::kernel::verify_transaction;
use crate::kernel::Transaction;
use crate::scalar::Scalar;
use crate::signature::aggregate;
use crate::signature::partial;
use crate::signature::partial_signature;
use crate::signature::partial_verdict;
use crate::signature::signature_holds;
use crate::signature::verify_partial_signature;

verus! {

/// The initiator's proposal.
#[derive(Clone, Copy, Debug, PartialEq, Eq)]
pub struct Message {
    /// The amount to transfer.
    pub amount: u64,
    /// The commitment that the initiator spends.
    pub input: Commitment,
    /// The commitment to what the initiator keeps.
    pub change_output: Commitment,
    /// The lift of the initiator's nonce.
    pub nonce: Commitment,
    /// The lift of the initiator's excess blinding factor: the change's
    /// blinding factor less the input's.
    pub sum_of_bliding_factors: Commitment,
}

/// The receiver's answer.
#[derive(Clone, Copy, Debug, PartialEq, Eq)]
pub struct Response {
    /// The receiver's partial signature.
    pub sign: Scalar,
    /// The lift of the receiver's nonce.
    pub nonce: Commitment,
    /// The lift of the receiver's blinding factor.
    pub blinding: Commitment,
    /// The commitment to the amount received.
    pub output: Commitment,
}

/// Whether a message is the proposal for the given amounts and secrets,
/// and `blinding_sum` the excess blinding factor that goes with it.
pub open spec fn is_proposal(
    msg: Message,
    blinding_sum: nat,
    amount: u64,
    input_amount: u64,
    input_blinding: nat,
    change_amount: u64,
    change_blinding: nat,
    nonce: nat,
) -> bool {
    &&& msg.amount == amount
    &&& msg.input.is_point()
    &&& msg.input.point() == pedersen(input_amount as nat, input_blinding)
    &&& msg.change_output.is_point()
    &&& msg.change_output.point() == pedersen(change_amount as nat, change_blinding)
    &&& msg.nonce.is_point()
    &&& msg.nonce.point() == nonce
    &&& blinding_sum == field_sub(change_blinding, input_blinding)
    &&& msg.sum_of_bliding_factors.is_point()
    &&& msg.sum_of_bliding_factors.point() == blinding_sum
}

/// Whether a response is the answer to a proposal of `amount` under the
/// given challenge and secrets.
pub open spec fn is_response(
    resp: Response,
    amount: u64,
    challenge: nat,
    blinding: nat,
    nonce: nat,
) -> bool {
    &&& resp.sign@ == partial(nonce, challenge, blinding)
    &&& resp.nonce.is_point()
    &&& resp.nonce.point() == nonce
    &&& resp.blinding.is_point()
    &&& resp.blinding.point() == blinding
    &&& resp.output.is_point()
    &&& resp.output.point() == pedersen(amount as nat, blinding)
}

/// The aggregate signature scalar that finalizing arrives at.
pub open spec fn final_signature(resp: Response, challenge: nat, nonce: nat, blinding_sum: nat) -> nat {
    field_add(resp.sign@, partial(nonce, challenge, blinding_sum))
}

/// What finalizing answers: the first check that fails, in the order in
/// which the checks are made.
pub open spec fn finalize_verdict(
    msg: Message,
    resp: Response,
    challenge: nat,
    nonce: nat,
    blinding_sum: nat,
) -> Result<(), Error> {
    let checked = partial_verdict(resp.sign@, resp.nonce, resp.blinding, challenge);
    let nonces = point_add(resp.nonce.point(), msg.nonce.point());
    let inputs = seq![msg.input];
    let outputs = seq![msg.change_output, resp.output];
    let excess = net_exponent(outputs, inputs);
    if checked is Err {
        checked
    } else if !(msg.nonce.is_point() && nonces != 0) {
        Err(Error::InvalidCommitment)
    } else if !(all_points(outputs) && all_points(inputs) && excess != 0) {
        Err(Error::InvalidCommitment)
    } else if !signature_holds(
        final_signature(resp, challenge, nonce, blinding_sum),
        nonces,
        excess,
        challenge,
    ) {
        Err(Error::KernelMismatch)
    } else {
        Ok(())
    }
}

/// The initiator's step: commits to the input and to the change, lifts the
/// nonce and the excess blinding factor, and hands back the proposal with
/// that excess blinding factor, which the initiator keeps. Refused where
/// one of the four points is the neutral element.
pub fn propose(
    secp: &Curve,
    amount: u64,
    input_amount: u64,
    input_blinding: &Scalar,
    change_amount: u64,
    change_blinding: &Scalar,
    nonce: &Scalar,
) -> (r: Result<(Message, Scalar), Error>)
    ensures
        r is Ok <==> (pedersen(input_amount as nat, input_blinding@) != 0 && pedersen(
            change_amount as nat,
            change_blinding@,
        ) != 0 && nonce@ != 0 && field_sub(change_blinding@, input_blinding@) != 0),
        r matches Ok(made) ==> is_proposal(
            made.0,
            made.1@,
            amount,
            input_amount,
            input_blinding@,
            change_amount,
            change_blinding@,
            nonce@,
        ),
        r matches Err(e) ==> e == Error::InvalidCommitment,
{
    let input = commit(secp, input_amount, input_blinding)?;
    let change_output = commit(secp, change_amount, change_blinding)?;
    let nonce_commit = commit_to_zero(secp, nonce)?;
    let blinding_sum = change_blinding.sub(secp, input_blinding);
    let sum_of_bliding_factors = commit_to_zero(secp, &blinding_sum)?;
    Ok(
        (
            Message { amount, input, change_output, nonce: nonce_commit, sum_of_bliding_factors },
            blinding_sum,
        ),
    )
}

/// The receiver's step: signs the challenge with its nonce and blinding
/// factor, lifts both, and commits to the amount. Refused where one of the
/// three points is the neutral element.
pub fn respond(
    secp: &Curve,
    msg: &Message,
    challenge: &Scalar,
    blinding: &Scalar,
    nonce: &Scalar,
) -> (r: Result<Response, Error>)
    ensures
        r is Ok <==> (nonce@ != 0 && blinding@ != 0 && pedersen(msg.amount as nat, blinding@)
            != 0),
        r matches Ok(resp) ==> is_response(resp, msg.amount, challenge@, blinding@, nonce@),
        r matches Err(e) ==> e == Error::InvalidCommitment,
{
    let sign = partial_signature(secp, nonce, challenge, blinding);
    let nonce_commit = commit_to_zero(secp, nonce)?;
    let blinding_commit = commit_to_zero(secp, blinding)?;
    let output = commit(secp, msg.amount, blinding)?;
    Ok(Response { sign, nonce: nonce_commit, blinding: blinding_commit, output })
}

/// The initiator's last step: checks the receiver's partial signature,
/// signs with its own nonce and excess blinding factor, sums signatures and
/// nonces, assembles the transaction and checks it. No transaction comes
/// back unless every check passed.
pub fn finalize(
    secp: &Curve,
    msg: &Message,
    resp: &Response,
    challenge: &Scalar,
    nonce: &Scalar,
    blinding_sum: &Scalar,
) -> (r: Result<Transaction, Error>)
    ensures
        r is Ok <==> finalize_verdict(*msg, *resp, challenge@, nonce@, blinding_sum@) is Ok,
        r matches Err(e) ==> finalize_verdict(*msg, *resp, challenge@, nonce@, blinding_sum@)
            == Err::<(), Error>(e),
        r matches Ok(tx) ==> {
            &&& tx.inputs@ == seq![msg.input]
            &&& tx.outputs@ == seq![msg.change_output, resp.output]
            &&& tx.signature.partials_sum@ == final_signature(
                *resp,
                challenge@,
                nonce@,
                blinding_sum@,
            )
            &&& tx.signature.nonces_sum.is_point()
            &&& tx.signature.nonces_sum.point() == point_add(
                resp.nonce.point(),
                msg.nonce.point(),
            )
            &&& transaction_verdict(tx, challenge@) is Ok
        },
{
    verify_partial_signature(secp, &resp.sign, &resp.nonce, &resp.blinding, challenge)?;
    let own = partial_signature(secp, nonce, challenge, blinding_sum);
    let signature = aggregate(secp, &own, &resp.sign, &msg.nonce, &resp.nonce)?;
    let mut inputs: Vec<Commitment> = Vec::new();
    inputs.push(msg.input);
    let mut outputs: Vec<Commitment> = Vec::new();
    outputs.push(msg.change_output);
    outputs.push(resp.output);
    proof {
        assert(inputs@ =~= seq![msg.input]);
        assert(outputs@ =~= seq![msg.change_output, resp.output]);
    }
    let tx = Transaction { inputs, outputs, signature };
    verify_transaction(secp, &tx, challenge)?;
    Ok(tx)
}

} // verus!
