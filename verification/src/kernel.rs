//! The transaction that a transfer ends in, its kernel excess, and the
//! check that anyone can make of it from public data alone.

use vstd::prelude::*;
use crate::commitment::all_points;
use crate::commitment::net_exponent;
use crate::commitment::sum_points;
use crate::commitment::Commitment;
use crate::context::Curve;
use crate::error::Error;
use crate::scalar::Scalar;
use crate::signature::signature_holds;
use crate::signature::signature_matches;
use crate::signature::TxSignature;

verus! {

/// A finished transfer: the commitments it spends, the commitments it
/// makes, and the aggregate signature of the two parties.
#[derive(Clone, Debug, PartialEq, Eq)]
pub struct Transaction {
    pub inputs: Vec<Commitment>,
    pub outputs: Vec<Commitment>,
    pub signature: TxSignature,
}

/// What the check of a transaction answers.
pub open spec fn transaction_verdict(tx: Transaction, challenge: nat) -> Result<(), Error> {
    let excess = net_exponent(tx.outputs@, tx.inputs@);
    if !(all_points(tx.outputs@) && all_points(tx.inputs@) && excess != 0
        && tx.signature.nonces_sum.is_point()) {
        Err(Error::InvalidCommitment)
    } else if !signature_holds(
        tx.signature.partials_sum@,
        tx.signature.nonces_sum.point(),
        excess,
        challenge,
    ) {
        Err(Error::KernelMismatch)
    } else {
        Ok(())
    }
}

/// The kernel excess: the sum of the outputs less the sum of the inputs.
/// Refused where a commitment is no point, and where the excess is the
/// neutral element.
pub fn kernel_excess(secp: &Curve, tx: &Transaction) -> (r: Result<Commitment, Error>)
    ensures
        r is Ok <==> (all_points(tx.outputs@) && all_points(tx.inputs@) && net_exponent(
            tx.outputs@,
            tx.inputs@,
        ) != 0),
        r matches Ok(k) ==> k.is_point() && k.point() == net_exponent(tx.outputs@, tx.inputs@),
        r matches Err(e) ==> e == Error::InvalidCommitment,
{
    match sum_points(secp, &tx.outputs, &tx.inputs)? {
        Some(excess) => Ok(excess),
        None => Err(Error::InvalidCommitment),
    }
}

/// Checks a transaction: that its aggregate signature, lifted, is the sum
/// of the nonces plus the challenge times the kernel excess.
pub fn verify_transaction(secp: &Curve, tx: &Transaction, challenge: &Scalar) -> (r: Result<
    (),
    Error,
>)
    ensures
        r == transaction_verdict(*tx, challenge@),
{
    let excess = kernel_excess(secp, tx)?;
    let holds = signature_matches(
        secp,
        &tx.signature.partials_sum,
        &tx.signature.nonces_sum,
        &excess,
        challenge,
    )?;
    if holds {
        Ok(())
    } else {
        Err(Error::KernelMismatch)
    }
}

} // verus!
