//! Partial signatures of the two parties, their check and their sum.
//!
//! A party with nonce `k` and blinding factor `b` signs the challenge `e`
//! with `s = k + e * b`. Whoever holds the lifts `k * G` and `b * G` can check
//! `s * G == k * G + e * (b * G)` without learning `k` or `b`.

use vstd::prelude::*;
use vstd::arithmetic::div_mod::lemma_add_mod_noop_right;
use vstd::arithmetic::div_mod::lemma_small_mod;
use crate::commitment::add_points;
use crate::commitment::lift;
use crate::commitment::point_add;
use crate::commitment::same_point;
use crate::commitment::scale_point;
use crate::commitment::Commitment;
use crate::context::Curve;
use crate::error::Error;
use crate::field::field_add;
use crate::field::group_order;
use crate::scalar::Scalar;

verus! {

/// The aggregate signature of a transfer: the sum of the two partial
/// signatures and the sum of the two public nonces.
#[derive(Clone, Copy, Debug, PartialEq, Eq)]
pub struct TxSignature {
    pub partials_sum: Scalar,
    pub nonces_sum: Commitment,
}

/// The partial signature `nonce + challenge * blinding`, in the field.
pub open spec fn partial(nonce: nat, challenge: nat, blinding: nat) -> nat {
    (nonce + challenge * blinding) % group_order()
}

/// Whether `signature * G == nonce + challenge * key`, the points `nonce`
/// and `key` given as multiples of `G`.
pub open spec fn signature_holds(signature: nat, nonce: nat, key: nat, challenge: nat) -> bool {
    signature % group_order() == (nonce + challenge * key) % group_order()
}

/// What the check of a partial signature answers.
pub open spec fn partial_verdict(
    signature: nat,
    nonce: Commitment,
    blinding: Commitment,
    challenge: nat,
) -> Result<(), Error> {
    if !(nonce.is_point() && blinding.is_point()) {
        Err(Error::InvalidCommitment)
    } else if !signature_holds(signature, nonce.point(), blinding.point(), challenge) {
        Err(Error::InvalidPartialSignature)
    } else {
        Ok(())
    }
}

/// A party's partial signature over the challenge.
pub fn partial_signature(secp: &Curve, nonce: &Scalar, challenge: &Scalar, blinding: &Scalar) -> (s:
    Scalar)
    ensures
        s@ == partial(nonce@, challenge@, blinding@),
{
    let scaled = blinding.mul(secp, challenge);
    let s = scaled.add(secp, nonce);
    proof {
        assert(blinding@ * challenge@ == challenge@ * blinding@) by (nonlinear_arith);
        lemma_add_mod_noop_right(
            nonce@ as int,
            (challenge@ * blinding@) as int,
            group_order() as int,
        );
    }
    s
}

/// Whether `signature * G == nonce + challenge * key`. Refused where the
/// nonce or the key is no point.
pub fn signature_matches(
    secp: &Curve,
    signature: &Scalar,
    nonce: &Commitment,
    key: &Commitment,
    challenge: &Scalar,
) -> (r: Result<bool, Error>)
    ensures
        r is Ok <==> (nonce.is_point() && key.is_point()),
        r matches Ok(holds) ==> holds == signature_holds(
            signature@,
            nonce.point(),
            key.point(),
            challenge@,
        ),
        r matches Err(e) ==> e == Error::InvalidCommitment,
{
    if !nonce.is_valid(secp) {
        return Err(Error::InvalidCommitment);
    }
    let scaled = scale_point(secp, key, challenge)?;
    let right = match scaled {
        Some(c) => add_points(secp, nonce, &c)?,
        None => Some(*nonce),
    };
    let left = lift(secp, signature);
    proof {
        use_type_invariant(signature);
        signature.lemma_below_order();
        lemma_small_mod(signature@, group_order());
        lemma_small_mod(nonce.point(), group_order());
        lemma_add_mod_noop_right(
            nonce.point() as int,
            (challenge@ * key.point()) as int,
            group_order() as int,
        );
    }
    Ok(same_point(&left, &right))
}

/// Checks a party's partial signature against its public nonce and the
/// lift of its blinding factor.
pub fn verify_partial_signature(
    secp: &Curve,
    signature: &Scalar,
    nonce: &Commitment,
    blinding: &Commitment,
    challenge: &Scalar,
) -> (r: Result<(), Error>)
    ensures
        r == partial_verdict(signature@, *nonce, *blinding, challenge@),
{
    if signature_matches(secp, signature, nonce, blinding, challenge)? {
        Ok(())
    } else {
        Err(Error::InvalidPartialSignature)
    }
}

/// Sums the two partial signatures and the two public nonces. Refused
/// where a nonce is no point, and where the nonces sum to the neutral
/// element.
pub fn aggregate(
    secp: &Curve,
    own: &Scalar,
    other: &Scalar,
    own_nonce: &Commitment,
    other_nonce: &Commitment,
) -> (r: Result<TxSignature, Error>)
    ensures
        r is Ok <==> (own_nonce.is_point() && other_nonce.is_point() && point_add(
            other_nonce.point(),
            own_nonce.point(),
        ) != 0),
        r matches Ok(sig) ==> sig.partials_sum@ == field_add(other@, own@)
            && sig.nonces_sum.is_point() && sig.nonces_sum.point() == point_add(
            other_nonce.point(),
            own_nonce.point(),
        ),
        r matches Err(e) ==> e == Error::InvalidCommitment,
{
    let partials_sum = other.add(secp, own);
    match add_points(secp, other_nonce, own_nonce)? {
        Some(nonces_sum) => Ok(TxSignature { partials_sum, nonces_sum }),
        None => Err(Error::InvalidCommitment),
    }
}

} // verus!
