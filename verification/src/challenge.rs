//! The challenge that both parties sign: a hash of a context that they
//! agreed on in public, read as a scalar.

use vstd::prelude::*;
use sha2::Digest;
use sha2::Sha256;
use crate::error::Error;
use crate::field::be_value;
use crate::field::group_order;
use crate::scalar::Scalar;

verus! {

/// The SHA-256 digest of a byte string, thirty-two bytes.
pub uninterp spec fn sha256(data: Seq<u8>) -> Seq<u8>;

/// The challenge for a public context: its SHA-256 digest read as a scalar.
/// Refused where the digest denotes the group order or more.
pub fn derive_challenge(context: &[u8]) -> (r: Result<Scalar, Error>)
    ensures
        r is Ok <==> be_value(sha256(context@)) < group_order(),
        r matches Ok(e) ==> e@ == be_value(sha256(context@)),
        r matches Err(e) ==> e == Error::InvalidScalar,
{
    Scalar::from_bytes(sha256_digest(context))
}

/// `Sha256::digest`: the SHA-256 digest of the bytes.
#[verifier::external_body]
fn sha256_digest(data: &[u8]) -> (digest: [u8; 32])
    ensures
        digest@ == sha256(data@),
{
    Sha256::digest(data).into()
}

} // verus!
