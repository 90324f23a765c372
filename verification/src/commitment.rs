//! Pedersen commitments: points of the curve group, held in the curve
//! library's thirty-three byte encoding.
//!
//! The group is cyclic of order `group_order()`, so every point is a multiple
//! `k * G` of the generator `G`, and the contracts here speak of a point by
//! that `k`. The neutral element, `k == 0`, has no encoding: where a result
//! may be neutral it is an `Option`, and `None` stands for it.

use vstd::prelude::*;
use vstd::arithmetic::div_mod::lemma_small_mod;
use secp256k1zkp::PublicKey;
use secp256k1zkp::Secp256k1;
use secp256k1zkp::SecretKey;
use crate::context::can_commit;
use crate::context::Curve;
use crate::error::Error;
use crate::field::be_value;
use crate::field::field_mul;
use crate::field::group_order;
use crate::scalar::Scalar;

verus! {

/// The curve library's public key: a point in the form that its
/// multiplication takes. Nothing here looks inside one.
#[verifier::external_type_specification]
#[verifier::external_body]
pub struct ExPublicKey(PublicKey);

/// The multiple of the generator that thirty-three bytes encode: the `k`
/// with `0 < k < group_order()` of which they are the encoding of `k * G`,
/// and 0 where they encode no point. The encoding is the curve library's: a
/// first byte, 8 or 9, that tells which of the two points with one `x` is
/// meant, then `x` in thirty-two bytes.
pub uninterp spec fn encoded_exponent(encoding: Seq<u8>) -> nat;

/// The thirty-three bytes in which the curve library writes the point
/// `exponent * G`, for `0 < exponent < group_order()`.
pub uninterp spec fn point_encoding(exponent: nat) -> Seq<u8>;

/// The multiple of the generator that a public key of the curve library
/// denotes.
pub uninterp spec fn key_exponent(key: PublicKey) -> nat;

/// The encoding of the generator `H` that carries the committed value: the
/// byte 9, then the `x` of `H` as the curve library's constants give it.
pub const VALUE_GENERATOR: [u8; 33] = [
    0x09,
    0x50, 0x92, 0x9b, 0x74, 0xc1, 0xa0, 0x49, 0x54,
    0xb7, 0x8b, 0x4b, 0x60, 0x35, 0xe9, 0x7a, 0x5e,
    0x07, 0x8a, 0x5a, 0x0f, 0x28, 0xec, 0x96, 0xd5,
    0x47, 0xbf, 0xee, 0x9a, 0xce, 0x80, 0x3a, 0xc0,
];

/// The multiple of `G` that the value generator `H` is. Nobody knows the
/// number; the contracts only need that it is one.
pub open spec fn value_generator() -> nat {
    encoded_exponent(VALUE_GENERATOR@)
}

/// The point `value * H + blinding * G`, as a multiple of `G`.
pub open spec fn pedersen(value: nat, blinding: nat) -> nat {
    (value * value_generator() + blinding) % group_order()
}

/// A Pedersen commitment in its encoding. Any thirty-three bytes can be
/// held; `is_point` says whether they encode a point.
#[derive(Clone, Copy, Debug)]
pub struct Commitment(pub [u8; 33]);

impl PartialEq for Commitment {
    /// Whether two commitments hold the same bytes.
    fn eq(&self, other: &Commitment) -> (same: bool) {
        let mut i: usize = 0;
        while i < 33
            invariant
                0 <= i <= 33,
                forall|j: int| 0 <= j < i ==> self.0@[j] == other.0@[j],
            decreases 33 - i,
        {
            if self.0[i] != other.0[i] {
                return false;
            }
            i += 1;
        }
        assert(self.0@ =~= other.0@);
        true
    }
}

impl Eq for Commitment {

}

impl vstd::std_specs::cmp::PartialEqSpecImpl for Commitment {
    open spec fn obeys_eq_spec() -> bool {
        true
    }

    open spec fn eq_spec(&self, other: &Commitment) -> bool {
        self.0@ == other.0@
    }
}

impl Commitment {
    /// The multiple of `G` that the commitment is, 0 where it is no point.
    pub open spec fn point(&self) -> nat {
        encoded_exponent(self.0@)
    }

    /// Whether the bytes are the encoding of a point.
    pub open spec fn is_point(&self) -> bool {
        &&& 0 < self.point() < group_order()
        &&& self.0@ == point_encoding(self.point())
    }

    /// Whether the bytes encode a point of the curve.
    pub fn is_valid(&self, secp: &Curve) -> (valid: bool)
        ensures
            valid == self.is_point(),
            valid == (self.point() != 0),
    {
        commitment_key(secp.engine(), &self.0).is_some()
    }
}

/// The multiple of `G` that an optional commitment stands for.
pub open spec fn exponent_of(p: Option<Commitment>) -> nat {
    match p {
        Some(c) => c.point(),
        None => 0,
    }
}

/// Whether an optional commitment, where it holds one, holds a point.
pub open spec fn well_encoded(p: Option<Commitment>) -> bool {
    p matches Some(c) ==> c.is_point()
}

/// Whether every commitment of a sequence is a point.
pub open spec fn all_points(points: Seq<Commitment>) -> bool {
    forall|i: int| 0 <= i < points.len() ==> (#[trigger] points[i]).is_point()
}

/// Whether every commitment of a sequence can be parsed.
pub open spec fn all_parse(points: Seq<Commitment>) -> bool {
    forall|i: int| 0 <= i < points.len() ==> (#[trigger] points[i]).point() != 0
}

/// The sum of the points of a sequence, as a multiple of `G` not yet
/// reduced.
pub open spec fn exponent_sum(points: Seq<Commitment>) -> int
    decreases points.len(),
{
    if points.len() == 0 {
        0
    } else {
        exponent_sum(points.drop_last()) + points.last().point()
    }
}

/// The sum of the positive points less the sum of the negative ones.
pub open spec fn net_exponent(positive: Seq<Commitment>, negative: Seq<Commitment>) -> nat {
    ((exponent_sum(positive) - exponent_sum(negative)) % (group_order() as int)) as nat
}

/// The sum of two points, as a multiple of `G`.
pub open spec fn point_add(p: nat, q: nat) -> nat {
    (p + q) % group_order()
}

/// What `exponent_sum` is of a sequence with one more commitment.
pub proof fn lemma_exponent_sum_push(points: Seq<Commitment>, c: Commitment)
    ensures
        exponent_sum(points.push(c)) == exponent_sum(points) + c.point(),
{
    assert(points.push(c).drop_last() =~= points);
}

/// Whether two group elements are the same.
pub(crate) fn same_point(a: &Option<Commitment>, b: &Option<Commitment>) -> (same: bool)
    requires
        well_encoded(*a),
        well_encoded(*b),
    ensures
        same == (exponent_of(*a) == exponent_of(*b)),
{
    match (a, b) {
        (Some(x), Some(y)) => x == y,
        (None, None) => true,
        _ => false,
    }
}

/// Whether every commitment of a list encodes a point.
pub fn all_valid(secp: &Curve, points: &Vec<Commitment>) -> (valid: bool)
    ensures
        valid == all_points(points@),
        valid == all_parse(points@),
{
    let mut i: usize = 0;
    while i < points.len()
        invariant
            0 <= i <= points.len(),
            forall|j: int| 0 <= j < i ==> (#[trigger] points@[j]).is_point(),
        decreases points.len() - i,
    {
        if !points[i].is_valid(secp) {
            return false;
        }
        i += 1;
    }
    true
}

/// The point `value * H + blinding * G`, or nothing where that is the
/// neutral element.
pub fn commit_point(secp: &Curve, value: u64, blinding: &Scalar) -> (p: Option<Commitment>)
    ensures
        well_encoded(p),
        exponent_of(p) == pedersen(value as nat, blinding@),
{
    let blind = blinding.to_bytes();
    match pedersen_commit(secp.engine(), value, &blind) {
        Some(bytes) => Some(Commitment(bytes)),
        None => None,
    }
}

/// The point `blinding * G`, or nothing where the blinding factor is zero.
pub fn lift(secp: &Curve, blinding: &Scalar) -> (p: Option<Commitment>)
    ensures
        well_encoded(p),
        exponent_of(p) == blinding@,
{
    let blind = blinding.to_bytes();
    proof {
        assert(0 * value_generator() == 0) by (nonlinear_arith);
        lemma_small_mod(blinding@, group_order());
    }
    commit_point(secp, 0, blinding)
}

/// The sum of the positive points less the sum of the negative ones, or
/// nothing where that is the neutral element. Refused where a commitment
/// is no point.
pub fn sum_points(secp: &Curve, positive: &Vec<Commitment>, negative: &Vec<Commitment>) -> (r:
    Result<Option<Commitment>, Error>)
    ensures
        r is Ok <==> (all_points(positive@) && all_points(negative@)),
        r matches Ok(p) ==> well_encoded(p) && exponent_of(p) == net_exponent(
            positive@,
            negative@,
        ),
        r matches Err(e) ==> e == Error::InvalidCommitment,
{
    if !all_valid(secp, positive) || !all_valid(secp, negative) {
        return Err(Error::InvalidCommitment);
    }
    match commit_sum(secp.engine(), positive, negative) {
        Some(bytes) => Ok(Some(Commitment(bytes))),
        None => Ok(None),
    }
}

/// The sum of two points, or nothing where that is the neutral element.
/// Refused where one of the two is no point.
pub fn add_points(secp: &Curve, a: &Commitment, b: &Commitment) -> (r: Result<
    Option<Commitment>,
    Error,
>)
    ensures
        r is Ok <==> (a.is_point() && b.is_point()),
        r matches Ok(p) ==> well_encoded(p) && exponent_of(p) == point_add(a.point(), b.point()),
        r matches Err(e) ==> e == Error::InvalidCommitment,
{
    let mut positive: Vec<Commitment> = Vec::new();
    positive.push(*a);
    positive.push(*b);
    let negative: Vec<Commitment> = Vec::new();
    proof {
        lemma_exponent_sum_push(Seq::empty(), *a);
        lemma_exponent_sum_push(Seq::empty().push(*a), *b);
        assert(positive@ =~= Seq::empty().push(*a).push(*b));
        assert(negative@ =~= Seq::empty());
        assert(positive@[0] == *a && positive@[1] == *b);
    }
    sum_points(secp, &positive, &negative)
}

/// Whether the positive commitments and the negative ones are all points
/// and sum to the same point.
pub fn sums_match(secp: &Curve, positive: &Vec<Commitment>, negative: &Vec<Commitment>) -> (matched:
    bool)
    ensures
        matched == (all_points(positive@) && all_points(negative@) && net_exponent(
            positive@,
            negative@,
        ) == 0),
{
    all_valid(secp, positive) && all_valid(secp, negative) && verify_tally(
        secp.engine(),
        positive,
        negative,
    )
}

/// The point `factor * c`, or nothing where the factor is zero. Refused
/// where the commitment is no point.
pub fn scale_point(secp: &Curve, c: &Commitment, factor: &Scalar) -> (r: Result<
    Option<Commitment>,
    Error,
>)
    ensures
        r is Ok <==> c.is_point(),
        r matches Ok(p) ==> well_encoded(p) && exponent_of(p) == field_mul(factor@, c.point()),
        r matches Err(e) ==> e == Error::InvalidCommitment,
{
    let multiplier = factor.to_bytes();
    match commitment_key(secp.engine(), &c.0) {
        None => Err(Error::InvalidCommitment),
        Some(key) => match key_mul(secp.engine(), key, &multiplier) {
            None => {
                assert(factor@ * c.point() == 0) by (nonlinear_arith)
                    requires
                        factor@ == 0,
                ;
                Ok(None)
            },
            Some(product) => match key_commitment(secp.engine(), &product) {
                Some(bytes) => Ok(Some(Commitment(bytes))),
                None => vstd::pervasive::unreached(),
            },
        },
    }
}

/// `Secp256k1::commit`: the commitment `blind * G + value * H`, in its
/// encoding. It fails where that point is the neutral element. (It also
/// fails on a context that cannot commit and on a blinding factor that is
/// not below the order, which `requires` leaves out.)
#[verifier::external_body]
fn pedersen_commit(secp: &Secp256k1, value: u64, blind: &[u8; 32]) -> (c: Option<[u8; 33]>)
    requires
        can_commit(*secp),
        be_value(blind@) < group_order(),
    ensures
        c is Some <==> pedersen(value as nat, be_value(blind@)) != 0,
        c matches Some(bytes) ==> bytes@ == point_encoding(
            pedersen(value as nat, be_value(blind@)),
        ) && encoded_exponent(bytes@) == pedersen(value as nat, be_value(blind@)),
{
    match secp.commit(value, SecretKey(*blind)) {
        Ok(c) => Some(c.0),
        Err(_) => None,
    }
}

/// `Secp256k1::commit_sum`: adds up the positive commitments, takes away
/// the negative ones and encodes the point that is left. It fails where
/// that point is the neutral element. (It also fails where a commitment
/// cannot be parsed, which `requires` leaves out.)
#[verifier::external_body]
fn commit_sum(secp: &Secp256k1, positive: &Vec<Commitment>, negative: &Vec<Commitment>) -> (total:
    Option<[u8; 33]>)
    requires
        all_points(positive@),
        all_points(negative@),
    ensures
        total is Some <==> net_exponent(positive@, negative@) != 0,
        total matches Some(bytes) ==> bytes@ == point_encoding(net_exponent(positive@, negative@))
            && encoded_exponent(bytes@) == net_exponent(positive@, negative@),
{
    let plus = positive.iter().map(|c| secp256k1zkp::pedersen::Commitment(c.0)).collect();
    let minus = negative.iter().map(|c| secp256k1zkp::pedersen::Commitment(c.0)).collect();
    match secp.commit_sum(plus, minus) {
        Ok(c) => Some(c.0),
        Err(_) => None,
    }
}

/// `Secp256k1::verify_commit_sum`: parses the commitments, adds up the
/// positive ones, takes away the negative ones and says whether the neutral
/// element is left. Where a commitment cannot be parsed the answer is no.
#[verifier::external_body]
fn verify_tally(secp: &Secp256k1, positive: &Vec<Commitment>, negative: &Vec<Commitment>) -> (zero:
    bool)
    ensures
        zero == (all_parse(positive@) && all_parse(negative@) && net_exponent(
            positive@,
            negative@,
        ) == 0),
{
    let plus = positive.iter().map(|c| secp256k1zkp::pedersen::Commitment(c.0)).collect();
    let minus = negative.iter().map(|c| secp256k1zkp::pedersen::Commitment(c.0)).collect();
    secp.verify_commit_sum(plus, minus)
}

/// `Commitment::to_pubkey`: parses the thirty-three bytes and hands the
/// point out as a public key. It fails where the bytes encode no point. The
/// parser takes one encoding for each point, so bytes that it takes are the
/// encoding of their point.
#[verifier::external_body]
fn commitment_key(secp: &Secp256k1, c: &[u8; 33]) -> (key: Option<PublicKey>)
    ensures
        key is Some <==> encoded_exponent(c@) != 0,
        key matches Some(k) ==> key_exponent(k) == encoded_exponent(c@) && 0 < encoded_exponent(c@)
            < group_order() && c@ == point_encoding(encoded_exponent(c@)),
{
    match secp256k1zkp::pedersen::Commitment(*c).to_pubkey(secp) {
        Ok(key) => Some(key),
        Err(_) => None,
    }
}

/// `PublicKey::mul_assign`: multiplies the point by a scalar. It fails where
/// the scalar is zero; a point times a scalar that is not zero is a point.
/// (It also fails on a scalar that is not below the order and on a context
/// that cannot verify, and aborts on a key that is no point, which
/// `requires` leaves out.)
#[verifier::external_body]
fn key_mul(secp: &Secp256k1, key: PublicKey, factor: &[u8; 32]) -> (product: Option<PublicKey>)
    requires
        can_commit(*secp),
        0 < key_exponent(key) < group_order(),
        be_value(factor@) < group_order(),
    ensures
        product is Some <==> be_value(factor@) != 0,
        product matches Some(p) ==> key_exponent(p) == field_mul(
            be_value(factor@),
            key_exponent(key),
        ) && 0 < key_exponent(p) < group_order(),
{
    let mut product = key;
    match product.mul_assign(secp, &SecretKey(*factor)) {
        Ok(()) => Some(product),
        Err(_) => None,
    }
}

/// `Commitment::from_pubkey`: encodes the point of a public key as a
/// commitment, which never fails. (It aborts on a key that is no point,
/// which `requires` leaves out.)
#[verifier::external_body]
fn key_commitment(secp: &Secp256k1, key: &PublicKey) -> (c: Option<[u8; 33]>)
    requires
        0 < key_exponent(*key) < group_order(),
    ensures
        c is Some,
        c matches Some(bytes) ==> bytes@ == point_encoding(key_exponent(*key)) && encoded_exponent(
            bytes@,
        ) == key_exponent(*key),
{
    match secp256k1zkp::pedersen::Commitment::from_pubkey(secp, key) {
        Ok(c) => Some(c.0),
        Err(_) => None,
    }
}

} // verus!
