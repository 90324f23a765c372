//! Scalars: integers modulo the group order, held as thirty-two bytes.

use vstd::prelude::*;
use rand::thread_rng;
use secp256k1zkp::Secp256k1;
use secp256k1zkp::SecretKey;
use crate::context::Curve;
use crate::error::Error;
use crate::field::be_value;
use crate::field::below_order;
use crate::field::field_add;
use crate::field::field_mul;
use crate::field::field_neg;
use crate::field::field_sub;
use crate::field::group_order;
use crate::field::lemma_be_value_injective;
use crate::field::lemma_prefix_value;
use crate::field::prefix_value;

verus! {

/// An integer modulo the group order: a blinding factor, a nonce, a
/// challenge or a signature.
#[derive(Clone, Copy, Debug)]
pub struct Scalar {
    bytes: [u8; 32],
}

impl View for Scalar {
    type V = nat;

    /// The integer that the scalar stands for.
    closed spec fn view(&self) -> nat {
        be_value(self.bytes@)
    }
}

impl PartialEq for Scalar {
    /// Whether two scalars stand for the same integer.
    fn eq(&self, other: &Scalar) -> (same: bool) {
        let mut i: usize = 0;
        while i < 32
            invariant
                0 <= i <= 32,
                forall|j: int| 0 <= j < i ==> self.bytes@[j] == other.bytes@[j],
            decreases 32 - i,
        {
            if self.bytes[i] != other.bytes[i] {
                proof {
                    if self@ == other@ {
                        lemma_be_value_injective(self.bytes@, other.bytes@);
                    }
                }
                return false;
            }
            i += 1;
        }
        assert(self.bytes@ =~= other.bytes@);
        true
    }
}

impl Eq for Scalar {

}

impl vstd::std_specs::cmp::PartialEqSpecImpl for Scalar {
    open spec fn obeys_eq_spec() -> bool {
        true
    }

    open spec fn eq_spec(&self, other: &Scalar) -> bool {
        self@ == other@
    }
}

/// A prefix of zero bytes denotes zero.
proof fn lemma_zero_prefix(bytes: Seq<u8>, count: nat)
    requires
        count <= bytes.len(),
        forall|i: int| 0 <= i < count ==> bytes[i] == 0,
    ensures
        prefix_value(bytes, count) == 0,
    decreases count,
{
    if count > 0 {
        lemma_zero_prefix(bytes, (count - 1) as nat);
    }
}

impl Scalar {
    #[verifier::type_invariant]
    pub closed spec fn in_field(&self) -> bool {
        be_value(self.bytes@) < group_order()
    }

    /// The zero of the field.
    pub fn zero() -> (s: Scalar)
        ensures
            s@ == 0,
    {
        let bytes = [0u8; 32];
        proof {
            lemma_zero_prefix(bytes@, 32);
            lemma_prefix_value(bytes@, 32);
            assert(bytes@.take(32) =~= bytes@);
        }
        Scalar { bytes }
    }

    /// The unit of the field.
    pub fn one() -> (s: Scalar)
        ensures
            s@ == 1,
    {
        let mut bytes = [0u8; 32];
        bytes[31] = 1;
        proof {
            lemma_zero_prefix(bytes@, 31);
            lemma_prefix_value(bytes@, 32);
            assert(bytes@.take(32) =~= bytes@);
        }
        Scalar { bytes }
    }

    /// Reads a scalar from its thirty-two bytes, most significant first.
    /// Bytes that denote the group order or more are refused.
    pub fn from_bytes(bytes: [u8; 32]) -> (r: Result<Scalar, Error>)
        ensures
            r is Ok <==> be_value(bytes@) < group_order(),
            r matches Ok(s) ==> s@ == be_value(bytes@),
            r matches Err(e) ==> e == Error::InvalidScalar,
    {
        if below_order(&bytes) {
            Ok(Scalar { bytes })
        } else {
            Err(Error::InvalidScalar)
        }
    }

    /// Reads a scalar from a byte string, which must be thirty-two bytes that
    /// denote a number below the group order.
    pub fn from_slice(data: &[u8]) -> (r: Result<Scalar, Error>)
        ensures
            r is Ok <==> (data@.len() == 32 && be_value(data@) < group_order()),
            r matches Ok(s) ==> s@ == be_value(data@),
            r matches Err(e) ==> e == Error::InvalidScalar,
    {
        if data.len() != 32 {
            return Err(Error::InvalidScalar);
        }
        let mut bytes = [0u8; 32];
        let mut i: usize = 0;
        while i < 32
            invariant
                0 <= i <= 32,
                data@.len() == 32,
                forall|j: int| 0 <= j < i ==> bytes@[j] == data@[j],
            decreases 32 - i,
        {
            bytes[i] = data[i];
            i += 1;
        }
        assert(bytes@ =~= data@);
        Scalar::from_bytes(bytes)
    }

    /// The thirty-two bytes of the scalar, most significant first.
    pub fn to_bytes(&self) -> (bytes: [u8; 32])
        ensures
            be_value(bytes@) == self@,
            self@ < group_order(),
    {
        proof {
            use_type_invariant(self);
        }
        self.bytes
    }

    /// A scalar in the field is below the group order.
    pub proof fn lemma_below_order(&self)
        requires
            self.in_field(),
        ensures
            self@ < group_order(),
    {
    }

    /// Sum in the field.
    pub fn add(&self, secp: &Curve, other: &Scalar) -> (sum: Scalar)
        ensures
            sum@ == field_add(self@, other@),
    {
        proof {
            use_type_invariant(other);
        }
        match secret_key_add(secp.engine(), &self.bytes, &other.bytes) {
            Some(bytes) => Scalar { bytes },
            None => Scalar::zero(),
        }
    }

    /// Product in the field.
    pub fn mul(&self, secp: &Curve, other: &Scalar) -> (product: Scalar)
        ensures
            product@ == field_mul(self@, other@),
    {
        proof {
            use_type_invariant(other);
        }
        match secret_key_mul(secp.engine(), &self.bytes, &other.bytes) {
            Some(bytes) => Scalar { bytes },
            None => {
                assert(self@ * other@ == 0) by (nonlinear_arith)
                    requires
                        other@ == 0,
                ;
                Scalar::zero()
            },
        }
    }

    /// The scalar that sums with this one to zero.
    pub fn neg(&self, secp: &Curve) -> (negated: Scalar)
        ensures
            negated@ == field_neg(self@),
    {
        proof {
            use_type_invariant(self);
        }
        match secret_key_neg(secp.engine(), &self.bytes) {
            Some(bytes) => Scalar { bytes },
            None => vstd::pervasive::unreached(),
        }
    }

    /// Difference in the field.
    pub fn sub(&self, secp: &Curve, other: &Scalar) -> (difference: Scalar)
        ensures
            difference@ == field_sub(self@, other@),
    {
        let negated = other.neg(secp);
        self.add(secp, &negated)
    }

    /// A scalar drawn at random, never zero.
    pub fn random(secp: &Curve) -> (s: Scalar)
        ensures
            s@ != 0,
    {
        Scalar { bytes: random_secret_key(secp.engine()) }
    }
}

/// `SecretKey::add_assign`: reduces the key modulo the group order, adds the
/// other key and writes the sum back. It fails where the other key is not
/// below the order, and where the sum is zero.
#[verifier::external_body]
fn secret_key_add(secp: &Secp256k1, a: &[u8; 32], b: &[u8; 32]) -> (sum: Option<[u8; 32]>)
    ensures
        sum is Some <==> (be_value(b@) < group_order() && field_add(be_value(a@), be_value(b@))
            != 0),
        sum matches Some(s) ==> be_value(s@) == field_add(be_value(a@), be_value(b@)),
{
    let mut key = SecretKey(*a);
    match key.add_assign(secp, &SecretKey(*b)) {
        Ok(()) => Some(key.0),
        Err(_) => None,
    }
}

/// `SecretKey::mul_assign`: reduces the key modulo the group order and
/// multiplies it by the other key. It fails where the other key is zero or
/// not below the order.
#[verifier::external_body]
fn secret_key_mul(secp: &Secp256k1, a: &[u8; 32], b: &[u8; 32]) -> (product: Option<[u8; 32]>)
    ensures
        product is Some <==> (0 < be_value(b@) < group_order()),
        product matches Some(p) ==> be_value(p@) == field_mul(be_value(a@), be_value(b@)),
{
    let mut key = SecretKey(*a);
    match key.mul_assign(secp, &SecretKey(*b)) {
        Ok(()) => Some(key.0),
        Err(_) => None,
    }
}

/// `SecretKey::neg_assign`: negates the key modulo the group order. It fails
/// where the key is not below the order.
#[verifier::external_body]
fn secret_key_neg(secp: &Secp256k1, a: &[u8; 32]) -> (negated: Option<[u8; 32]>)
    ensures
        negated is Some <==> (be_value(a@) < group_order()),
        negated matches Some(n) ==> be_value(n@) == field_neg(be_value(a@)),
{
    let mut key = SecretKey(*a);
    match key.neg_assign(secp) {
        Ok(()) => Some(key.0),
        Err(_) => None,
    }
}

/// `SecretKey::new`, drawing from `rand::thread_rng`: it draws thirty-two
/// bytes until they denote a number that is not zero and below the order.
#[verifier::external_body]
fn random_secret_key(secp: &Secp256k1) -> (key: [u8; 32])
    ensures
        0 < be_value(key@) < group_order(),
{
    SecretKey::new(secp, &mut thread_rng()).0
}

} // verus!
