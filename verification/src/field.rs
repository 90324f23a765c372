//! The scalar field of the curve: integers modulo the group order, and how
//! thirty-two big-endian bytes stand for one of them.

use vstd::prelude::*;
use vstd::arithmetic::div_mod::lemma_add_mod_noop;
use vstd::arithmetic::div_mod::lemma_mod_self_0;
use vstd::arithmetic::div_mod::lemma_mod_twice;
use vstd::arithmetic::div_mod::lemma_mul_mod_noop_general;
use vstd::arithmetic::div_mod::lemma_small_mod;
use vstd::arithmetic::div_mod::lemma_sub_mod_noop;

verus! {

/// The number of points in the curve group.
pub open spec fn group_order() -> nat {
    0xFFFFFFFF_FFFFFFFF_FFFFFFFF_FFFFFFFE_BAAEDCE6_AF48A03B_BFD25E8C_D0364141nat
}

/// The group order, most significant byte first.
pub const ORDER_BYTES: [u8; 32] = [
    0xff, 0xff, 0xff, 0xff, 0xff, 0xff, 0xff, 0xff,
    0xff, 0xff, 0xff, 0xff, 0xff, 0xff, 0xff, 0xfe,
    0xba, 0xae, 0xdc, 0xe6, 0xaf, 0x48, 0xa0, 0x3b,
    0xbf, 0xd2, 0x5e, 0x8c, 0xd0, 0x36, 0x41, 0x41,
];

/// The number that a byte string denotes, most significant byte first.
pub open spec fn be_value(bytes: Seq<u8>) -> nat
    decreases bytes.len(),
{
    if bytes.len() == 0 {
        0
    } else {
        be_value(bytes.drop_last()) * 256 + bytes.last() as nat
    }
}

/// Sum of two field elements.
pub open spec fn field_add(a: nat, b: nat) -> nat {
    (a + b) % group_order()
}

/// Product of two field elements.
pub open spec fn field_mul(a: nat, b: nat) -> nat {
    (a * b) % group_order()
}

/// The field element that sums with `a` to zero.
pub open spec fn field_neg(a: nat) -> nat {
    ((group_order() - a % group_order()) % (group_order() as int)) as nat
}

/// Difference of two field elements.
pub open spec fn field_sub(a: nat, b: nat) -> nat {
    field_add(a, field_neg(b))
}

/// Whether two integers differ by a multiple of the group order.
#[verifier::opaque]
pub open spec fn congruent(a: int, b: int) -> bool {
    a % (group_order() as int) == b % (group_order() as int)
}

/// Congruent integers are those with the same remainder.
pub proof fn lemma_congruent(a: int, b: int)
    ensures
        congruent(a, b) <==> a % (group_order() as int) == b % (group_order() as int),
{
    reveal(congruent);
}

/// An integer is congruent to its remainder.
pub proof fn lemma_congruent_reduce(a: int)
    ensures
        congruent(a % (group_order() as int), a),
        congruent(a, a % (group_order() as int)),
{
    reveal(congruent);
    lemma_mod_twice(a, group_order() as int);
}

/// Congruence is symmetric.
pub proof fn lemma_congruent_flip(a: int, b: int)
    requires
        congruent(a, b),
    ensures
        congruent(b, a),
{
    reveal(congruent);
}

/// Congruence is transitive.
pub proof fn lemma_congruent_chain(a: int, b: int, c: int)
    requires
        congruent(a, b),
        congruent(b, c),
    ensures
        congruent(a, c),
{
    reveal(congruent);
}

/// Congruent integers that are both reduced are equal.
pub proof fn lemma_congruent_reduced(a: int, b: int)
    requires
        congruent(a, b),
        0 <= a < group_order(),
        0 <= b < group_order(),
    ensures
        a == b,
{
    reveal(congruent);
    lemma_small_mod(a as nat, group_order());
    lemma_small_mod(b as nat, group_order());
}

/// Sums of congruent integers are congruent.
pub proof fn lemma_congruent_add(a: int, b: int, c: int, d: int)
    requires
        congruent(a, b),
        congruent(c, d),
    ensures
        congruent(a + c, b + d),
{
    reveal(congruent);
    lemma_add_mod_noop(a, c, group_order() as int);
    lemma_add_mod_noop(b, d, group_order() as int);
}

/// Differences of congruent integers are congruent.
pub proof fn lemma_congruent_sub(a: int, b: int, c: int, d: int)
    requires
        congruent(a, b),
        congruent(c, d),
    ensures
        congruent(a - c, b - d),
{
    reveal(congruent);
    lemma_sub_mod_noop(a, c, group_order() as int);
    lemma_sub_mod_noop(b, d, group_order() as int);
}

/// Multiples of congruent integers are congruent.
pub proof fn lemma_congruent_mul(e: int, a: int, b: int)
    requires
        congruent(a, b),
    ensures
        congruent(e * a, e * b),
{
    reveal(congruent);
    lemma_mul_mod_noop_general(e, a, group_order() as int);
    lemma_mul_mod_noop_general(e, b, group_order() as int);
}

/// A factor that has an inverse cancels from a congruence.
pub proof fn lemma_congruent_cancel(e: int, inverse: int, a: int, b: int)
    requires
        congruent(e * inverse, 1),
        congruent(e * a, e * b),
    ensures
        congruent(a, b),
{
    lemma_congruent_mul(inverse, e * a, e * b);
    lemma_congruent_mul(a, e * inverse, 1);
    lemma_congruent_mul(b, e * inverse, 1);
    assert(inverse * (e * a) == a * (e * inverse)) by (nonlinear_arith);
    assert(inverse * (e * b) == b * (e * inverse)) by (nonlinear_arith);
    assert(a * 1 == a && b * 1 == b) by (nonlinear_arith);
    lemma_congruent_flip(a * (e * inverse), a);
    lemma_congruent_chain(a, a * (e * inverse), b * (e * inverse));
    lemma_congruent_chain(a, b * (e * inverse), b);
}

/// The difference in the field is congruent to the difference.
pub proof fn lemma_field_sub(a: nat, b: nat)
    ensures
        congruent(field_sub(a, b) as int, a - b),
{
    let n = group_order() as int;
    let negated = field_neg(b) as int;
    lemma_congruent_reduce(n - b % group_order());
    lemma_congruent_reduce(b as int);
    assert(congruent(n - b % group_order(), -(b as int))) by {
        reveal(congruent);
        lemma_sub_mod_noop(n, b as int, n);
        lemma_mod_self_0(n);
    }
    lemma_congruent_chain(negated, n - b % group_order(), -(b as int));
    lemma_congruent_reduce(a + negated);
    lemma_congruent(a as int, a as int);
    lemma_congruent_add(a as int, a as int, negated, -(b as int));
    lemma_congruent_chain(field_sub(a, b) as int, a + negated, a - b);
}

/// Appending one byte shifts the value by one byte and adds it.
pub proof fn lemma_be_value_step(bytes: Seq<u8>, i: int)
    requires
        0 <= i < bytes.len(),
    ensures
        be_value(bytes.take(i + 1)) == be_value(bytes.take(i)) * 256 + bytes[i] as nat,
{
    assert(bytes.take(i + 1).drop_last() =~= bytes.take(i));
}

/// Two byte strings of one length that denote the same number are the same.
pub proof fn lemma_be_value_injective(a: Seq<u8>, b: Seq<u8>)
    requires
        a.len() == b.len(),
        be_value(a) == be_value(b),
    ensures
        a == b,
    decreases a.len(),
{
    if a.len() > 0 {
        lemma_be_value_injective(a.drop_last(), b.drop_last());
        assert(a =~= a.drop_last().push(a.last()));
        assert(b =~= b.drop_last().push(b.last()));
    } else {
        assert(a =~= b);
    }
}

/// Two strings that agree up to a byte where the first is smaller: the
/// first denotes the smaller number, however long the common length.
pub proof fn lemma_be_value_ordered(a: Seq<u8>, b: Seq<u8>, i: int, j: int)
    requires
        a.len() == b.len(),
        0 <= i < j <= a.len(),
        a.take(i) == b.take(i),
        a[i] < b[i],
    ensures
        be_value(a.take(j)) < be_value(b.take(j)),
    decreases j,
{
    lemma_be_value_step(a, j - 1);
    lemma_be_value_step(b, j - 1);
    if j - 1 > i {
        lemma_be_value_ordered(a, b, i, j - 1);
    }
}

/// The value of the first `count` bytes, written over indices.
pub open spec fn prefix_value(bytes: Seq<u8>, count: nat) -> nat
    decreases count,
{
    if count == 0 {
        0
    } else {
        prefix_value(bytes, (count - 1) as nat) * 256 + bytes[count - 1] as nat
    }
}

/// `prefix_value` is `be_value` of the prefix.
pub proof fn lemma_prefix_value(bytes: Seq<u8>, count: nat)
    requires
        count <= bytes.len(),
    ensures
        prefix_value(bytes, count) == be_value(bytes.take(count as int)),
    decreases count,
{
    if count > 0 {
        lemma_prefix_value(bytes, (count - 1) as nat);
        lemma_be_value_step(bytes, count - 1);
    }
}

/// The bytes of the order constant denote the group order.
pub proof fn lemma_order_bytes()
    ensures
        be_value(ORDER_BYTES@) == group_order(),
{
    let s = ORDER_BYTES@;
    lemma_prefix_value(s, 32);
    assert(s.take(32) =~= s);
    reveal_with_fuel(prefix_value, 33);
    assert(prefix_value(s, 32) == group_order());
}

/// Whether thirty-two bytes denote a number below the group order.
pub fn below_order(bytes: &[u8; 32]) -> (below: bool)
    ensures
        below == (be_value(bytes@) < group_order()),
{
    let order = ORDER_BYTES;
    let mut i: usize = 0;
    while i < 32
        invariant
            0 <= i <= 32,
            order == ORDER_BYTES,
            bytes@.take(i as int) == order@.take(i as int),
        decreases 32 - i,
    {
        if bytes[i] < order[i] {
            proof {
                lemma_be_value_ordered(bytes@, order@, i as int, 32);
                lemma_order_bytes();
                assert(bytes@.take(32) =~= bytes@);
                assert(order@.take(32) =~= order@);
            }
            return true;
        }
        if bytes[i] > order[i] {
            proof {
                lemma_be_value_ordered(order@, bytes@, i as int, 32);
                lemma_order_bytes();
                assert(bytes@.take(32) =~= bytes@);
                assert(order@.take(32) =~= order@);
            }
            return false;
        }
        assert(bytes@.take(i + 1) =~= bytes@.take(i as int).push(bytes@[i as int]));
        assert(order@.take(i + 1) =~= order@.take(i as int).push(order@[i as int]));
        i += 1;
    }
    proof {
        lemma_order_bytes();
        assert(bytes@.take(32) =~= bytes@);
        assert(order@.take(32) =~= order@);
    }
    false
}

} // verus!
