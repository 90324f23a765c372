use confidential_transfer::blinding::add_blinding;
use confidential_transfer::blinding::blinding;
use confidential_transfer::blinding::combine;
use confidential_transfer::blinding::commit;
use confidential_transfer::blinding::commit_to_zero;
use confidential_transfer::blinding::excess_blinding;
use confidential_transfer::blinding::split_blinding;
use confidential_transfer::blinding::verify_balance;
use confidential_transfer::challenge::derive_challenge;
use confidential_transfer::commitment::add_points;
use confidential_transfer::commitment::all_valid;
use confidential_transfer::commitment::commit_point;
use confidential_transfer::commitment::lift;
use confidential_transfer::commitment::scale_point;
use confidential_transfer::commitment::sum_points;
use confidential_transfer::commitment::sums_match;
use confidential_transfer::commitment::Commitment;
use confidential_transfer::commitment::VALUE_GENERATOR;
use confidential_transfer::context::Curve;
use confidential_transfer::error::Error;
use confidential_transfer::field::below_order;
use confidential_transfer::field::ORDER_BYTES;
use confidential_transfer::scalar::Scalar;

fn word(last: u8) -> [u8; 32] {
    let mut bytes = [0u8; 32];
    bytes[31] = last;
    bytes
}

fn generator() -> Commitment {
    Commitment([
        0x08, 0x79, 0xbe, 0x66, 0x7e, 0xf9, 0xdc, 0xbb, 0xac, 0x55, 0xa0, 0x62, 0x95, 0xce, 0x87,
        0x0b, 0x07, 0x02, 0x9b, 0xfc, 0xdb, 0x2d, 0xce, 0x28, 0xd9, 0x59, 0xf2, 0x81, 0x5b, 0x16,
        0xf8, 0x17, 0x98,
    ])
}

#[test]
fn test_blinding() {
    let secp = Curve::new().randomized();

    let a = blinding(&secp, 6);
    let b = blinding(&secp, 3);

    let expected = blinding(&secp, 9);
    let sum = add_blinding(&secp, &a, &b);
    assert_eq!(sum, expected);
}

#[test]
fn blinding_counts_units() {
    let secp = Curve::new();
    assert_eq!(blinding(&secp, 0), Scalar::zero());
    assert_eq!(blinding(&secp, 1), Scalar::one());
    assert_eq!(blinding(&secp, 9).to_bytes(), word(9));
    let mut expected = [0u8; 32];
    expected[30] = 0x2e;
    expected[31] = 0x01;
    assert_eq!(blinding(&secp, 11777).to_bytes(), expected);
}

#[test]
fn blinding_is_additive() {
    let secp = Curve::new();
    for (i, j) in [(0u64, 0u64), (0, 5), (5, 0), (1, 1), (20, 34), (777, 11000)] {
        let sum = add_blinding(&secp, &blinding(&secp, i), &blinding(&secp, j));
        assert_eq!(sum, blinding(&secp, i + j));
    }
}

#[test]
fn scalar_zero_and_one_bytes() {
    assert_eq!(Scalar::zero().to_bytes(), [0u8; 32]);
    assert_eq!(Scalar::one().to_bytes(), word(1));
}

#[test]
fn scalar_from_bytes_accepts_below_order() {
    assert_eq!(Scalar::from_bytes([0u8; 32]), Ok(Scalar::zero()));
    assert_eq!(Scalar::from_bytes(word(1)), Ok(Scalar::one()));
    let mut largest = ORDER_BYTES;
    largest[31] = 0x40;
    let s = Scalar::from_bytes(largest).unwrap();
    assert_eq!(s.to_bytes(), largest);
}

#[test]
fn scalar_from_bytes_refuses_order_and_above() {
    assert_eq!(Scalar::from_bytes(ORDER_BYTES), Err(Error::InvalidScalar));
    assert_eq!(Scalar::from_bytes([0xff; 32]), Err(Error::InvalidScalar));
    let mut above = ORDER_BYTES;
    above[31] = 0x42;
    assert_eq!(Scalar::from_bytes(above), Err(Error::InvalidScalar));
}

#[test]
fn scalar_from_slice_wants_thirty_two_bytes() {
    assert_eq!(Scalar::from_slice(&word(5)), Scalar::from_bytes(word(5)));
    assert_eq!(Scalar::from_slice(&word(5)[..31]), Err(Error::InvalidScalar));
    assert_eq!(Scalar::from_slice(&[0u8; 33]), Err(Error::InvalidScalar));
    assert_eq!(Scalar::from_slice(&[]), Err(Error::InvalidScalar));
    assert_eq!(Scalar::from_slice(&ORDER_BYTES), Err(Error::InvalidScalar));
}

#[test]
fn below_order_compares_from_the_top() {
    assert!(below_order(&[0u8; 32]));
    assert!(!below_order(&ORDER_BYTES));
    let mut low_top = ORDER_BYTES;
    low_top[0] = 0xfe;
    low_top[31] = 0xff;
    assert!(below_order(&low_top));
    let mut high_middle = ORDER_BYTES;
    high_middle[15] = 0xff;
    high_middle[31] = 0x00;
    assert!(!below_order(&high_middle));
}

#[test]
fn scalar_product() {
    let secp = Curve::new();
    let product = blinding(&secp, 6).mul(&secp, &blinding(&secp, 3));
    assert_eq!(product.to_bytes(), word(18));
    assert_eq!(blinding(&secp, 6).mul(&secp, &Scalar::zero()), Scalar::zero());
    assert_eq!(Scalar::zero().mul(&secp, &blinding(&secp, 6)), Scalar::zero());
}

#[test]
fn scalar_negation_wraps_at_the_order() {
    let secp = Curve::new();
    let mut expected = ORDER_BYTES;
    expected[31] = 0x40;
    assert_eq!(Scalar::one().neg(&secp).to_bytes(), expected);
    assert_eq!(Scalar::zero().neg(&secp), Scalar::zero());
}

#[test]
fn scalar_sum_may_be_zero() {
    let secp = Curve::new();
    let seven = blinding(&secp, 7);
    let minus_seven = seven.neg(&secp);
    assert_eq!(seven.add(&secp, &minus_seven), Scalar::zero());
    assert_eq!(Scalar::zero().add(&secp, &Scalar::zero()), Scalar::zero());
}

#[test]
fn scalar_difference() {
    let secp = Curve::new();
    let d = blinding(&secp, 34).sub(&secp, &blinding(&secp, 20));
    assert_eq!(d, blinding(&secp, 14));
    let wrapped = blinding(&secp, 20).sub(&secp, &blinding(&secp, 34));
    assert_eq!(wrapped.add(&secp, &blinding(&secp, 14)), Scalar::zero());
}

#[test]
fn random_scalars_are_not_zero_and_differ() {
    let secp = Curve::new();
    let a = Scalar::random(&secp);
    let b = Scalar::random(&secp);
    assert_ne!(a, Scalar::zero());
    assert_ne!(b, Scalar::zero());
    assert_ne!(a, b);
    assert!(below_order(&a.to_bytes()));
}

#[test]
fn combine_sums_in_any_order() {
    let secp = Curve::new();
    let one = blinding(&secp, 1);
    let two = blinding(&secp, 2);
    let three = blinding(&secp, 3);
    assert_eq!(combine(&secp, &vec![]), Scalar::zero());
    assert_eq!(combine(&secp, &vec![three]), three);
    assert_eq!(combine(&secp, &vec![one, two, three]), blinding(&secp, 6));
    assert_eq!(combine(&secp, &vec![three, one, two]), blinding(&secp, 6));
    let minus_three = three.neg(&secp);
    assert_eq!(combine(&secp, &vec![one, two, minus_three]), Scalar::zero());
}

#[test]
fn excess_is_outputs_less_inputs() {
    let secp = Curve::new();
    let outputs = vec![blinding(&secp, 34), blinding(&secp, 11)];
    let inputs = vec![blinding(&secp, 20)];
    assert_eq!(excess_blinding(&secp, &outputs, &inputs), blinding(&secp, 25));
    assert_eq!(excess_blinding(&secp, &inputs, &inputs), Scalar::zero());
}

#[test]
fn split_parts_sum_to_the_whole() {
    let secp = Curve::new();
    let whole = blinding(&secp, 34);
    let part = blinding(&secp, 20);
    let rest = split_blinding(&secp, &whole, &part);
    assert_eq!(rest, blinding(&secp, 14));
    assert_eq!(add_blinding(&secp, &part, &rest), whole);
    let large = Scalar::random(&secp);
    let other = split_blinding(&secp, &part, &large);
    assert_eq!(add_blinding(&secp, &large, &other), part);
    assert_eq!(split_blinding(&secp, &whole, &whole), Scalar::zero());
}

#[test]
fn scalars_are_equal_where_their_bytes_are() {
    let secp = Curve::new();
    assert!(blinding(&secp, 9) == blinding(&secp, 9));
    assert!(blinding(&secp, 9) != blinding(&secp, 10));
    assert!(blinding(&secp, 256) != blinding(&secp, 1));
    assert!(Commitment([8u8; 33]) == Commitment([8u8; 33]));
    assert!(Commitment([8u8; 33]) != Commitment(VALUE_GENERATOR));
}

#[test]
fn commitment_to_one_unit_of_value_is_the_value_generator() {
    let secp = Curve::new();
    assert_eq!(commit_point(&secp, 1, &Scalar::zero()), Some(Commitment(VALUE_GENERATOR)));
    assert!(Commitment(VALUE_GENERATOR).is_valid(&secp));
}

#[test]
fn lift_of_one_is_the_generator() {
    let secp = Curve::new();
    assert_eq!(lift(&secp, &Scalar::one()), Some(generator()));
    assert_eq!(commit_to_zero(&secp, &Scalar::one()), Ok(generator()));
    assert_eq!(commit(&secp, 0, &Scalar::one()), Ok(generator()));
}

#[test]
fn neutral_element_has_no_commitment() {
    let secp = Curve::new();
    assert_eq!(lift(&secp, &Scalar::zero()), None);
    assert_eq!(commit_point(&secp, 0, &Scalar::zero()), None);
    assert_eq!(commit(&secp, 0, &Scalar::zero()), Err(Error::InvalidCommitment));
    assert_eq!(commit_to_zero(&secp, &Scalar::zero()), Err(Error::InvalidCommitment));
}

#[test]
fn a_randomized_context_commits_alike() {
    let fresh = Curve::new();
    let blinded = Curve::new().randomized();
    let b = blinding(&fresh, 20);
    assert_eq!(commit(&fresh, 40, &b), commit(&blinded, 40, &b));
}

#[test]
fn commitments_are_homomorphic() {
    let secp = Curve::new();
    let a = commit(&secp, 40, &blinding(&secp, 20)).unwrap();
    let b = commit(&secp, 15, &blinding(&secp, 34)).unwrap();
    let both = commit(&secp, 55, &blinding(&secp, 54)).unwrap();
    assert_eq!(add_points(&secp, &a, &b), Ok(Some(both)));
    assert_eq!(add_points(&secp, &b, &a), Ok(Some(both)));
    assert_ne!(a, both);
}

#[test]
fn sum_of_two_generators_is_the_lift_of_two() {
    let secp = Curve::new();
    let two = commit_to_zero(&secp, &blinding(&secp, 2)).unwrap();
    assert_eq!(add_points(&secp, &generator(), &generator()), Ok(Some(two)));
    assert_eq!(sum_points(&secp, &vec![two], &vec![generator()]), Ok(Some(generator())));
}

#[test]
fn sum_may_be_neutral() {
    let secp = Curve::new();
    let c = commit(&secp, 40, &blinding(&secp, 20)).unwrap();
    assert_eq!(sum_points(&secp, &vec![c], &vec![c]), Ok(None));
    assert_eq!(sum_points(&secp, &vec![], &vec![]), Ok(None));
    let minus_one = commit_to_zero(&secp, &Scalar::one().neg(&secp)).unwrap();
    assert_eq!(add_points(&secp, &generator(), &minus_one), Ok(None));
}

#[test]
fn bytes_that_are_no_point_are_refused() {
    let secp = Curve::new();
    let nothing = Commitment([0u8; 33]);
    let mut wrong_prefix = generator();
    wrong_prefix.0[0] = 0x02;
    assert!(!nothing.is_valid(&secp));
    assert!(!wrong_prefix.is_valid(&secp));
    assert!(generator().is_valid(&secp));
    assert!(!all_valid(&secp, &vec![generator(), nothing]));
    assert!(all_valid(&secp, &vec![generator(), Commitment(VALUE_GENERATOR)]));
    assert!(all_valid(&secp, &vec![]));
    assert_eq!(sum_points(&secp, &vec![generator()], &vec![nothing]), Err(Error::InvalidCommitment));
    assert_eq!(sum_points(&secp, &vec![nothing], &vec![]), Err(Error::InvalidCommitment));
    assert_eq!(add_points(&secp, &nothing, &generator()), Err(Error::InvalidCommitment));
    assert_eq!(scale_point(&secp, &nothing, &Scalar::one()), Err(Error::InvalidCommitment));
    assert!(!sums_match(&secp, &vec![nothing], &vec![nothing]));
}

#[test]
fn scaling_multiplies_the_point() {
    let secp = Curve::new();
    let three = commit_to_zero(&secp, &blinding(&secp, 3)).unwrap();
    let fifteen = commit_to_zero(&secp, &blinding(&secp, 15)).unwrap();
    assert_eq!(scale_point(&secp, &three, &blinding(&secp, 5)), Ok(Some(fifteen)));
    assert_eq!(scale_point(&secp, &three, &Scalar::one()), Ok(Some(three)));
    assert_eq!(scale_point(&secp, &three, &Scalar::zero()), Ok(None));
    let value = commit_point(&secp, 7, &Scalar::zero());
    assert_eq!(
        scale_point(&secp, &Commitment(VALUE_GENERATOR), &blinding(&secp, 7)),
        Ok(value)
    );
}

#[test]
fn sums_match_when_both_sides_agree() {
    let secp = Curve::new();
    let a = commit(&secp, 40, &blinding(&secp, 20)).unwrap();
    let b = commit(&secp, 15, &blinding(&secp, 34)).unwrap();
    let both = commit(&secp, 55, &blinding(&secp, 54)).unwrap();
    let other = commit(&secp, 56, &blinding(&secp, 54)).unwrap();
    assert!(sums_match(&secp, &vec![both], &vec![a, b]));
    assert!(!sums_match(&secp, &vec![other], &vec![a, b]));
    assert!(!sums_match(&secp, &vec![both], &vec![a]));
    assert!(sums_match(&secp, &vec![], &vec![]));
}

#[test]
fn balance_holds_under_the_excess_blinding() {
    let secp = Curve::new();
    let input = commit(&secp, 40, &blinding(&secp, 20)).unwrap();
    let change = commit(&secp, 15, &blinding(&secp, 34)).unwrap();
    let output = commit(&secp, 25, &blinding(&secp, 11)).unwrap();
    let excess = excess_blinding(
        &secp,
        &vec![blinding(&secp, 34), blinding(&secp, 11)],
        &vec![blinding(&secp, 20)],
    );
    assert_eq!(verify_balance(&secp, &vec![change, output], &vec![input], &excess), Ok(()));
}

#[test]
fn balance_fails_when_an_amount_is_off_by_one() {
    let secp = Curve::new();
    let input = commit(&secp, 40, &blinding(&secp, 20)).unwrap();
    let change = commit(&secp, 15, &blinding(&secp, 34)).unwrap();
    let excess = blinding(&secp, 25);
    for amount in [24u64, 26] {
        let output = commit(&secp, amount, &blinding(&secp, 11)).unwrap();
        assert_eq!(
            verify_balance(&secp, &vec![change, output], &vec![input], &excess),
            Err(Error::BalanceViolation)
        );
    }
    for amount in [14u64, 16] {
        let other_change = commit(&secp, amount, &blinding(&secp, 34)).unwrap();
        let output = commit(&secp, 25, &blinding(&secp, 11)).unwrap();
        assert_eq!(
            verify_balance(&secp, &vec![other_change, output], &vec![input], &excess),
            Err(Error::BalanceViolation)
        );
    }
}

#[test]
fn balance_fails_under_another_blinding() {
    let secp = Curve::new();
    let input = commit(&secp, 40, &blinding(&secp, 20)).unwrap();
    let change = commit(&secp, 15, &blinding(&secp, 34)).unwrap();
    let output = commit(&secp, 25, &blinding(&secp, 11)).unwrap();
    assert_eq!(
        verify_balance(&secp, &vec![change, output], &vec![input], &blinding(&secp, 26)),
        Err(Error::BalanceViolation)
    );
    assert_eq!(
        verify_balance(&secp, &vec![change, output], &vec![input], &Scalar::zero()),
        Err(Error::BalanceViolation)
    );
    assert_eq!(verify_balance(&secp, &vec![input], &vec![input], &Scalar::zero()), Ok(()));
}

#[test]
fn balance_refuses_what_is_no_point() {
    let secp = Curve::new();
    let input = commit(&secp, 40, &blinding(&secp, 20)).unwrap();
    let nothing = Commitment([0u8; 33]);
    assert_eq!(
        verify_balance(&secp, &vec![nothing], &vec![input], &blinding(&secp, 25)),
        Err(Error::InvalidCommitment)
    );
}

#[test]
fn challenge_is_the_digest_of_the_context() {
    let expected = [
        0xba, 0x78, 0x16, 0xbf, 0x8f, 0x01, 0xcf, 0xea, 0x41, 0x41, 0x40, 0xde, 0x5d, 0xae, 0x22,
        0x23, 0xb0, 0x03, 0x61, 0xa3, 0x96, 0x17, 0x7a, 0x9c, 0xb4, 0x10, 0xff, 0x61, 0xf2, 0x00,
        0x15, 0xad,
    ];
    let e = derive_challenge(b"abc").unwrap();
    assert_eq!(e.to_bytes(), expected);
    assert_eq!(derive_challenge(b"abc"), Ok(e));
    assert_ne!(derive_challenge(b"abd"), Ok(e));
}
