use bridge_relay::peer_runtime::{Peer, Substrate, WithSubstrateMessageBridge};
use bridge_relay::{
    bridged_balance_to_this_balance, rate_from_rational, rate_mul, saturating_mul_u128,
    transaction_payment, weight_to_fee, FixedRate, MessageTransaction, ParameterStore, FIXED_DIV,
};

#[test]
fn hundred_byte_proof_at_unit_rate_costs_hundred() {
    let tx = MessageTransaction { dispatch_weight: 5_000, size: 100 };
    assert_eq!(transaction_payment(0, 1, 0, FixedRate::one(), tx), 100);
}

#[test]
fn transaction_payment_adds_base_length_and_adjusted_weight_fees() {
    let tx = MessageTransaction { dispatch_weight: 1_000, size: 10 };
    // base 7 * 2, length 3 * 10, weight 1000 * 2 adjusted by 1.5
    let rate = FixedRate::from_inner(FIXED_DIV + FIXED_DIV / 2);
    assert_eq!(transaction_payment(7, 3, 2, rate, tx), 14 + 30 + 3_000);
}

#[test]
fn transaction_payment_saturates_instead_of_wrapping() {
    let tx = MessageTransaction { dispatch_weight: u64::MAX, size: u32::MAX };
    assert_eq!(transaction_payment(u64::MAX, u128::MAX, u128::MAX, FixedRate::one(), tx), u128::MAX);
}

#[test]
fn fee_grows_with_size_and_weight() {
    let small = MessageTransaction { dispatch_weight: 100, size: 10 };
    let bigger_size = MessageTransaction { dispatch_weight: 100, size: 11 };
    let bigger_weight = MessageTransaction { dispatch_weight: 101, size: 10 };
    let rate = FixedRate::from_inner(FIXED_DIV / 3);
    let f = |tx| transaction_payment(10, 2, 3, rate, tx);
    assert!(f(bigger_size) >= f(small));
    assert!(f(bigger_weight) >= f(small));
    // 300 times a third, held as 0.333..., rounds down to 99
    assert_eq!(f(small), 30 + 20 + 99);
}

#[test]
fn weight_to_fee_and_saturating_mul() {
    assert_eq!(weight_to_fee(10, 7), 70);
    assert_eq!(weight_to_fee(u64::MAX, u128::MAX), u128::MAX);
    assert_eq!(saturating_mul_u128(u128::MAX, 2), u128::MAX);
    assert_eq!(saturating_mul_u128(6, 7), 42);
}

#[test]
fn conversion_rounds_down_and_saturates() {
    let half = FixedRate::from_inner(FIXED_DIV / 2);
    assert_eq!(bridged_balance_to_this_balance(3, Some(half), FixedRate::one()), 1);
    let two = FixedRate::from_inner(2 * FIXED_DIV);
    assert_eq!(bridged_balance_to_this_balance(u128::MAX, Some(two), FixedRate::one()), u128::MAX);
    assert_eq!(bridged_balance_to_this_balance(1_000, None, two), 2_000);
}

#[test]
fn conversion_never_below_a_smaller_amount() {
    let rate = FixedRate::from_inner(3 * FIXED_DIV);
    let a = bridged_balance_to_this_balance(u128::MAX / 4, Some(rate), FixedRate::one());
    let b = bridged_balance_to_this_balance(u128::MAX / 2, Some(rate), FixedRate::one());
    assert_eq!(a, 3 * (u128::MAX / 4));
    assert_eq!(b, u128::MAX);
    assert!(b >= a);
}

#[test]
fn bridge_conversion_uses_stored_rate_unless_overridden() {
    let mut params = ParameterStore::new();
    assert_eq!(WithSubstrateMessageBridge::bridged_balance_to_this_balance(500, None, &params), 500);
    params.conversion_rate = FixedRate::from_inner(4 * FIXED_DIV);
    assert_eq!(WithSubstrateMessageBridge::bridged_balance_to_this_balance(500, None, &params), 2_000);
    let over = FixedRate::from_inner(FIXED_DIV / 10);
    assert_eq!(WithSubstrateMessageBridge::bridged_balance_to_this_balance(500, Some(over), &params), 50);
}

#[test]
fn rational_rates_and_products() {
    let r = rate_from_rational(110, 100);
    assert_eq!(r.inner, 1_100_000_000_000_000_000);
    let p = rate_mul(r, FixedRate::from_inner(2 * FIXED_DIV));
    assert_eq!(p.inner, 2_200_000_000_000_000_000);
    assert_eq!(rate_from_rational(1, 3).inner, 333_333_333_333_333_333);
    assert_eq!(rate_from_rational(u128::MAX, 1).inner, u128::MAX);
    assert_eq!(rate_mul(FixedRate::from_inner(u128::MAX), FixedRate::from_inner(u128::MAX)).inner, u128::MAX);
}

#[test]
fn peer_fee_raises_next_multiplier_by_a_tenth() {
    let tx = MessageTransaction { dispatch_weight: 1_000, size: 100 };
    assert_eq!(Peer::transaction_payment(tx, FixedRate::one()), 125_000_000 + 100 + 1_100);
}

#[test]
fn substrate_fee_uses_stored_multiplier() {
    let tx = MessageTransaction { dispatch_weight: 1_000, size: 100 };
    let mut params = ParameterStore::new();
    assert_eq!(Substrate::transaction_payment(tx, &params), 125_000_000 + 100 + 1_000);
    params.fee_multiplier = FixedRate::from_inner(3 * FIXED_DIV);
    assert_eq!(Substrate::transaction_payment(tx, &params), 125_000_000 + 100 + 3_000);
}
