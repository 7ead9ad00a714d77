//! The fee model: fixed-point conversion rates and the cost of a transaction.

use sp_arithmetic::traits::Saturating;
use sp_arithmetic::{FixedPointNumber, FixedU128};
use vstd::arithmetic::div_mod::lemma_div_is_ordered;
use vstd::arithmetic::mul::lemma_mul_inequality;
use vstd::prelude::*;

verus! {

/// Computational weight, counted in reference-time units.
pub type Weight = u64;

/// A balance of either chain.
pub type Balance = u128;

/// The fixed-point denominator: a rate of `FIXED_DIV` parts is 1.0.
pub const FIXED_DIV: u128 = 1_000_000_000_000_000_000;

/// A non-negative fixed-point number with 18 decimal places, held as its
/// count of `1 / FIXED_DIV` parts.
#[derive(Clone, Copy, Debug, PartialEq, Eq, Structural)]
pub struct FixedRate {
    pub inner: u128,
}

/// The projected on-chain cost of a transaction.
#[derive(Clone, Copy, Debug, PartialEq, Eq, Structural)]
pub struct MessageTransaction {
    pub dispatch_weight: Weight,
    pub size: u32,
}

/// `x`, or `u128::MAX` where `x` does not fit.
pub open spec fn sat_u128(x: int) -> int {
    if x > u128::MAX {
        u128::MAX as int
    } else {
        x
    }
}

/// A fixed-point number times an integer, rounded down, saturating at `u128::MAX`.
pub open spec fn mul_int_spec(rate_inner: int, n: int) -> int {
    sat_u128((rate_inner * n) / (FIXED_DIV as int))
}

/// The fixed-point quotient `n / d`, rounded down, saturating at `u128::MAX` parts.
pub open spec fn from_rational_spec(n: int, d: int) -> int {
    sat_u128((n * (FIXED_DIV as int)) / d)
}

impl FixedRate {
    /// The rate 1.0.
    pub fn one() -> (r: FixedRate)
        ensures
            r.inner == FIXED_DIV,
    {
        FixedRate { inner: FIXED_DIV }
    }

    /// Builds a rate from its count of `1 / FIXED_DIV` parts.
    pub fn from_inner(inner: u128) -> (r: FixedRate)
        ensures
            r.inner == inner,
    {
        FixedRate { inner }
    }
}

/// Relies on sp_arithmetic's `FixedPointNumber::saturating_mul_int` for
/// `FixedU128` and `u128`: the product rounded down, `u128::MAX` when it does
/// not fit.
#[verifier::external_body]
fn fixed_mul_int(rate: FixedRate, n: u128) -> (r: u128)
    ensures
        r == mul_int_spec(rate.inner as int, n as int),
{
    FixedU128::from_inner(rate.inner).saturating_mul_int(n)
}

/// Relies on sp_arithmetic's `Saturating::saturating_mul` for `FixedU128`: the
/// product of two rates rounded down, the largest rate when it does not fit.
#[verifier::external_body]
fn fixed_mul(a: FixedRate, b: FixedRate) -> (r: FixedRate)
    ensures
        r.inner == mul_int_spec(a.inner as int, b.inner as int),
{
    FixedRate { inner: FixedU128::from_inner(a.inner).saturating_mul(FixedU128::from_inner(b.inner)).into_inner() }
}

/// Relies on sp_arithmetic's `FixedPointNumber::saturating_from_rational` for
/// `FixedU128`: `n / d` rounded down, the largest rate when it does not fit;
/// it panics when `d` is zero.
#[verifier::external_body]
fn fixed_from_rational(n: u128, d: u128) -> (r: FixedRate)
    requires
        d != 0,
    ensures
        r.inner == from_rational_spec(n as int, d as int),
{
    FixedRate { inner: FixedU128::saturating_from_rational(n, d).into_inner() }
}

/// The product `a * b`, saturating at `u128::MAX`.
pub fn saturating_mul_u128(a: u128, b: u128) -> (r: u128)
    ensures
        r == sat_u128(a * b),
{
    match a.checked_mul(b) {
        Some(p) => p,
        None => u128::MAX,
    }
}

/// The rate `n / d` rounded down, saturating; `d` must not be zero.
pub fn rate_from_rational(n: u128, d: u128) -> (r: FixedRate)
    requires
        d != 0,
    ensures
        r.inner == from_rational_spec(n as int, d as int),
{
    fixed_from_rational(n, d)
}

/// The product of two rates, rounded down, saturating.
pub fn rate_mul(a: FixedRate, b: FixedRate) -> (r: FixedRate)
    ensures
        r.inner == mul_int_spec(a.inner as int, b.inner as int),
{
    fixed_mul(a, b)
}

/// The fee for `weight` at `fee_per_weight` balance units per weight unit.
pub open spec fn weight_to_fee_spec(weight: int, fee_per_weight: int) -> int {
    sat_u128(weight * fee_per_weight)
}

/// Converts a weight to a fee, saturating.
pub fn weight_to_fee(weight: Weight, fee_per_weight: Balance) -> (r: Balance)
    ensures
        r == weight_to_fee_spec(weight as int, fee_per_weight as int),
{
    saturating_mul_u128(weight as u128, fee_per_weight)
}

/// `base + len_fee + adjusted_weight_fee`, each sum and product saturating, where
/// the base fee is the fee of the base extrinsic weight, the length fee is
/// `per_byte_fee * size`, and the adjusted weight fee is the dispatch weight's fee
/// times the multiplier.
pub open spec fn transaction_payment_spec(
    base_extrinsic_weight: int,
    per_byte_fee: int,
    fee_per_weight: int,
    multiplier: int,
    dispatch_weight: int,
    size: int,
) -> int {
    let base_fee = weight_to_fee_spec(base_extrinsic_weight, fee_per_weight);
    let len_fee = sat_u128(per_byte_fee * size);
    let adjusted_weight_fee = mul_int_spec(
        multiplier,
        weight_to_fee_spec(dispatch_weight, fee_per_weight),
    );
    sat_u128(sat_u128(base_fee + len_fee) + adjusted_weight_fee)
}

/// The fee that a chain charges for `transaction`: the base fee, the length fee
/// and the weight fee adjusted by `multiplier`, with every step saturating.
pub fn transaction_payment(
    base_extrinsic_weight: Weight,
    per_byte_fee: Balance,
    fee_per_weight: Balance,
    multiplier: FixedRate,
    transaction: MessageTransaction,
) -> (r: Balance)
    ensures
        r == transaction_payment_spec(
            base_extrinsic_weight as int,
            per_byte_fee as int,
            fee_per_weight as int,
            multiplier.inner as int,
            transaction.dispatch_weight as int,
            transaction.size as int,
        ),
{
    let base_fee = weight_to_fee(base_extrinsic_weight, fee_per_weight);
    let len_fee = saturating_mul_u128(per_byte_fee, transaction.size as u128);
    let unadjusted_weight_fee = weight_to_fee(transaction.dispatch_weight, fee_per_weight);
    let adjusted_weight_fee = fixed_mul_int(multiplier, unadjusted_weight_fee);
    base_fee.saturating_add(len_fee).saturating_add(adjusted_weight_fee)
}

/// Converts a balance of the bridged chain to this chain's units: the amount
/// times the rate (the override where one is given, else `stored_rate`), rounded
/// down, saturating at the largest balance.
pub fn bridged_balance_to_this_balance(
    bridged_balance: Balance,
    rate_override: Option<FixedRate>,
    stored_rate: FixedRate,
) -> (r: Balance)
    ensures
        r == mul_int_spec(
            (match rate_override {
                Some(rate) => rate,
                None => stored_rate,
            }).inner as int,
            bridged_balance as int,
        ),
{
    let conversion_rate = match rate_override {
        Some(rate) => rate,
        None => stored_rate,
    };
    fixed_mul_int(conversion_rate, bridged_balance)
}

proof fn lemma_sat_monotone(a: int, b: int)
    requires
        a <= b,
    ensures
        sat_u128(a) <= sat_u128(b),
{
}

proof fn lemma_mul_int_monotone(r1: int, r2: int, n1: int, n2: int)
    requires
        0 <= r1 <= r2,
        0 <= n1 <= n2,
    ensures
        mul_int_spec(r1, n1) <= mul_int_spec(r2, n2),
{
    lemma_mul_inequality(r1, r2, n1);
    lemma_mul_inequality(n1, n2, r2);
    assert(r2 * n1 == n1 * r2) by (nonlinear_arith);
    assert(r2 * n2 == n2 * r2) by (nonlinear_arith);
    lemma_div_is_ordered(r1 * n1, r2 * n2, FIXED_DIV as int);
    lemma_sat_monotone(r1 * n1 / (FIXED_DIV as int), r2 * n2 / (FIXED_DIV as int));
}

proof fn lemma_weight_to_fee_monotone(w1: int, w2: int, fee_per_weight: int)
    requires
        0 <= w1 <= w2,
        0 <= fee_per_weight,
    ensures
        0 <= weight_to_fee_spec(w1, fee_per_weight) <= weight_to_fee_spec(w2, fee_per_weight),
{
    lemma_mul_inequality(w1, w2, fee_per_weight);
    assert(0 <= w1 * fee_per_weight) by (nonlinear_arith)
        requires
            0 <= w1,
            0 <= fee_per_weight,
    ;
}

/// The transaction fee never decreases when the transaction grows: a larger
/// size or a larger dispatch weight gives a fee at least as large.
pub proof fn lemma_fee_monotonic(
    base_extrinsic_weight: Weight,
    per_byte_fee: Balance,
    fee_per_weight: Balance,
    multiplier: FixedRate,
    smaller: MessageTransaction,
    larger: MessageTransaction,
)
    requires
        smaller.dispatch_weight <= larger.dispatch_weight,
        smaller.size <= larger.size,
    ensures
        transaction_payment_spec(
            base_extrinsic_weight as int,
            per_byte_fee as int,
            fee_per_weight as int,
            multiplier.inner as int,
            smaller.dispatch_weight as int,
            smaller.size as int,
        ) <= transaction_payment_spec(
            base_extrinsic_weight as int,
            per_byte_fee as int,
            fee_per_weight as int,
            multiplier.inner as int,
            larger.dispatch_weight as int,
            larger.size as int,
        ),
{
    let b = per_byte_fee as int;
    let f = fee_per_weight as int;
    let m = multiplier.inner as int;
    lemma_mul_inequality(smaller.size as int, larger.size as int, b);
    assert(b * (smaller.size as int) == (smaller.size as int) * b) by (nonlinear_arith);
    assert(b * (larger.size as int) == (larger.size as int) * b) by (nonlinear_arith);
    lemma_sat_monotone(b * smaller.size, b * larger.size);
    lemma_weight_to_fee_monotone(smaller.dispatch_weight as int, larger.dispatch_weight as int, f);
    lemma_mul_int_monotone(
        m,
        m,
        weight_to_fee_spec(smaller.dispatch_weight as int, f),
        weight_to_fee_spec(larger.dispatch_weight as int, f),
    );
    let base = weight_to_fee_spec(base_extrinsic_weight as int, f);
    lemma_sat_monotone(base + sat_u128(b * smaller.size), base + sat_u128(b * larger.size));
}

/// Converting a balance never wraps: the result is the exact product rounded
/// down wherever that fits a balance, and the largest balance otherwise; and it
/// never decreases when the amount or the rate grows.
pub proof fn lemma_conversion_exact_or_saturated(
    amount: Balance,
    larger_amount: Balance,
    rate: FixedRate,
    larger_rate: FixedRate,
)
    requires
        amount <= larger_amount,
        rate.inner <= larger_rate.inner,
    ensures
        rate.inner * amount / (FIXED_DIV as int) <= u128::MAX ==> mul_int_spec(
            rate.inner as int,
            amount as int,
        ) == rate.inner * amount / (FIXED_DIV as int),
        rate.inner * amount / (FIXED_DIV as int) > u128::MAX ==> mul_int_spec(
            rate.inner as int,
            amount as int,
        ) == u128::MAX,
        mul_int_spec(rate.inner as int, amount as int) <= mul_int_spec(
            larger_rate.inner as int,
            larger_amount as int,
        ),
{
    lemma_mul_int_monotone(
        rate.inner as int,
        larger_rate.inner as int,
        amount as int,
        larger_amount as int,
    );
}

} // verus!
