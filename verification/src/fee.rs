//! Checked fee-split arithmetic.
//!
//! Every vote pays a platform fee of `floor(amount * fee_pct / 100)`; the
//! remainder is the net contribution credited to the campaign. All
//! arithmetic is checked: an overflow is reported, never wrapped.

use vstd::prelude::*;
use vstd::arithmetic::div_mod::{lemma_div_is_ordered, lemma_div_multiples_vanish};
use vstd::arithmetic::mul::{lemma_mul_inequality, lemma_mul_is_commutative};
use crate::errors::ErrorCode;

verus! {

/// How one vote amount divides between the platform fee and the net
/// contribution that reaches the campaign.
#[derive(Clone, Copy, Debug, PartialEq, Eq, Structural)]
pub struct FeeSplit {
    /// The part paid to the platform treasury.
    pub fee: u64,
    /// The part credited to the campaign; always `amount - fee`.
    pub net: u64,
}

/// The platform fee on `amount` at `fee_pct` percent, as an integer.
pub open spec fn spec_fee(amount: u64, fee_pct: u8) -> int {
    (amount as int * fee_pct as int) / 100
}

/// Whether the fee multiplication `amount * fee_pct` stays within `u64`.
pub open spec fn fee_fits(amount: u64, fee_pct: u8) -> bool {
    amount as int * fee_pct as int <= u64::MAX as int
}

/// The fee never exceeds the amount while the percentage is at most 100.
pub proof fn lemma_fee_le_amount(amount: u64, fee_pct: u8)
    requires
        fee_pct <= 100,
    ensures
        0 <= spec_fee(amount, fee_pct) <= amount as int,
{
    let a = amount as int;
    let p = fee_pct as int;
    lemma_mul_inequality(p, 100, a);
    lemma_mul_is_commutative(p, a);
    lemma_mul_is_commutative(100, a);
    lemma_div_is_ordered(a * p, 100 * a, 100);
    lemma_div_multiples_vanish(a, 100);
    assert(a * p >= 0) by (nonlinear_arith)
        requires
            a >= 0,
            p >= 0,
    ;
    lemma_div_is_ordered(0, a * p, 100);
}

/// Fee-split law: for every amount and fee percentage in range, the fee is
/// `floor(amount * fee_pct / 100)`, the net part is the rest, the two parts
/// sum back to the amount, and neither part is negative.
pub proof fn lemma_fee_split(amount: u64, fee_pct: u8)
    requires
        fee_pct <= 20,
    ensures
        spec_fee(amount, fee_pct) + (amount as int - spec_fee(amount, fee_pct)) == amount as int,
        amount as int - spec_fee(amount, fee_pct) >= 0,
        spec_fee(amount, fee_pct) >= 0,
{
    lemma_fee_le_amount(amount, fee_pct);
}

/// Splits `amount` into the platform fee and the net contribution, using
/// checked multiplication, division and subtraction.
pub fn compute_fee_split(amount: u64, fee_pct: u8) -> (r: Result<FeeSplit, ErrorCode>)
    requires
        fee_pct <= 20,
    ensures
        fee_fits(amount, fee_pct) ==> (r == Ok::<FeeSplit, ErrorCode>(
            FeeSplit {
                fee: spec_fee(amount, fee_pct) as u64,
                net: (amount as int - spec_fee(amount, fee_pct)) as u64,
            },
        )),
        !fee_fits(amount, fee_pct) ==> r == Err::<FeeSplit, ErrorCode>(
            ErrorCode::InvalidFeeCalculation,
        ),
        r matches Ok(s) ==> s.fee as int + s.net as int == amount as int && s.fee <= amount,
{
    let product = match amount.checked_mul(fee_pct as u64) {
        Some(p) => p,
        None => {
            return Err(ErrorCode::InvalidFeeCalculation);
        },
    };
    let fee = match product.checked_div(100) {
        Some(f) => f,
        None => {
            return Err(ErrorCode::InvalidFeeCalculation);
        },
    };
    proof {
        lemma_fee_le_amount(amount, fee_pct);
    }
    let net = match amount.checked_sub(fee) {
        Some(n) => n,
        None => {
            return Err(ErrorCode::InvalidFeeCalculation);
        },
    };
    Ok(FeeSplit { fee, net })
}

} // verus!
