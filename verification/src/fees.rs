//! Escrow accounting: splitting an amount into the platform fee and the net
//! share that goes to a winner (at prize time) or back to a buyer (per entry
//! at refund time). The split never leaves a remainder unaccounted.

use vstd::prelude::*;
use crate::errors::RaffleError;

verus! {

/// Platform fee rate in basis points (10% of the pot).
pub const PLATFORM_FEE_BPS: u64 = 1000;

/// Basis points making up the whole (10000 bps = 100%).
pub const BPS_DENOMINATOR: u64 = 10000;

/// The platform's cut of `amount`: multiplication before division, division
/// truncating toward zero.
pub open spec fn spec_fee(amount: u64) -> int {
    (amount * PLATFORM_FEE_BPS) / (BPS_DENOMINATOR as int)
}

/// What remains of `amount` after the platform's cut.
pub open spec fn spec_net(amount: u64) -> int {
    amount - spec_fee(amount)
}

/// The fee and net shares reconcile exactly for every amount: they sum back
/// to the amount split, both are non-negative, and neither exceeds it.
pub proof fn lemma_fee_split_reconciles(amount: u64)
    ensures
        spec_fee(amount) + spec_net(amount) == amount,
        0 <= spec_fee(amount) <= amount,
        0 <= spec_net(amount) <= amount,
{
    assert(0 <= spec_fee(amount) <= amount) by (nonlinear_arith);
}

/// Splits `amount` into `(fee, net)` with `fee = floor(amount * fee_bps /
/// 10000)` and `net = amount - fee`. Fails only when scaling the amount by
/// the fee rate cannot be represented.
pub fn fee_split(amount: u64) -> (r: Result<(u64, u64), RaffleError>)
    ensures
        amount * PLATFORM_FEE_BPS <= u64::MAX ==> r == Ok::<(u64, u64), RaffleError>((
            spec_fee(amount) as u64,
            spec_net(amount) as u64,
        )),
        amount * PLATFORM_FEE_BPS > u64::MAX ==> r == Err::<(u64, u64), RaffleError>(
            RaffleError::Overflow,
        ),
        r is Ok ==> r->Ok_0.0 + r->Ok_0.1 == amount,
{
    proof {
        lemma_fee_split_reconciles(amount);
    }
    match amount.checked_mul(PLATFORM_FEE_BPS) {
        Some(scaled) => {
            let fee: u64 = scaled / BPS_DENOMINATOR;
            let net: u64 = amount - fee;
            Ok((fee, net))
        },
        None => Err(RaffleError::Overflow),
    }
}

} // verus!
