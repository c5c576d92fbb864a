use vstd::prelude::*;

use crate::error::MarketError;

verus! {

/// Protocol fee, in basis points (5%).
pub const PROTOCOL_FEE_BPS: u64 = 500;

/// Number of basis points in a whole.
pub const BPS_DENOMINATOR: u64 = 10_000;

/// The division of one purchase amount between seller and fee recipient.
#[derive(Clone, Copy, Debug, PartialEq, Eq, Structural)]
pub struct Split {
    pub seller_share: u64,
    pub fee_share: u64,
}

/// The seller's share: the amount scaled by the seller's part of the
/// denominator, rounded down.
pub open spec fn seller_share_of(amount: int, fee_bps: int) -> int {
    amount * (BPS_DENOMINATOR - fee_bps) / BPS_DENOMINATOR as int
}

/// The fee share: whatever the seller's share leaves of the amount.
pub open spec fn fee_share_of(amount: int, fee_bps: int) -> int {
    amount - seller_share_of(amount, fee_bps)
}

/// Whether scaling the amount by the seller's part leaves the range of `u64`.
pub open spec fn split_overflows(amount: int, fee_bps: int) -> bool {
    amount * (BPS_DENOMINATOR - fee_bps) > u64::MAX
}

/// The split owed for a valid amount.
pub open spec fn split_of(amount: int, fee_bps: int) -> Split {
    Split {
        seller_share: seller_share_of(amount, fee_bps) as u64,
        fee_share: fee_share_of(amount, fee_bps) as u64,
    }
}

/// The outcome owed by `compute_split`.
pub open spec fn split_result(amount: int, fee_bps: int) -> Result<Split, MarketError> {
    if amount == 0 {
        Err(MarketError::ZeroAmount)
    } else if split_overflows(amount, fee_bps) {
        Err(MarketError::Overflow)
    } else {
        Ok(split_of(amount, fee_bps))
    }
}

/// The seller's share lies between zero and the amount.
pub proof fn lemma_seller_share_bounds(amount: int, fee_bps: int)
    requires
        0 <= amount,
        0 <= fee_bps <= BPS_DENOMINATOR,
    ensures
        0 <= seller_share_of(amount, fee_bps) <= amount,
{
    let k = BPS_DENOMINATOR - fee_bps;
    assert(0 <= amount * k <= amount * 10000) by (nonlinear_arith)
        requires 0 <= amount, 0 <= k <= 10000;
    assert(amount * k / 10000 <= amount * 10000 / 10000) by (nonlinear_arith)
        requires 0 <= amount * k <= amount * 10000;
    assert(amount * 10000 / 10000 == amount) by (nonlinear_arith)
        requires 0 <= amount;
    assert(0 <= amount * k / 10000) by (nonlinear_arith)
        requires 0 <= amount * k;
}

/// Splits `amount` at `fee_bps` basis points: the seller receives the amount
/// scaled by `10000 - fee_bps` and divided by 10000, rounded down, and the fee
/// recipient receives the rest, so the two shares always add up to the amount.
pub fn compute_split(amount: u64, fee_bps: u64) -> (r: Result<Split, MarketError>)
    requires
        fee_bps <= BPS_DENOMINATOR,
    ensures
        r == split_result(amount as int, fee_bps as int),
        r is Ok ==> r->Ok_0.seller_share + r->Ok_0.fee_share == amount,
{
    if amount == 0 {
        return Err(MarketError::ZeroAmount);
    }
    let scaled = match amount.checked_mul(BPS_DENOMINATOR - fee_bps) {
        Some(v) => v,
        None => return Err(MarketError::Overflow),
    };
    let seller_share = scaled / BPS_DENOMINATOR;
    proof {
        lemma_seller_share_bounds(amount as int, fee_bps as int);
    }
    let fee_share = amount - seller_share;
    Ok(Split { seller_share, fee_share })
}

/// The fee share at the protocol rate is the amount less the amount scaled
/// by 9500/10000, rounded down.
pub proof fn lemma_protocol_fee_share(amount: int)
    requires
        0 < amount,
    ensures
        fee_share_of(amount, PROTOCOL_FEE_BPS as int) == amount - amount * 9500 / 10000,
{
}

/// A larger amount never gives either party a smaller share.
pub proof fn lemma_split_monotonic(a1: int, a2: int, fee_bps: int)
    requires
        0 < a1 < a2,
        0 <= fee_bps <= BPS_DENOMINATOR,
    ensures
        seller_share_of(a1, fee_bps) <= seller_share_of(a2, fee_bps),
        fee_share_of(a1, fee_bps) <= fee_share_of(a2, fee_bps),
{
    let k = BPS_DENOMINATOR - fee_bps;
    let s1 = a1 * k / 10000;
    let s2 = a2 * k / 10000;
    assert(a1 * k <= a2 * k) by (nonlinear_arith)
        requires 0 < a1 < a2, 0 <= k;
    assert(s1 <= s2) by (nonlinear_arith)
        requires a1 * k <= a2 * k, s1 == a1 * k / 10000, s2 == a2 * k / 10000, 0 <= a1 * k;
    assert((a2 - a1) * k <= (a2 - a1) * 10000) by (nonlinear_arith)
        requires 0 < a1 < a2, 0 <= k <= 10000;
    assert(s2 - s1 <= a2 - a1) by (nonlinear_arith)
        requires
            s1 == a1 * k / 10000,
            s2 == a2 * k / 10000,
            0 <= a1 * k,
            0 <= a2 * k,
            (a2 - a1) * k <= (a2 - a1) * 10000,
    {
        assert(s1 * 10000 > a1 * k - 10000);
        assert(s2 * 10000 <= a2 * k);
    }
}

} // verus!
