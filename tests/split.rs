use knowledge_market::error::MarketError;
use knowledge_market::split::{compute_split, Split, BPS_DENOMINATOR, PROTOCOL_FEE_BPS};

#[test]
fn split_of_ten_thousand() {
    assert_eq!(
        compute_split(10_000, PROTOCOL_FEE_BPS),
        Ok(Split { seller_share: 9_500, fee_share: 500 })
    );
}

#[test]
fn split_of_one_unit_goes_to_fee() {
    assert_eq!(
        compute_split(1, PROTOCOL_FEE_BPS),
        Ok(Split { seller_share: 0, fee_share: 1 })
    );
}

#[test]
fn split_rounds_seller_share_down() {
    // 333 * 9500 = 3_163_500, / 10000 = 316 (rounded down); the fee takes 17.
    assert_eq!(
        compute_split(333, PROTOCOL_FEE_BPS),
        Ok(Split { seller_share: 316, fee_share: 17 })
    );
}

#[test]
fn split_zero_amount_rejected() {
    assert_eq!(compute_split(0, PROTOCOL_FEE_BPS), Err(MarketError::ZeroAmount));
}

#[test]
fn split_max_amount_overflows() {
    assert_eq!(compute_split(u64::MAX, PROTOCOL_FEE_BPS), Err(MarketError::Overflow));
}

#[test]
fn split_largest_amount_that_fits() {
    let largest = u64::MAX / 9_500;
    let s = compute_split(largest, PROTOCOL_FEE_BPS).unwrap();
    assert_eq!(s.seller_share, largest * 9_500 / 10_000);
    assert_eq!(s.seller_share + s.fee_share, largest);
    assert_eq!(compute_split(largest + 1, PROTOCOL_FEE_BPS), Err(MarketError::Overflow));
}

#[test]
fn split_at_rate_bounds() {
    assert_eq!(compute_split(777, 0), Ok(Split { seller_share: 777, fee_share: 0 }));
    assert_eq!(
        compute_split(777, BPS_DENOMINATOR),
        Ok(Split { seller_share: 0, fee_share: 777 })
    );
    // At a zero rate the whole amount is scaled by 10000.
    assert_eq!(compute_split(u64::MAX, 0), Err(MarketError::Overflow));
    assert_eq!(
        compute_split(u64::MAX, BPS_DENOMINATOR),
        Ok(Split { seller_share: 0, fee_share: u64::MAX })
    );
}

#[test]
fn split_conserves_amount() {
    let mut a: u64 = 1;
    while a < 50_000 {
        let s = compute_split(a, PROTOCOL_FEE_BPS).unwrap();
        assert_eq!(s.seller_share + s.fee_share, a);
        assert_eq!(s.fee_share, a - a * 9_500 / 10_000);
        a += 7;
    }
}

#[test]
fn split_is_monotonic() {
    let mut prev = compute_split(1, PROTOCOL_FEE_BPS).unwrap();
    let mut a: u64 = 2;
    while a < 30_000 {
        let cur = compute_split(a, PROTOCOL_FEE_BPS).unwrap();
        assert!(prev.seller_share <= cur.seller_share);
        assert!(prev.fee_share <= cur.fee_share);
        prev = cur;
        a += 1;
    }
}
