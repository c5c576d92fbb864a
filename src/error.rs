use vstd::prelude::*;

verus! {

/// Every way a settlement can be refused or can fail.
#[derive(Clone, Copy, Debug, PartialEq, Eq, Structural)]
pub enum MarketError {
    /// The purchase amount is zero.
    ZeroAmount,
    /// The split computation left the range of `u64`.
    Overflow,
    /// The fee recipient, or the ledger entry meant to receive the fee, is not
    /// the configured protocol fee recipient.
    InvalidFeeVault,
    /// The buyer's ledger entry is not owned by the buyer.
    InvalidBuyerAccount,
    /// The transfer primitive rejected a leg.
    TransferFailed,
}

impl MarketError {
    /// The message that accompanies the error.
    pub fn message(&self) -> (r: &'static str) {
        match self {
            MarketError::ZeroAmount => "Amount must be greater than zero",
            MarketError::Overflow => "Arithmetic overflow",
            MarketError::InvalidFeeVault => "Fee vault address does not match the protocol fee vault",
            MarketError::InvalidBuyerAccount => "Buyer token account is not owned by the buyer",
            MarketError::TransferFailed => "Transfer failed",
        }
    }
}

} // verus!
