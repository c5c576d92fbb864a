use vstd::prelude::*;

use crate::error::MarketError;
use crate::executor::{fresh_settlement, Phase, Settlement, TransferLeg};
use crate::identity::{
    fee_recipient_ok, verify_fee_recipient, verify_fee_vault_entry, AccountId, LedgerEntry,
    MarketConfig,
};
use crate::split::{compute_split, lemma_seller_share_bounds, split_result, PROTOCOL_FEE_BPS};

verus! {

/// The accounts of a purchase paid in the native asset.
#[derive(Clone, Copy, Debug, PartialEq, Eq)]
pub struct ExecutePurchase {
    /// Pays, and signs both legs.
    pub buyer: AccountId,
    /// Receives the seller's share; taken as given.
    pub seller: AccountId,
    /// Receives the fee; must pass the identity guard.
    pub fee_vault: AccountId,
}

/// The accounts of a purchase paid in the token asset.
#[derive(Clone, Copy, Debug, PartialEq, Eq)]
pub struct ExecutePurchaseSpl {
    /// Signs both legs; must own `buyer_ata`.
    pub buyer: AccountId,
    /// The ledger entry that pays.
    pub buyer_ata: LedgerEntry,
    /// The ledger entry that receives the seller's share; taken as given.
    pub seller_ata: LedgerEntry,
    /// The fee recipient; must pass the identity guard.
    pub fee_vault: AccountId,
    /// The ledger entry that receives the fee; must be owned by `fee_vault`.
    pub fee_vault_ata: LedgerEntry,
}

/// The outcome owed by `execute_purchase`.
pub open spec fn native_outcome(config: MarketConfig, accounts: ExecutePurchase, amount: int) -> Result<Settlement, MarketError> {
    if !fee_recipient_ok(config, accounts.fee_vault) {
        Err(MarketError::InvalidFeeVault)
    } else {
        match split_result(amount, PROTOCOL_FEE_BPS as int) {
            Err(e) => Err(e),
            Ok(sp) => Ok(
                fresh_settlement(
                    TransferLeg {
                        from: accounts.buyer,
                        to: accounts.seller,
                        amount: sp.seller_share,
                        authority: accounts.buyer,
                    },
                    TransferLeg {
                        from: accounts.buyer,
                        to: accounts.fee_vault,
                        amount: sp.fee_share,
                        authority: accounts.buyer,
                    },
                    accounts.seller,
                    config.atomic_runtime,
                ),
            ),
        }
    }
}

/// The outcome owed by `execute_purchase_spl`.
pub open spec fn token_outcome(config: MarketConfig, accounts: ExecutePurchaseSpl, amount: int) -> Result<Settlement, MarketError> {
    if !fee_recipient_ok(config, accounts.fee_vault) {
        Err(MarketError::InvalidFeeVault)
    } else if accounts.fee_vault_ata.owner@ != accounts.fee_vault@ {
        Err(MarketError::InvalidFeeVault)
    } else if accounts.buyer_ata.owner@ != accounts.buyer@ {
        Err(MarketError::InvalidBuyerAccount)
    } else {
        match split_result(amount, PROTOCOL_FEE_BPS as int) {
            Err(e) => Err(e),
            Ok(sp) => Ok(
                fresh_settlement(
                    TransferLeg {
                        from: accounts.buyer_ata.key,
                        to: accounts.seller_ata.key,
                        amount: sp.seller_share,
                        authority: accounts.buyer,
                    },
                    TransferLeg {
                        from: accounts.buyer_ata.key,
                        to: accounts.fee_vault_ata.key,
                        amount: sp.fee_share,
                        authority: accounts.buyer,
                    },
                    accounts.seller_ata.owner,
                    config.atomic_runtime,
                ),
            ),
        }
    }
}

/// Settles a purchase of `amount` native units: the identity guard, then the
/// split at the protocol fee, then a settlement whose legs move the seller's
/// share from buyer to seller and the fee from buyer to the fee vault, both
/// signed by the buyer. Every refusal comes before any leg exists.
pub fn execute_purchase(config: &MarketConfig, accounts: &ExecutePurchase, amount: u64) -> (r: Result<Settlement, MarketError>)
    ensures
        r == native_outcome(*config, *accounts, amount as int),
{
    verify_fee_recipient(config, &accounts.fee_vault)?;
    let split = compute_split(amount, PROTOCOL_FEE_BPS)?;
    let seller_leg = TransferLeg::new(accounts.buyer, accounts.seller, split.seller_share, accounts.buyer);
    let fee_leg = TransferLeg::new(accounts.buyer, accounts.fee_vault, split.fee_share, accounts.buyer);
    Ok(Settlement::new(seller_leg, fee_leg, accounts.seller, config.atomic_runtime))
}

/// Settles a purchase of `amount` token units: the identity guard, the
/// ownership guards on the fee vault's and the buyer's ledger entries, then
/// the split at the protocol fee, then a settlement whose legs move the
/// seller's share and the fee out of the buyer's ledger entry, both signed by
/// the buyer. Every refusal comes before any leg exists.
pub fn execute_purchase_spl(config: &MarketConfig, accounts: &ExecutePurchaseSpl, amount: u64) -> (r: Result<Settlement, MarketError>)
    ensures
        r == token_outcome(*config, *accounts, amount as int),
{
    verify_fee_recipient(config, &accounts.fee_vault)?;
    verify_fee_vault_entry(&accounts.fee_vault, &accounts.fee_vault_ata)?;
    if accounts.buyer_ata.owner != accounts.buyer {
        return Err(MarketError::InvalidBuyerAccount);
    }
    let split = compute_split(amount, PROTOCOL_FEE_BPS)?;
    let seller_leg = TransferLeg::new(
        accounts.buyer_ata.key,
        accounts.seller_ata.key,
        split.seller_share,
        accounts.buyer,
    );
    let fee_leg = TransferLeg::new(
        accounts.buyer_ata.key,
        accounts.fee_vault_ata.key,
        split.fee_share,
        accounts.buyer,
    );
    Ok(Settlement::new(seller_leg, fee_leg, accounts.seller_ata.owner, config.atomic_runtime))
}

/// A zero amount is always refused, so no leg exists; where the fee recipient
/// (and, for the token asset, both ledger entries) passed the guards, the
/// refusal is `ZeroAmount`.
pub proof fn lemma_zero_amount_rejected(
    config: MarketConfig,
    native: ExecutePurchase,
    token: ExecutePurchaseSpl,
)
    ensures
        native_outcome(config, native, 0) is Err,
        token_outcome(config, token, 0) is Err,
        fee_recipient_ok(config, native.fee_vault) ==> native_outcome(config, native, 0) == Err::<
            Settlement,
            MarketError,
        >(MarketError::ZeroAmount),
        fee_recipient_ok(config, token.fee_vault) && token.fee_vault_ata.owner@ == token.fee_vault@
            && token.buyer_ata.owner@ == token.buyer@ ==> token_outcome(config, token, 0) == Err::<
            Settlement,
            MarketError,
        >(MarketError::ZeroAmount),
{
}

/// A fee recipient equal to the placeholder is refused with
/// `InvalidFeeVault` for every amount, even where the placeholder is also the
/// expected fee recipient.
pub proof fn lemma_placeholder_rejected(
    config: MarketConfig,
    native: ExecutePurchase,
    token: ExecutePurchaseSpl,
    amount: u64,
)
    ensures
        native.fee_vault@ == config.placeholder@ ==> native_outcome(config, native, amount as int)
            == Err::<Settlement, MarketError>(MarketError::InvalidFeeVault),
        token.fee_vault@ == config.placeholder@ ==> token_outcome(config, token, amount as int)
            == Err::<Settlement, MarketError>(MarketError::InvalidFeeVault),
{
}

/// A fee recipient other than the expected one is refused with
/// `InvalidFeeVault` for every amount.
pub proof fn lemma_mismatch_rejected(
    config: MarketConfig,
    native: ExecutePurchase,
    token: ExecutePurchaseSpl,
    amount: u64,
)
    ensures
        native.fee_vault@ != config.expected_fee_recipient@ ==> native_outcome(
            config,
            native,
            amount as int,
        ) == Err::<Settlement, MarketError>(MarketError::InvalidFeeVault),
        token.fee_vault@ != config.expected_fee_recipient@ ==> token_outcome(
            config,
            token,
            amount as int,
        ) == Err::<Settlement, MarketError>(MarketError::InvalidFeeVault),
{
}

/// The two legs of an accepted settlement together move exactly the amount
/// out of the buyer's account, nothing has been attempted yet, and the
/// compensation leg undoes the seller leg.
pub proof fn lemma_legs_conserve_amount(
    config: MarketConfig,
    native: ExecutePurchase,
    token: ExecutePurchaseSpl,
    amount: u64,
)
    ensures
        native_outcome(config, native, amount as int) matches Ok(s) ==> {
            &&& s.seller_leg.amount + s.fee_leg.amount == amount
            &&& s.seller_leg.from == native.buyer
            &&& s.fee_leg.from == native.buyer
            &&& s.phase == Phase::SellerLeg
            &&& s.wf()
        },
        token_outcome(config, token, amount as int) matches Ok(s) ==> {
            &&& s.seller_leg.amount + s.fee_leg.amount == amount
            &&& s.seller_leg.from == token.buyer_ata.key
            &&& s.fee_leg.from == token.buyer_ata.key
            &&& s.phase == Phase::SellerLeg
            &&& s.wf()
        },
{
    lemma_seller_share_bounds(amount as int, PROTOCOL_FEE_BPS as int);
}

} // verus!
