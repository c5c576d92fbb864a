use vstd::prelude::*;

use crate::error::MarketError;

verus! {

/// An opaque 32-byte identifier naming an account: a party, or a ledger
/// entry of the token asset.
#[derive(Clone, Copy, Debug, Eq, Hash)]
pub struct AccountId {
    pub bytes: [u8; 32],
}

impl View for AccountId {
    type V = Seq<u8>;

    open spec fn view(&self) -> Seq<u8> {
        self.bytes@
    }
}

impl PartialEq for AccountId {
    fn eq(&self, o: &AccountId) -> (r: bool) {
        let mut i: usize = 0;
        while i < 32
            invariant
                0 <= i <= 32,
                self.bytes@.len() == 32,
                o.bytes@.len() == 32,
                forall|j: int| 0 <= j < i ==> self.bytes@[j] == o.bytes@[j],
            decreases 32 - i,
        {
            if self.bytes[i] != o.bytes[i] {
                return false;
            }
            i += 1;
        }
        proof {
            assert(self.bytes@ =~= o.bytes@);
        }
        true
    }
}

impl vstd::std_specs::cmp::PartialEqSpecImpl for AccountId {
    open spec fn obeys_eq_spec() -> bool {
        true
    }

    open spec fn eq_spec(&self, o: &AccountId) -> bool {
        self@ == o@
    }
}

impl AccountId {
    pub fn new_from_array(bytes: [u8; 32]) -> (r: AccountId)
        ensures
            r@ == bytes@,
    {
        AccountId { bytes }
    }

    pub fn to_bytes(&self) -> (r: [u8; 32])
        ensures
            r@ == self@,
    {
        self.bytes
    }
}

/// A ledger entry of the token asset: its own identity and the identity of
/// the party that owns the balance it records.
#[derive(Clone, Copy, Debug, PartialEq, Eq)]
pub struct LedgerEntry {
    pub key: AccountId,
    pub owner: AccountId,
}

/// The deployment-time configuration of the engine.
#[derive(Clone, Copy, Debug, PartialEq, Eq)]
pub struct MarketConfig {
    /// The only identity that may receive the protocol fee.
    pub expected_fee_recipient: AccountId,
    /// The "never configured" sentinel, refused even where it equals
    /// `expected_fee_recipient`.
    pub placeholder: AccountId,
    /// Whether the host undoes every effect of a failed operation by itself;
    /// where it does not, a failed fee leg is compensated by reversing the
    /// seller leg.
    pub atomic_runtime: bool,
}

/// Public key of the protocol fee vault.
pub const FEE_VAULT_BYTES: [u8; 32] = [
    232, 44, 153, 62, 229, 51, 95, 195, 187, 7, 242, 198, 227, 179, 144, 22, 69, 42, 25, 238, 22,
    196, 15, 99, 204, 19, 22, 177, 113, 201, 113, 223,
];

/// The sentinel key that marks a fee vault which was never configured.
pub const FEE_VAULT_PLACEHOLDER_BYTES: [u8; 32] = [
    0, 0, 0, 0, 0, 0, 0, 0, 0, 0, 0, 0, 0, 0, 0, 0, 0, 0, 0, 0, 0, 0, 0, 0, 0, 0, 0, 0, 0, 0, 0, 1,
];

impl MarketConfig {
    /// The configuration of the deployed program, whose host runtime is atomic.
    pub fn deployed() -> (r: MarketConfig)
        ensures
            r.expected_fee_recipient@ == FEE_VAULT_BYTES@,
            r.placeholder@ == FEE_VAULT_PLACEHOLDER_BYTES@,
            r.atomic_runtime,
    {
        MarketConfig {
            expected_fee_recipient: AccountId { bytes: FEE_VAULT_BYTES },
            placeholder: AccountId { bytes: FEE_VAULT_PLACEHOLDER_BYTES },
            atomic_runtime: true,
        }
    }
}

/// Whether `supplied` may receive the protocol fee under `config`.
pub open spec fn fee_recipient_ok(config: MarketConfig, supplied: AccountId) -> bool {
    supplied@ == config.expected_fee_recipient@ && supplied@ != config.placeholder@
}

/// The identity guard: the supplied fee recipient must be the configured one
/// and must not be the placeholder.
pub fn verify_fee_recipient(config: &MarketConfig, supplied: &AccountId) -> (r: Result<(), MarketError>)
    ensures
        r is Ok <==> fee_recipient_ok(*config, *supplied),
        r is Err ==> r == Err::<(), MarketError>(MarketError::InvalidFeeVault),
{
    if *supplied != config.expected_fee_recipient {
        return Err(MarketError::InvalidFeeVault);
    }
    if *supplied == config.placeholder {
        return Err(MarketError::InvalidFeeVault);
    }
    Ok(())
}

/// The ownership guard on the ledger entry meant to receive the fee: it must
/// be owned by the (already verified) fee recipient.
pub fn verify_fee_vault_entry(fee_recipient: &AccountId, entry: &LedgerEntry) -> (r: Result<(), MarketError>)
    ensures
        r is Ok <==> entry.owner@ == fee_recipient@,
        r is Err ==> r == Err::<(), MarketError>(MarketError::InvalidFeeVault),
{
    if entry.owner != *fee_recipient {
        return Err(MarketError::InvalidFeeVault);
    }
    Ok(())
}

} // verus!
