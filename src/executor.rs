use vstd::prelude::*;

use crate::error::MarketError;
use crate::identity::AccountId;

verus! {

/// One intended movement of `amount` from `from` to `to`, authorized by
/// `authority`.
#[derive(Clone, Copy, Debug, PartialEq, Eq)]
pub struct TransferLeg {
    pub from: AccountId,
    pub to: AccountId,
    pub amount: u64,
    pub authority: AccountId,
}

impl TransferLeg {
    pub fn new(from: AccountId, to: AccountId, amount: u64, authority: AccountId) -> (r: TransferLeg)
        ensures
            r == (TransferLeg { from, to, amount, authority }),
    {
        TransferLeg { from, to, amount, authority }
    }
}

/// Where a settlement stands.
#[derive(Clone, Copy, Debug, PartialEq, Eq, Structural)]
pub enum Phase {
    /// The seller leg is to be attempted.
    SellerLeg,
    /// The seller leg went through; the fee leg is to be attempted.
    FeeLeg,
    /// The fee leg failed on a host without atomicity; the seller leg is being
    /// reversed.
    Compensating,
    /// Both legs went through.
    Completed,
    /// The settlement failed; nothing further is to be done.
    Failed,
}

/// What the host is to do next for a settlement.
#[derive(Clone, Copy, Debug, PartialEq, Eq)]
pub enum Action {
    /// Perform this leg with the asset's transfer primitive and report whether
    /// it succeeded.
    Transfer(TransferLeg),
    /// The settlement is complete.
    Finish,
    /// The settlement failed with this error.
    Abort(MarketError),
}

/// The transfer executor of one purchase: the two legs, the leg that undoes
/// the seller leg, and the phase reached.
#[derive(Clone, Copy, Debug, PartialEq, Eq)]
pub struct Settlement {
    pub seller_leg: TransferLeg,
    pub fee_leg: TransferLeg,
    pub compensation: TransferLeg,
    pub atomic_runtime: bool,
    pub phase: Phase,
}

/// The leg that moves `leg`'s amount back, authorized by `authority` (the
/// owner of what `leg` credited).
pub open spec fn reversal_of(leg: TransferLeg, authority: AccountId) -> TransferLeg {
    TransferLeg { from: leg.to, to: leg.from, amount: leg.amount, authority }
}

/// A settlement that has not attempted anything yet.
pub open spec fn fresh_settlement(
    seller_leg: TransferLeg,
    fee_leg: TransferLeg,
    refund_authority: AccountId,
    atomic_runtime: bool,
) -> Settlement {
    Settlement {
        seller_leg,
        fee_leg,
        compensation: reversal_of(seller_leg, refund_authority),
        atomic_runtime,
        phase: Phase::SellerLeg,
    }
}

/// The phase that follows `phase` once the leg it attempted succeeded or not.
pub open spec fn phase_after(phase: Phase, atomic_runtime: bool, succeeded: bool) -> Phase {
    match phase {
        Phase::SellerLeg => if succeeded { Phase::FeeLeg } else { Phase::Failed },
        Phase::FeeLeg => if succeeded {
            Phase::Completed
        } else if atomic_runtime {
            Phase::Failed
        } else {
            Phase::Compensating
        },
        Phase::Compensating => Phase::Failed,
        Phase::Completed => Phase::Completed,
        Phase::Failed => Phase::Failed,
    }
}

/// The settlement after the outcome of its pending leg.
pub open spec fn settlement_after(s: Settlement, succeeded: bool) -> Settlement {
    Settlement { phase: phase_after(s.phase, s.atomic_runtime, succeeded), ..s }
}

/// The action that the phase of `s` asks for.
pub open spec fn action_of(s: Settlement) -> Action {
    match s.phase {
        Phase::SellerLeg => Action::Transfer(s.seller_leg),
        Phase::FeeLeg => Action::Transfer(s.fee_leg),
        Phase::Compensating => Action::Transfer(s.compensation),
        Phase::Completed => Action::Finish,
        Phase::Failed => Action::Abort(MarketError::TransferFailed),
    }
}

impl Settlement {
    /// The compensation leg moves the seller leg's amount back from where
    /// that leg credited it.
    pub open spec fn wf(&self) -> bool {
        &&& self.compensation.from@ == self.seller_leg.to@
        &&& self.compensation.to@ == self.seller_leg.from@
        &&& self.compensation.amount == self.seller_leg.amount
    }

    /// A settlement whose seller leg is attempted first, then its fee leg; the
    /// seller leg is undone under `refund_authority` where the host is not
    /// atomic and the fee leg fails.
    pub fn new(
        seller_leg: TransferLeg,
        fee_leg: TransferLeg,
        refund_authority: AccountId,
        atomic_runtime: bool,
    ) -> (r: Settlement)
        ensures
            r == fresh_settlement(seller_leg, fee_leg, refund_authority, atomic_runtime),
            r.wf(),
    {
        let compensation = TransferLeg {
            from: seller_leg.to,
            to: seller_leg.from,
            amount: seller_leg.amount,
            authority: refund_authority,
        };
        Settlement { seller_leg, fee_leg, compensation, atomic_runtime, phase: Phase::SellerLeg }
    }

    /// What the host is to do next.
    pub fn pending_action(&self) -> (r: Action)
        ensures
            r == action_of(*self),
    {
        match self.phase {
            Phase::SellerLeg => Action::Transfer(self.seller_leg),
            Phase::FeeLeg => Action::Transfer(self.fee_leg),
            Phase::Compensating => Action::Transfer(self.compensation),
            Phase::Completed => Action::Finish,
            Phase::Failed => Action::Abort(MarketError::TransferFailed),
        }
    }

    /// Records whether the leg that `pending_action` asked for succeeded, and
    /// returns the next action.
    pub fn record_outcome(&mut self, succeeded: bool) -> (r: Action)
        ensures
            *final(self) == settlement_after(*old(self), succeeded),
            old(self).wf() ==> final(self).wf(),
            r == action_of(*final(self)),
    {
        let next = match self.phase {
            Phase::SellerLeg => if succeeded { Phase::FeeLeg } else { Phase::Failed },
            Phase::FeeLeg => if succeeded {
                Phase::Completed
            } else if self.atomic_runtime {
                Phase::Failed
            } else {
                Phase::Compensating
            },
            Phase::Compensating => Phase::Failed,
            Phase::Completed => Phase::Completed,
            Phase::Failed => Phase::Failed,
        };
        self.phase = next;
        self.pending_action()
    }

    pub fn is_finished(&self) -> (r: bool)
        ensures
            r <==> (self.phase == Phase::Completed || self.phase == Phase::Failed),
    {
        match self.phase {
            Phase::Completed | Phase::Failed => true,
            _ => false,
        }
    }
}

/// Balances of every account, by account identity.
pub type Balances = spec_fn(Seq<u8>) -> int;

/// The balances after `leg` has been carried out on `b`.
pub open spec fn apply_leg(b: Balances, leg: TransferLeg) -> Balances {
    |id: Seq<u8>|
        if id == leg.from@ && id == leg.to@ {
            b(id)
        } else if id == leg.from@ {
            b(id) - leg.amount
        } else if id == leg.to@ {
            b(id) + leg.amount
        } else {
            b(id)
        }
}

/// On a host without atomicity, a fee leg that fails after the seller leg
/// went through is followed by the compensating transfer, then by failure
/// with `TransferFailed`; carrying out the seller leg and then the
/// compensation leaves every balance as it was before the settlement.
pub proof fn lemma_compensation_restores_balances(s: Settlement, b: Balances)
    requires
        s.wf(),
        !s.atomic_runtime,
        s.phase == Phase::FeeLeg,
    ensures
        action_of(settlement_after(s, false)) == Action::Transfer(s.compensation),
        action_of(settlement_after(settlement_after(s, false), true)) == Action::Abort(
            MarketError::TransferFailed,
        ),
        forall|id: Seq<u8>| #[trigger]
            apply_leg(apply_leg(b, s.seller_leg), s.compensation)(id) == b(id),
{
}

/// On an atomic host, a failed fee leg ends the settlement with
/// `TransferFailed` at once, with no compensating transfer: the host undoes
/// the seller leg itself.
pub proof fn lemma_atomic_failure_aborts(s: Settlement)
    requires
        s.atomic_runtime,
        s.phase == Phase::FeeLeg,
    ensures
        action_of(settlement_after(s, false)) == Action::Abort(MarketError::TransferFailed),
{
}

} // verus!
