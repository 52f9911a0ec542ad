//! The two transfers of a swap, carried out as one unit of work.
//!
//! A settlement asks for the inbound transfer, then for the outbound one, and
//! commits once both went through. The first refusal aborts it, with the
//! ledger's error unchanged; the caller then undoes whatever was done. The
//! settlement itself moves nothing: it says what to do next, and is told how
//! it went.

use crate::error::SwapError;
use crate::transfer::{TokenAccount, Transfer, TransferError};
use vstd::prelude::*;

verus! {

/// How far a settlement has come.
#[derive(Clone, Copy, Debug, PartialEq, Eq, Structural)]
pub enum Stage {
    /// The inbound transfer has been asked for and not answered.
    Inbound,
    /// The inbound transfer went through; the outbound one has been asked for.
    Outbound,
    /// Both transfers went through.
    Committed,
    /// A transfer was refused, with this error.
    Aborted(TransferError),
}

/// What the caller is to do next.
#[derive(Clone, Copy, Debug, PartialEq, Eq, Structural)]
pub enum Action {
    /// Ask the ledger for this transfer and report how it went.
    Transfer(Transfer),
    /// Make both transfers final: the swap succeeded.
    Commit,
    /// Undo everything and fail the swap with this error.
    Abort(TransferError),
}

/// A swap that passed every check, and the progress of its two transfers.
#[derive(Clone, Copy, Debug, PartialEq, Eq, Structural)]
pub struct Settlement {
    /// From the trader to the pool: the full amount offered.
    pub inbound: Transfer,
    /// From the pool to the trader: the payout.
    pub outbound: Transfer,
    pub stage: Stage,
}

impl Settlement {
    /// A settlement that has not heard from the ledger yet.
    pub open spec fn started(inbound: Transfer, outbound: Transfer) -> Settlement {
        Settlement { inbound, outbound, stage: Stage::Inbound }
    }

    /// The action that belongs to the current stage.
    pub open spec fn spec_action(&self) -> Action {
        match self.stage {
            Stage::Inbound => Action::Transfer(self.inbound),
            Stage::Outbound => Action::Transfer(self.outbound),
            Stage::Committed => Action::Commit,
            Stage::Aborted(error) => Action::Abort(error),
        }
    }

    /// The stage after the ledger answered the pending transfer with
    /// `outcome`. A settlement that is committed or aborted stays as it is.
    pub open spec fn next_stage(&self, outcome: Result<(), TransferError>) -> Stage {
        match (self.stage, outcome) {
            (Stage::Inbound, Ok(_)) => Stage::Outbound,
            (Stage::Outbound, Ok(_)) => Stage::Committed,
            (Stage::Inbound, Err(error)) => Stage::Aborted(error),
            (Stage::Outbound, Err(error)) => Stage::Aborted(error),
            (stage, _) => stage,
        }
    }

    /// The settlement after `outcome`: the same two transfers, at the next
    /// stage.
    pub open spec fn spec_record(&self, outcome: Result<(), TransferError>) -> Settlement {
        Settlement {
            inbound: self.inbound,
            outbound: self.outbound,
            stage: self.next_stage(outcome),
        }
    }

    /// The settlement after the ledger answered one transfer after another
    /// with `outcomes`.
    pub open spec fn after(&self, outcomes: Seq<Result<(), TransferError>>) -> Settlement
        decreases outcomes.len(),
    {
        if outcomes.len() == 0 {
            *self
        } else {
            self.after(outcomes.drop_last()).spec_record(outcomes.last())
        }
    }

    /// How the swap ended, if it has.
    pub open spec fn spec_result(&self) -> Option<Result<(), SwapError>> {
        match self.stage {
            Stage::Inbound => None,
            Stage::Outbound => None,
            Stage::Committed => Some(Ok(())),
            Stage::Aborted(error) => Some(Err(SwapError::TransferError(error))),
        }
    }

    /// What both transfers together do to the balance of `account`.
    pub open spec fn delta(&self, account: TokenAccount) -> int {
        self.inbound.delta(account) + self.outbound.delta(account)
    }

    /// Starts a settlement of the two transfers.
    pub fn begin(inbound: Transfer, outbound: Transfer) -> (settlement: Settlement)
        ensures
            settlement == Settlement::started(inbound, outbound),
    {
        Settlement { inbound, outbound, stage: Stage::Inbound }
    }

    /// What to do now.
    pub fn action(&self) -> (action: Action)
        ensures
            action == self.spec_action(),
    {
        match self.stage {
            Stage::Inbound => Action::Transfer(self.inbound),
            Stage::Outbound => Action::Transfer(self.outbound),
            Stage::Committed => Action::Commit,
            Stage::Aborted(error) => Action::Abort(error),
        }
    }

    /// Takes the ledger's answer to the pending transfer, and says what to do
    /// next.
    pub fn step(self, outcome: Result<(), TransferError>) -> (next: (Settlement, Action))
        ensures
            next.0 == self.spec_record(outcome),
            next.1 == self.spec_record(outcome).spec_action(),
    {
        let stage = match self.stage {
            Stage::Inbound => match outcome {
                Ok(_) => Stage::Outbound,
                Err(error) => Stage::Aborted(error),
            },
            Stage::Outbound => match outcome {
                Ok(_) => Stage::Committed,
                Err(error) => Stage::Aborted(error),
            },
            Stage::Committed => Stage::Committed,
            Stage::Aborted(error) => Stage::Aborted(error),
        };
        let settlement = Settlement { inbound: self.inbound, outbound: self.outbound, stage };
        let action = settlement.action();
        (settlement, action)
    }

    /// How the swap ended: nothing while a transfer is pending, success once
    /// committed, the ledger's error once aborted.
    pub fn result(&self) -> (result: Option<Result<(), SwapError>>)
        ensures
            result == self.spec_result(),
    {
        match self.stage {
            Stage::Inbound => None,
            Stage::Outbound => None,
            Stage::Committed => Some(Ok(())),
            Stage::Aborted(error) => Some(Err(SwapError::TransferError(error))),
        }
    }
}

/// A settlement commits exactly when the ledger accepted both transfers. If
/// the inbound transfer is refused, the outbound one is never asked for; the
/// first refusal ends the settlement with the ledger's own error.
pub proof fn lemma_commits_only_after_both_legs(
    settlement: Settlement,
    first: Result<(), TransferError>,
    second: Result<(), TransferError>,
)
    requires
        settlement.stage is Inbound,
    ensures
        settlement.spec_action() == Action::Transfer(settlement.inbound),
        first is Ok ==> settlement.spec_record(first).spec_action() == Action::Transfer(
            settlement.outbound,
        ),
        first matches Err(error) ==> settlement.spec_record(first).spec_action() == Action::Abort(
            error,
        ),
        settlement.after(seq![first, second]).stage is Committed <==> first is Ok && second is Ok,
        first matches Err(error) ==> settlement.after(seq![first, second]).stage == Stage::Aborted(
            error,
        ),
        first is Ok ==> (second matches Err(error) ==> settlement.after(
            seq![first, second],
        ).stage == Stage::Aborted(error)),
{
    let outcomes = seq![first, second];
    assert(outcomes.drop_last() =~= seq![first]);
    assert(seq![first].drop_last() =~= Seq::<Result<(), TransferError>>::empty());
    assert(settlement.after(Seq::<Result<(), TransferError>>::empty()) == settlement);
    assert(settlement.after(seq![first]) == settlement.spec_record(first));
    assert(settlement.after(outcomes) == settlement.spec_record(first).spec_record(second));
}

/// A settlement that has ended stays ended, whatever it is told, and no
/// answer ever changes the two transfers.
pub proof fn lemma_ended_settlement_stays(
    settlement: Settlement,
    outcomes: Seq<Result<(), TransferError>>,
)
    ensures
        settlement.after(outcomes).inbound == settlement.inbound,
        settlement.after(outcomes).outbound == settlement.outbound,
        settlement.stage is Committed || settlement.stage is Aborted ==> settlement.after(outcomes)
            == settlement,
    decreases outcomes.len(),
{
    if outcomes.len() > 0 {
        lemma_ended_settlement_stays(settlement, outcomes.drop_last());
    }
}

} // verus!
