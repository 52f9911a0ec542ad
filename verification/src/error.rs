//! Why a swap did not go through.

use crate::transfer::TransferError;
use vstd::prelude::*;

verus! {

/// Every way a swap can fail. Each one ends the swap: nothing is retried, and
/// no funds have moved for good.
#[derive(Clone, Copy, Debug, PartialEq, Eq, Structural)]
pub enum SwapError {
    /// The pool is locked.
    PoolLocked,
    /// The amount offered is zero.
    InvalidAmount,
    /// One of the reserves is empty.
    NoLiquidityInPool,
    /// The curve could not price the trade.
    CurveError,
    /// The payout is below the least the trader accepts.
    SlippageExceeded,
    /// The ledger refused one of the two transfers.
    TransferError(TransferError),
}

} // verus!
