//! The swap coordinator.
//!
//! A swap sells an amount of one asset to the pool for the other. The
//! coordinator checks the pool, withholds the fee, asks the curve for the
//! payout, holds it against the least the trader accepts, and only then asks
//! for the two transfers. The fee stays in the pool: the trader pays in the
//! full amount, and the curve prices only what is left after the fee.

use crate::config::{lemma_net_of_fee_bounds, net_of_fee, Config};
use crate::curve::{
    delta_out, keeps_product, lemma_delta_out_keeps_product, quote, ConstantProduct, CurveError,
};
use crate::error::SwapError;
use crate::settlement::Settlement;
use crate::transfer::{Authority, TokenAccount, Transfer};
use vstd::prelude::*;

verus! {

/// A pool as one swap sees it: its configuration, and the balances of its two
/// vaults read at the start of the call.
#[derive(Clone, Copy, Debug)]
pub struct Swap {
    pub config: Config,
    /// The pool's reserve of asset X.
    pub vault_x: u64,
    /// The pool's reserve of asset Y.
    pub vault_y: u64,
}

impl Swap {
    /// The reserve that the trader pays into: X when X is sold, else Y.
    pub open spec fn reserve_in(&self, is_x: bool) -> u64 {
        if is_x {
            self.vault_x
        } else {
            self.vault_y
        }
    }

    /// The reserve that pays the trader: Y when X is sold, else X.
    pub open spec fn reserve_out(&self, is_x: bool) -> u64 {
        if is_x {
            self.vault_y
        } else {
            self.vault_x
        }
    }

    /// Whether the pool takes swaps at all: it is unlocked and neither
    /// reserve is empty.
    pub open spec fn open_for_trade(&self) -> bool {
        !self.config.locked() && self.vault_x > 0 && self.vault_y > 0
    }

    /// The payout for `amount_in`: the fee is withheld first, then the curve
    /// prices the rest against the two reserves.
    pub open spec fn amount_out(&self, is_x: bool, amount_in: u64) -> int {
        delta_out(
            self.reserve_in(is_x) as int,
            self.reserve_out(is_x) as int,
            net_of_fee(amount_in as int, self.config.fee() as int),
        )
    }

    /// The transfer of `amount` for a swap in the given direction: out of the
    /// paying vault on the pool's authority when `from_vault`, else into the
    /// receiving vault on the trader's.
    pub open spec fn spec_transfer_tokens(
        &self,
        is_x: bool,
        amount: u64,
        from_vault: bool,
    ) -> Transfer {
        if from_vault {
            Transfer {
                from: if is_x {
                    TokenAccount::VaultY
                } else {
                    TokenAccount::VaultX
                },
                to: if is_x {
                    TokenAccount::UserY
                } else {
                    TokenAccount::UserX
                },
                authority: Authority::Config {
                    seed: self.config.seed(),
                    bump: self.config.config_bump(),
                },
                amount,
            }
        } else {
            Transfer {
                from: if is_x {
                    TokenAccount::UserX
                } else {
                    TokenAccount::UserY
                },
                to: if is_x {
                    TokenAccount::VaultX
                } else {
                    TokenAccount::VaultY
                },
                authority: Authority::User,
                amount,
            }
        }
    }

    /// What the curve answers when asked to price `amount_in` less the fee.
    pub open spec fn priced(&self, is_x: bool, amount_in: u64) -> Result<u64, CurveError> {
        quote(
            self.reserve_in(is_x),
            self.reserve_out(is_x),
            net_of_fee(amount_in as int, self.config.fee() as int) as u64,
        )
    }

    /// What a swap comes to once the curve has answered: a failure of the
    /// curve fails the swap, a payout below `min_amount_out` fails it for
    /// slippage, and any other payout is settled by two transfers, the full
    /// `amount_in` to the pool and the payout to the trader.
    pub open spec fn conclude_outcome(
        &self,
        is_x: bool,
        amount_in: u64,
        min_amount_out: u64,
        priced: Result<u64, CurveError>,
    ) -> Result<Settlement, SwapError> {
        match priced {
            Err(_) => Err(SwapError::CurveError),
            Ok(amount_out) => if amount_out < min_amount_out {
                Err(SwapError::SlippageExceeded)
            } else {
                Ok(
                    Settlement::started(
                        self.spec_transfer_tokens(is_x, amount_in, false),
                        self.spec_transfer_tokens(is_x, amount_out, true),
                    ),
                )
            },
        }
    }

    /// What a swap comes to. The checks are made in this order, and the first
    /// that fails decides the error.
    pub open spec fn swap_outcome(&self, is_x: bool, amount_in: u64, min_amount_out: u64) -> Result<
        Settlement,
        SwapError,
    > {
        if self.config.locked() {
            Err(SwapError::PoolLocked)
        } else if amount_in == 0 {
            Err(SwapError::InvalidAmount)
        } else if self.vault_x == 0 || self.vault_y == 0 {
            Err(SwapError::NoLiquidityInPool)
        } else {
            self.conclude_outcome(is_x, amount_in, min_amount_out, self.priced(is_x, amount_in))
        }
    }

    /// Checks and prices a swap of `amount_in`, of X if `is_x` and of Y
    /// otherwise, for no less than `min_amount_out` of the other asset.
    ///
    /// On success nothing has moved yet: the settlement returned holds the
    /// two transfers and asks for the inbound one first. On failure there is
    /// nothing to undo.
    pub fn swap(&self, is_x: bool, amount_in: u64, min_amount_out: u64) -> (result: Result<
        Settlement,
        SwapError,
    >)
        ensures
            result == self.swap_outcome(is_x, amount_in, min_amount_out),
    {
        if self.config.locked() {
            return Err(SwapError::PoolLocked);
        }
        if amount_in == 0 {
            return Err(SwapError::InvalidAmount);
        }
        let vault_x: u64 = self.vault_x;
        let vault_y: u64 = self.vault_y;
        if vault_x == 0 || vault_y == 0 {
            return Err(SwapError::NoLiquidityInPool);
        }
        let amount_after_fee: u64 = self.config.amount_after_fee(amount_in);
        let priced = if is_x {
            ConstantProduct::delta_y_from_x_swap_amount(vault_x, vault_y, amount_after_fee)
        } else {
            ConstantProduct::delta_x_from_y_swap_amount(vault_x, vault_y, amount_after_fee)
        };
        self.conclude(is_x, amount_in, min_amount_out, priced)
    }

    /// Ends the checks of a swap with the curve's answer `priced`.
    ///
    /// No funds are to move unless the curve priced the trade and the trader
    /// accepts the price, so this comes after the curve and before any
    /// transfer.
    pub fn conclude(
        &self,
        is_x: bool,
        amount_in: u64,
        min_amount_out: u64,
        priced: Result<u64, CurveError>,
    ) -> (result: Result<Settlement, SwapError>)
        ensures
            result == self.conclude_outcome(is_x, amount_in, min_amount_out, priced),
    {
        let amount_out: u64 = match priced {
            Ok(amount_out) => amount_out,
            Err(_) => return Err(SwapError::CurveError),
        };
        if amount_out < min_amount_out {
            return Err(SwapError::SlippageExceeded);
        }
        let inbound = self.transfer_tokens(is_x, amount_in, false);
        let outbound = self.transfer_tokens(is_x, amount_out, true);
        Ok(Settlement::begin(inbound, outbound))
    }

    /// Describes one transfer of a swap.
    ///
    /// Funds that leave a vault go to the trader's balance of the same asset,
    /// on the pool's derived authority; funds that enter a vault come from the
    /// trader's balance of that asset, on the trader's authority.
    pub fn transfer_tokens(&self, is_x: bool, amount: u64, from_vault: bool) -> (transfer: Transfer)
        ensures
            transfer == self.spec_transfer_tokens(is_x, amount, from_vault),
    {
        let (from, to, authority) = if from_vault {
            let authority = Authority::Config {
                seed: self.config.seed(),
                bump: self.config.config_bump(),
            };
            if is_x {
                (TokenAccount::VaultY, TokenAccount::UserY, authority)
            } else {
                (TokenAccount::VaultX, TokenAccount::UserX, authority)
            }
        } else {
            if is_x {
                (TokenAccount::UserX, TokenAccount::VaultX, Authority::User)
            } else {
                (TokenAccount::UserY, TokenAccount::VaultY, Authority::User)
            }
        };
        Transfer { from, to, authority, amount }
    }
}

/// A locked pool refuses every swap as locked, whatever is asked of it and
/// whatever its reserves are. No settlement comes of it, so no transfer is
/// ever asked for and the reserves stay as they are.
pub proof fn lemma_locked_pool_rejects(swap: Swap, is_x: bool, amount_in: u64, min_amount_out: u64)
    requires
        swap.config.locked(),
    ensures
        swap.swap_outcome(is_x, amount_in, min_amount_out) == Err::<Settlement, SwapError>(
            SwapError::PoolLocked,
        ),
{
}

/// An unlocked pool with an empty reserve refuses every swap of a positive
/// amount for want of liquidity. The curve is never consulted.
pub proof fn lemma_empty_pool_rejects(swap: Swap, is_x: bool, amount_in: u64, min_amount_out: u64)
    requires
        !swap.config.locked(),
        amount_in > 0,
        swap.vault_x == 0 || swap.vault_y == 0,
    ensures
        swap.swap_outcome(is_x, amount_in, min_amount_out) == Err::<Settlement, SwapError>(
            SwapError::NoLiquidityInPool,
        ),
{
}

/// On a pool with liquidity the curve always has a price: the payout, a
/// whole amount below the reserve that pays it. It keeps the product of the
/// reserves even if the fee is not counted towards them.
pub proof fn lemma_amount_out_in_reserve(swap: Swap, is_x: bool, amount_in: u64)
    requires
        swap.config.wf(),
        swap.vault_x > 0,
        swap.vault_y > 0,
    ensures
        0 <= swap.amount_out(is_x, amount_in) < swap.reserve_out(is_x),
        swap.priced(is_x, amount_in) == Ok::<u64, CurveError>(
            swap.amount_out(is_x, amount_in) as u64,
        ),
        keeps_product(
            swap.reserve_in(is_x) as int,
            swap.reserve_out(is_x) as int,
            net_of_fee(amount_in as int, swap.config.fee() as int),
            swap.amount_out(is_x, amount_in),
        ),
{
    lemma_net_of_fee_bounds(amount_in as int, swap.config.fee() as int);
    lemma_delta_out_keeps_product(
        swap.reserve_in(is_x) as int,
        swap.reserve_out(is_x) as int,
        net_of_fee(amount_in as int, swap.config.fee() as int),
    );
}

/// A swap of a positive amount on a pool with liquidity has one of three
/// ends. It is refused as locked, exactly when the pool is locked. It is
/// refused for slippage, exactly when the pool is unlocked and the payout is
/// below the least accepted. Or it succeeds, and then it is no empty
/// gesture: the settlement waits for the inbound transfer of the whole
/// `amount_in`, and its outbound transfer pays the curve's amount, which is
/// at least `min_amount_out` and keeps the product of the reserves.
pub proof fn lemma_swap_settles_or_fails(
    swap: Swap,
    is_x: bool,
    amount_in: u64,
    min_amount_out: u64,
)
    requires
        swap.config.wf(),
        swap.vault_x > 0,
        swap.vault_y > 0,
        amount_in > 0,
    ensures
        match swap.swap_outcome(is_x, amount_in, min_amount_out) {
            Ok(settlement) => {
                &&& !swap.config.locked()
                &&& settlement.stage is Inbound
                &&& settlement.inbound == swap.spec_transfer_tokens(is_x, amount_in, false)
                &&& settlement.outbound == swap.spec_transfer_tokens(
                    is_x,
                    settlement.outbound.amount,
                    true,
                )
                &&& settlement.inbound.amount == amount_in
                &&& settlement.outbound.amount == swap.amount_out(is_x, amount_in)
                &&& settlement.outbound.amount >= min_amount_out
                &&& settlement.outbound.amount < swap.reserve_out(is_x)
                &&& keeps_product(
                    swap.reserve_in(is_x) as int,
                    swap.reserve_out(is_x) as int,
                    net_of_fee(amount_in as int, swap.config.fee() as int),
                    settlement.outbound.amount as int,
                )
            },
            Err(SwapError::PoolLocked) => swap.config.locked(),
            Err(SwapError::SlippageExceeded) => {
                &&& !swap.config.locked()
                &&& swap.amount_out(is_x, amount_in) < min_amount_out
            },
            Err(_) => false,
        },
{
    lemma_amount_out_in_reserve(swap, is_x, amount_in);
}

/// A successful swap, once both transfers are carried out, adds exactly
/// `amount_in` to the vault of the asset sold and takes exactly the payout
/// from the other; the trader's balances change by the opposite amounts.
pub proof fn lemma_swap_moves_exact_amounts(
    swap: Swap,
    is_x: bool,
    amount_in: u64,
    min_amount_out: u64,
)
    requires
        swap.config.wf(),
        swap.swap_outcome(is_x, amount_in, min_amount_out) is Ok,
    ensures
        ({
            let settlement = swap.swap_outcome(is_x, amount_in, min_amount_out)->Ok_0;
            let amount_out = swap.amount_out(is_x, amount_in);
            let (vault_in, vault_out, user_in, user_out) = if is_x {
                (TokenAccount::VaultX, TokenAccount::VaultY, TokenAccount::UserX, TokenAccount::UserY)
            } else {
                (TokenAccount::VaultY, TokenAccount::VaultX, TokenAccount::UserY, TokenAccount::UserX)
            };
            &&& settlement.delta(vault_in) == amount_in
            &&& settlement.delta(vault_out) == -amount_out
            &&& settlement.delta(user_in) == -amount_in
            &&& settlement.delta(user_out) == amount_out
        }),
{
    lemma_amount_out_in_reserve(swap, is_x, amount_in);
}

/// A successful swap never lowers the product of the reserves: with both
/// transfers carried out, the new reserves multiply to at least what the old
/// ones did.
pub proof fn lemma_product_never_decreases(
    swap: Swap,
    is_x: bool,
    amount_in: u64,
    min_amount_out: u64,
)
    requires
        swap.config.wf(),
        swap.swap_outcome(is_x, amount_in, min_amount_out) is Ok,
    ensures
        ({
            let settlement = swap.swap_outcome(is_x, amount_in, min_amount_out)->Ok_0;
            let reserve_x = swap.vault_x + settlement.delta(TokenAccount::VaultX);
            let reserve_y = swap.vault_y + settlement.delta(TokenAccount::VaultY);
            &&& reserve_x >= 0
            &&& reserve_y >= 0
            &&& reserve_x * reserve_y >= swap.vault_x * swap.vault_y
        }),
{
    lemma_amount_out_in_reserve(swap, is_x, amount_in);
    lemma_swap_moves_exact_amounts(swap, is_x, amount_in, min_amount_out);
    lemma_net_of_fee_bounds(amount_in as int, swap.config.fee() as int);
    let reserve_in = swap.reserve_in(is_x) as int;
    let reserve_out = swap.reserve_out(is_x) as int;
    let net = net_of_fee(amount_in as int, swap.config.fee() as int);
    let amount_out = swap.amount_out(is_x, amount_in);
    assert((reserve_in + amount_in) * (reserve_out - amount_out) >= reserve_in * reserve_out)
        by (nonlinear_arith)
        requires
            (reserve_in + net) * (reserve_out - amount_out) >= reserve_in * reserve_out,
            net <= amount_in,
            reserve_out - amount_out >= 0,
    ;
    assert((reserve_out - amount_out) * (reserve_in + amount_in) == (reserve_in + amount_in) * (
        reserve_out - amount_out)) by (nonlinear_arith);
    assert(reserve_out * reserve_in == reserve_in * reserve_out) by (nonlinear_arith);
}

/// The slippage check is exact. On a pool that takes the swap otherwise, it
/// succeeds exactly when the payout is at least `min_amount_out`: asking for
/// the payout itself succeeds, asking for one unit more fails for slippage.
pub proof fn lemma_slippage_boundary(swap: Swap, is_x: bool, amount_in: u64, min_amount_out: u64)
    requires
        swap.config.wf(),
        swap.open_for_trade(),
        amount_in > 0,
    ensures
        swap.swap_outcome(is_x, amount_in, min_amount_out) is Ok <==> swap.amount_out(
            is_x,
            amount_in,
        ) >= min_amount_out,
        swap.amount_out(is_x, amount_in) < min_amount_out ==> swap.swap_outcome(
            is_x,
            amount_in,
            min_amount_out,
        ) == Err::<Settlement, SwapError>(SwapError::SlippageExceeded),
        swap.amount_out(is_x, amount_in) == min_amount_out ==> swap.swap_outcome(
            is_x,
            amount_in,
            min_amount_out,
        ) is Ok,
        swap.amount_out(is_x, amount_in) == min_amount_out - 1 ==> swap.swap_outcome(
            is_x,
            amount_in,
            min_amount_out,
        ) == Err::<Settlement, SwapError>(SwapError::SlippageExceeded),
        swap.swap_outcome(is_x, amount_in, 0) is Ok,
{
    lemma_amount_out_in_reserve(swap, is_x, amount_in);
}

} // verus!
