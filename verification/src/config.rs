//! The pool's configuration and its fee.

use vstd::prelude::*;

verus! {

/// One hundred percent, in basis points.
pub const BASIS_POINTS: u16 = 10_000;

/// What is left of `amount_in` once a fee of `fee` basis points is withheld,
/// rounded down.
pub open spec fn net_of_fee(amount_in: int, fee: int) -> int {
    amount_in * (BASIS_POINTS - fee) / (BASIS_POINTS as int)
}

/// The settings a pool was created with.
///
/// The fee is always below one hundred percent: [`Config::new`] refuses any
/// other, and nothing changes it afterwards.
#[derive(Clone, Copy, Debug)]
pub struct Config {
    seed: u64,
    fee: u16,
    locked: bool,
    config_bump: u8,
}

impl Config {
    #[verifier::type_invariant]
    spec fn fee_below_whole(self) -> bool {
        self.fee < BASIS_POINTS
    }

    /// The seed the pool's address is derived from.
    pub closed spec fn spec_seed(&self) -> u64 {
        self.seed
    }

    /// The fee, in basis points.
    pub closed spec fn spec_fee(&self) -> u16 {
        self.fee
    }

    /// Whether the pool refuses swaps.
    pub closed spec fn spec_locked(&self) -> bool {
        self.locked
    }

    /// The bump that completes the pool's derived address.
    pub closed spec fn spec_config_bump(&self) -> u8 {
        self.config_bump
    }

    /// Whether the fee leaves something of every amount: what every `Config`
    /// built by [`Config::new`] satisfies.
    pub open spec fn wf(&self) -> bool {
        self.fee() < BASIS_POINTS
    }

    /// Builds a configuration, or nothing if `fee` is one hundred percent or
    /// more.
    pub fn new(seed: u64, fee: u16, locked: bool, config_bump: u8) -> (config: Option<Config>)
        ensures
            config is Some <==> fee < BASIS_POINTS,
            config matches Some(c) ==> {
                &&& c.seed() == seed
                &&& c.fee() == fee
                &&& c.locked() == locked
                &&& c.config_bump() == config_bump
                &&& c.wf()
            },
    {
        if fee < BASIS_POINTS {
            Some(Config { seed, fee, locked, config_bump })
        } else {
            None
        }
    }

    #[verifier::when_used_as_spec(spec_seed)]
    pub fn seed(&self) -> (seed: u64)
        ensures
            seed == self.seed(),
    {
        self.seed
    }

    /// The fee, which is below [`BASIS_POINTS`].
    #[verifier::when_used_as_spec(spec_fee)]
    pub fn fee(&self) -> (fee: u16)
        ensures
            fee == self.fee(),
            self.wf(),
    {
        proof {
            use_type_invariant(self);
        }
        self.fee
    }

    #[verifier::when_used_as_spec(spec_locked)]
    pub fn locked(&self) -> (locked: bool)
        ensures
            locked == self.locked(),
    {
        self.locked
    }

    #[verifier::when_used_as_spec(spec_config_bump)]
    pub fn config_bump(&self) -> (config_bump: u8)
        ensures
            config_bump == self.config_bump(),
    {
        self.config_bump
    }

    /// Withholds the fee from `amount_in`.
    ///
    /// The multiplication is done in 128 bits, where an amount of 64 bits
    /// times at most ten thousand cannot overflow.
    pub fn amount_after_fee(&self, amount_in: u64) -> (net: u64)
        ensures
            net == net_of_fee(amount_in as int, self.fee() as int),
            net <= amount_in,
            self.wf(),
    {
        proof {
            use_type_invariant(self);
            lemma_net_of_fee_bounds(amount_in as int, self.fee as int);
        }
        let kept: u128 = (BASIS_POINTS - self.fee) as u128;
        assert(amount_in as u128 * kept <= u64::MAX as u128 * 10_000) by (nonlinear_arith)
            requires
                amount_in <= u64::MAX,
                kept <= 10_000,
        ;
        let scaled: u128 = amount_in as u128 * kept;
        (scaled / (BASIS_POINTS as u128)) as u64
    }
}

/// The fee never takes more than the whole amount and never adds to it.
pub proof fn lemma_net_of_fee_bounds(amount_in: int, fee: int)
    requires
        amount_in >= 0,
        0 <= fee < BASIS_POINTS,
    ensures
        0 <= net_of_fee(amount_in, fee) <= amount_in,
{
    let kept = BASIS_POINTS - fee;
    assert(0 <= amount_in * kept <= amount_in * 10_000) by (nonlinear_arith)
        requires
            amount_in >= 0,
            0 < kept <= 10_000,
    ;
}

/// With no fee the whole amount goes to the curve.
pub proof fn lemma_zero_fee_keeps_amount(amount_in: int)
    ensures
        net_of_fee(amount_in, 0) == amount_in,
{
}

/// With the highest fee, 9999 basis points, one ten-thousandth of the amount
/// goes to the curve, rounded down.
pub proof fn lemma_highest_fee_keeps_ten_thousandth(amount_in: int)
    ensures
        net_of_fee(amount_in, BASIS_POINTS - 1) == amount_in / 10_000,
{
    assert(BASIS_POINTS - (BASIS_POINTS - 1) == 1);
    assert(amount_in * 1 == amount_in);
}

} // verus!
