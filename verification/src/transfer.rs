//! Fund movements, as the coordinator asks the ledger for them.
//!
//! The ledger holds the balances and carries out transfers. This module only
//! describes one: which balance pays, which receives, how much, and on whose
//! authority.

use vstd::bytes::{spec_u64_to_le_bytes, u64_to_le_bytes};
use vstd::prelude::*;

verus! {

/// One of the four balances a swap touches.
#[derive(Clone, Copy, Debug, PartialEq, Eq, Structural)]
pub enum TokenAccount {
    /// The trader's balance of asset X.
    UserX,
    /// The trader's balance of asset Y.
    UserY,
    /// The pool's reserve of asset X.
    VaultX,
    /// The pool's reserve of asset Y.
    VaultY,
}

/// Who authorizes a transfer.
#[derive(Clone, Copy, Debug, PartialEq, Eq, Structural)]
pub enum Authority {
    /// The trader, for funds leaving the trader's own balances.
    User,
    /// The pool, for funds leaving its vaults. The pool has no key: it signs
    /// with the address derived from `seed` and `bump`, so the capability
    /// reaches the vaults of this one pool and no others.
    Config { seed: u64, bump: u8 },
}

/// A request to move `amount` from one balance to another.
#[derive(Clone, Copy, Debug, PartialEq, Eq, Structural)]
pub struct Transfer {
    pub from: TokenAccount,
    pub to: TokenAccount,
    pub authority: Authority,
    pub amount: u64,
}

/// The ledger's reason for refusing a transfer, carried through unchanged.
#[derive(Clone, Copy, Debug, PartialEq, Eq, Structural)]
pub struct TransferError {
    pub code: u64,
}

/// The bytes of `config`, the first seed of every pool address.
pub open spec fn config_tag() -> Seq<u8> {
    seq![0x63u8, 0x6fu8, 0x6eu8, 0x66u8, 0x69u8, 0x67u8]
}

impl Authority {
    /// The seeds the ledger derives the signing address from: none for the
    /// trader, who signs with a key; for the pool the tag `config`, the seed
    /// in little-endian order, and the bump.
    pub open spec fn spec_signer_seeds(&self) -> Seq<Seq<u8>> {
        match *self {
            Authority::User => seq![],
            Authority::Config { seed, bump } => seq![
                config_tag(),
                spec_u64_to_le_bytes(seed),
                seq![bump],
            ],
        }
    }

    /// Whether this authority signs by derivation instead of with a key.
    pub fn use_signer(&self) -> (derived: bool)
        ensures
            derived == (*self is Config),
    {
        match self {
            Authority::User => false,
            Authority::Config { .. } => true,
        }
    }

    /// The seeds to sign with, as bytes.
    pub fn signer_seeds(&self) -> (seeds: Vec<Vec<u8>>)
        ensures
            seeds.deep_view() == self.spec_signer_seeds(),
    {
        match self {
            Authority::User => {
                let seeds: Vec<Vec<u8>> = Vec::new();
                assert(seeds.deep_view() =~= self.spec_signer_seeds());
                seeds
            },
            Authority::Config { seed, bump } => {
                let tag: Vec<u8> = vec![0x63u8, 0x6fu8, 0x6eu8, 0x66u8, 0x69u8, 0x67u8];
                let seed_bytes: Vec<u8> = u64_to_le_bytes(*seed);
                let bump_bytes: Vec<u8> = vec![*bump];
                assert(tag@ =~= config_tag());
                assert(bump_bytes@ =~= seq![*bump]);
                let seeds: Vec<Vec<u8>> = vec![tag, seed_bytes, bump_bytes];
                proof {
                    let want = self.spec_signer_seeds();
                    assert(seeds@[0].deep_view() =~= want[0]);
                    assert(seeds@[1].deep_view() =~= want[1]);
                    assert(seeds@[2].deep_view() =~= want[2]);
                    assert(seeds.deep_view() =~= want);
                }
                seeds
            },
        }
    }
}

impl Transfer {
    /// What carrying out this transfer does to the balance of `account`:
    /// `amount` more if it receives, `amount` less if it pays.
    pub open spec fn delta(&self, account: TokenAccount) -> int {
        (if self.to == account {
            self.amount as int
        } else {
            0
        }) - (if self.from == account {
            self.amount as int
        } else {
            0
        })
    }
}

} // verus!
