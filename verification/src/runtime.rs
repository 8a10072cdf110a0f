use vstd::prelude::*;

use crate::balances;
use crate::system;

verus! {

/// The one concrete configuration of this runtime: account identifiers are
/// strings, balances are `u128`, block numbers `u64` and nonces `u32`. Both
/// pallets are instantiated against this single type, so they agree on the
/// account identifier type without repeating type parameters.
#[derive(Debug)]
pub struct RuntimeConfig;

impl system::Config for RuntimeConfig {
    type AccountId = String;

    type BlockNumber = u64;

    type Nonce = u32;
}

impl balances::Config for RuntimeConfig {
    type Balance = u128;
}

/// The composition root: one balances pallet and one system pallet, both
/// instantiated against the same configuration. The root adds no behaviour
/// of its own; all mutation happens through the pallets' operations.
#[derive(Debug)]
pub struct Runtime {
    pub balances: balances::Pallet<RuntimeConfig>,
    pub system: system::Pallet<RuntimeConfig>,
}

impl Runtime {
    /// A fresh runtime: every balance zero, block number zero, every nonce
    /// zero.
    pub fn new() -> (r: Self)
        ensures
            forall|k: Seq<char>| r.balances.balance_of(k) == 0,
            r.system.spec_block_number() == 0,
            forall|k: Seq<char>| r.system.nonce_of(k) == 0,
    {
        Runtime { balances: balances::Pallet::new(), system: system::Pallet::new() }
    }
}

} // verus!
