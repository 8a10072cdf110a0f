use vstd::prelude::*;

use crate::account::AccountKey;
use crate::numeric::Numeric;
use crate::numeric::saturating_inc;
use crate::store::AccountMap;

verus! {

/// The associated types shared by every pallet of a runtime: the account
/// identifier and the system counters. A runtime implements this trait once,
/// so all pallets agree on the concrete types without repeating type
/// parameters at every call site.
pub trait Config {
    type AccountId: AccountKey;

    type BlockNumber: Numeric;

    type Nonce: Numeric;
}

/// The identity type of a configuration's account identifiers.
pub type KeyOf<T> = <<T as Config>::AccountId as AccountKey>::Key;

/// System state: the global block counter and the per-account nonces.
#[derive(Debug)]
pub struct Pallet<T: Config> {
    block_number: T::BlockNumber,
    nonce: AccountMap<T::AccountId, T::Nonce>,
}

impl<T: Config> Pallet<T> {
    /// The current block number as a mathematical value.
    pub closed spec fn spec_block_number(self) -> nat {
        self.block_number.as_nat()
    }

    /// The nonce of account identity `k`; zero for every account whose nonce
    /// was never incremented.
    pub closed spec fn nonce_of(self, k: KeyOf<T>) -> nat {
        self.nonce.spec_get(k)
    }

    /// Fresh system state: block number zero and every nonce zero.
    pub fn new() -> (r: Self)
        ensures
            r.spec_block_number() == 0,
            forall|k: KeyOf<T>| r.nonce_of(k) == 0,
    {
        Pallet { block_number: T::BlockNumber::zero(), nonce: AccountMap::new() }
    }

    pub fn block_number(&self) -> (r: T::BlockNumber)
        ensures
            r.as_nat() == self.spec_block_number(),
    {
        self.block_number
    }

    /// Adds one to the block counter. At the counter's maximum value the
    /// increment saturates: the counter keeps its value rather than wrapping.
    pub fn increment_block_number(&mut self)
        ensures
            final(self).spec_block_number() == saturating_inc(
                old(self).spec_block_number(),
                T::BlockNumber::max_nat(),
            ),
            forall|k: KeyOf<T>| final(self).nonce_of(k) == old(self).nonce_of(k),
    {
        match self.block_number.checked_add(T::BlockNumber::one()) {
            Some(v) => {
                self.block_number = v;
            },
            None => {
            },
        }
    }

    /// The nonce of `account`, or zero when it was never incremented.
    pub fn nonce(&self, account: &T::AccountId) -> (r: T::Nonce)
        ensures
            r.as_nat() == self.nonce_of(account.key()),
    {
        self.nonce.get(account)
    }

    /// Adds one to the account's nonce; every other account's nonce and the
    /// block number are unaffected. At the nonce type's maximum value the
    /// increment saturates rather than wrapping.
    pub fn inc_nounce(&mut self, account: &T::AccountId)
        ensures
            final(self).nonce_of(account.key()) == saturating_inc(
                old(self).nonce_of(account.key()),
                T::Nonce::max_nat(),
            ),
            forall|k: KeyOf<T>|
                k != account.key() ==> final(self).nonce_of(k) == old(self).nonce_of(k),
            final(self).spec_block_number() == old(self).spec_block_number(),
    {
        let current = self.nonce.get(account);
        let next = match current.checked_add(T::Nonce::one()) {
            Some(v) => v,
            None => current,
        };
        self.nonce.set(account, next);
    }
}

} // verus!
