use vstd::prelude::*;

use crate::account::AccountKey;
use crate::numeric::Numeric;
use crate::store::AccountMap;
use crate::system;
use crate::system::KeyOf;

verus! {

/// Configuration of the balances pallet: the system types shared by every
/// pallet plus the balance type.
pub trait Config: system::Config {
    type Balance: Numeric;
}

/// The ledger: the authoritative mapping from accounts to balances, and the
/// sole authority for mutating them.
#[derive(Debug)]
pub struct Pallet<T: Config> {
    balances: AccountMap<T::AccountId, T::Balance>,
}

/// A successful transfer of `amt` from identity `from` to a distinct
/// identity `to`: the sender is debited exactly `amt`, the receiver is
/// credited exactly `amt`, and every other balance is unchanged.
pub open spec fn transfer_applied<T: Config>(
    pre: Pallet<T>,
    post: Pallet<T>,
    from: KeyOf<T>,
    to: KeyOf<T>,
    amt: nat,
) -> bool {
    &&& post.balance_of(from) == pre.balance_of(from) - amt
    &&& post.balance_of(to) == pre.balance_of(to) + amt
    &&& forall|k: KeyOf<T>| k != from && k != to ==> post.balance_of(k) == pre.balance_of(k)
}

/// Every balance of `post` equals the corresponding balance of `pre`.
pub open spec fn balances_unchanged<T: Config>(pre: Pallet<T>, post: Pallet<T>) -> bool {
    forall|k: KeyOf<T>| post.balance_of(k) == pre.balance_of(k)
}

impl<T: Config> Pallet<T> {
    /// The balance of account identity `k`; zero for every account whose
    /// balance was never set.
    pub closed spec fn balance_of(self, k: KeyOf<T>) -> nat {
        self.balances.spec_get(k)
    }

    /// An empty ledger: every account holds the implicit balance zero.
    pub fn new() -> (r: Self)
        ensures
            forall|k: KeyOf<T>| r.balance_of(k) == 0,
    {
        Pallet { balances: AccountMap::new() }
    }

    /// Unconditionally overwrites (or inserts) the account's balance; the
    /// prior balance is discarded and every other account is unaffected.
    pub fn set_balance(&mut self, account: &T::AccountId, amount: T::Balance)
        ensures
            final(self).balance_of(account.key()) == amount.as_nat(),
            forall|k: KeyOf<T>|
                k != account.key() ==> final(self).balance_of(k) == old(self).balance_of(k),
    {
        self.balances.set(account, amount);
    }

    /// The stored balance of `account`, or zero when absent.
    pub fn balance(&self, account: &T::AccountId) -> (r: T::Balance)
        ensures
            r.as_nat() == self.balance_of(account.key()),
    {
        self.balances.get(account)
    }

    /// Atomically moves `amount` from `caller` to `to`. Both balances are
    /// captured first and both checks are evaluated against those captured
    /// values; only if both checks pass is anything written, so a failed
    /// call leaves the ledger completely unmodified. The call fails with
    /// `"Insufficient balance"` when the caller's balance is less than
    /// `amount`, and otherwise with `"Overflow"` when the receiver's balance
    /// plus `amount` exceeds the largest representable balance. A transfer
    /// from an account to itself that passes both checks is a no-op.
    pub fn transfer(&mut self, caller: T::AccountId, to: T::AccountId, amount: T::Balance) -> (r:
        Result<(), &'static str>)
        ensures
            ({
                let fb = old(self).balance_of(caller.key());
                let tb = old(self).balance_of(to.key());
                let amt = amount.as_nat();
                &&& (r is Ok <==> amt <= fb && tb + amt <= T::Balance::max_nat())
                &&& (r is Ok && caller.key() != to.key() ==> transfer_applied(
                    *old(self),
                    *final(self),
                    caller.key(),
                    to.key(),
                    amt,
                ))
                &&& (r is Ok && caller.key() == to.key() ==> balances_unchanged(
                    *old(self),
                    *final(self),
                ))
                &&& (r is Err ==> balances_unchanged(*old(self), *final(self)))
                &&& (amt > fb ==> (r matches Err(e) && e@ == "Insufficient balance"@))
                &&& (amt <= fb && tb + amt > T::Balance::max_nat() ==> (r matches Err(e) && e@
                    == "Overflow"@))
            }),
    {
        let caller_balance = self.balance(&caller);
        let to_balance = self.balance(&to);

        let new_caller_balance = match caller_balance.checked_sub(amount) {
            Some(v) => v,
            None => {
                return Err("Insufficient balance");
            },
        };
        let new_to_balance = match to_balance.checked_add(amount) {
            Some(v) => v,
            None => {
                return Err("Overflow");
            },
        };

        if caller.eq_key(&to) {
            // Both checks passed against the balances captured above; moving
            // an amount from an account to itself leaves every balance as it
            // was.
            return Ok(());
        }

        self.set_balance(&caller, new_caller_balance);
        self.set_balance(&to, new_to_balance);
        Ok(())
    }
}

/// Law: after `set_balance` stores `n` for an account, a `balance` read of
/// that account returns exactly `n`. The first premise is what `set_balance`
/// ensures of the resulting ledger, the second is what `balance` ensures of
/// the value it returns from that ledger.
pub proof fn lemma_set_then_read<T: Config>(
    post: Pallet<T>,
    account: T::AccountId,
    n: T::Balance,
    r: T::Balance,
)
    requires
        post.balance_of(account.key()) == n.as_nat(),
        r.as_nat() == post.balance_of(account.key()),
    ensures
        r == n,
{
    T::Balance::lemma_as_nat_injective(r, n);
}

/// Law: a successful transfer between distinct accounts debits the sender by
/// exactly the amount, credits the receiver by exactly the amount, and
/// conserves the sum of the two balances.
pub proof fn lemma_transfer_conserves<T: Config>(
    pre: Pallet<T>,
    post: Pallet<T>,
    from: KeyOf<T>,
    to: KeyOf<T>,
    amt: nat,
)
    requires
        from != to,
        amt <= pre.balance_of(from),
        transfer_applied(pre, post, from, to, amt),
    ensures
        post.balance_of(from) == pre.balance_of(from) - amt,
        post.balance_of(to) == pre.balance_of(to) + amt,
        post.balance_of(from) + post.balance_of(to) == pre.balance_of(from) + pre.balance_of(to),
{
}

} // verus!
