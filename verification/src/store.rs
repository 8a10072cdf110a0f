use vstd::prelude::*;

use crate::account::AccountKey;
use crate::numeric::Numeric;

verus! {

/// A mapping from account identifiers to numeric values in which every
/// account never written holds zero. The zero default is part of the
/// contract, not an accident of the container: `spec_get` is a total
/// function over account identities.
#[derive(Debug)]
pub struct AccountMap<A: AccountKey, V: Numeric> {
    entries: Vec<(A, V)>,
}

/// The abstract value stored for identity `k` in the entry sequence: the
/// value of the first entry whose key has identity `k`, or zero when no
/// entry matches.
spec fn value_at<A: AccountKey, V: Numeric>(s: Seq<(A, V)>, k: A::Key) -> nat
    decreases s.len(),
{
    if s.len() == 0 {
        0
    } else if s[0].0.key() == k {
        s[0].1.as_nat()
    } else {
        value_at(s.subrange(1, s.len() as int), k)
    }
}

proof fn lemma_value_at_found<A: AccountKey, V: Numeric>(s: Seq<(A, V)>, i: int, k: A::Key)
    requires
        0 <= i < s.len(),
        forall|j: int| 0 <= j < i ==> s[j].0.key() != k,
        s[i].0.key() == k,
    ensures
        value_at(s, k) == s[i].1.as_nat(),
    decreases i,
{
    if i > 0 {
        lemma_value_at_found(s.subrange(1, s.len() as int), i - 1, k);
    }
}

proof fn lemma_value_at_absent<A: AccountKey, V: Numeric>(s: Seq<(A, V)>, k: A::Key)
    requires
        forall|j: int| 0 <= j < s.len() ==> s[j].0.key() != k,
    ensures
        value_at(s, k) == 0,
    decreases s.len(),
{
    if s.len() > 0 {
        lemma_value_at_absent(s.subrange(1, s.len() as int), k);
    }
}

proof fn lemma_value_at_update_found<A: AccountKey, V: Numeric>(
    s: Seq<(A, V)>,
    i: int,
    p: (A, V),
    k: A::Key,
)
    requires
        0 <= i < s.len(),
        forall|j: int| 0 <= j < i ==> s[j].0.key() != k,
        p.0.key() == k,
    ensures
        value_at(s.update(i, p), k) == p.1.as_nat(),
    decreases i,
{
    if i == 0 {
        assert(s.update(0, p)[0] == p);
    } else {
        lemma_value_at_update_found(s.subrange(1, s.len() as int), i - 1, p, k);
        assert(s.update(i, p).subrange(1, s.update(i, p).len() as int) =~= s.subrange(
            1,
            s.len() as int,
        ).update(i - 1, p));
    }
}

proof fn lemma_value_at_update_other<A: AccountKey, V: Numeric>(
    s: Seq<(A, V)>,
    i: int,
    p: (A, V),
    k: A::Key,
)
    requires
        0 <= i < s.len(),
        p.0.key() == s[i].0.key(),
        k != p.0.key(),
    ensures
        value_at(s.update(i, p), k) == value_at(s, k),
    decreases i,
{
    if i == 0 {
        assert(s.update(0, p)[0] == p);
        assert(s.update(0, p).subrange(1, s.update(0, p).len() as int) =~= s.subrange(
            1,
            s.len() as int,
        ));
    } else {
        lemma_value_at_update_other(s.subrange(1, s.len() as int), i - 1, p, k);
        assert(s.update(i, p).subrange(1, s.update(i, p).len() as int) =~= s.subrange(
            1,
            s.len() as int,
        ).update(i - 1, p));
        assert(s.update(i, p)[0] == s[0]);
    }
}

proof fn lemma_value_at_push_same<A: AccountKey, V: Numeric>(s: Seq<(A, V)>, p: (A, V), k: A::Key)
    requires
        forall|j: int| 0 <= j < s.len() ==> s[j].0.key() != k,
        p.0.key() == k,
    ensures
        value_at(s.push(p), k) == p.1.as_nat(),
    decreases s.len(),
{
    if s.len() == 0 {
        assert(s.push(p)[0] == p);
    } else {
        lemma_value_at_push_same(s.subrange(1, s.len() as int), p, k);
        assert(s.push(p).subrange(1, s.push(p).len() as int) =~= s.subrange(
            1,
            s.len() as int,
        ).push(p));
        assert(s.push(p)[0] == s[0]);
    }
}

proof fn lemma_value_at_push_other<A: AccountKey, V: Numeric>(s: Seq<(A, V)>, p: (A, V), k: A::Key)
    requires
        p.0.key() != k,
    ensures
        value_at(s.push(p), k) == value_at(s, k),
    decreases s.len(),
{
    if s.len() == 0 {
        assert(s.push(p)[0] == p);
        assert(s.push(p).subrange(1, s.push(p).len() as int) =~= Seq::<(A, V)>::empty());
        assert(value_at(Seq::<(A, V)>::empty(), k) == 0);
    } else {
        lemma_value_at_push_other(s.subrange(1, s.len() as int), p, k);
        assert(s.push(p).subrange(1, s.push(p).len() as int) =~= s.subrange(
            1,
            s.len() as int,
        ).push(p));
        assert(s.push(p)[0] == s[0]);
    }
}

impl<A: AccountKey, V: Numeric> AccountMap<A, V> {
    /// The value stored for the account identity `k`; zero for every
    /// identity never written.
    pub closed spec fn spec_get(self, k: A::Key) -> nat {
        value_at(self.entries@, k)
    }

    pub fn new() -> (r: Self)
        ensures
            forall|k: A::Key| r.spec_get(k) == 0,
    {
        AccountMap { entries: Vec::new() }
    }

    /// The value stored for `account`, or zero when the account was never
    /// written.
    pub fn get(&self, account: &A) -> (r: V)
        ensures
            r.as_nat() == self.spec_get(account.key()),
    {
        let mut i: usize = 0;
        while i < self.entries.len()
            invariant
                i <= self.entries.len(),
                forall|j: int| 0 <= j < i ==> self.entries@[j].0.key() != account.key(),
            decreases self.entries.len() - i,
        {
            if self.entries[i].0.eq_key(account) {
                proof {
                    lemma_value_at_found(self.entries@, i as int, account.key());
                }
                return self.entries[i].1;
            }
            i += 1;
        }
        proof {
            lemma_value_at_absent(self.entries@, account.key());
        }
        V::zero()
    }

    /// Stores `value` for `account`, overwriting any previous entry; every
    /// other account keeps its value.
    pub fn set(&mut self, account: &A, value: V)
        ensures
            final(self).spec_get(account.key()) == value.as_nat(),
            forall|k: A::Key|
                k != account.key() ==> final(self).spec_get(k) == old(self).spec_get(k),
    {
        let ghost k0 = account.key();
        let mut i: usize = 0;
        while i < self.entries.len()
            invariant
                i <= self.entries.len(),
                forall|j: int| 0 <= j < i ==> self.entries@[j].0.key() != k0,
                self.entries@ == old(self).entries@,
                k0 == account.key(),
            decreases self.entries.len() - i,
        {
            if self.entries[i].0.eq_key(account) {
                let owned = account.clone_key();
                self.entries.set(i, (owned, value));
                proof {
                    let s = old(self).entries@;
                    let p = self.entries@[i as int];
                    lemma_value_at_update_found(s, i as int, p, k0);
                    assert forall|k: A::Key| k != k0 implies value_at(
                        s.update(i as int, p),
                        k,
                    ) == value_at(s, k) by {
                        lemma_value_at_update_other(s, i as int, p, k);
                    }
                }
                return ;
            }
            i += 1;
        }
        let owned = account.clone_key();
        self.entries.push((owned, value));
        proof {
            let s = old(self).entries@;
            let p = self.entries@[self.entries@.len() - 1];
            lemma_value_at_push_same(s, p, k0);
            assert forall|k: A::Key| k != k0 implies value_at(s.push(p), k) == value_at(s, k) by {
                lemma_value_at_push_other(s, p, k);
            }
        }
    }
}

} // verus!
