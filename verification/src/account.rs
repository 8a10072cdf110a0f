use vstd::prelude::*;

verus! {

/// Capabilities required of an account identifier: a specification-level
/// identity, an executable equality test that decides that identity, and a
/// clone that preserves it. Two identifiers with the same identity always
/// resolve to the same balance and nonce entry.
pub trait AccountKey: Sized {
    /// The mathematical identity of the account identifier.
    type Key;

    /// The identity of this identifier value.
    spec fn key(self) -> Self::Key;

    fn eq_key(&self, other: &Self) -> (r: bool)
        ensures
            r == (self.key() == other.key()),
    ;

    fn clone_key(&self) -> (r: Self)
        ensures
            r.key() == self.key(),
    ;
}

impl AccountKey for String {
    type Key = Seq<char>;

    open spec fn key(self) -> Seq<char> {
        self@
    }

    fn eq_key(&self, other: &Self) -> (r: bool) {
        *self == *other
    }

    fn clone_key(&self) -> (r: Self) {
        self.clone()
    }
}

} // verus!
