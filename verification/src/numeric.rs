use vstd::prelude::*;

verus! {

/// Arithmetic capabilities required of every balance and counter type in a
/// runtime configuration: a zero, a one, and checked addition and
/// subtraction, all mirrored at the specification level by the value's
/// abstract natural number.
pub trait Numeric: Sized + Copy {
    /// The mathematical value of this number.
    spec fn as_nat(self) -> nat;

    /// The largest mathematical value the type can represent.
    spec fn max_nat() -> nat;

    /// Every value lies within the representable range.
    proof fn lemma_in_range(x: Self)
        ensures
            x.as_nat() <= Self::max_nat(),
    ;

    /// Two values with the same mathematical value are the same value, so a
    /// value is determined exactly by its abstract natural number.
    proof fn lemma_as_nat_injective(x: Self, y: Self)
        requires
            x.as_nat() == y.as_nat(),
        ensures
            x == y,
    ;

    fn zero() -> (r: Self)
        ensures
            r.as_nat() == 0,
    ;

    fn one() -> (r: Self)
        ensures
            r.as_nat() == 1,
    ;

    fn checked_add(self, rhs: Self) -> (r: Option<Self>)
        ensures
            r is Some <==> self.as_nat() + rhs.as_nat() <= Self::max_nat(),
            r matches Some(v) ==> v.as_nat() == self.as_nat() + rhs.as_nat(),
    ;

    fn checked_sub(self, rhs: Self) -> (r: Option<Self>)
        ensures
            r is Some <==> rhs.as_nat() <= self.as_nat(),
            r matches Some(v) ==> v.as_nat() == self.as_nat() - rhs.as_nat(),
    ;
}

impl Numeric for u128 {
    open spec fn as_nat(self) -> nat {
        self as nat
    }

    open spec fn max_nat() -> nat {
        u128::MAX as nat
    }

    proof fn lemma_in_range(x: Self) {
    }

    proof fn lemma_as_nat_injective(x: Self, y: Self) {
    }

    fn zero() -> (r: Self) {
        0
    }

    fn one() -> (r: Self) {
        1
    }

    fn checked_add(self, rhs: Self) -> (r: Option<Self>) {
        if self <= u128::MAX - rhs {
            Some(self + rhs)
        } else {
            None
        }
    }

    fn checked_sub(self, rhs: Self) -> (r: Option<Self>) {
        if rhs <= self {
            Some(self - rhs)
        } else {
            None
        }
    }
}

impl Numeric for u64 {
    open spec fn as_nat(self) -> nat {
        self as nat
    }

    open spec fn max_nat() -> nat {
        u64::MAX as nat
    }

    proof fn lemma_in_range(x: Self) {
    }

    proof fn lemma_as_nat_injective(x: Self, y: Self) {
    }

    fn zero() -> (r: Self) {
        0
    }

    fn one() -> (r: Self) {
        1
    }

    fn checked_add(self, rhs: Self) -> (r: Option<Self>) {
        if self <= u64::MAX - rhs {
            Some(self + rhs)
        } else {
            None
        }
    }

    fn checked_sub(self, rhs: Self) -> (r: Option<Self>) {
        if rhs <= self {
            Some(self - rhs)
        } else {
            None
        }
    }
}

impl Numeric for u32 {
    open spec fn as_nat(self) -> nat {
        self as nat
    }

    open spec fn max_nat() -> nat {
        u32::MAX as nat
    }

    proof fn lemma_in_range(x: Self) {
    }

    proof fn lemma_as_nat_injective(x: Self, y: Self) {
    }

    fn zero() -> (r: Self) {
        0
    }

    fn one() -> (r: Self) {
        1
    }

    fn checked_add(self, rhs: Self) -> (r: Option<Self>) {
        if self <= u32::MAX - rhs {
            Some(self + rhs)
        } else {
            None
        }
    }

    fn checked_sub(self, rhs: Self) -> (r: Option<Self>) {
        if rhs <= self {
            Some(self - rhs)
        } else {
            None
        }
    }
}

/// One saturating increment at the specification level. The counters of the
/// system module use this policy at their upper bound: an increment at the
/// maximum representable value leaves the counter unchanged rather than
/// wrapping or failing.
pub open spec fn saturating_inc(x: nat, max: nat) -> nat {
    if x + 1 <= max {
        x + 1
    } else {
        x
    }
}

/// `k` saturating increments applied to zero, with maximum `max`.
pub open spec fn iterated_inc(k: nat, max: nat) -> nat
    decreases k,
{
    if k == 0 {
        0
    } else {
        saturating_inc(iterated_inc((k - 1) as nat, max), max)
    }
}

/// Law: a counter that starts at zero and is incremented `k` times reads
/// exactly `k`, for every `k` up to the counter's maximum. This covers the
/// block number and the per-account nonces, whose increment operations step
/// the abstract counter by `saturating_inc`.
pub proof fn lemma_counter_counts(k: nat, max: nat)
    requires
        k <= max,
    ensures
        iterated_inc(k, max) == k,
    decreases k,
{
    if k > 0 {
        lemma_counter_counts((k - 1) as nat, max);
    }
}

} // verus!
