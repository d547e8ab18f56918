//! The integers a data range can be built over.

use vstd::prelude::*;

verus! {

/// An ordered, bounded integer type with zero, one and checked addition and
/// subtraction: what a range needs of its bounds.
pub trait RangeInt: Copy + Sized {
    /// The mathematical integer that `self` stands for.
    spec fn value(self) -> int;

    /// The smallest integer the type can hold.
    spec fn min_value() -> int;

    /// The largest integer the type can hold.
    spec fn max_value() -> int;

    /// Every value lies within the type's bounds, and the bounds leave room
    /// for zero and one.
    proof fn lemma_value_bounded(x: Self)
        ensures
            Self::min_value() <= x.value() <= Self::max_value(),
            Self::min_value() <= 0,
            1 <= Self::max_value(),
    ;

    /// Two values that stand for the same integer are the same value.
    proof fn lemma_value_injective(x: Self, y: Self)
        requires
            x.value() == y.value(),
        ensures
            x == y,
    ;

    /// The value zero.
    fn zero() -> (r: Self)
        ensures
            r.value() == 0,
    ;

    /// The value one.
    fn one() -> (r: Self)
        ensures
            r.value() == 1,
    ;

    /// The sum, or `None` where it leaves the type's bounds.
    fn checked_add(&self, v: &Self) -> (r: Option<Self>)
        ensures
            match r {
                Some(sum) => sum.value() == self.value() + v.value(),
                None => !(Self::min_value() <= self.value() + v.value() <= Self::max_value()),
            },
    ;

    /// The difference, or `None` where it leaves the type's bounds.
    fn checked_sub(&self, v: &Self) -> (r: Option<Self>)
        ensures
            match r {
                Some(difference) => difference.value() == self.value() - v.value(),
                None => !(Self::min_value() <= self.value() - v.value() <= Self::max_value()),
            },
    ;

    /// Whether `self` is at most `other`.
    fn at_most(&self, other: &Self) -> (r: bool)
        ensures
            r == (self.value() <= other.value()),
    ;
}

/// `num_traits::CheckedAdd::checked_add` on `u64`: the sum where it fits in
/// 64 bits, `None` where it does not.
#[verifier::external_body]
fn u64_checked_add(a: u64, b: u64) -> (r: Option<u64>)
    ensures
        r == (if a + b <= u64::MAX {
            Some((a + b) as u64)
        } else {
            None
        }),
{
    num_traits::CheckedAdd::checked_add(&a, &b)
}

/// `num_traits::CheckedSub::checked_sub` on `u64`: the difference where it is
/// not negative, `None` where it is.
#[verifier::external_body]
fn u64_checked_sub(a: u64, b: u64) -> (r: Option<u64>)
    ensures
        r == (if b <= a {
            Some((a - b) as u64)
        } else {
            None
        }),
{
    num_traits::CheckedSub::checked_sub(&a, &b)
}

/// `num_traits::Zero::zero` on `u64`: the number 0.
#[verifier::external_body]
fn u64_zero() -> (r: u64)
    ensures
        r == 0,
{
    num_traits::Zero::zero()
}

/// `num_traits::One::one` on `u64`: the number 1.
#[verifier::external_body]
fn u64_one() -> (r: u64)
    ensures
        r == 1,
{
    num_traits::One::one()
}

impl RangeInt for u64 {
    open spec fn value(self) -> int {
        self as int
    }

    open spec fn min_value() -> int {
        0
    }

    open spec fn max_value() -> int {
        u64::MAX as int
    }

    proof fn lemma_value_bounded(x: Self) {
    }

    proof fn lemma_value_injective(x: Self, y: Self) {
    }

    fn zero() -> (r: Self) {
        u64_zero()
    }

    fn one() -> (r: Self) {
        u64_one()
    }

    fn checked_add(&self, v: &Self) -> (r: Option<Self>) {
        u64_checked_add(*self, *v)
    }

    fn checked_sub(&self, v: &Self) -> (r: Option<Self>) {
        u64_checked_sub(*self, *v)
    }

    fn at_most(&self, other: &Self) -> (r: bool) {
        *self <= *other
    }
}

} // verus!
