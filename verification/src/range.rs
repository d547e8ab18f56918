//! Contiguous, non-empty ranges of ledger data.

use crate::error::Error;
use crate::numeric::RangeInt;
use vstd::prelude::*;

verus! {

/// A contiguous range of data, from `lowest` to `highest` inclusive, all of
/// which is held.
///
/// The bounds are never out of order: no value of this type has
/// `lowest > highest`. A range that `new` or `from_len` built also has a
/// length that its integer type can hold.
#[derive(Debug, PartialEq, Eq)]
pub struct CompleteDataRange<T: RangeInt> {
    lowest: T,
    highest: T,
}

impl<T: RangeInt> Copy for CompleteDataRange<T> {

}

impl<T: RangeInt> Clone for CompleteDataRange<T> {
    fn clone(&self) -> (r: Self)
        ensures
            r == *self,
    {
        *self
    }
}

impl<T: RangeInt> CompleteDataRange<T> {
    /// What holds of every range: its bounds are in order, so that it is not
    /// empty.
    #[verifier::type_invariant]
    spec fn ordered(self) -> bool {
        self.lowest.value() <= self.highest.value()
    }

    /// The lower bound.
    pub closed spec fn spec_lowest(&self) -> T {
        self.lowest
    }

    /// The upper bound.
    pub closed spec fn spec_highest(&self) -> T {
        self.highest
    }

    /// The number of items from `lowest` to `highest`, as a mathematical
    /// integer.
    pub open spec fn length(self) -> int {
        self.highest().value() - self.lowest().value() + 1
    }

    /// Whether `lowest` and `highest` bound a range whose length `T` can hold.
    pub open spec fn valid_bounds(lowest: T, highest: T) -> bool {
        &&& lowest.value() <= highest.value()
        &&& highest.value() - lowest.value() + 1 <= T::max_value()
    }

    /// The items of the range, as a set of integers.
    pub open spec fn items(self) -> Set<int> {
        Set::new(|i: int| self.lowest().value() <= i <= self.highest().value())
    }

    /// Whether `item` lies between the bounds.
    pub open spec fn spec_contains(self, item: T) -> bool {
        self.lowest().value() <= item.value() <= self.highest().value()
    }

    /// Whether every item of `other` lies in `self`.
    pub open spec fn spec_superset_of(self, other: Self) -> bool {
        &&& self.lowest().value() <= other.lowest().value()
        &&& other.highest().value() <= self.highest().value()
    }

    /// What `new` returns for the given bounds.
    pub closed spec fn spec_new(lowest: T, highest: T) -> Result<Self, Error> {
        if Self::valid_bounds(lowest, highest) {
            Ok(CompleteDataRange { lowest, highest })
        } else {
            Err(Error::DegenerateRangeError)
        }
    }

    /// The range from `lowest` to `highest`, or `DegenerateRangeError` where
    /// `lowest > highest` or the length `highest - lowest + 1` does not fit
    /// in `T`.
    pub fn new(lowest: T, highest: T) -> (r: Result<Self, Error>)
        ensures
            r == Self::spec_new(lowest, highest),
            match r {
                Ok(range) => {
                    &&& Self::valid_bounds(lowest, highest)
                    &&& range.lowest() == lowest
                    &&& range.highest() == highest
                },
                Err(e) => !Self::valid_bounds(lowest, highest) && e == Error::DegenerateRangeError,
            },
    {
        proof {
            T::lemma_value_bounded(lowest);
            T::lemma_value_bounded(highest);
        }
        if !lowest.at_most(&highest) {
            return Err(Error::DegenerateRangeError);
        }
        match range_length_checked(lowest, highest) {
            Ok(_) => Ok(CompleteDataRange { lowest, highest }),
            Err(_) => Err(Error::DegenerateRangeError),
        }
    }

    /// The range of `len` items that starts at `lowest`, or
    /// `DegenerateRangeError` where `len` is less than one or
    /// `lowest + len - 1` does not fit in `T`.
    pub fn from_len(lowest: T, len: T) -> (r: Result<Self, Error>)
        ensures
            match r {
                Ok(range) => {
                    &&& 1 <= len.value()
                    &&& lowest.value() + len.value() - 1 <= T::max_value()
                    &&& range.lowest() == lowest
                    &&& range.highest().value() == lowest.value() + len.value() - 1
                    &&& r == Self::spec_new(lowest, range.highest())
                },
                Err(e) => {
                    &&& !(1 <= len.value() && lowest.value() + len.value() - 1 <= T::max_value())
                    &&& e == Error::DegenerateRangeError
                },
            },
    {
        proof {
            T::lemma_value_bounded(lowest);
            T::lemma_value_bounded(len);
        }
        let one = T::one();
        let addend = match len.checked_sub(&one) {
            Some(addend) => addend,
            None => {
                return Err(Error::DegenerateRangeError);
            },
        };
        let highest = match lowest.checked_add(&addend) {
            Some(highest) => highest,
            None => {
                proof {
                    T::lemma_value_bounded(addend);
                }
                return Err(Error::DegenerateRangeError);
            },
        };
        proof {
            T::lemma_value_bounded(highest);
        }
        Self::new(lowest, highest)
    }

    /// The lower bound.
    #[inline]
    #[verifier::when_used_as_spec(spec_lowest)]
    pub fn lowest(&self) -> (r: T)
        ensures
            r == self.spec_lowest(),
    {
        self.lowest
    }

    /// The upper bound.
    #[inline]
    #[verifier::when_used_as_spec(spec_highest)]
    pub fn highest(&self) -> (r: T)
        ensures
            r == self.spec_highest(),
    {
        self.highest
    }

    /// The number of items in the range, or `DegenerateRangeError` where
    /// that number does not fit in `T`.
    #[inline]
    pub fn len(&self) -> (r: Result<T, Error>)
        ensures
            match r {
                Ok(n) => n.value() == self.length() && self.length() <= T::max_value(),
                Err(e) => self.length() > T::max_value() && e == Error::DegenerateRangeError,
            },
    {
        proof {
            use_type_invariant(self);
        }
        range_length_checked(self.lowest, self.highest)
    }

    /// Whether `item` lies within the range.
    pub fn contains(&self, item: T) -> (r: bool)
        ensures
            r == self.spec_contains(item),
    {
        self.lowest.at_most(&item) && item.at_most(&self.highest)
    }

    /// Whether the range holds every item of `other`.
    pub fn superset_of(&self, other: &Self) -> (r: bool)
        ensures
            r == self.spec_superset_of(*other),
    {
        self.lowest.at_most(&other.lowest) && other.highest.at_most(&self.highest)
    }

    /// The range from zero to `highest`.
    pub fn from_genesis(highest: T) -> (r: Self)
        requires
            0 <= highest.value(),
        ensures
            r.lowest().value() == 0,
            r.highest() == highest,
    {
        CompleteDataRange { lowest: T::zero(), highest }
    }
}

impl<T: RangeInt> CompleteDataRange<T> {
    /// Bounds that are in order and span a length that `T` can hold always
    /// make a range: it has exactly these bounds, and its length is
    /// `highest - lowest + 1`, which `T` can hold.
    pub proof fn lemma_new_accepts_valid_bounds(lowest: T, highest: T)
        requires
            lowest.value() <= highest.value(),
            highest.value() - lowest.value() + 1 <= T::max_value(),
        ensures
            Self::spec_new(lowest, highest) is Ok,
            Self::spec_new(lowest, highest).unwrap().lowest() == lowest,
            Self::spec_new(lowest, highest).unwrap().highest() == highest,
            Self::spec_new(lowest, highest).unwrap().length() == highest.value() - lowest.value()
                + 1,
            Self::spec_new(lowest, highest).unwrap().length() <= T::max_value(),
    {
    }

    /// Bounds that are out of order never make a range.
    pub proof fn lemma_new_rejects_disorder(lowest: T, highest: T)
        requires
            lowest.value() > highest.value(),
        ensures
            Self::spec_new(lowest, highest) == Err::<Self, Error>(Error::DegenerateRangeError),
    {
    }

    /// A single item is a range of length one, not a degenerate one.
    pub proof fn lemma_new_accepts_single_item(item: T)
        ensures
            Self::spec_new(item, item) is Ok,
            Self::spec_new(item, item).unwrap().length() == 1,
    {
        T::lemma_value_bounded(item);
    }

    /// The range from zero to the largest value of `T` has one item more than
    /// `T` can count: `new` rejects these bounds, and a range that has them
    /// has no length that `T` can hold.
    pub proof fn lemma_whole_domain_has_no_length(lowest: T, highest: T, range: Self)
        requires
            lowest.value() == 0,
            highest.value() == T::max_value(),
            range.lowest() == lowest,
            range.highest() == highest,
        ensures
            Self::spec_new(lowest, highest) == Err::<Self, Error>(Error::DegenerateRangeError),
            range.length() > T::max_value(),
    {
    }

    /// Every range is a superset of itself.
    pub proof fn lemma_superset_of_itself(range: Self)
        ensures
            range.spec_superset_of(range),
    {
    }

    /// A range contains an item where the item is one of its items.
    pub proof fn lemma_contains_is_membership(range: Self, item: T)
        ensures
            range.spec_contains(item) <==> range.items().contains(item.value()),
    {
    }

    /// A range is a superset of another, which is not empty, where its items
    /// include all items of the other.
    pub proof fn lemma_superset_is_inclusion(outer: Self, inner: Self)
        requires
            inner.lowest().value() <= inner.highest().value(),
        ensures
            outer.spec_superset_of(inner) <==> inner.items().subset_of(outer.items()),
    {
        if inner.items().subset_of(outer.items()) {
            assert(inner.items().contains(inner.lowest().value()));
            assert(inner.items().contains(inner.highest().value()));
        }
    }

    /// A superset contains every item that the range within it contains.
    pub proof fn lemma_superset_contains(outer: Self, inner: Self, item: T)
        requires
            outer.spec_superset_of(inner),
            inner.spec_contains(item),
        ensures
            outer.spec_contains(item),
    {
    }
}

/// The length `highest - lowest + 1` of a range whose bounds are in order,
/// or `DegenerateRangeError` where `T` cannot hold it. The subtraction comes
/// first, so that a range of one item does not leave the bounds of `T` on the
/// way.
fn range_length_checked<T: RangeInt>(lowest: T, highest: T) -> (r: Result<T, Error>)
    requires
        lowest.value() <= highest.value(),
    ensures
        match r {
            Ok(n) => {
                &&& n.value() == highest.value() - lowest.value() + 1
                &&& n.value() <= T::max_value()
            },
            Err(e) => {
                &&& highest.value() - lowest.value() + 1 > T::max_value()
                &&& e == Error::DegenerateRangeError
            },
        },
{
    proof {
        T::lemma_value_bounded(lowest);
        T::lemma_value_bounded(highest);
    }
    match highest.checked_sub(&lowest) {
        Some(difference) => {
            let one = T::one();
            match difference.checked_add(&one) {
                Some(n) => {
                    proof {
                        T::lemma_value_bounded(n);
                    }
                    Ok(n)
                },
                None => Err(Error::DegenerateRangeError),
            }
        },
        None => Err(Error::DegenerateRangeError),
    }
}

} // verus!
