//! A half-open interval with a genuinely partial order: two intervals
//! compare as equal, strictly before, or strictly after, and overlapping
//! non-equal intervals are incomparable, so that all four relational
//! operators come out false on them at once.

use vstd::prelude::*;
use vstd::std_specs::cmp::{PartialEqSpec, PartialOrdIs, PartialOrdSpec};
use core::cmp::Ordering;

verus! {

/// A range of component values: `lower` is included, `upper` is excluded.
/// A well-formed interval has `lower <= upper`; the comparison relation
/// does not depend on that and classifies any two intervals as they stand.
#[derive(Debug)]
pub struct Interval<T> {
    pub lower: T,
    pub upper: T,
}

impl<T: PartialEq> PartialEq for Interval<T> {
    /// Two intervals are equal exactly when both bounds are pairwise equal.
    fn eq(&self, other: &Interval<T>) -> (r: bool) {
        self.lower == other.lower && self.upper == other.upper
    }
}

impl<T: PartialEq> vstd::std_specs::cmp::PartialEqSpecImpl for Interval<T> {
    open spec fn obeys_eq_spec() -> bool {
        T::obeys_eq_spec()
    }

    open spec fn eq_spec(&self, other: &Interval<T>) -> bool {
        self.lower.eq_spec(&other.lower) && self.upper.eq_spec(&other.upper)
    }
}

impl<T: PartialOrd> Interval<T> {
    /// The three-way-or-none classification of `self` against `other`:
    /// equal bounds give `Equal`; `self` lying entirely at or after `other`
    /// gives `Greater`; `self` lying entirely at or before `other` gives
    /// `Less`; any remaining overlap is incomparable and gives `None`.
    pub open spec fn cmp_spec(self, other: Interval<T>) -> Option<Ordering> {
        if self.eq_spec(&other) {
            Some(Ordering::Equal)
        } else if self.lower.is_ge(&other.upper) {
            Some(Ordering::Greater)
        } else if self.upper.is_le(&other.lower) {
            Some(Ordering::Less)
        } else {
            None
        }
    }
}

impl<T: PartialOrd> PartialOrd for Interval<T> {
    /// The executable classification; the relational operators `<`, `<=`,
    /// `>` and `>=` all derive from this one three-way-or-none result.
    fn partial_cmp(&self, other: &Interval<T>) -> (r: Option<Ordering>) {
        if self == other {
            Some(Ordering::Equal)
        } else if self.lower >= other.upper {
            Some(Ordering::Greater)
        } else if self.upper <= other.lower {
            Some(Ordering::Less)
        } else {
            None
        }
    }
}

impl<T: PartialOrd> vstd::std_specs::cmp::PartialOrdSpecImpl for Interval<T> {
    open spec fn obeys_partial_cmp_spec() -> bool {
        T::obeys_partial_cmp_spec() && T::obeys_eq_spec()
    }

    open spec fn partial_cmp_spec(&self, other: &Interval<T>) -> Option<Ordering> {
        self.cmp_spec(*other)
    }
}

/// Law: the order is not total. Two intervals that overlap without being
/// equal — neither lies entirely at or after the other, nor entirely at or
/// before — are incomparable, and all four relational comparisons between
/// them are false at once.
pub proof fn lemma_overlap_incomparable<T: PartialOrd>(a: Interval<T>, b: Interval<T>)
    requires
        !a.eq_spec(&b),
        !a.lower.is_ge(&b.upper),
        !a.upper.is_le(&b.lower),
    ensures
        a.cmp_spec(b) == None::<Ordering>,
        !a.is_lt(&b),
        !a.is_le(&b),
        !a.is_gt(&b),
        !a.is_ge(&b),
{
}

} // verus!
