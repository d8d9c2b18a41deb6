use overload::Interval;
use std::cmp::Ordering;

#[test]
fn disjoint_intervals_compare_strictly() {
    // Adjacent and non-overlapping: the left one is strictly before.
    assert!(Interval { lower: 10, upper: 20 } < Interval { lower: 20, upper: 40 });
    assert!(Interval { lower: 20, upper: 40 } > Interval { lower: 10, upper: 20 });
}

#[test]
fn ge_holds_for_interval_entirely_after() {
    assert!(Interval { lower: 7, upper: 8 } >= Interval { lower: 0, upper: 1 });
}

#[test]
fn le_holds_for_exact_match() {
    assert!(Interval { lower: 7, upper: 8 } <= Interval { lower: 7, upper: 8 });
    let a = Interval { lower: 7, upper: 8 };
    let b = Interval { lower: 7, upper: 8 };
    assert_eq!(a.partial_cmp(&b), Some(Ordering::Equal));
}

#[test]
fn overlapping_intervals_are_incomparable() {
    let left = Interval { lower: 10, upper: 30 };
    let right = Interval { lower: 20, upper: 40 };
    assert!(!(left < right));
    assert!(!(left <= right));
    assert!(!(left > right));
    assert!(!(left >= right));
    assert_eq!(left.partial_cmp(&right), None);
}

#[test]
fn nan_bound_makes_intervals_incomparable() {
    let nan: f64 = 0.0 / 0.0;
    let a = Interval { lower: nan, upper: 1.0 };
    let b = Interval { lower: nan, upper: 1.0 };
    assert!(!(a < b));
    assert!(!(a <= b));
    assert!(!(a > b));
    assert!(!(a >= b));
    assert_eq!(a.partial_cmp(&b), None);
}
