use std::collections::hash_map::DefaultHasher;
use std::hash::{Hash, Hasher};

use ast_toolkit2::{Length, Range};

#[test]
fn test_slice() {
    // Some testcases; extend when more are known!
    assert_eq!(Range::from(0..10).slice_range(0..5), 0..5);
    assert_eq!(Range::from(..10).slice_range(0..5), 0..5);
    assert_eq!(Range::from(..10).slice_range(..5), ..5);
    assert_eq!(Range::from(5..10).slice_range(..5), 5..10);
    assert_eq!(Range::from(10..5), ());
    assert_eq!(Range::from(5..).slice_range(..5), 5..10);
    assert_eq!(Range::from(5..).slice_range(..10), 5..15);
    assert_eq!(Range::from(..).slice_range(5..10), 5..10);
    assert_eq!(Range::from(()).slice_range(1..10), ());

    // Remember, we're slicing _in_ the left slice
    assert_eq!(Range::from(1..).slice_range(1..), 2..);
    assert_eq!(Range::from(1..).slice_range(1..3), 2..4);
    assert_eq!(Range::from(1..).slice_range(1..1), ());
    assert_eq!(Range::from(1..3).slice_range(1..), 2..3);
    assert_eq!(Range::from(1..4).slice_range(1..2), 2..3);
    assert_eq!(Range::from(1..4).slice_range(1..7), 2..4);
    assert_eq!(Range::from(1..8).slice_range(1..2), 2..3);
    assert_eq!(Range::from(1..4).slice_range(..2), 1..3);

    assert_eq!(Range::from(2..).slice_range(..1), 2..3);
}

#[test]
fn extend_of_fixed_ranges_commutes() {
    let a = Range::from(2..5);
    let b = Range::from(8..12);
    let ab = a.join(b);
    let ba = b.join(a);
    assert_eq!(ab, ba);
    assert_eq!(ab.start(), 2);
    assert_eq!(ab.end(), Some(12));
    assert_eq!(ab, 2..12);
}

#[test]
fn extend_of_overlapping_and_saturating_ranges() {
    let a = Range::from(3..20);
    let b = Range::from(5..7);
    assert_eq!(a.join(b), 3..20);
    assert_eq!(b.join(a), 3..20);

    let huge = Range::new(u64::MAX - 2, Length::Fixed(10));
    assert_eq!(huge.end(), Some(u64::MAX));
    let joined = Range::from(0..4).join(huge);
    assert_eq!(joined.start(), 0);
    assert_eq!(joined.end(), Some(u64::MAX));
}

#[test]
fn extend_with_an_indefinite_range_is_indefinite() {
    let mut a = Range::from(4..6);
    a.extend(Range::onwards(10));
    assert_eq!(a, 4..);
    assert_eq!(a.len, Length::Indefinite);
}

#[test]
fn shrink_by_full_is_identity() {
    for r in [Range::from(3..9), Range::onwards(7), Range::empty_at(4), Range::full()] {
        let mut s = r;
        s.shrink(Range::full());
        assert_eq!(s.pos, r.pos);
        assert_eq!(s.len, r.len);
    }
}

#[test]
fn shrink_stays_within_the_original() {
    let a = Range::from(10..20);
    for b in [Range::from(0..5), Range::from(5..50), Range::from(30..40), Range::onwards(3), Range::full()] {
        let s = a.slice(b);
        assert!(s.start() >= a.start());
        assert!(s.end().unwrap() <= a.end().unwrap());
    }
    // Shrinking beyond the end gives an empty range at the boundary.
    assert_eq!(a.slice(Range::from(30..40)), 20..20);
    assert_eq!(a.slice(Range::from(30..40)), ());
}

#[test]
fn conversions_from_interval_notations() {
    assert_eq!(Range::from(3..7).pos, 3);
    assert_eq!(Range::from(3..7).len, Length::Fixed(4));
    assert_eq!(Range::from(7..3).pos, 7);
    assert_eq!(Range::from(7..3).len, Length::Fixed(0));
    assert_eq!(Range::from(..4).len, Length::Fixed(4));
    assert_eq!(Range::from(..=4).len, Length::Fixed(5));
    assert_eq!(Range::from(6..).len, Length::Indefinite);
    assert_eq!(Range::from(6..).pos, 6);
    assert_eq!(Range::from(..).pos, 0);
    assert_eq!(Range::from(..).len, Length::Indefinite);
    assert_eq!(Range::from(()).len, Length::Fixed(0));
    assert_eq!(Range::bounded(3, 7), 3..7);
    assert_eq!(Range::bounded(7, 3), ());
    assert_eq!(Range::until(5), ..5);
    assert_eq!(Range::default(), ..);
    assert_eq!(Length::from(9u8), Length::Fixed(9));
    // A negative index is read as position 0.
    assert_eq!(Range::from(-3..2), 0..2);
}

#[test]
fn end_in_resolves_against_the_sequence_length() {
    assert_eq!(Range::from(2..8).end_in(5), 5);
    assert_eq!(Range::from(2..8).end_in(10), 8);
    assert_eq!(Range::onwards(2).end_in(10), 10);
    assert_eq!(Range::onwards(2).end(), None);
}

#[test]
fn equality_compares_resolved_ends() {
    let a = Range::new(u64::MAX - 1, Length::Fixed(5));
    let b = Range::new(u64::MAX - 1, Length::Fixed(100));
    assert_eq!(a, b);
    assert_ne!(Range::from(2..4), Range::from(2..5));
    assert_ne!(Range::onwards(2), Range::from(2..5));
    assert_eq!(Range::onwards(2), Range::onwards(2));
}

#[test]
fn min_and_max() {
    assert_eq!(ast_toolkit2::range::min(3, 9), 3);
    assert_eq!(ast_toolkit2::range::min(9, 3), 3);
    assert_eq!(ast_toolkit2::range::max(3, 9), 9);
    assert_eq!(ast_toolkit2::range::max(9, 9), 9);
}

#[test]
fn inclusive_conversions() {
    assert_eq!(Range::from(2..=4), 2..5);
    assert_eq!(Range::from(4..=4), 4..5);
    assert_eq!(Range::from(5..=4), ());
    assert_eq!(Range::from(5..=4).pos, 5);
    assert_eq!(Range::from(..=0), ..1);
}

#[test]
fn equal_ranges_hash_alike() {
    let hash = |r: &Range| {
        let mut h = DefaultHasher::new();
        r.hash(&mut h);
        h.finish()
    };
    let a = Range::new(u64::MAX - 1, Length::Fixed(5));
    let b = Range::new(u64::MAX - 1, Length::Fixed(100));
    assert_eq!(hash(&a), hash(&b));
    assert_ne!(hash(&Range::from(1..3)), hash(&Range::onwards(1)));
}

#[test]
fn ranges_as_text() {
    assert_eq!(Range::from(5..10).to_string(), "5..10");
    assert_eq!(Range::until(10).to_string(), "..10");
    assert_eq!(Range::onwards(5).to_string(), "5..");
    assert_eq!(Range::full().to_string(), "..");
    assert_eq!(Range::empty_at(5).to_string(), "5!");
    assert_eq!(Range::empty().to_string(), "!");
    assert_eq!(Range::new(1234567u64, Length::Fixed(3)).to_string(), "1234567..1234570");
    assert_eq!(Range::new(u64::MAX - 1, Length::Fixed(5)).to_string(), "18446744073709551614..18446744073709551615");
}
