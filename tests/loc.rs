use std::collections::HashSet;

use ast_toolkit2::{Length, Loc, Located, Range, TestLoc};

#[test]
fn slicing_a_loc_matches_plain_arithmetic() {
    let loc = Loc::encapsulate_range(3, 10..20);
    let sub = loc.slice_range(2..5);
    assert_eq!(sub.source, Some(3));
    assert_eq!(sub.start(), 12);
    assert_eq!(sub.end_in(100), 15);
    assert_eq!(sub.end_in(14), 14);
    assert_eq!(sub.end(), Some(15));

    // A sub-range reaching past the end is clipped to the location.
    let clipped = loc.slice_range(8..30);
    assert_eq!(clipped.start(), 18);
    assert_eq!(clipped.end_in(100), 20);

    // Within a location that runs to the end of its source.
    let open = Loc::encapsulate(3).slice_range(4..9);
    assert_eq!(open.start(), 4);
    assert_eq!(open.end_in(6), 6);
    assert_eq!(open.end_in(100), 9);
}

#[test]
fn shrink_in_place() {
    let mut loc = Loc::encapsulate_range(1, 5..15);
    loc.shrink(Range::from(1..3));
    assert_eq!(TestLoc(loc), TestLoc(Loc::encapsulate_range(1, 6..8)));
    loc.shrink_range(1..);
    assert_eq!(TestLoc(loc), TestLoc(Loc::encapsulate_range(1, 7..8)));
}

#[test]
fn join_across_different_sources_is_a_no_op() {
    let a = Loc::encapsulate_range(1, 2..4);
    let b = Loc::encapsulate_range(2, 10..12);
    assert_eq!(TestLoc(a.join(b)), TestLoc(a));
    let none = Loc::from(Range::from(0..3));
    assert_eq!(TestLoc(a.join(none)), TestLoc(a));
    assert_eq!(TestLoc(none.join(a)), TestLoc(none));
}

#[test]
fn join_within_one_source() {
    let a = Loc::encapsulate_range(1, 2..4);
    let b = Loc::encapsulate_range(1, 10..12);
    assert_eq!(TestLoc(a.join(b)), TestLoc(Loc::encapsulate_range(1, 2..12)));
    let x = Loc::from(Range::from(0..3));
    let y = Loc::from(Range::from(5..6));
    assert_eq!(TestLoc(x.join(y)), TestLoc(Loc::from(Range::from(0..6))));
}

#[test]
fn locs_all_compare_equal() {
    let a = Loc::encapsulate_range(1, 2..4);
    let b = Loc::encapsulate_range(2, 10..12);
    assert!(a == b);
    assert!(!(a != b));
    assert_eq!(a.partial_cmp(&b), Some(std::cmp::Ordering::Equal));
    assert_ne!(TestLoc(a), TestLoc(b));
    assert_eq!(TestLoc::new(), TestLoc(Loc::new()));
    assert_eq!(TestLoc(Loc::default()), TestLoc(Loc::new()));
    assert_eq!(Loc::new().range.len, Length::Fixed(0));
    assert_eq!(Loc::new().source, None);
}

#[test]
fn test_loc_conversions() {
    let a = Loc::encapsulate_range(4, 1..2);
    let t = TestLoc::from(a);
    assert_eq!(t.start(), 1);
    assert_eq!(TestLoc(Loc::from(t)), TestLoc(a));
    assert_eq!(t.as_ref().source, Some(4));
    assert_eq!(Range::from(a), 1..2);
}

#[test]
fn located_fold_over_collections() {
    let empty: Vec<Loc> = Vec::new();
    assert_eq!(TestLoc(empty.loc()), TestLoc(Loc::new()));

    let one = vec![Loc::encapsulate_range(7, 3..4)];
    assert_eq!(TestLoc(one.loc()), TestLoc(Loc::encapsulate_range(7, 3..4)));

    let many = vec![
        Loc::encapsulate_range(7, 3..4),
        Loc::encapsulate_range(7, 9..11),
        Loc::encapsulate_range(7, 1..2),
    ];
    assert_eq!(TestLoc(many.loc()), TestLoc(Loc::encapsulate_range(7, 1..11)));

    // A location from another source is left out of the fold.
    let mixed = vec![Loc::encapsulate_range(7, 3..4), Loc::encapsulate_range(8, 9..11)];
    assert_eq!(TestLoc(mixed.loc()), TestLoc(Loc::encapsulate_range(7, 3..4)));

    let absent: Option<Loc> = None;
    assert_eq!(TestLoc(absent.loc()), TestLoc(Loc::new()));
    let present = Some(Loc::encapsulate_range(7, 3..4));
    assert_eq!(TestLoc(present.loc()), TestLoc(Loc::encapsulate_range(7, 3..4)));
    let boxed = Box::new(Loc::encapsulate_range(7, 5..6));
    assert_eq!(TestLoc(boxed.loc()), TestLoc(Loc::encapsulate_range(7, 5..6)));
    let by_ref = &many[1];
    assert_eq!(TestLoc(Located::loc(&by_ref)), TestLoc(Loc::encapsulate_range(7, 9..11)));
}

#[test]
fn loc_hashing_follows_equality() {
    let mut plain = HashSet::new();
    plain.insert(Loc::encapsulate_range(1, 0..2));
    plain.insert(Loc::encapsulate_range(2, 5..9));
    assert_eq!(plain.len(), 1);

    let mut strict = HashSet::new();
    strict.insert(TestLoc(Loc::encapsulate_range(1, 0..2)));
    strict.insert(TestLoc(Loc::encapsulate_range(2, 5..9)));
    strict.insert(TestLoc(Loc::encapsulate_range(1, 0..2)));
    assert_eq!(strict.len(), 2);
}

#[test]
fn test_loc_deref_mut() {
    let mut t = TestLoc(Loc::encapsulate_range(1, 0..10));
    t.shrink(Range::from(2..4));
    assert_eq!(t, TestLoc(Loc::encapsulate_range(1, 2..4)));
}
