//! Locations: a range within a source identified by a number, which can be sliced and merged
//! without access to the source text.
use crate::range::{sat, spec_min, Length, Range};
use vstd::prelude::*;
use vstd::std_specs::convert::IntoSpec;

verus! {

/// A contiguous slice of some source text, without the text itself.
///
/// `source` identifies the source the range is in; `None` stands for a location that points
/// nowhere in particular (e.g. in generated code).
///
/// All locations compare equal with `==`: a location records where a node came from, not what
/// it is, so it must not make two otherwise equal nodes differ. See [`TestLoc`] for a strict
/// comparison.
#[derive(Clone, Copy, Debug)]
pub struct Loc {
    /// An identifier unique to the source text this location is in.
    pub source: Option<u64>,
    /// The part of that source this location spans.
    pub range: Range,
}

impl Loc {
    /// Whether this location and `other` may be merged: both in the same source, or both in
    /// none.
    pub open spec fn mergeable(self, other: Loc) -> bool {
        self.source == other.source
    }

    /// This location narrowed to `other`, read relative to it.
    pub open spec fn spec_slice(self, other: Range) -> Loc {
        Loc { source: self.source, range: self.range.spec_shrink(other) }
    }

    /// The smallest location covering this one and `other`; this one unchanged where the two
    /// cannot be merged.
    pub open spec fn spec_join(self, other: Loc) -> Loc {
        if self.mergeable(other) {
            Loc { source: self.source, range: self.range.spec_extend(other.range) }
        } else {
            self
        }
    }

    /// The location that points to nothing.
    pub open spec fn spec_new() -> Loc {
        Loc { source: None, range: Range { pos: 0, len: Length::Fixed(0) } }
    }

    /// Creates a location that points to nothing.
    pub fn new() -> (r: Self)
        ensures
            r == Loc::spec_new(),
    {
        Loc { source: None, range: Range::empty() }
    }

    /// Creates a location that spans the whole of the source identified by `id`.
    pub fn encapsulate(id: u64) -> (r: Self)
        ensures
            r == (Loc { source: Some(id), range: Range { pos: 0, len: Length::Indefinite } }),
    {
        Loc { source: Some(id), range: Range::full() }
    }

    /// Creates a location that spans `range` of the source identified by `id`.
    pub fn encapsulate_range<R: Into<Range>>(id: u64, range: R) -> (r: Self)
        ensures
            r.source == Some(id),
            <R as IntoSpec<Range>>::obeys_into_spec() ==> r.range == range.into_spec(),
    {
        Loc { source: Some(id), range: range.into() }
    }

    /// Returns the subset of this location that `other` describes, in the same source.
    ///
    /// `other` is relative to this location; see [`Range::slice`].
    pub fn slice(self, other: Range) -> (r: Self)
        ensures
            r == self.spec_slice(other),
    {
        let mut res = self;
        res.shrink(other);
        res
    }

    /// [`Loc::slice`] for anything that converts into a range.
    pub fn slice_range<R: Into<Range>>(self, other: R) -> (r: Self)
        ensures
            <R as IntoSpec<Range>>::obeys_into_spec() ==> r == self.spec_slice(other.into_spec()),
    {
        self.slice(other.into())
    }

    /// Shrinks this location, in place, to the subset of itself that `other` describes.
    pub fn shrink(&mut self, other: Range) -> (r: &mut Self)
        ensures
            *r == old(self).spec_slice(other),
            *final(self) == *final(r),
    {
        self.range.shrink(other);
        self
    }

    /// [`Loc::shrink`] for anything that converts into a range.
    pub fn shrink_range<R: Into<Range>>(&mut self, other: R) -> (r: &mut Self)
        ensures
            <R as IntoSpec<Range>>::obeys_into_spec() ==> *r == old(self).spec_slice(
                other.into_spec(),
            ),
            *final(self) == *final(r),
    {
        self.shrink(other.into())
    }

    /// Returns the smallest location covering this one and `other`.
    ///
    /// Locations in different sources (or one in a source and one in none) are not merged:
    /// `self` is returned unchanged then.
    pub fn join(self, other: Loc) -> (r: Self)
        ensures
            r == self.spec_join(other),
    {
        let mut res = self;
        res.extend(other);
        res
    }

    /// Grows this location, in place, to cover `other` as well.
    ///
    /// Does nothing if the two are in different sources (see [`Loc::join`]).
    pub fn extend(&mut self, other: Loc) -> (r: &mut Self)
        ensures
            *r == old(self).spec_join(other),
            *final(self) == *final(r),
    {
        match (self.source, other.source) {
            (Some(lhs), Some(rhs)) => {
                if lhs == rhs {
                    self.range.extend(other.range);
                }
            },
            (None, None) => {
                self.range.extend(other.range);
            },
            _ => {},
        }
        self
    }

    /// The inclusive start of this location.
    pub fn start(&self) -> (r: u64)
        ensures
            r == self.range.pos,
    {
        self.range.start()
    }

    /// The exclusive end of this location, or `None` if it runs until the end of its source.
    pub fn end(&self) -> (r: Option<u64>)
        ensures
            r == self.range.spec_end(),
    {
        self.range.end()
    }

    /// The exclusive end of this location within a source of `max_len` elements.
    pub fn end_in(&self, max_len: u64) -> (r: u64)
        ensures
            r == self.range.spec_end_in(max_len),
    {
        self.range.end_in(max_len)
    }
}

impl Default for Loc {
    /// The location that points to nothing.
    fn default() -> (r: Self)
        ensures
            r == Loc::spec_new(),
    {
        Loc::new()
    }
}

impl PartialEq for Loc {
    /// Always `true`: locations take no part in comparing nodes.
    fn eq(&self, other: &Loc) -> (r: bool) {
        true
    }
}

impl vstd::std_specs::cmp::PartialEqSpecImpl for Loc {
    open spec fn obeys_eq_spec() -> bool {
        true
    }

    open spec fn eq_spec(&self, other: &Loc) -> bool {
        true
    }
}

impl Eq for Loc {

}

impl core::hash::Hash for Loc {
    /// Hashes nothing, as all locations are equal.
    fn hash<H: core::hash::Hasher>(&self, state: &mut H) {
    }
}

impl PartialOrd for Loc {
    /// Always `Equal`: locations take no part in ordering nodes.
    fn partial_cmp(&self, other: &Loc) -> (r: Option<core::cmp::Ordering>) {
        Some(core::cmp::Ordering::Equal)
    }
}

impl vstd::std_specs::cmp::PartialOrdSpecImpl for Loc {
    open spec fn obeys_partial_cmp_spec() -> bool {
        true
    }

    open spec fn partial_cmp_spec(&self, other: &Loc) -> Option<core::cmp::Ordering> {
        Some(core::cmp::Ordering::Equal)
    }
}

impl From<Range> for Loc {
    /// A location in no source.
    fn from(value: Range) -> (r: Self) {
        Loc { source: None, range: value }
    }
}

impl vstd::std_specs::convert::FromSpecImpl<Range> for Loc {
    open spec fn obeys_from_spec() -> bool {
        true
    }

    open spec fn from_spec(v: Range) -> Loc {
        Loc { source: None, range: v }
    }
}

impl From<Loc> for Range {
    fn from(value: Loc) -> (r: Self) {
        value.range
    }
}

impl vstd::std_specs::convert::FromSpecImpl<Loc> for Range {
    open spec fn obeys_from_spec() -> bool {
        true
    }

    open spec fn from_spec(v: Loc) -> Range {
        v.range
    }
}

/// A [`Loc`] that compares strictly: equal sources and equal ranges.
///
/// Useful to check that something was located correctly.
#[derive(Clone, Copy, Debug)]
pub struct TestLoc(pub Loc);

impl TestLoc {
    /// Wraps a location that points to nothing.
    pub fn new() -> (r: Self)
        ensures
            r.0 == Loc::spec_new(),
    {
        TestLoc(Loc::new())
    }
}

impl PartialEq for TestLoc {
    fn eq(&self, other: &TestLoc) -> (r: bool) {
        self.0.source == other.0.source && self.0.range == other.0.range
    }
}

impl vstd::std_specs::cmp::PartialEqSpecImpl for TestLoc {
    open spec fn obeys_eq_spec() -> bool {
        true
    }

    open spec fn eq_spec(&self, other: &TestLoc) -> bool {
        self.0.source == other.0.source && self.0.range.same(other.0.range)
    }
}

impl Eq for TestLoc {

}

impl core::hash::Hash for TestLoc {
    /// Hashes what equality compares: the source and the range.
    fn hash<H: core::hash::Hasher>(&self, state: &mut H) {
        match self.0.source {
            Some(id) => {
                1u8.hash(state);
                id.hash(state);
            },
            None => {
                0u8.hash(state);
            },
        }
        self.0.range.hash(state);
    }
}

impl core::ops::Deref for TestLoc {
    type Target = Loc;

    fn deref(&self) -> (r: &Loc)
        ensures
            *r == self.0,
    {
        &self.0
    }
}

impl core::ops::DerefMut for TestLoc {
    fn deref_mut(&mut self) -> (r: &mut Loc)
        ensures
            *r == old(self).0,
            final(self).0 == *final(r),
    {
        &mut self.0
    }
}

impl AsRef<Loc> for TestLoc {
    fn as_ref(&self) -> (r: &Loc)
        ensures
            *r == self.0,
    {
        &self.0
    }
}

impl From<Loc> for TestLoc {
    fn from(value: Loc) -> (r: Self) {
        TestLoc(value)
    }
}

impl vstd::std_specs::convert::FromSpecImpl<Loc> for TestLoc {
    open spec fn obeys_from_spec() -> bool {
        true
    }

    open spec fn from_spec(v: Loc) -> TestLoc {
        TestLoc(v)
    }
}

impl From<TestLoc> for Loc {
    fn from(value: TestLoc) -> (r: Self) {
        value.0
    }
}

impl vstd::std_specs::convert::FromSpecImpl<TestLoc> for Loc {
    open spec fn obeys_from_spec() -> bool {
        true
    }

    open spec fn from_spec(v: TestLoc) -> Loc {
        v.0
    }
}

/// Slicing a location by a fixed range gives the positions that plain arithmetic on the
/// original positions gives (saturating at the largest offset): the start moves by the
/// sub-range's start, clipped to the location, and the end is the sub-range's end, clipped to
/// the location and to the sequence.
pub proof fn lemma_slice_positions(loc: Loc, sub: Range, max_len: u64)
    requires
        sub.len is Fixed,
    ensures
        loc.spec_slice(sub).source == loc.source,
        ({
            let p = loc.range.pos as int;
            let q = sub.pos as int;
            let m = sub.len->Fixed_0 as int;
            let s = loc.spec_slice(sub);
            match loc.range.len {
                Length::Fixed(n) => {
                    &&& s.range.pos == sat(p + spec_min(q, n as int))
                    &&& s.range.spec_end_in(max_len) == spec_min(
                        sat(p + spec_min(q + m, n as int)) as int,
                        max_len as int,
                    )
                },
                Length::Indefinite => {
                    &&& s.range.pos == sat(p + q)
                    &&& s.range.spec_end_in(max_len) == spec_min(
                        sat(p + q + m) as int,
                        max_len as int,
                    )
                },
            }
        }),
{
}

/// Joining locations from two different sources leaves the first unchanged.
pub proof fn lemma_join_other_source(a: Loc, b: Loc)
    requires
        a.source is Some,
        b.source is Some,
        a.source != b.source,
    ensures
        a.spec_join(b) == a,
{
}

} // verus!
