//! Half-open ranges over an abstract, zero-based sequence, with an optional "until the end"
//! length, and the algebra to slice and merge them without knowing the sequence itself.
use vstd::prelude::*;
use vstd::string::StringExecFns;
use vstd::std_specs::convert::{FromSpec, IntoSpec};

verus! {

/// The value of `x` clamped to the offsets a `u64` can hold.
pub open spec fn sat(x: int) -> u64 {
    if x < 0 {
        0
    } else if x > u64::MAX {
        u64::MAX
    } else {
        x as u64
    }
}

/// The smaller of two offsets, as a mathematical value.
pub open spec fn spec_min(lhs: int, rhs: int) -> int {
    if lhs <= rhs {
        lhs
    } else {
        rhs
    }
}

/// The larger of two offsets, as a mathematical value.
pub open spec fn spec_max(lhs: int, rhs: int) -> int {
    if lhs >= rhs {
        lhs
    } else {
        rhs
    }
}

/// Returns `lhs` if it is smaller than or equal to `rhs`, else `rhs`.
pub fn min(lhs: u64, rhs: u64) -> (r: u64)
    ensures
        r == spec_min(lhs as int, rhs as int),
{
    if lhs <= rhs {
        lhs
    } else {
        rhs
    }
}

/// Returns `lhs` if it is larger than or equal to `rhs`, else `rhs`.
pub fn max(lhs: u64, rhs: u64) -> (r: u64)
    ensures
        r == spec_max(lhs as int, rhs as int),
{
    if lhs >= rhs {
        lhs
    } else {
        rhs
    }
}

/// Integers that can name a position in a sequence.
///
/// Signed integers are accepted for convenience (so that `Range::from(0..10)` works with plain
/// literals). A negative value is not a position; it is read as position `0`.
pub trait Index {
    /// The mathematical value of this integer.
    spec fn index_value(&self) -> int;

    /// Returns this integer as a position.
    fn as_u64(&self) -> (r: u64)
        ensures
            r == sat(self.index_value()),
    ;
}

impl Index for u8 {
    open spec fn index_value(&self) -> int {
        *self as int
    }

    fn as_u64(&self) -> (r: u64) {
        *self as u64
    }
}

impl Index for u16 {
    open spec fn index_value(&self) -> int {
        *self as int
    }

    fn as_u64(&self) -> (r: u64) {
        *self as u64
    }
}

impl Index for u32 {
    open spec fn index_value(&self) -> int {
        *self as int
    }

    fn as_u64(&self) -> (r: u64) {
        *self as u64
    }
}

impl Index for u64 {
    open spec fn index_value(&self) -> int {
        *self as int
    }

    fn as_u64(&self) -> (r: u64) {
        *self
    }
}

impl Index for usize {
    open spec fn index_value(&self) -> int {
        *self as int
    }

    fn as_u64(&self) -> (r: u64) {
        *self as u64
    }
}

impl Index for i8 {
    open spec fn index_value(&self) -> int {
        *self as int
    }

    fn as_u64(&self) -> (r: u64) {
        if *self < 0 {
            0
        } else {
            *self as u64
        }
    }
}

impl Index for i16 {
    open spec fn index_value(&self) -> int {
        *self as int
    }

    fn as_u64(&self) -> (r: u64) {
        if *self < 0 {
            0
        } else {
            *self as u64
        }
    }
}

impl Index for i32 {
    open spec fn index_value(&self) -> int {
        *self as int
    }

    fn as_u64(&self) -> (r: u64) {
        if *self < 0 {
            0
        } else {
            *self as u64
        }
    }
}

impl Index for i64 {
    open spec fn index_value(&self) -> int {
        *self as int
    }

    fn as_u64(&self) -> (r: u64) {
        if *self < 0 {
            0
        } else {
            *self as u64
        }
    }
}

impl Index for isize {
    open spec fn index_value(&self) -> int {
        *self as int
    }

    fn as_u64(&self) -> (r: u64) {
        if *self < 0 {
            0
        } else {
            *self as u64
        }
    }
}

/// The length of a [`Range`]: a concrete number of elements, or "until the end of whatever
/// sequence the range is later read against".
#[derive(Clone, Copy, Debug, PartialEq, Eq, Structural, Hash)]
pub enum Length {
    /// A concrete number of elements.
    Fixed(u64),
    /// Continues until the end of the sequence, always.
    Indefinite,
}

impl<T: Index> From<T> for Length {
    fn from(value: T) -> (r: Self) {
        Length::Fixed(value.as_u64())
    }
}

impl<T: Index> vstd::std_specs::convert::FromSpecImpl<T> for Length {
    open spec fn obeys_from_spec() -> bool {
        true
    }

    open spec fn from_spec(v: T) -> Length {
        Length::Fixed(sat(v.index_value()))
    }
}

/// A slice of a contiguous sequence of elements: it starts at `pos` and spans `len` elements.
///
/// Ends are saturating: a range whose `pos + len` exceeds `u64::MAX` ends at `u64::MAX`.
#[derive(Clone, Copy, Debug)]
pub struct Range {
    /// The inclusive start of the range.
    pub pos: u64,
    /// How far the range continues.
    pub len: Length,
}

impl Range {
    /// The exclusive end of this range, or `None` for an indefinite one.
    pub open spec fn spec_end(self) -> Option<u64> {
        match self.len {
            Length::Fixed(len) => Some(sat(self.pos + len)),
            Length::Indefinite => None,
        }
    }

    /// Whether two ranges denote the same elements: equal starts, and equal (saturated) ends or
    /// both indefinite.
    pub open spec fn same(self, other: Range) -> bool {
        self.pos == other.pos && self.spec_end() == other.spec_end()
    }

    /// Whether this range holds no element (whatever the sequence).
    pub open spec fn is_empty_spec(self) -> bool {
        self.len == Length::Fixed(0)
    }

    /// `other`, read relative to this range, and clipped to it.
    pub open spec fn spec_shrink(self, other: Range) -> Range {
        match (self.len, other.len) {
            (Length::Fixed(lhs), Length::Fixed(rhs)) => {
                let delta = spec_min(other.pos as int, lhs as int);
                Range {
                    pos: sat(self.pos + delta),
                    len: Length::Fixed(spec_min(rhs as int, lhs - delta) as u64),
                }
            },
            (Length::Fixed(lhs), Length::Indefinite) => {
                let delta = spec_min(other.pos as int, lhs as int);
                Range { pos: sat(self.pos + delta), len: Length::Fixed((lhs - delta) as u64) }
            },
            (Length::Indefinite, len) => Range { pos: sat(self.pos + other.pos), len },
        }
    }

    /// The smallest range that covers both this one and `other`.
    pub open spec fn spec_extend(self, other: Range) -> Range {
        let pos = spec_min(self.pos as int, other.pos as int) as u64;
        match (self.len, other.len) {
            (Length::Fixed(lhs), Length::Fixed(rhs)) => Range {
                pos,
                len: Length::Fixed(
                    (spec_max(sat(self.pos + lhs) as int, sat(other.pos + rhs) as int)
                        - pos) as u64,
                ),
            },
            _ => Range { pos, len: Length::Indefinite },
        }
    }

    /// The end of this range within a sequence of `max_len` elements.
    pub open spec fn spec_end_in(self, max_len: u64) -> u64 {
        match self.len {
            Length::Fixed(len) => spec_min(sat(self.pos + len) as int, max_len as int) as u64,
            Length::Indefinite => max_len,
        }
    }

    /// A range starting at `start` spanning `len`.
    pub fn new<I: Index, L: Into<Length>>(start: I, len: L) -> (r: Self)
        ensures
            r.pos == sat(start.index_value()),
            <L as IntoSpec<Length>>::obeys_into_spec() ==> r.len == len.into_spec(),
    {
        Range { pos: start.as_u64(), len: len.into() }
    }

    /// The range that spans everything: it starts at 0 and is indefinite.
    pub fn full() -> (r: Self)
        ensures
            r == (Range { pos: 0, len: Length::Indefinite }),
    {
        Range { pos: 0, len: Length::Indefinite }
    }

    /// The range from `start` until the end of the sequence.
    pub fn onwards(start: u64) -> (r: Self)
        ensures
            r == (Range { pos: start, len: Length::Indefinite }),
    {
        Range { pos: start, len: Length::Indefinite }
    }

    /// The range from 0 up to (not including) `end`.
    pub fn until(end: u64) -> (r: Self)
        ensures
            r == (Range { pos: 0, len: Length::Fixed(end) }),
    {
        Range { pos: 0, len: Length::Fixed(end) }
    }

    /// The range from `start` up to (not including) `end`; empty if `end <= start`.
    pub fn bounded(start: u64, end: u64) -> (r: Self)
        ensures
            r == (Range { pos: start, len: Length::Fixed(sat(end - start)) }),
    {
        Range { pos: start, len: Length::Fixed(end.saturating_sub(start)) }
    }

    /// The empty range at position 0.
    pub fn empty() -> (r: Self)
        ensures
            r == (Range { pos: 0, len: Length::Fixed(0) }),
    {
        Range { pos: 0, len: Length::Fixed(0) }
    }

    /// The empty range at position `start`.
    pub fn empty_at(start: u64) -> (r: Self)
        ensures
            r == (Range { pos: start, len: Length::Fixed(0) }),
    {
        Range { pos: start, len: Length::Fixed(0) }
    }

    /// Returns the subset of this range that `other` describes.
    ///
    /// `other` is relative to this range: a range starting at 0 starts at `self.pos`, and an
    /// indefinite `other` ends where this range ends. The result never leaves this range.
    pub fn slice(self, other: Range) -> (r: Self)
        ensures
            r == self.spec_shrink(other),
    {
        let mut res = self;
        res.shrink(other);
        res
    }

    /// [`Range::slice`] for anything that converts into a range.
    pub fn slice_range<R: Into<Range>>(self, other: R) -> (r: Self)
        ensures
            <R as IntoSpec<Range>>::obeys_into_spec() ==> r == self.spec_shrink(
                other.into_spec(),
            ),
    {
        self.slice(other.into())
    }

    /// Shrinks this range, in place, to the subset of itself that `other` describes.
    ///
    /// See [`Range::slice`] for how `other` is read.
    pub fn shrink(&mut self, other: Range) -> (r: &mut Self)
        ensures
            *r == old(self).spec_shrink(other),
            *final(self) == *final(r),
    {
        match self.len {
            Length::Fixed(lhs) => {
                let delta: u64 = min(other.pos, lhs);
                self.pos = self.pos.saturating_add(delta);
                match other.len {
                    Length::Fixed(rhs) => {
                        self.len = Length::Fixed(min(rhs, lhs - delta));
                    },
                    Length::Indefinite => {
                        self.len = Length::Fixed(lhs - delta);
                    },
                }
            },
            Length::Indefinite => {
                self.pos = self.pos.saturating_add(other.pos);
                self.len = other.len;
            },
        }
        self
    }

    /// [`Range::shrink`] for anything that converts into a range.
    pub fn shrink_range<R: Into<Range>>(&mut self, other: R) -> (r: &mut Self)
        ensures
            <R as IntoSpec<Range>>::obeys_into_spec() ==> *r == old(self).spec_shrink(
                other.into_spec(),
            ),
            *final(self) == *final(r),
    {
        self.shrink(other.into())
    }

    /// Returns the smallest range covering both this range and `other`.
    pub fn join(self, other: Range) -> (r: Self)
        ensures
            r == self.spec_extend(other),
    {
        let mut res = self;
        res.extend(other);
        res
    }

    /// Grows this range, in place, to the smallest range covering both itself and `other`.
    pub fn extend(&mut self, other: Range) -> (r: &mut Self)
        ensures
            *r == old(self).spec_extend(other),
            *final(self) == *final(r),
    {
        match (self.len, other.len) {
            (Length::Fixed(lhs), Length::Fixed(rhs)) => {
                let new_end: u64 = max(self.pos.saturating_add(lhs), other.pos.saturating_add(rhs));
                self.pos = min(self.pos, other.pos);
                self.len = Length::Fixed(new_end - self.pos);
            },
            _ => {
                self.pos = min(self.pos, other.pos);
                self.len = Length::Indefinite;
            },
        }
        self
    }

    /// The inclusive start of this range.
    pub fn start(&self) -> (r: u64)
        ensures
            r == self.pos,
    {
        self.pos
    }

    /// The exclusive end of this range, or `None` if it is indefinite.
    pub fn end(&self) -> (r: Option<u64>)
        ensures
            r == self.spec_end(),
    {
        match self.len {
            Length::Fixed(len) => Some(self.pos.saturating_add(len)),
            Length::Indefinite => None,
        }
    }

    /// The exclusive end of this range within a sequence of `max_len` elements: an indefinite
    /// range ends at `max_len`, a fixed one at its own end or `max_len`, whichever comes first.
    pub fn end_in(&self, max_len: u64) -> (r: u64)
        ensures
            r == self.spec_end_in(max_len),
    {
        match self.len {
            Length::Fixed(len) => min(self.pos.saturating_add(len), max_len),
            Length::Indefinite => max_len,
        }
    }
}

impl Default for Range {
    /// The range that spans everything.
    fn default() -> (r: Self)
        ensures
            r == (Range { pos: 0, len: Length::Indefinite }),
    {
        Range::full()
    }
}

impl PartialEq for Range {
    fn eq(&self, other: &Range) -> (r: bool) {
        match (self.len, other.len) {
            (Length::Fixed(lhs), Length::Fixed(rhs)) => self.pos == other.pos
                && self.pos.saturating_add(lhs) == other.pos.saturating_add(rhs),
            (Length::Indefinite, Length::Indefinite) => self.pos == other.pos,
            _ => false,
        }
    }
}

impl vstd::std_specs::cmp::PartialEqSpecImpl for Range {
    open spec fn obeys_eq_spec() -> bool {
        true
    }

    open spec fn eq_spec(&self, other: &Range) -> bool {
        self.same(*other)
    }
}

impl Eq for Range {

}

/// Relies on `u8`'s `Hash::hash`, which feeds the byte to the hasher. Nothing is claimed of
/// what the hasher does with it.
pub assume_specification<H: core::hash::Hasher>[ <u8 as core::hash::Hash>::hash::<H> ](
    data: &u8,
    state: &mut H,
);

/// Relies on `u64`'s `Hash::hash`, which feeds the integer to the hasher. Nothing is claimed of
/// what the hasher does with it.
pub assume_specification<H: core::hash::Hasher>[ <u64 as core::hash::Hash>::hash::<H> ](
    data: &u64,
    state: &mut H,
);

impl core::hash::Hash for Range {
    /// Hashes what equality compares: the start, and the saturated end or that there is none.
    fn hash<H: core::hash::Hasher>(&self, state: &mut H) {
        self.pos.hash(state);
        match self.len {
            Length::Fixed(len) => {
                0u8.hash(state);
                self.pos.saturating_add(len).hash(state);
            },
            Length::Indefinite => {
                1u8.hash(state);
            },
        }
    }
}

impl<T: Index> From<core::ops::Range<T>> for Range {
    fn from(value: core::ops::Range<T>) -> (r: Self) {
        let start: u64 = value.start.as_u64();
        let end: u64 = value.end.as_u64();
        Range { pos: start, len: Length::Fixed(end.saturating_sub(start)) }
    }
}

impl<T: Index> vstd::std_specs::convert::FromSpecImpl<core::ops::Range<T>> for Range {
    open spec fn obeys_from_spec() -> bool {
        true
    }

    open spec fn from_spec(v: core::ops::Range<T>) -> Range {
        let start = sat(v.start.index_value());
        let end = sat(v.end.index_value());
        Range { pos: start, len: Length::Fixed(sat(end - start)) }
    }
}

} // verus!

verus! {

/// Declares `core::ops::RangeTo` (`..end`), whose one field is read.
#[verifier::external_type_specification]
#[verifier::reject_recursive_types(Idx)]
pub struct ExRangeTo<Idx>(core::ops::RangeTo<Idx>);

/// Declares `core::ops::RangeFrom` (`start..`), whose one field is read.
#[verifier::external_type_specification]
#[verifier::reject_recursive_types(Idx)]
pub struct ExRangeFrom<Idx>(core::ops::RangeFrom<Idx>);

/// Declares `core::ops::RangeFull` (`..`), which holds nothing.
#[verifier::external_type_specification]
pub struct ExRangeFull(core::ops::RangeFull);

/// Declares `core::ops::RangeToInclusive` (`..=end`), whose one field is read.
#[verifier::external_type_specification]
#[verifier::reject_recursive_types(Idx)]
pub struct ExRangeToInclusive<Idx>(core::ops::RangeToInclusive<Idx>);

impl<T: Index> From<core::ops::RangeTo<T>> for Range {
    fn from(value: core::ops::RangeTo<T>) -> (r: Self) {
        Range { pos: 0, len: Length::Fixed(value.end.as_u64()) }
    }
}

impl<T: Index> vstd::std_specs::convert::FromSpecImpl<core::ops::RangeTo<T>> for Range {
    open spec fn obeys_from_spec() -> bool {
        true
    }

    open spec fn from_spec(v: core::ops::RangeTo<T>) -> Range {
        Range { pos: 0, len: Length::Fixed(sat(v.end.index_value())) }
    }
}


/// Relies on `RangeInclusive::start`: it returns the lower bound the range was made with.
pub assume_specification<Idx>[ core::ops::RangeInclusive::<Idx>::start ](
    range: &core::ops::RangeInclusive<Idx>,
) -> (r: &Idx)
    ensures
        *r == range@.start,
;

/// Relies on `RangeInclusive::end`: it returns the upper bound the range was made with.
pub assume_specification<Idx>[ core::ops::RangeInclusive::<Idx>::end ](
    range: &core::ops::RangeInclusive<Idx>,
) -> (r: &Idx)
    ensures
        *r == range@.end,
;

/// The range `start..=end` as read by its bounds: empty where `end` comes before `start`.
pub open spec fn inclusive_range(start: u64, end: u64) -> Range {
    if end < start {
        Range { pos: start, len: Length::Fixed(0) }
    } else {
        Range { pos: start, len: Length::Fixed(sat(end - start + 1)) }
    }
}

impl<T: Index> From<core::ops::RangeInclusive<T>> for Range {
    /// The range from the lower bound up to and including the upper one; empty where the upper
    /// bound comes before the lower one.
    fn from(value: core::ops::RangeInclusive<T>) -> (r: Self) {
        let start: u64 = value.start().as_u64();
        let end: u64 = value.end().as_u64();
        if end < start {
            Range { pos: start, len: Length::Fixed(0) }
        } else {
            Range { pos: start, len: Length::Fixed((end - start).saturating_add(1)) }
        }
    }
}

impl<T: Index> vstd::std_specs::convert::FromSpecImpl<core::ops::RangeInclusive<T>> for Range {
    open spec fn obeys_from_spec() -> bool {
        true
    }

    open spec fn from_spec(v: core::ops::RangeInclusive<T>) -> Range {
        inclusive_range(sat(v@.start.index_value()), sat(v@.end.index_value()))
    }
}

impl<T: Index> From<core::ops::RangeFrom<T>> for Range {
    fn from(value: core::ops::RangeFrom<T>) -> (r: Self) {
        Range { pos: value.start.as_u64(), len: Length::Indefinite }
    }
}

impl<T: Index> vstd::std_specs::convert::FromSpecImpl<core::ops::RangeFrom<T>> for Range {
    open spec fn obeys_from_spec() -> bool {
        true
    }

    open spec fn from_spec(v: core::ops::RangeFrom<T>) -> Range {
        Range { pos: sat(v.start.index_value()), len: Length::Indefinite }
    }
}

impl<T: Index> From<core::ops::RangeToInclusive<T>> for Range {
    fn from(value: core::ops::RangeToInclusive<T>) -> (r: Self) {
        Range { pos: 0, len: Length::Fixed(value.end.as_u64().saturating_add(1)) }
    }
}

impl<T: Index> vstd::std_specs::convert::FromSpecImpl<core::ops::RangeToInclusive<T>> for Range {
    open spec fn obeys_from_spec() -> bool {
        true
    }

    open spec fn from_spec(v: core::ops::RangeToInclusive<T>) -> Range {
        Range { pos: 0, len: Length::Fixed(sat(sat(v.end.index_value()) + 1)) }
    }
}

impl From<core::ops::RangeFull> for Range {
    fn from(value: core::ops::RangeFull) -> (r: Self) {
        Range { pos: 0, len: Length::Indefinite }
    }
}

impl vstd::std_specs::convert::FromSpecImpl<core::ops::RangeFull> for Range {
    open spec fn obeys_from_spec() -> bool {
        true
    }

    open spec fn from_spec(v: core::ops::RangeFull) -> Range {
        Range { pos: 0, len: Length::Indefinite }
    }
}

impl From<()> for Range {
    fn from(value: ()) -> (r: Self) {
        Range { pos: 0, len: Length::Fixed(0) }
    }
}

impl vstd::std_specs::convert::FromSpecImpl<()> for Range {
    open spec fn obeys_from_spec() -> bool {
        true
    }

    open spec fn from_spec(v: ()) -> Range {
        Range { pos: 0, len: Length::Fixed(0) }
    }
}

impl<T: Index> PartialEq<core::ops::Range<T>> for Range {
    fn eq(&self, other: &core::ops::Range<T>) -> (r: bool) {
        match self.len {
            Length::Fixed(len) => self.pos == other.start.as_u64() && self.pos.saturating_add(len)
                == other.end.as_u64(),
            Length::Indefinite => false,
        }
    }
}

impl<T: Index> vstd::std_specs::cmp::PartialEqSpecImpl<core::ops::Range<T>> for Range {
    open spec fn obeys_eq_spec() -> bool {
        true
    }

    open spec fn eq_spec(&self, other: &core::ops::Range<T>) -> bool {
        self.pos == sat(other.start.index_value()) && self.spec_end() == Some(
            sat(other.end.index_value()),
        )
    }
}

impl<T: Index> PartialEq<core::ops::RangeFrom<T>> for Range {
    fn eq(&self, other: &core::ops::RangeFrom<T>) -> (r: bool) {
        match self.len {
            Length::Indefinite => self.pos == other.start.as_u64(),
            Length::Fixed(_) => false,
        }
    }
}

impl<T: Index> vstd::std_specs::cmp::PartialEqSpecImpl<core::ops::RangeFrom<T>> for Range {
    open spec fn obeys_eq_spec() -> bool {
        true
    }

    open spec fn eq_spec(&self, other: &core::ops::RangeFrom<T>) -> bool {
        self.len == Length::Indefinite && self.pos == sat(other.start.index_value())
    }
}

impl<T: Index> PartialEq<core::ops::RangeTo<T>> for Range {
    fn eq(&self, other: &core::ops::RangeTo<T>) -> (r: bool) {
        match self.len {
            Length::Fixed(len) => self.pos == 0 && len == other.end.as_u64(),
            Length::Indefinite => false,
        }
    }
}

impl<T: Index> vstd::std_specs::cmp::PartialEqSpecImpl<core::ops::RangeTo<T>> for Range {
    open spec fn obeys_eq_spec() -> bool {
        true
    }

    open spec fn eq_spec(&self, other: &core::ops::RangeTo<T>) -> bool {
        self.pos == 0 && self.len == Length::Fixed(sat(other.end.index_value()))
    }
}

impl PartialEq<core::ops::RangeFull> for Range {
    fn eq(&self, other: &core::ops::RangeFull) -> (r: bool) {
        match self.len {
            Length::Indefinite => self.pos == 0,
            Length::Fixed(_) => false,
        }
    }
}

impl vstd::std_specs::cmp::PartialEqSpecImpl<core::ops::RangeFull> for Range {
    open spec fn obeys_eq_spec() -> bool {
        true
    }

    open spec fn eq_spec(&self, other: &core::ops::RangeFull) -> bool {
        self.pos == 0 && self.len == Length::Indefinite
    }
}

/// A range equals `()` exactly when it is empty, wherever it starts.
impl PartialEq<()> for Range {
    fn eq(&self, other: &()) -> (r: bool) {
        match self.len {
            Length::Fixed(len) => len == 0,
            Length::Indefinite => false,
        }
    }
}

impl vstd::std_specs::cmp::PartialEqSpecImpl<()> for Range {
    open spec fn obeys_eq_spec() -> bool {
        true
    }

    open spec fn eq_spec(&self, other: &()) -> bool {
        self.is_empty_spec()
    }
}


/// Merging two fixed ranges does not depend on their order, and the merged range starts at the
/// earlier start and ends at the later end.
pub proof fn lemma_extend_commutes(a: Range, b: Range)
    requires
        a.len is Fixed,
        b.len is Fixed,
    ensures
        a.spec_extend(b) == b.spec_extend(a),
        a.spec_extend(b).pos == spec_min(a.pos as int, b.pos as int),
        a.spec_extend(b).spec_end() == Some(
            spec_max(a.spec_end().unwrap() as int, b.spec_end().unwrap() as int) as u64,
        ),
{
}

/// Shrinking a range by the range that spans everything leaves it as it was.
pub proof fn lemma_shrink_full(a: Range)
    ensures
        a.spec_shrink(Range { pos: 0, len: Length::Indefinite }) == a,
{
}

/// Shrinking a range never leaves it: the result starts at or after its start and, if it is
/// fixed, ends at or before its end.
pub proof fn lemma_shrink_within(a: Range, b: Range)
    ensures
        a.spec_shrink(b).pos >= a.pos,
        a.len is Fixed ==> a.spec_shrink(b).len is Fixed,
        a.len is Fixed ==> a.spec_shrink(b).spec_end().unwrap() <= a.spec_end().unwrap(),
{
}

/// Converting `x..y` gives the fixed range at `x` of `y - x` elements; an inverted interval
/// gives an empty range.
pub proof fn lemma_from_interval(x: u64, y: u64)
    ensures
        Range::from_spec(core::ops::Range { start: x, end: y }) == (Range {
            pos: x,
            len: Length::Fixed(if x <= y { (y - x) as u64 } else { 0 }),
        }),
        x > y ==> Range::from_spec(core::ops::Range { start: x, end: y }).is_empty_spec(),
{
}

/// The decimal digit for `d`, which is below ten.
pub open spec fn digit_char(d: nat) -> char {
    if d == 0 {
        '0'
    } else if d == 1 {
        '1'
    } else if d == 2 {
        '2'
    } else if d == 3 {
        '3'
    } else if d == 4 {
        '4'
    } else if d == 5 {
        '5'
    } else if d == 6 {
        '6'
    } else if d == 7 {
        '7'
    } else if d == 8 {
        '8'
    } else {
        '9'
    }
}

/// `n` written in decimal, without leading zeros.
pub open spec fn decimal(n: nat) -> Seq<char>
    decreases n,
{
    if n < 10 {
        seq![digit_char(n)]
    } else {
        decimal(n / 10).push(digit_char(n % 10))
    }
}

/// The text of a decimal digit.
fn digit_str(d: u64) -> (r: &'static str)
    requires
        d < 10,
    ensures
        r@ == seq![digit_char(d as nat)],
{
    proof {
        reveal_strlit("0");
        reveal_strlit("1");
        reveal_strlit("2");
        reveal_strlit("3");
        reveal_strlit("4");
        reveal_strlit("5");
        reveal_strlit("6");
        reveal_strlit("7");
        reveal_strlit("8");
        reveal_strlit("9");
    }
    if d == 0 {
        "0"
    } else if d == 1 {
        "1"
    } else if d == 2 {
        "2"
    } else if d == 3 {
        "3"
    } else if d == 4 {
        "4"
    } else if d == 5 {
        "5"
    } else if d == 6 {
        "6"
    } else if d == 7 {
        "7"
    } else if d == 8 {
        "8"
    } else {
        "9"
    }
}

/// Appends `n` in decimal to `out`.
pub(crate) fn push_decimal(out: &mut String, n: u64)
    ensures
        final(out)@ == old(out)@ + decimal(n as nat),
    decreases n,
{
    if n >= 10 {
        push_decimal(out, n / 10);
    }
    out.append(digit_str(n % 10));
    proof {
        if n >= 10 {
            assert(old(out)@ + decimal(n as nat) =~= old(out)@ + decimal((n / 10) as nat) + seq![
                digit_char((n % 10) as nat),
            ]);
        } else {
            assert(decimal(n as nat) =~= seq![digit_char((n % 10) as nat)]);
        }
    }
}

impl Range {
    /// The text of this range: the start (left out when it is 0), then `!` for an empty range,
    /// or `..` followed by the end if there is one.
    pub open spec fn spec_text(self) -> Seq<char> {
        let start = if self.pos > 0 {
            decimal(self.pos as nat)
        } else {
            Seq::empty()
        };
        start + match self.len {
            Length::Fixed(0) => seq!['!'],
            Length::Fixed(len) => seq!['.', '.'] + decimal(sat(self.pos + len) as nat),
            Length::Indefinite => seq!['.', '.'],
        }
    }

    /// Writes this range as text: `5..10`, `..10`, `5..`, `..`, or `5!` / `!` when it is empty.
    pub fn to_string(&self) -> (r: String)
        ensures
            r@ == self.spec_text(),
    {
        let mut out: String = String::new();
        if self.pos > 0 {
            push_decimal(&mut out, self.pos);
        }
        proof {
            reveal_strlit("!");
            reveal_strlit("..");
        }
        match self.len {
            Length::Fixed(0) => {
                out.append("!");
            },
            Length::Fixed(len) => {
                out.append("..");
                push_decimal(&mut out, self.pos.saturating_add(len));
            },
            Length::Indefinite => {
                out.append("..");
            },
        }
        proof {
            assert(out@ =~= self.spec_text());
        }
        out
    }
}

} // verus!
