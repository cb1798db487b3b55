//! Streams of elements to parse, each element with the location it was found at.
use crate::loc::Loc;
use crate::range::{Length, Range};
use vstd::prelude::*;
use vstd::string::StringSliceAdditionalSpecFns;

verus! {

/// A position in a sequence of elements that a parser reads from.
///
/// A stream is a cursor: reading returns the element and a new cursor after it, and leaves the
/// old one as it was. Keeping a copy of a cursor is how a parser tries something and falls back.
/// The elements themselves stay in a backing store that cursors only refer to.
pub trait ParseStream: Sized + Copy {
    /// The type of the elements read.
    type Elem;

    /// The elements still to be read from this position, each with its location.
    spec fn rest(&self) -> Seq<(Self::Elem, Loc)>;

    /// Reads the next element: the cursor after it, the element's location and the element
    /// itself; or `None` at the end of the stream.
    fn next(self) -> (r: Option<(Self, Loc, Self::Elem)>)
        ensures
            match r {
                None => self.rest().len() == 0,
                Some((after, loc, elem)) => {
                    &&& self.rest().len() > 0
                    &&& self.rest()[0] == (elem, loc)
                    &&& after.rest() == self.rest().drop_first()
                },
            },
    ;

    /// Whether this cursor and `other` have as many elements left to read; for two cursors of
    /// one stream, whether they are at the same position.
    fn same_position(&self, other: &Self) -> (r: bool)
        ensures
            r == (self.rest().len() == other.rest().len()),
    ;

    /// Declares that no cursor before this one will be read again, so that a backing store may
    /// drop what lies before it. A hint only: the elements still to be read do not change.
    fn commit(self) -> (r: Self)
        ensures
            r.rest() == self.rest(),
    ;
}

/// The location of the element at index `i` of a source with identifier `source`.
pub open spec fn elem_loc(source: u64, i: int) -> Loc {
    Loc { source: Some(source), range: Range { pos: i as u64, len: Length::Fixed(1) } }
}

/// Makes the location of the element at index `i`.
fn loc_at(source: u64, i: usize) -> (r: Loc)
    ensures
        r == elem_loc(source, i as int),
{
    Loc { source: Some(source), range: Range { pos: i as u64, len: Length::Fixed(1) } }
}

/// A stream over an in-memory slice that yields references to its elements.
#[derive(Debug, PartialEq, Eq)]
pub struct SliceParser<'a, T> {
    /// The identifier of the slice, used as the source of every location.
    source: u64,
    /// The elements.
    slice: &'a [T],
    /// The index of the next element to read.
    pos: usize,
}

impl<'a, T> Clone for SliceParser<'a, T> {
    fn clone(&self) -> (r: Self)
        ensures
            r == *self,
    {
        *self
    }
}

impl<'a, T> Copy for SliceParser<'a, T> {

}

impl<'a, T> SliceParser<'a, T> {
    /// This cursor moved forward by `n` elements, or to the end if fewer are left.
    pub fn advance(self, n: usize) -> (r: Self)
        ensures
            r.rest() == self.rest().skip(
                if n as int <= self.rest().len() {
                    n as int
                } else {
                    self.rest().len() as int
                },
            ),
    {
        let left: usize = if self.pos <= self.slice.len() {
            self.slice.len() - self.pos
        } else {
            0
        };
        let step: usize = if n <= left {
            n
        } else {
            left
        };
        let r = SliceParser { source: self.source, slice: self.slice, pos: self.pos + step };
        assert(r.rest() =~= self.rest().skip(step as int));
        r
    }

    /// A stream at the start of `slice`, whose elements are located in the source `source`.
    ///
    /// `source` should identify the slice among all the sources whose locations may meet.
    pub fn new(source: u64, slice: &'a [T]) -> (r: Self)
        ensures
            r.rest() == Seq::new(slice@.len(), |i: int| (&slice@[i], elem_loc(source, i))),
    {
        let r = SliceParser { source, slice, pos: 0 };
        assert(r.rest() =~= Seq::new(slice@.len(), |i: int| (&slice@[i], elem_loc(source, i))));
        r
    }
}

impl<'a, T> ParseStream for SliceParser<'a, T> {
    type Elem = &'a T;

    /// The elements from the cursor on, the `i`-th located at `i..i + 1` of the source.
    closed spec fn rest(&self) -> Seq<(&'a T, Loc)> {
        Seq::new(
            if self.pos <= self.slice@.len() { (self.slice@.len() - self.pos) as nat } else { 0 },
            |i: int| (&self.slice@[self.pos + i], elem_loc(self.source, self.pos + i)),
        )
    }

    fn next(self) -> (r: Option<(Self, Loc, &'a T)>) {
        if self.pos >= self.slice.len() {
            return None;
        }
        let loc: Loc = loc_at(self.source, self.pos);
        let after = SliceParser { source: self.source, slice: self.slice, pos: self.pos + 1 };
        assert(after.rest() =~= self.rest().drop_first());
        Some((after, loc, &self.slice[self.pos]))
    }

    fn same_position(&self, other: &Self) -> (r: bool) {
        let left: usize = if self.pos <= self.slice.len() {
            self.slice.len() - self.pos
        } else {
            0
        };
        let other_left: usize = if other.pos <= other.slice.len() {
            other.slice.len() - other.pos
        } else {
            0
        };
        left == other_left
    }

    /// Does nothing: the whole slice stays in memory anyway.
    fn commit(self) -> (r: Self) {
        self
    }
}

/// A stream over an in-memory slice that yields copies of its elements.
#[derive(Debug, PartialEq, Eq)]
pub struct CopiedStream<'a, T> {
    /// The identifier of the slice, used as the source of every location.
    source: u64,
    /// The elements.
    slice: &'a [T],
    /// The index of the next element to read.
    pos: usize,
}

impl<'a, T> Clone for CopiedStream<'a, T> {
    fn clone(&self) -> (r: Self)
        ensures
            r == *self,
    {
        *self
    }
}

impl<'a, T> Copy for CopiedStream<'a, T> {

}

impl<'a, T: Copy> CopiedStream<'a, T> {
    /// This cursor moved forward by `n` elements, or to the end if fewer are left.
    pub fn advance(self, n: usize) -> (r: Self)
        ensures
            r.rest() == self.rest().skip(
                if n as int <= self.rest().len() {
                    n as int
                } else {
                    self.rest().len() as int
                },
            ),
    {
        let left: usize = if self.pos <= self.slice.len() {
            self.slice.len() - self.pos
        } else {
            0
        };
        let step: usize = if n <= left {
            n
        } else {
            left
        };
        let r = CopiedStream { source: self.source, slice: self.slice, pos: self.pos + step };
        assert(r.rest() =~= self.rest().skip(step as int));
        r
    }

    /// A stream at the start of `slice`, whose elements are located in the source `source`.
    ///
    /// `source` should identify the slice among all the sources whose locations may meet.
    pub fn new(source: u64, slice: &'a [T]) -> (r: Self)
        ensures
            r.rest() == Seq::new(slice@.len(), |i: int| (slice@[i], elem_loc(source, i))),
    {
        let r = CopiedStream { source, slice, pos: 0 };
        assert(r.rest() =~= Seq::new(slice@.len(), |i: int| (slice@[i], elem_loc(source, i))));
        r
    }
}

impl<'a> CopiedStream<'a, u8> {
    /// A stream over the bytes of `text`, located in the source `source`.
    pub fn from_str(source: u64, text: &'a str) -> (r: Self)
        ensures
            r.rest() == Seq::new(
                text.spec_bytes().len(),
                |i: int| (text.spec_bytes()[i], elem_loc(source, i)),
            ),
    {
        CopiedStream::new(source, text.as_bytes())
    }
}

impl<'a, T: Copy> ParseStream for CopiedStream<'a, T> {
    type Elem = T;

    /// The elements from the cursor on, the `i`-th located at `i..i + 1` of the source.
    closed spec fn rest(&self) -> Seq<(T, Loc)> {
        Seq::new(
            if self.pos <= self.slice@.len() { (self.slice@.len() - self.pos) as nat } else { 0 },
            |i: int| (self.slice@[self.pos + i], elem_loc(self.source, self.pos + i)),
        )
    }

    fn next(self) -> (r: Option<(Self, Loc, T)>) {
        if self.pos >= self.slice.len() {
            return None;
        }
        let loc: Loc = loc_at(self.source, self.pos);
        let after = CopiedStream { source: self.source, slice: self.slice, pos: self.pos + 1 };
        assert(after.rest() =~= self.rest().drop_first());
        Some((after, loc, self.slice[self.pos]))
    }

    fn same_position(&self, other: &Self) -> (r: bool) {
        let left: usize = if self.pos <= self.slice.len() {
            self.slice.len() - self.pos
        } else {
            0
        };
        let other_left: usize = if other.pos <= other.slice.len() {
            other.slice.len() - other.pos
        } else {
            0
        };
        left == other_left
    }

    /// Does nothing: the whole slice stays in memory anyway.
    fn commit(self) -> (r: Self) {
        self
    }
}

} // verus!
